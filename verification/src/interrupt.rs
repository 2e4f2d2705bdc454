use vstd::prelude::*;

verus! {

/// Whether the CPU takes interrupts.
#[derive(Debug)]
pub struct Interrupt {
    pub enabled: bool,
}

impl Default for Interrupt {
    /// Interrupts start disabled.
    fn default() -> (i: Interrupt)
        ensures
            !i.enabled,
    {
        Interrupt { enabled: false }
    }
}

} // verus!
