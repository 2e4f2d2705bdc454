use vstd::prelude::*;

verus! {

/// The interrupt registers as the memory holds them.
#[derive(Debug)]
pub struct Interrupt {
    /// IME
    pub master_enabled: u8,
    /// IE
    pub enabled: u8,
    /// IF
    pub flag: u8,
}

impl Default for Interrupt {
    /// All three registers start at 0.
    fn default() -> (i: Interrupt)
        ensures
            i.master_enabled == 0,
            i.enabled == 0,
            i.flag == 0,
    {
        Interrupt { master_enabled: 0, enabled: 0, flag: 0 }
    }
}

} // verus!
