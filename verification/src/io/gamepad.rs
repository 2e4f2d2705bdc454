use vstd::prelude::*;

verus! {

/// The joypad column the program selected through bits 4 and 5 of P1.
#[derive(Clone, Copy, PartialEq, Eq, Debug, Structural)]
pub enum ColumnType {
    Action,
    Direction,
    NotSelected,
}

/// The eight keys of the host keyboard that stand for the joypad's buttons.
#[derive(Clone, Copy, PartialEq, Eq, Debug, Structural)]
pub enum GamepadKey {
    Down,
    Up,
    Left,
    Right,
    /// Start
    Space,
    /// Select
    Comma,
    /// B
    X,
    /// A
    Z,
}

/// The select line (bit 4 for directions, bit 5 for buttons) and the row mask of a key.
pub open spec fn spec_line_and_mask(key: GamepadKey) -> (u8, u8) {
    match key {
        GamepadKey::Down => (0x10, 0x08),
        GamepadKey::Up => (0x10, 0x04),
        GamepadKey::Left => (0x10, 0x02),
        GamepadKey::Right => (0x10, 0x01),
        GamepadKey::Space => (0x20, 0x08),
        GamepadKey::Comma => (0x20, 0x04),
        GamepadKey::X => (0x20, 0x02),
        GamepadKey::Z => (0x20, 0x01),
    }
}

/// A row after one held button is taken into account: the button's bit is
/// cleared when it belongs to `line`.
pub open spec fn apply_button(row: u8, line: u8, button: (u8, u8)) -> u8 {
    if button.0 == line {
        row & (0xFF & !button.1)
    } else {
        row
    }
}

/// The row of `line` (0x10 for the directions, 0x20 for the buttons) after every
/// held button of `buttons` is taken into account, in order, from all ones.
pub open spec fn row_of(buttons: Seq<(u8, u8)>, line: u8) -> u8
    decreases buttons.len(),
{
    if buttons.len() == 0 {
        0xF
    } else {
        apply_button(row_of(buttons.drop_last(), line), line, buttons.last())
    }
}

/// The column that a write of `value` to P1 selects: bit 5 alone the buttons,
/// bit 4 alone the directions, anything else none.
pub open spec fn column_of(value: u8) -> ColumnType {
    if value & 0x30 == 0x20 {
        ColumnType::Action
    } else if value & 0x30 == 0x10 {
        ColumnType::Direction
    } else {
        ColumnType::NotSelected
    }
}

/// The joypad register P1 and the buttons held down.
#[allow(non_camel_case_types)]
pub struct gamepad {
    pub value: u8,
    pub selected_column: ColumnType,
    pub rows_value: (u8, u8),
    /// The line and mask of every button held down, each at most once.
    pub pressed_buttons: Vec<(u8, u8)>,
}

impl gamepad {
    /// The line and mask of a key.
    pub fn get_line_and_mask_from_key(key: GamepadKey) -> (r: (u8, u8))
        ensures
            r == spec_line_and_mask(key),
    {
        match key {
            GamepadKey::Down => (0x10, 0x08),
            GamepadKey::Up => (0x10, 0x04),
            GamepadKey::Left => (0x10, 0x02),
            GamepadKey::Right => (0x10, 0x01),
            GamepadKey::Space => (0x20, 0x08),
            GamepadKey::Comma => (0x20, 0x04),
            GamepadKey::X => (0x20, 0x02),
            GamepadKey::Z => (0x20, 0x01),
        }
    }

    /// No button is recorded twice.
    pub open spec fn wf(&self) -> bool {
        forall|i: int, j: int|
            0 <= i < j < self.pressed_buttons@.len() ==> self.pressed_buttons@[i]
                != self.pressed_buttons@[j]
    }

    /// What a read of P1 gives: the row of the column that bits 4 and 5 of the
    /// register select, in which a held button reads as 0, or 0 when they select
    /// none.
    pub open spec fn spec_read(&self) -> u8 {
        match column_of(self.value) {
            ColumnType::Action => row_of(self.pressed_buttons@, 0x20),
            ColumnType::Direction => row_of(self.pressed_buttons@, 0x10),
            ColumnType::NotSelected => 0,
        }
    }

    /// The joypad after a write of `value` to P1: the two selection bits are kept,
    /// and nothing else changes.
    pub open spec fn after_write(self, value: u8) -> gamepad {
        gamepad { value: value & 0b00110000, ..self }
    }

    /// Whether the button of `key` is recorded as held.
    pub open spec fn is_pressed(&self, key: GamepadKey) -> bool {
        self.pressed_buttons@.contains(spec_line_and_mask(key))
    }

    /// Whether no button is recorded twice (see `wf`).
    pub fn is_well_formed(&self) -> (b: bool)
        ensures
            b == self.wf(),
    {
        let n = self.pressed_buttons.len();
        let mut i: usize = 0;
        while i < n
            invariant
                n == self.pressed_buttons@.len(),
                i <= n,
                forall|x: int, y: int|
                    0 <= x < i && x < y < n ==> self.pressed_buttons@[x] != self.pressed_buttons@[y],
            decreases n - i,
        {
            let mut j: usize = i + 1;
            while j < n
                invariant
                    n == self.pressed_buttons@.len(),
                    i < n,
                    i + 1 <= j <= n,
                    forall|x: int, y: int|
                        0 <= x < i && x < y < n ==> self.pressed_buttons@[x] != self.pressed_buttons@[y],
                    forall|y: int| i < y < j ==> self.pressed_buttons@[i as int] != self.pressed_buttons@[y],
                decreases n - j,
            {
                if self.pressed_buttons[i].0 == self.pressed_buttons[j].0
                    && self.pressed_buttons[i].1 == self.pressed_buttons[j].1 {
                    return false;
                }
                j = j + 1;
            }
            i = i + 1;
        }
        true
    }

    /// `n` is `self` once the button of `key` is recorded as held: the register and
    /// the selection kept, the key added to the held buttons.
    pub open spec fn pressed_into(self, n: gamepad, key: GamepadKey) -> bool {
        &&& n.wf()
        &&& n.value == self.value
        &&& n.selected_column == self.selected_column
        &&& n.rows_value == self.rows_value
        &&& n.pressed_buttons@.to_set() == self.pressed_buttons@.to_set().insert(spec_line_and_mask(key))
        &&& buttons_of_keys(self.pressed_buttons@) ==> buttons_of_keys(n.pressed_buttons@)
    }

    /// `n` is `self` once the button of `key` is forgotten: the register and the
    /// selection kept, the key taken from the held buttons.
    pub open spec fn released_into(self, n: gamepad, key: GamepadKey) -> bool {
        &&& n.wf()
        &&& n.value == self.value
        &&& n.selected_column == self.selected_column
        &&& n.rows_value == self.rows_value
        &&& n.pressed_buttons@.to_set() == self.pressed_buttons@.to_set().remove(spec_line_and_mask(key))
        &&& buttons_of_keys(self.pressed_buttons@) ==> buttons_of_keys(n.pressed_buttons@)
    }

    pub fn default() -> (g: gamepad)
        ensures
            g.value == 0,
            g.selected_column == ColumnType::NotSelected,
            g.rows_value == (0xFu8, 0xFu8),
            g.pressed_buttons@ == Seq::<(u8, u8)>::empty(),
            g.wf(),
            buttons_of_keys(g.pressed_buttons@),
    {
        gamepad {
            value: 0,
            selected_column: ColumnType::NotSelected,
            rows_value: (0xF, 0xF),
            pressed_buttons: Vec::new(),
        }
    }

    /// The row of `line`, each held button of it reading as 0.
    fn row(&self, line: u8) -> (r: u8)
        ensures
            r == row_of(self.pressed_buttons@, line),
    {
        let mut result: u8 = 0xF;
        let mut i: usize = 0;
        while i < self.pressed_buttons.len()
            invariant
                i <= self.pressed_buttons@.len(),
                result == row_of(self.pressed_buttons@.take(i as int), line),
            decreases self.pressed_buttons@.len() - i,
        {
            let (button_line, mask) = self.pressed_buttons[i];
            assert(self.pressed_buttons@.take(i as int + 1).drop_last() =~= self.pressed_buttons@.take(
                i as int,
            ));
            if button_line == line {
                result &= (0xFF & !mask);
            }
            i += 1;
        }
        assert(self.pressed_buttons@.take(i as int) =~= self.pressed_buttons@);
        result
    }

    /// Reads P1 (see `spec_read`).
    pub fn read(&self) -> (r: u8)
        ensures
            r == self.spec_read(),
    {
        let selection = self.value & 0x30;
        if selection == 0x20 {
            self.row(0x20)
        } else if selection == 0x10 {
            self.row(0x10)
        } else {
            0
        }
    }

    /// Writes P1: only the two selection bits are kept.
    pub fn write(&mut self, value: u8)
        ensures
            *final(self) == old(self).after_write(value),
    {
        self.value = value & 0b00110000;
    }

    /// Records the button of `key` as held.
    pub fn key_pressed(&mut self, key: GamepadKey)
        requires
            old(self).wf(),
        ensures
            final(self).wf(),
            final(self).value == old(self).value,
            final(self).selected_column == old(self).selected_column,
            final(self).rows_value == old(self).rows_value,
            final(self).pressed_buttons@.to_set() == old(self).pressed_buttons@.to_set().insert(
                spec_line_and_mask(key),
            ),
            buttons_of_keys(old(self).pressed_buttons@) ==> buttons_of_keys(
                final(self).pressed_buttons@,
            ),
    {
        let (line, mask) = gamepad::get_line_and_mask_from_key(key);
        let mut i: usize = 0;
        while i < self.pressed_buttons.len()
            invariant
                i <= self.pressed_buttons@.len(),
                forall|j: int| 0 <= j < i ==> self.pressed_buttons@[j] != (line, mask),
                *self == *old(self),
                old(self).wf(),
                (line, mask) == spec_line_and_mask(key),
            decreases self.pressed_buttons@.len() - i,
        {
            if self.pressed_buttons[i].0 == line && self.pressed_buttons[i].1 == mask {
                assert(self.pressed_buttons@.to_set().insert((line, mask)) =~= self.pressed_buttons@.to_set());
                return;
            }
            i += 1;
        }
        let ghost before = self.pressed_buttons@;
        self.pressed_buttons.push((line, mask));
        assert(buttons_of_keys(before) ==> buttons_of_keys(self.pressed_buttons@)) by {
            if buttons_of_keys(before) {
                assert forall|i: int| 0 <= i < self.pressed_buttons@.len() implies exists|k: GamepadKey| #[trigger] self.pressed_buttons@[i] == spec_line_and_mask(k) by {
                    if i < before.len() {
                        assert(self.pressed_buttons@[i] == before[i]);
                    } else {
                        assert(self.pressed_buttons@[i] == spec_line_and_mask(key));
                    }
                }
            }
        }
        assert(self.pressed_buttons@.to_set() =~= before.to_set().insert((line, mask))) by {
            assert forall|x: (u8, u8)| self.pressed_buttons@.to_set().contains(x) <==> before.to_set().insert((line, mask)).contains(x) by {
                if x == (line, mask) {
                    assert(self.pressed_buttons@[before.len() as int] == x);
                } else if before.contains(x) {
                    let k = choose|k: int| 0 <= k < before.len() && before[k] == x;
                    assert(self.pressed_buttons@[k] == x);
                }
            }
        }
    }

    /// Forgets the button of `key`.
    pub fn key_released(&mut self, key: GamepadKey)
        requires
            old(self).wf(),
        ensures
            final(self).wf(),
            final(self).value == old(self).value,
            final(self).selected_column == old(self).selected_column,
            final(self).rows_value == old(self).rows_value,
            final(self).pressed_buttons@.to_set() == old(self).pressed_buttons@.to_set().remove(
                spec_line_and_mask(key),
            ),
            buttons_of_keys(old(self).pressed_buttons@) ==> buttons_of_keys(
                final(self).pressed_buttons@,
            ),
    {
        let (line, mask) = gamepad::get_line_and_mask_from_key(key);
        let mut i: usize = 0;
        while i < self.pressed_buttons.len()
            invariant
                i <= self.pressed_buttons@.len(),
                forall|j: int| 0 <= j < i ==> self.pressed_buttons@[j] != (line, mask),
                *self == *old(self),
                old(self).wf(),
                (line, mask) == spec_line_and_mask(key),
            decreases self.pressed_buttons@.len() - i,
        {
            if self.pressed_buttons[i].0 == line && self.pressed_buttons[i].1 == mask {
                let ghost before = self.pressed_buttons@;
                self.pressed_buttons.remove(i);
                assert(self.pressed_buttons@ == before.remove(i as int));
                assert(buttons_of_keys(before) ==> buttons_of_keys(self.pressed_buttons@)) by {
                    if buttons_of_keys(before) {
                        assert forall|j: int| 0 <= j < self.pressed_buttons@.len() implies exists|k: GamepadKey| #[trigger] self.pressed_buttons@[j] == spec_line_and_mask(k) by {
                            if j < i {
                                assert(self.pressed_buttons@[j] == before[j]);
                            } else {
                                assert(self.pressed_buttons@[j] == before[j + 1]);
                            }
                        }
                    }
                }
                assert(self.pressed_buttons@.to_set() =~= before.to_set().remove((line, mask))) by {
                    assert forall|x: (u8, u8)| self.pressed_buttons@.to_set().contains(x) <==> before.to_set().remove((line, mask)).contains(x) by {
                        if self.pressed_buttons@.contains(x) {
                            let k = choose|k: int| 0 <= k < self.pressed_buttons@.len() && self.pressed_buttons@[k] == x;
                            if k < i {
                                assert(before[k] == x);
                            } else {
                                assert(before[k + 1] == x);
                            }
                        }
                        if x != (line, mask) && before.contains(x) {
                            let k = choose|k: int| 0 <= k < before.len() && before[k] == x;
                            if k < i {
                                assert(self.pressed_buttons@[k] == x);
                            } else {
                                assert(k != i);
                                assert(self.pressed_buttons@[k - 1] == x);
                            }
                        }
                    }
                }
                return;
            }
            i += 1;
        }
        assert(self.pressed_buttons@.to_set().remove((line, mask)) =~= self.pressed_buttons@.to_set());
    }
}

/// Every held button is the line and mask of a key.
pub open spec fn buttons_of_keys(buttons: Seq<(u8, u8)>) -> bool {
    forall|i: int| 0 <= i < buttons.len() ==> exists|k: GamepadKey| #[trigger] buttons[i] == spec_line_and_mask(k)
}

/// The row bits of the joypad: one per button of a line.
pub open spec fn is_row_bit(b: u8) -> bool {
    b == 1 || b == 2 || b == 4 || b == 8
}

/// The row of a line has a zero for a row bit exactly when a held button of
/// that line has that bit for its mask, and ones above the low half.
proof fn lemma_row_of(s: Seq<(u8, u8)>, line: u8, b: u8)
    requires
        buttons_of_keys(s),
        is_row_bit(b),
    ensures
        row_of(s, line) & 0xF0 == 0,
        0u8 & 0xF0 == 0,
        (row_of(s, line) & b == 0) == (exists|i: int|
            0 <= i < s.len() && (#[trigger] s[i]).1 == b && s[i].0 == line),
    decreases s.len(),
{
    if s.len() == 0 {
        assert(0xFu8 & 0xF0 == 0 && 0u8 & 0xF0 == 0 && (b == 1 || b == 2 || b == 4 || b == 8
            ==> 0xFu8 & b != 0)) by (bit_vector);
    } else {
        let prev = row_of(s.drop_last(), line);
        assert(buttons_of_keys(s.drop_last())) by {
            assert forall|i: int| 0 <= i < s.drop_last().len() implies exists|k: GamepadKey|
                #[trigger] s.drop_last()[i] == spec_line_and_mask(k) by {
                assert(s.drop_last()[i] == s[i]);
            }
        }
        lemma_row_of(s.drop_last(), line, b);
        let last = s.last();
        assert(exists|k: GamepadKey| s[s.len() - 1] == spec_line_and_mask(k));
        let mask = last.1;
        assert(is_row_bit(mask));
        assert((prev & 0xF0 == 0 ==> (prev & (0xFF & !mask)) & 0xF0 == 0) && ((mask == 1 || mask
            == 2 || mask == 4 || mask == 8) && (b == 1 || b == 2 || b == 4 || b == 8) ==> (((prev
            & (0xFF & !mask)) & b == 0) == (prev & b == 0 || b == mask)))) by (bit_vector);
        if exists|i: int| 0 <= i < s.drop_last().len() && (#[trigger] s.drop_last()[i]).1 == b
            && s.drop_last()[i].0 == line {
            let i = choose|i: int| 0 <= i < s.drop_last().len() && (#[trigger] s.drop_last()[i]).1
                == b && s.drop_last()[i].0 == line;
            assert(s[i] == s.drop_last()[i]);
        }
        if exists|i: int| 0 <= i < s.len() && (#[trigger] s[i]).1 == b && s[i].0 == line {
            let i = choose|i: int| 0 <= i < s.len() && (#[trigger] s[i]).1 == b && s[i].0 == line;
            if i < s.len() - 1 {
                assert(s.drop_last()[i] == s[i]);
            }
        }
    }
}

/// A read of P1 gives 0 when bits 4 and 5 select no column; otherwise only the low half
/// can be set, and a row bit reads as 0 exactly when a held key of the
/// selected column has it.
pub proof fn law_gamepad_read(g: gamepad, b: u8)
    requires
        buttons_of_keys(g.pressed_buttons@),
        is_row_bit(b),
    ensures
        column_of(g.value) == ColumnType::NotSelected ==> g.spec_read() == 0,
        g.spec_read() & 0xF0 == 0,
        column_of(g.value) != ColumnType::NotSelected ==> ((g.spec_read() & b == 0) == exists|k: GamepadKey|
            #[trigger] g.is_pressed(k) && spec_line_and_mask(k).1 == b && spec_line_and_mask(k).0
                == if column_of(g.value) == ColumnType::Action { 0x20u8 } else { 0x10u8 }),
{
    let s = g.pressed_buttons@;
    let line: u8 = if column_of(g.value) == ColumnType::Action { 0x20 } else { 0x10 };
    lemma_row_of(s, line, b);
    if column_of(g.value) != ColumnType::NotSelected {
        if exists|i: int| 0 <= i < s.len() && (#[trigger] s[i]).1 == b && s[i].0 == line {
            let i = choose|i: int| 0 <= i < s.len() && (#[trigger] s[i]).1 == b && s[i].0 == line;
            assert(exists|k: GamepadKey| #[trigger] s[i] == spec_line_and_mask(k));
            let k = choose|k: GamepadKey| #[trigger] s[i] == spec_line_and_mask(k);
            assert(g.is_pressed(k));
        }
        if exists|k: GamepadKey|
            #[trigger] g.is_pressed(k) && spec_line_and_mask(k).1 == b && spec_line_and_mask(k).0
                == line {
            let k = choose|k: GamepadKey|
                #[trigger] g.is_pressed(k) && spec_line_and_mask(k).1 == b && spec_line_and_mask(k).0
                    == line;
            let i = choose|i: int| 0 <= i < s.len() && s[i] == spec_line_and_mask(k);
            assert(s[i].1 == b && s[i].0 == line);
        }
    }
}

/// The masks of the held buttons of `line`, or-ed together.
pub open spec fn held_mask(buttons: Seq<(u8, u8)>, line: u8) -> u8
    decreases buttons.len(),
{
    if buttons.len() == 0 {
        0
    } else if buttons.last().0 == line {
        held_mask(buttons.drop_last(), line) | buttons.last().1
    } else {
        held_mask(buttons.drop_last(), line)
    }
}

proof fn lemma_clear_bits(h: u8, m: u8)
    by (bit_vector)
    ensures
        0xFu8 & !0u8 == 0xFu8,
        (0xFu8 & !h) & (0xFFu8 & !m) == 0xFu8 & !(h | m),
        0x10u8 & 0b00110000u8 == 0x10u8,
        0x20u8 & 0b00110000u8 == 0x20u8,
        0x10u8 & 0x30u8 == 0x10u8,
        0x20u8 & 0x30u8 == 0x20u8,
{
}

/// The row of a line is all ones in the low half, but for the masks of the held
/// buttons of that line.
proof fn lemma_row_is_cleared_mask(s: Seq<(u8, u8)>, line: u8)
    ensures
        row_of(s, line) == 0xFu8 & !held_mask(s, line),
    decreases s.len(),
{
    lemma_clear_bits(held_mask(s, line), 0);
    if s.len() > 0 {
        lemma_row_is_cleared_mask(s.drop_last(), line);
        lemma_clear_bits(held_mask(s.drop_last(), line), s.last().1);
    }
}

/// After `s` (0x10 for the directions, 0x20 for the buttons) is written to P1, a
/// read gives 0x0F with the bit of every held button of that line cleared.
pub proof fn law_gamepad_read_after_write(g: gamepad, s: u8)
    requires
        s == 0x10 || s == 0x20,
    ensures
        g.after_write(s).spec_read() == 0x0Fu8 & !held_mask(g.pressed_buttons@, s),
{
    lemma_clear_bits(0, 0);
    lemma_row_is_cleared_mask(g.pressed_buttons@, s);
}

} // verus!
