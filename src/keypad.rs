use vstd::prelude::*;

verus! {

/// Number of keys on the hexadecimal keypad.
pub const KEY_COUNT: usize = 16;

/// Sixteen independent key states, one per hexadecimal key 0x0..=0xF.
pub struct Keypad {
    key_states: [bool; KEY_COUNT],
}

impl View for Keypad {
    type V = Seq<bool>;

    closed spec fn view(&self) -> Seq<bool> {
        self.key_states@
    }
}

/// All keys released.
pub open spec fn keys_released() -> Seq<bool> {
    Seq::new(KEY_COUNT as nat, |i: int| false)
}

impl Keypad {
    /// The keypad always holds `KEY_COUNT` states.
    pub proof fn lemma_size(&self)
        ensures
            self@.len() == KEY_COUNT,
    {
    }

    /// A keypad with every key released.
    pub fn new() -> (k: Keypad)
        ensures
            k@ == keys_released(),
            k@.len() == KEY_COUNT,
    {
        let k = Keypad { key_states: [false; KEY_COUNT] };
        assert(k@ =~= keys_released());
        k
    }

    /// Marks key `key_index` as held down.
    pub fn press(&mut self, key_index: usize)
        requires
            key_index < KEY_COUNT,
        ensures
            old(self)@.len() == KEY_COUNT,
            final(self)@ == old(self)@.update(key_index as int, true),
    {
        self.key_states[key_index] = true;
    }

    /// Marks key `key_index` as released.
    pub fn release(&mut self, key_index: usize)
        requires
            key_index < KEY_COUNT,
        ensures
            old(self)@.len() == KEY_COUNT,
            final(self)@ == old(self)@.update(key_index as int, false),
    {
        self.key_states[key_index] = false;
    }

    /// 1 while key `key_index` is held down, 0 otherwise.
    pub fn status(&self, key_index: usize) -> (r: u8)
        requires
            key_index < KEY_COUNT,
        ensures
            self@.len() == KEY_COUNT,
            r == (if self@[key_index as int] { 1u8 } else { 0u8 }),
    {
        if self.key_states[key_index] {
            1
        } else {
            0
        }
    }

    /// Whether key `key_index` is held down.
    pub fn is_pressed(&self, key_index: usize) -> (r: bool)
        requires
            key_index < KEY_COUNT,
        ensures
            self@.len() == KEY_COUNT,
            r == self@[key_index as int],
    {
        self.key_states[key_index]
    }
}

} // verus!
