use vstd::prelude::*;

verus! {

/// Every button bit the game defines (`IN_ATTACK` = 1 << 0 up to
/// `IN_LOOKSPIN` = 1 << 25).
pub const CMD_BUTTON_ALL: i32 = 0x03ff_ffff;

/// The `IN_ATTACK` bit.
pub const IN_ATTACK: i32 = 1;

/// The `IN_JUMP` bit.
pub const IN_JUMP: i32 = 2;

/// `bits` holds every bit of `other`.
pub open spec fn bits_contain(bits: i32, other: i32) -> bool {
    bits & other == other
}

/// The buttons held in a user command, as a set of bits.
#[derive(Clone, Copy, PartialEq, Eq, Structural, Debug)]
pub struct CmdButton {
    bits: i32,
}

impl View for CmdButton {
    type V = i32;

    open spec fn view(&self) -> i32 {
        self.spec_bits()
    }
}

impl CmdButton {
    /// The raw bits.
    pub closed spec fn spec_bits(&self) -> i32 {
        self.bits
    }

    /// No button.
    pub fn empty() -> (b: CmdButton)
        ensures
            b@ == 0,
    {
        CmdButton { bits: 0 }
    }

    /// Every button the game defines.
    pub fn all() -> (b: CmdButton)
        ensures
            b@ == CMD_BUTTON_ALL,
    {
        CmdButton { bits: CMD_BUTTON_ALL }
    }

    /// The attack button.
    pub fn in_attack() -> (b: CmdButton)
        ensures
            b@ == IN_ATTACK,
    {
        CmdButton { bits: IN_ATTACK }
    }

    /// The jump button.
    pub fn in_jump() -> (b: CmdButton)
        ensures
            b@ == IN_JUMP,
    {
        CmdButton { bits: IN_JUMP }
    }

    /// The raw bits.
    pub fn bits(&self) -> (bits: i32)
        ensures
            bits == self@,
    {
        self.bits
    }

    /// The buttons `bits` stands for, or `None` when it has a bit that is
    /// not a button.
    pub fn from_bits(bits: i32) -> (b: Option<CmdButton>)
        ensures
            match b {
                Some(b) => bits & !CMD_BUTTON_ALL == 0 && b@ == bits,
                None => bits & !CMD_BUTTON_ALL != 0,
            },
    {
        if bits & !CMD_BUTTON_ALL == 0 {
            Some(CmdButton { bits })
        } else {
            None
        }
    }

    /// The buttons of `bits`, leaving out the bits that are not buttons.
    pub fn from_bits_truncate(bits: i32) -> (b: CmdButton)
        ensures
            b@ == bits & CMD_BUTTON_ALL,
    {
        CmdButton { bits: bits & CMD_BUTTON_ALL }
    }

    /// Builds the value as read from a user command, keeping every bit.
    pub fn from_raw(bits: i32) -> (b: CmdButton)
        ensures
            b@ == bits,
    {
        CmdButton { bits }
    }

    /// Whether every button of `other` is held.
    pub fn contains(&self, other: CmdButton) -> (held: bool)
        ensures
            held == bits_contain(self@, other@),
    {
        self.bits & other.bits == other.bits
    }

    /// Holds the buttons of `other` as well.
    pub fn insert(&mut self, other: CmdButton)
        ensures
            final(self)@ == old(self)@ | other@,
    {
        self.bits = self.bits | other.bits;
    }

    /// Releases the buttons of `other`.
    pub fn remove(&mut self, other: CmdButton)
        ensures
            final(self)@ == old(self)@ & !other@,
    {
        self.bits = self.bits & !other.bits;
    }

    /// Holds (`value`) or releases (`!value`) the buttons of `other`.
    pub fn set(&mut self, other: CmdButton, value: bool)
        ensures
            final(self)@ == (if value {
                old(self)@ | other@
            } else {
                old(self)@ & !other@
            }),
    {
        if value {
            self.insert(other);
        } else {
            self.remove(other);
        }
    }
}

/// After holding `flag` it is held; after releasing it, it is held only if
/// it has no bit; and the bits outside `flag` keep their state either way.
pub proof fn lemma_set_then_contains(bits: i32, flag: i32, other: i32)
    ensures
        bits_contain(bits | flag, flag),
        bits_contain(bits & !flag, flag) <==> flag == 0,
        other & flag == 0 ==> (bits_contain(bits | flag, other) <==> bits_contain(bits, other)),
        other & flag == 0 ==> (bits_contain(bits & !flag, other) <==> bits_contain(bits, other)),
{
    assert((bits | flag) & flag == flag) by (bit_vector);
    assert(((bits & !flag) & flag == flag) <==> flag == 0) by (bit_vector);
    assert(other & flag == 0 ==> (((bits | flag) & other == other) <==> (bits & other == other)))
        by (bit_vector);
    assert(other & flag == 0 ==> (((bits & !flag) & other == other) <==> (bits & other
        == other))) by (bit_vector);
}

} // verus!
