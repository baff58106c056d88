use vstd::prelude::*;

verus! {

/// Body region a hitbox belongs to.
#[derive(Clone, Copy, PartialEq, Eq, Structural, Debug)]
pub enum HitGroup {
    Generic,
    Head,
    Chest,
    Stomach,
    LeftArm,
    RightArm,
    LeftLeg,
    RightLeg,
    Gear,
}

impl HitGroup {
    /// The game's number for the group (`Gear` is 10, the rest count up
    /// from 0).
    pub fn raw(self) -> (n: i32)
        ensures
            n == (match self {
                HitGroup::Generic => 0i32,
                HitGroup::Head => 1,
                HitGroup::Chest => 2,
                HitGroup::Stomach => 3,
                HitGroup::LeftArm => 4,
                HitGroup::RightArm => 5,
                HitGroup::LeftLeg => 6,
                HitGroup::RightLeg => 7,
                HitGroup::Gear => 10,
            }),
    {
        match self {
            HitGroup::Generic => 0,
            HitGroup::Head => 1,
            HitGroup::Chest => 2,
            HitGroup::Stomach => 3,
            HitGroup::LeftArm => 4,
            HitGroup::RightArm => 5,
            HitGroup::LeftLeg => 6,
            HitGroup::RightLeg => 7,
            HitGroup::Gear => 10,
        }
    }
}

/// Kind of a model.
#[derive(Clone, Copy, PartialEq, Eq, Structural, Debug)]
pub enum ModType {
    Bad0,
    Brush,
    Sprite,
    Studio,
}

impl ModType {
    /// The game's number for the kind (0 to 3 in declaration order).
    pub fn raw(self) -> (n: i32)
        ensures
            n == (match self {
                ModType::Bad0 => 0i32,
                ModType::Brush => 1,
                ModType::Sprite => 2,
                ModType::Studio => 3,
            }),
    {
        match self {
            ModType::Bad0 => 0,
            ModType::Brush => 1,
            ModType::Sprite => 2,
            ModType::Studio => 3,
        }
    }
}

/// The hitboxes of a player model, in the order of the model's hitbox set.
#[derive(Clone, Copy, PartialEq, Eq, Structural, Debug)]
pub enum HitBoxes {
    Head,
    Neck,
    Pelvis,
    Stomach,
    LowerChest,
    Chest,
    UpperChest,
    RightThigh,
    LeftThigh,
    RightCalf,
    LeftCalf,
    RightFoot,
    LeftFoot,
    RightHand,
    LeftHand,
    RightUpperArm,
    RightForeArm,
    LeftUpperArm,
    LeftForeArm,
    Max,
}

/// The hitboxes in the order the game numbers them.
pub open spec fn hitbox_order() -> Seq<HitBoxes> {
    seq![
        HitBoxes::Head,
        HitBoxes::Neck,
        HitBoxes::Pelvis,
        HitBoxes::Stomach,
        HitBoxes::LowerChest,
        HitBoxes::Chest,
        HitBoxes::UpperChest,
        HitBoxes::RightThigh,
        HitBoxes::LeftThigh,
        HitBoxes::RightCalf,
        HitBoxes::LeftCalf,
        HitBoxes::RightFoot,
        HitBoxes::LeftFoot,
        HitBoxes::RightHand,
        HitBoxes::LeftHand,
        HitBoxes::RightUpperArm,
        HitBoxes::RightForeArm,
        HitBoxes::LeftUpperArm,
        HitBoxes::LeftForeArm,
        HitBoxes::Max,
    ]
}

/// The position of a hitbox in the hitbox set (0 for `Head` up to 19 for
/// `Max`).
pub open spec fn hitbox_number(h: HitBoxes) -> usize {
    match h {
        HitBoxes::Head => 0,
        HitBoxes::Neck => 1,
        HitBoxes::Pelvis => 2,
        HitBoxes::Stomach => 3,
        HitBoxes::LowerChest => 4,
        HitBoxes::Chest => 5,
        HitBoxes::UpperChest => 6,
        HitBoxes::RightThigh => 7,
        HitBoxes::LeftThigh => 8,
        HitBoxes::RightCalf => 9,
        HitBoxes::LeftCalf => 10,
        HitBoxes::RightFoot => 11,
        HitBoxes::LeftFoot => 12,
        HitBoxes::RightHand => 13,
        HitBoxes::LeftHand => 14,
        HitBoxes::RightUpperArm => 15,
        HitBoxes::RightForeArm => 16,
        HitBoxes::LeftUpperArm => 17,
        HitBoxes::LeftForeArm => 18,
        HitBoxes::Max => 19,
    }
}

impl HitBoxes {
    /// The position of the hitbox in the hitbox set.
    pub fn index(self) -> (n: usize)
        ensures
            n == hitbox_number(self),
            n < 20 && hitbox_order()[n as int] == self,
    {
        match self {
            HitBoxes::Head => 0,
            HitBoxes::Neck => 1,
            HitBoxes::Pelvis => 2,
            HitBoxes::Stomach => 3,
            HitBoxes::LowerChest => 4,
            HitBoxes::Chest => 5,
            HitBoxes::UpperChest => 6,
            HitBoxes::RightThigh => 7,
            HitBoxes::LeftThigh => 8,
            HitBoxes::RightCalf => 9,
            HitBoxes::LeftCalf => 10,
            HitBoxes::RightFoot => 11,
            HitBoxes::LeftFoot => 12,
            HitBoxes::RightHand => 13,
            HitBoxes::LeftHand => 14,
            HitBoxes::RightUpperArm => 15,
            HitBoxes::RightForeArm => 16,
            HitBoxes::LeftUpperArm => 17,
            HitBoxes::LeftForeArm => 18,
            HitBoxes::Max => 19,
        }
    }

    /// The hitbox at position `n`, if `n` is at most 19.
    pub fn from_index(n: usize) -> (h: Option<HitBoxes>)
        ensures
            match h {
                Some(h) => hitbox_number(h) == n,
                None => n > 19,
            },
            n < 20 ==> h == Some(hitbox_order()[n as int]),
    {
        if n == 0 {
            Some(HitBoxes::Head)
        } else if n == 1 {
            Some(HitBoxes::Neck)
        } else if n == 2 {
            Some(HitBoxes::Pelvis)
        } else if n == 3 {
            Some(HitBoxes::Stomach)
        } else if n == 4 {
            Some(HitBoxes::LowerChest)
        } else if n == 5 {
            Some(HitBoxes::Chest)
        } else if n == 6 {
            Some(HitBoxes::UpperChest)
        } else if n == 7 {
            Some(HitBoxes::RightThigh)
        } else if n == 8 {
            Some(HitBoxes::LeftThigh)
        } else if n == 9 {
            Some(HitBoxes::RightCalf)
        } else if n == 10 {
            Some(HitBoxes::LeftCalf)
        } else if n == 11 {
            Some(HitBoxes::RightFoot)
        } else if n == 12 {
            Some(HitBoxes::LeftFoot)
        } else if n == 13 {
            Some(HitBoxes::RightHand)
        } else if n == 14 {
            Some(HitBoxes::LeftHand)
        } else if n == 15 {
            Some(HitBoxes::RightUpperArm)
        } else if n == 16 {
            Some(HitBoxes::RightForeArm)
        } else if n == 17 {
            Some(HitBoxes::LeftUpperArm)
        } else if n == 18 {
            Some(HitBoxes::LeftForeArm)
        } else if n == 19 {
            Some(HitBoxes::Max)
        } else {
            None
        }
    }
}

/// Distinct hitboxes have distinct positions, so a position reads back as
/// the hitbox it came from.
pub proof fn lemma_hitbox_number_injective(a: HitBoxes, b: HitBoxes)
    ensures
        hitbox_number(a) <= 19,
        hitbox_number(a) == hitbox_number(b) ==> a == b,
{
}

/// A hitbox's number is its position in the game's order: `Head` is 0,
/// `Neck` 1, ..., `Chest` 5, `UpperChest` 6, ..., `Max` 19, and each position
/// below 20 is the number of the hitbox found there.
pub proof fn lemma_hitbox_order(h: HitBoxes, n: int)
    ensures
        hitbox_order().len() == 20,
        hitbox_number(h) < 20,
        hitbox_order()[hitbox_number(h) as int] == h,
        0 <= n < 20 ==> hitbox_number(hitbox_order()[n]) == n,
        hitbox_number(HitBoxes::Head) == 0,
        hitbox_number(HitBoxes::Neck) == 1,
        hitbox_number(HitBoxes::Pelvis) == 2,
        hitbox_number(HitBoxes::Stomach) == 3,
        hitbox_number(HitBoxes::LowerChest) == 4,
        hitbox_number(HitBoxes::Chest) == 5,
        hitbox_number(HitBoxes::UpperChest) == 6,
        hitbox_number(HitBoxes::RightThigh) == 7,
        hitbox_number(HitBoxes::LeftThigh) == 8,
        hitbox_number(HitBoxes::RightCalf) == 9,
        hitbox_number(HitBoxes::LeftCalf) == 10,
        hitbox_number(HitBoxes::RightFoot) == 11,
        hitbox_number(HitBoxes::LeftFoot) == 12,
        hitbox_number(HitBoxes::RightHand) == 13,
        hitbox_number(HitBoxes::LeftHand) == 14,
        hitbox_number(HitBoxes::RightUpperArm) == 15,
        hitbox_number(HitBoxes::RightForeArm) == 16,
        hitbox_number(HitBoxes::LeftUpperArm) == 17,
        hitbox_number(HitBoxes::LeftForeArm) == 18,
        hitbox_number(HitBoxes::Max) == 19,
{
}

/// The record a hitbox set gives for a hitbox is the one at its number in
/// the game's order: `base + hitbox_index + position * box_size`.
pub proof fn lemma_hitbox_record(set: StudioBoxSet, base: usize, h: HitBoxes, box_size: usize)
    ensures
        base + set.hitbox_index + hitbox_number(h) * box_size == base + set.hitbox_index
            + hitbox_order().index_of(h) * box_size,
{
    lemma_hitbox_order(h, 0);
    let k = hitbox_order().index_of(h);
    assert(hitbox_order().contains(h));
    assert(hitbox_order()[k] == h);
    assert forall|i: int, j: int| 0 <= i < j < 20 implies hitbox_order()[i] != hitbox_order()[j] by {
        lemma_hitbox_order(hitbox_order()[i], i);
        lemma_hitbox_order(hitbox_order()[j], j);
    }
    assert(k == hitbox_number(h));
}

/// A set of hitboxes inside a studio model header: the offset of its name
/// and of its hitbox array, both from the set's own address.
#[derive(Clone, Copy, PartialEq, Eq, Structural, Debug)]
pub struct StudioBoxSet {
    pub name_idx: usize,
    pub hitbox_count: usize,
    pub hitbox_index: usize,
}

impl StudioBoxSet {
    /// The address of hitbox `idx` of the set that lives at `base`, where a
    /// hitbox record takes `box_size` bytes; `None` when that address is
    /// null.
    pub fn hitbox(&self, base: usize, idx: HitBoxes, box_size: usize) -> (address: Option<usize>)
        requires
            base + self.hitbox_index + hitbox_number(idx) * box_size <= usize::MAX,
        ensures
            address == (if base + self.hitbox_index + hitbox_number(idx) * box_size == 0 {
                None
            } else {
                Some((base + self.hitbox_index + hitbox_number(idx) * box_size) as usize)
            }),
    {
        let n = idx.index();
        assert(0 <= n * box_size <= base + self.hitbox_index + n * box_size) by (nonlinear_arith)
            requires
                n >= 0,
                box_size >= 0,
                base >= 0,
                self.hitbox_index >= 0,
        ;
        let address = base + self.hitbox_index + n * box_size;
        if address == 0 {
            None
        } else {
            Some(address)
        }
    }
}

/// What the header of a studio model says about its bones and hitbox sets:
/// how many there are and their offsets from the header's own address.
#[derive(Clone, Copy, PartialEq, Eq, Structural, Debug)]
pub struct StudioHdr {
    pub bones_count: usize,
    pub bone_idx: usize,
    pub hitbox_sets_count: usize,
    pub hitbox_sets_idx: usize,
}

impl StudioHdr {
    /// The address of hitbox set `idx` of the header that lives at `base`,
    /// where a set takes `set_size` bytes. `None` when `idx` is above the
    /// number of sets (an `idx` equal to that number is let through).
    pub fn hitbox_set(&self, base: usize, idx: usize, set_size: usize) -> (address: Option<usize>)
        requires
            idx <= self.hitbox_sets_count ==> base + self.hitbox_sets_idx + idx * set_size
                <= usize::MAX,
        ensures
            address == (if idx > self.hitbox_sets_count {
                None
            } else {
                Some((base + self.hitbox_sets_idx + idx * set_size) as usize)
            }),
    {
        if idx > self.hitbox_sets_count {
            None
        } else {
            assert(0 <= idx * set_size <= base + self.hitbox_sets_idx + idx * set_size)
                by (nonlinear_arith)
                requires
                    idx >= 0,
                    set_size >= 0,
                    base >= 0,
                    self.hitbox_sets_idx >= 0,
            ;
            Some(base + self.hitbox_sets_idx + idx * set_size)
        }
    }

    /// The address of bone `idx` of the header that lives at `base`, where
    /// the stride between bones is `stride` bytes. `None` when `idx` is
    /// above the number of bones (an `idx` equal to it is let through).
    pub fn bone(&self, base: usize, idx: usize, stride: usize) -> (address: Option<usize>)
        requires
            idx <= self.bones_count ==> base + self.bone_idx + idx * stride <= usize::MAX,
        ensures
            address == (if idx > self.bones_count {
                None
            } else {
                Some((base + self.bone_idx + idx * stride) as usize)
            }),
    {
        if idx > self.bones_count {
            None
        } else {
            assert(0 <= idx * stride <= base + self.bone_idx + idx * stride) by (nonlinear_arith)
                requires
                    idx >= 0,
                    stride >= 0,
                    base >= 0,
                    self.bone_idx >= 0,
            ;
            Some(base + self.bone_idx + idx * stride)
        }
    }
}

} // verus!
