use vstd::prelude::*;

verus! {

/// Item definition index of a weapon (`m_iItemDefinitionIndex`), for the
/// weapons the aim assist tells apart; every other index is `Other`.
#[derive(Clone, Copy, PartialEq, Eq, Structural, Debug)]
#[allow(non_camel_case_types)]
pub enum ItemDefIndices {
    NONE,
    DEAGLE,
    FIVESEVEN,
    GLOCK,
    AK47,
    AWP,
    FAMAS,
    GALILAR,
    M4A1,
    P90,
    TEC9,
    HKP2000,
    MP7,
    MP9,
    P250,
    SG556,
    SSG08,
    USP_SILENCER,
    Other(i16),
}

/// The game's item definition index of a weapon.
pub open spec fn item_number(item: ItemDefIndices) -> i16 {
    match item {
        ItemDefIndices::NONE => 0,
        ItemDefIndices::DEAGLE => 1,
        ItemDefIndices::FIVESEVEN => 3,
        ItemDefIndices::GLOCK => 4,
        ItemDefIndices::AK47 => 7,
        ItemDefIndices::AWP => 9,
        ItemDefIndices::FAMAS => 10,
        ItemDefIndices::GALILAR => 13,
        ItemDefIndices::M4A1 => 16,
        ItemDefIndices::P90 => 19,
        ItemDefIndices::TEC9 => 30,
        ItemDefIndices::HKP2000 => 32,
        ItemDefIndices::MP7 => 33,
        ItemDefIndices::MP9 => 34,
        ItemDefIndices::P250 => 36,
        ItemDefIndices::SG556 => 39,
        ItemDefIndices::SSG08 => 40,
        ItemDefIndices::USP_SILENCER => 61,
        ItemDefIndices::Other(n) => n,
    }
}

/// The indices that have a variant of their own.
pub open spec fn is_named_item(n: i16) -> bool {
    n == 0 || n == 1 || n == 3 || n == 4 || n == 7 || n == 9 || n == 10 || n == 13 || n == 16 || n
        == 19 || n == 30 || n == 32 || n == 33 || n == 34 || n == 36 || n == 39 || n == 40 || n
        == 61
}

impl ItemDefIndices {
    /// The game's item definition index.
    pub fn raw(self) -> (n: i16)
        ensures
            n == item_number(self),
    {
        match self {
            ItemDefIndices::NONE => 0,
            ItemDefIndices::DEAGLE => 1,
            ItemDefIndices::FIVESEVEN => 3,
            ItemDefIndices::GLOCK => 4,
            ItemDefIndices::AK47 => 7,
            ItemDefIndices::AWP => 9,
            ItemDefIndices::FAMAS => 10,
            ItemDefIndices::GALILAR => 13,
            ItemDefIndices::M4A1 => 16,
            ItemDefIndices::P90 => 19,
            ItemDefIndices::TEC9 => 30,
            ItemDefIndices::HKP2000 => 32,
            ItemDefIndices::MP7 => 33,
            ItemDefIndices::MP9 => 34,
            ItemDefIndices::P250 => 36,
            ItemDefIndices::SG556 => 39,
            ItemDefIndices::SSG08 => 40,
            ItemDefIndices::USP_SILENCER => 61,
            ItemDefIndices::Other(n) => n,
        }
    }

    /// The weapon with item definition index `n`.
    pub fn from_raw(n: i16) -> (item: ItemDefIndices)
        ensures
            item_number(item) == n,
            is_named_item(n) <==> !(item is Other),
    {
        if n == 0 {
            ItemDefIndices::NONE
        } else if n == 1 {
            ItemDefIndices::DEAGLE
        } else if n == 3 {
            ItemDefIndices::FIVESEVEN
        } else if n == 4 {
            ItemDefIndices::GLOCK
        } else if n == 7 {
            ItemDefIndices::AK47
        } else if n == 9 {
            ItemDefIndices::AWP
        } else if n == 10 {
            ItemDefIndices::FAMAS
        } else if n == 13 {
            ItemDefIndices::GALILAR
        } else if n == 16 {
            ItemDefIndices::M4A1
        } else if n == 19 {
            ItemDefIndices::P90
        } else if n == 30 {
            ItemDefIndices::TEC9
        } else if n == 32 {
            ItemDefIndices::HKP2000
        } else if n == 33 {
            ItemDefIndices::MP7
        } else if n == 34 {
            ItemDefIndices::MP9
        } else if n == 36 {
            ItemDefIndices::P250
        } else if n == 39 {
            ItemDefIndices::SG556
        } else if n == 40 {
            ItemDefIndices::SSG08
        } else if n == 61 {
            ItemDefIndices::USP_SILENCER
        } else {
            ItemDefIndices::Other(n)
        }
    }
}

} // verus!
