use vstd::prelude::*;

verus! {

/// Kind of a networked property, in the game's `SendPropType` order.
#[derive(PartialEq, Eq, Structural, Clone, Copy, Debug)]
pub enum EPropType {
    Int,
    Float,
    Vec,
    VecXY,
    String,
    Array,
    DataTable,
    Int64,
}

/// A networked property as read from the game's receive tables.
pub struct CRecvProp {
    pub prop_name: String,
    pub prop_type: EPropType,
    pub offset: i32,
    /// The nested table this property points to, if any.
    pub data_table: Option<Box<CRecvTable>>,
}

/// A receive table: a named list of networked properties.
pub struct CRecvTable {
    pub table_name: String,
    pub props: Vec<CRecvProp>,
}

} // verus!
