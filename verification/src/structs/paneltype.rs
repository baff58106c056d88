use vstd::prelude::*;

verus! {

/// A VGUI panel the scripts are told about when it is painted.
#[derive(Clone, Copy, PartialEq, Eq, Structural, Debug)]
pub enum PanelType {
    /// The top-level material-system panel, with its panel id.
    MatSystemTop(usize),
}

} // verus!
