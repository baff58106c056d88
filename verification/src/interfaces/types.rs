use vstd::prelude::*;

verus! {

/// `once_cell::sync::OnceCell`, the cell the process-wide netvar engine is
/// kept in. Verus sees nothing inside it.
#[verifier::external_type_specification]
#[verifier::external_body]
#[verifier::reject_recursive_types(T)]
pub struct ExOnceCell<T>(once_cell::sync::OnceCell<T>);

} // verus!
