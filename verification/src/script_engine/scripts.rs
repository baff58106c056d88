use vstd::prelude::*;

verus! {

/// The file extension of the scripts the engine loads.
pub open spec fn script_extension() -> Seq<char> {
    seq!['l', 'u', 'a']
}

/// Whether a file with extension `extension` is a script to load.
pub fn is_script_extension(extension: &str) -> (is_script: bool)
    ensures
        is_script == (extension@ == script_extension()),
{
    proof {
        reveal_strlit("lua");
    }
    let wanted = "lua".to_owned();
    assert(wanted@ =~= script_extension());
    extension.to_owned() == wanted
}

} // verus!
