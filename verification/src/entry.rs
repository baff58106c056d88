use vstd::prelude::*;

use crate::structs::PanelType;

verus! {

use vstd::string::StringSliceAdditionalSpecFns;

broadcast use vstd::string::group_string_axioms;

/// What the DLL entry point does for a given `call_reason`.
#[derive(PartialEq, Eq, Structural, Clone, Copy, Debug)]
pub enum DllEvent {
    /// `DLL_PROCESS_ATTACH` (1): run the attach routine.
    Attach,
    /// `DLL_PROCESS_DETACH` (0): run the detach routine.
    Detach,
    /// Any other reason: nothing to do.
    Ignore,
}

/// The Windows loader's `DLL_PROCESS_ATTACH` reason code.
pub const DLL_PROCESS_ATTACH: u32 = 1;

/// The Windows loader's `DLL_PROCESS_DETACH` reason code.
pub const DLL_PROCESS_DETACH: u32 = 0;

/// Chooses the entry point's action from the loader's `call_reason`.
pub fn dll_event(call_reason: u32) -> (event: DllEvent)
    ensures
        call_reason == DLL_PROCESS_ATTACH ==> event == DllEvent::Attach,
        call_reason == DLL_PROCESS_DETACH ==> event == DllEvent::Detach,
        call_reason != DLL_PROCESS_ATTACH && call_reason != DLL_PROCESS_DETACH ==> event
            == DllEvent::Ignore,
{
    if call_reason == DLL_PROCESS_ATTACH {
        DllEvent::Attach
    } else if call_reason == DLL_PROCESS_DETACH {
        DllEvent::Detach
    } else {
        DllEvent::Ignore
    }
}

/// Runs when the DLL is unloaded; there is nothing to tear down.
pub fn on_detach() {
}

/// The FNV-1a offset the panel-name hash starts from.
pub const PANEL_HASH_KEY: u64 = 0x811C9DC5;

/// The FNV-1a prime.
pub const FNV_PRIME: u64 = 0x100000001b3;

/// FNV-1a over `bytes`, starting from `key`: for each byte, xor it in and
/// multiply by the prime, wrapping.
pub open spec fn fnv1a(key: u64, bytes: Seq<u8>) -> u64
    decreases bytes.len(),
{
    if bytes.len() == 0 {
        key
    } else {
        (fnv1a(key, bytes.drop_last()) ^ (bytes.last() as u64)).wrapping_mul(FNV_PRIME)
    }
}

/// The hash a panel name is compared by: FNV-1a of its UTF-8 bytes from
/// `PANEL_HASH_KEY`, as `fnv::FnvHasher::with_key` computes it.
pub fn panel_hash(name: &str) -> (hash: u64)
    ensures
        hash == fnv1a(PANEL_HASH_KEY, name.spec_bytes()),
{
    let bytes = name.as_bytes();
    let mut hash: u64 = PANEL_HASH_KEY;
    let mut i: usize = 0;
    while i < bytes.len()
        invariant
            i <= bytes@.len(),
            hash == fnv1a(PANEL_HASH_KEY, bytes@.take(i as int)),
        decreases bytes@.len() - i,
    {
        assert(bytes@.take(i + 1).drop_last() =~= bytes@.take(i as int));
        hash = hash ^ (bytes[i] as u64);
        hash = hash.wrapping_mul(FNV_PRIME);
        i = i + 1;
    }
    assert(bytes@.take(bytes@.len() as int) =~= bytes@);
    hash
}

/// Which panel, if any, the scripts are told was painted: the panel whose
/// name hashes like `"MatSystemTopPanel"` is the top-level panel.
pub open spec fn painted_panel(panel_id: usize, name_bytes: Seq<u8>) -> Option<PanelType> {
    if fnv1a(PANEL_HASH_KEY, "MatSystemTopPanel".spec_bytes()) == fnv1a(PANEL_HASH_KEY, name_bytes) {
        Some(PanelType::MatSystemTop(panel_id))
    } else {
        None
    }
}

/// Decides, after a panel was painted, which panel event to fire.
pub fn paint_traverse_event(panel_id: usize, panel_name: &str) -> (event: Option<PanelType>)
    ensures
        event == painted_panel(panel_id, panel_name.spec_bytes()),
{
    if panel_hash("MatSystemTopPanel") == panel_hash(panel_name) {
        Some(PanelType::MatSystemTop(panel_id))
    } else {
        None
    }
}

/// The panel named `MatSystemTopPanel` always fires the top-panel event.
pub proof fn lemma_top_panel_fires(panel_id: usize, panel_name: &str)
    requires
        panel_name@ == "MatSystemTopPanel"@,
    ensures
        painted_panel(panel_id, panel_name.spec_bytes()) == Some(PanelType::MatSystemTop(panel_id)),
{
}

} // verus!
