use csgo_internal::entry::{dll_event, on_detach, paint_traverse_event, panel_hash, DllEvent, PANEL_HASH_KEY};
use csgo_internal::structs::PanelType;
use std::hash::Hasher;

#[test]
fn dll_event_follows_call_reason() {
    assert_eq!(dll_event(1), DllEvent::Attach);
    assert_eq!(dll_event(0), DllEvent::Detach);
    assert_eq!(dll_event(2), DllEvent::Ignore);
    assert_eq!(dll_event(3), DllEvent::Ignore);
    on_detach();
}

fn fnv_crate_hash(name: &str) -> u64 {
    let mut h = fnv::FnvHasher::with_key(PANEL_HASH_KEY);
    h.write(name.as_bytes());
    h.finish()
}

#[test]
fn panel_hash_agrees_with_fnv() {
    for name in ["", "MatSystemTopPanel", "FocusOverlayPanel", "héllo"] {
        assert_eq!(panel_hash(name), fnv_crate_hash(name));
    }
    assert_eq!(panel_hash(""), 0x811C9DC5);
}

#[test]
fn top_panel_fires_its_event() {
    assert_eq!(
        paint_traverse_event(42, "MatSystemTopPanel"),
        Some(PanelType::MatSystemTop(42))
    );
    assert_eq!(paint_traverse_event(42, "FocusOverlayPanel"), None);
    assert_eq!(paint_traverse_event(7, ""), None);
}
