use csgo_internal::interfaces::netvarengine::{DORMANCY_OFFSET, IN_RELOAD_SIGNATURE};
use csgo_internal::interfaces::{get_offset, offset_in_engine, ClientClassTable, NetvarEngine, NetvarMap};
use csgo_internal::memory::{pattern_is_well_formed, pattern_to_bytes};
use csgo_internal::structs::{CRecvProp, CRecvTable, EPropType};
use once_cell::sync::OnceCell;

fn prop(name: &str, prop_type: EPropType, offset: i32, child: Option<CRecvTable>) -> CRecvProp {
    CRecvProp {
        prop_name: name.to_string(),
        prop_type,
        offset,
        data_table: child.map(Box::new),
    }
}

fn table(name: &str, props: Vec<CRecvProp>) -> CRecvTable {
    CRecvTable {
        table_name: name.to_string(),
        props,
    }
}

/// A `client.dll` image holding the reload signature at offset 4.
fn client_image() -> Vec<u8> {
    let mut image = vec![0x90u8; 4];
    image.extend_from_slice(&[0xC6, 0x87, 0xB0, 0x68, 0xBC, 0xEF, 0xF9, 0x00]);
    image.extend_from_slice(&[0xCC; 4]);
    image
}

fn player_classes() -> Vec<ClientClassTable> {
    let local = table(
        "DT_Local",
        vec![prop("m_aimPunchAngle", EPropType::Vec, 0x2C, None)],
    );
    let player = table(
        "DT_BasePlayer",
        vec![
            prop("m_iHealth", EPropType::Int, 0x100, None),
            prop("m_Local", EPropType::DataTable, 0x2FBC, Some(local)),
            prop("m_hMyWeapons", EPropType::Array, 0x2DF8, None),
            prop("m_vecOrigin", EPropType::Vec, 0x138, None),
        ],
    );
    vec![
        ClientClassTable {
            recv_table_address: 0x5000,
            recv_table: Some(player),
        },
        ClientClassTable {
            recv_table_address: 0,
            recv_table: None,
        },
        ClientClassTable {
            recv_table_address: 0x6000,
            recv_table: Some(table("DT_CSPlayer", vec![prop("m_iHealth", EPropType::Int, 0x44, None)])),
        },
    ]
}

#[test]
fn netvar_map_insert_replaces() {
    let mut m = NetvarMap::new();
    assert_eq!(m.get(&"a".to_string()), None);
    m.insert("a".to_string(), 1);
    m.insert("b".to_string(), 2);
    m.insert("a".to_string(), 3);
    assert_eq!(m.get(&"a".to_string()), Some(3));
    assert_eq!(m.get(&"b".to_string()), Some(2));
    assert!(m.contains_key(&"b".to_string()));
    assert!(!m.contains_key(&"c".to_string()));
}

#[test]
fn engine_stores_table_props() {
    let engine = NetvarEngine::from_client_classes(&player_classes(), 0x1000, &client_image());
    assert_eq!(engine.get_offset("DT_BasePlayer", "m_iHealth"), 0x100);
    assert_eq!(engine.get_offset("DT_BasePlayer", "m_vecOrigin"), 0x138);
    assert_eq!(engine.get_offset("DT_CSPlayer", "m_iHealth"), 0x44);
    assert_eq!(engine.tables, vec![0x5000, 0x6000]);
}

#[test]
fn engine_nests_child_tables_under_the_group() {
    let engine = NetvarEngine::from_client_classes(&player_classes(), 0x1000, &client_image());
    // The child table is walked with the data-table property's own offset.
    assert_eq!(engine.get_offset("DT_BasePlayer", "m_aimPunchAngle"), 0x2FBC + 0x2C);
    assert_eq!(engine.get_offset("DT_Local", "m_aimPunchAngle"), 0);
}

#[test]
fn engine_skips_kinds_it_does_not_keep() {
    let engine = NetvarEngine::from_client_classes(&player_classes(), 0x1000, &client_image());
    assert_eq!(engine.get_offset("DT_BasePlayer", "m_hMyWeapons"), 0);
    assert_eq!(engine.get_offset("DT_BasePlayer", "m_Local"), 0);
    assert_eq!(engine.get_offset("DT_Nothing", "m_iHealth"), 0);
}

#[test]
fn engine_adds_custom_offsets() {
    let engine = NetvarEngine::from_client_classes(&player_classes(), 0x1000, &client_image());
    assert_eq!(engine.get_offset("CustomTable", "Dormancy"), 0xED);
    assert_eq!(DORMANCY_OFFSET, 0xED);
    assert_eq!(engine.get_offset("CustomTable", "InReload"), 0x1004);
}

#[test]
fn engine_skips_props_whose_bare_name_is_a_key() {
    // A property named like an existing `table->name` key is not stored.
    let classes = vec![ClientClassTable {
        recv_table_address: 0x10,
        recv_table: Some(table(
            "A",
            vec![
                prop("x", EPropType::Int, 4, None),
                prop("A->x", EPropType::Int, 8, None),
            ],
        )),
    }];
    let engine = NetvarEngine::from_client_classes(&classes, 0, &[0u8; 8]);
    assert_eq!(engine.get_offset("A", "x"), 4);
    assert_eq!(engine.get_offset("A", "A->x"), 0);
}

#[test]
fn engine_offsets_wrap_like_a_release_build() {
    let classes = vec![ClientClassTable {
        recv_table_address: 0x10,
        recv_table: Some(table(
            "T",
            vec![prop(
                "outer",
                EPropType::DataTable,
                -4,
                Some(table("Inner", vec![prop("v", EPropType::Float, 12, None)])),
            )],
        )),
    }];
    let engine = NetvarEngine::from_client_classes(&classes, 0, &[0u8; 8]);
    assert_eq!(engine.get_offset("T", "v"), 8);
}

#[test]
fn initialize_rebuilds_the_table_list() {
    let mut engine = NetvarEngine::new();
    engine.initialize(&player_classes(), 0x1000, &client_image());
    engine.initialize(&player_classes(), 0x2000, &[0u8; 16]);
    assert_eq!(engine.tables, vec![0x5000, 0x6000]);
    // The signature is not in the second image, so the reload offset is 0.
    assert_eq!(engine.get_offset("CustomTable", "InReload"), 0);
}

#[test]
fn engine_from_the_cell() {
    static CELL: OnceCell<NetvarEngine> = OnceCell::new();
    assert!(NetvarEngine::get(&CELL).is_none());
    assert_eq!(get_offset(&CELL, "DT_BasePlayer", "m_iHealth"), None);
    let _ = CELL.set(NetvarEngine::from_client_classes(&player_classes(), 0x1000, &client_image()));
    assert!(NetvarEngine::get(&CELL).is_some());
    assert_eq!(get_offset(&CELL, "DT_BasePlayer", "m_iHealth"), Some(0x100));
}

#[test]
fn reload_signature_is_well_formed() {
    assert!(pattern_is_well_formed(IN_RELOAD_SIGNATURE));
    assert_eq!(pattern_to_bytes(IN_RELOAD_SIGNATURE.to_string()).len(), 8);
}

#[test]
fn offset_in_engine_reads_the_engine_given() {
    assert_eq!(offset_in_engine(None, "DT_BasePlayer", "m_iHealth"), None);
    let engine = NetvarEngine::from_client_classes(&player_classes(), 0x1000, &client_image());
    assert_eq!(offset_in_engine(Some(&engine), "DT_BasePlayer", "m_iHealth"), Some(0x100));
    assert_eq!(offset_in_engine(Some(&engine), "DT_BasePlayer", "m_nothing"), Some(0));
    assert_eq!(offset_in_engine(Some(&engine), "CustomTable", "InReload"), Some(0x1004));
}
