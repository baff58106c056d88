use csgo_internal::structs::cmdbutton::{CMD_BUTTON_ALL, IN_ATTACK, IN_JUMP};
use csgo_internal::structs::entityflags::FL_ONGROUND;
use csgo_internal::structs::{
    CmdButton, EntityFlags, EntityHandle, EntityIndex, EntityIterator, EntityLifeState,
    EntityState, EntityTeam, HitBoxes, HitGroup, ItemDefIndices, ModType, StudioBoxSet,
    StudioHdr, TraceFilterGeneric, TraceType,
};

fn state(lifestate: EntityLifeState, health: i32, team: EntityTeam) -> EntityState {
    EntityState {
        lifestate,
        health,
        dormant: false,
        is_player: true,
        team,
        flags: EntityFlags::from_raw(FL_ONGROUND),
    }
}

#[test]
fn cmd_button_set_and_contains() {
    let mut b = CmdButton::from_raw(IN_ATTACK);
    assert!(b.contains(CmdButton::in_attack()));
    assert!(!b.contains(CmdButton::in_jump()));
    b.set(CmdButton::in_jump(), true);
    assert_eq!(b.bits(), IN_ATTACK | IN_JUMP);
    b.set(CmdButton::in_attack(), false);
    assert_eq!(b.bits(), IN_JUMP);
    b.remove(CmdButton::in_jump());
    assert_eq!(b, CmdButton::empty());
    b.insert(CmdButton::in_attack());
    assert_eq!(b.bits(), 1);
    assert!(b.contains(CmdButton::empty()));
}

#[test]
fn cmd_button_from_bits() {
    assert_eq!(CmdButton::from_bits(3).map(|b| b.bits()), Some(3));
    assert_eq!(CmdButton::from_bits(1 << 26), None);
    assert_eq!(CmdButton::from_bits(-1), None);
    assert_eq!(CmdButton::from_bits_truncate(-1).bits(), CMD_BUTTON_ALL);
    assert_eq!(CmdButton::all().bits(), 0x03ff_ffff);
}

#[test]
fn entity_flags_contains() {
    let f = EntityFlags::from_raw(FL_ONGROUND | 2);
    assert!(f.contains(EntityFlags::on_ground()));
    assert!(!EntityFlags::from_raw(2).contains(EntityFlags::on_ground()));
    assert_eq!(f.bits(), 3);
}

#[test]
fn handle_index_is_low_twelve_bits() {
    let h = EntityHandle::new(0x0012_3456);
    assert_eq!(h.index().index(), 0x456);
    assert_eq!(EntityIndex::from(h).index(), 0x456);
    assert_eq!(EntityHandle::new(0x1FFF).index().index(), 0xFFF);
    assert_eq!(EntityHandle::new(0x1000).index().index(), 0);
    for serial in 0..64usize {
        assert_eq!(EntityHandle::new(0x456 + serial * 4096).index().index(), 0x456);
    }
    assert_eq!(h.handle(), 0x0012_3456);
}

#[test]
fn entity_iterator_walks_one_to_highest() {
    let mut it = EntityIterator::new();
    let mut seen = Vec::new();
    while let Some(i) = it.next(3) {
        seen.push(i.index());
    }
    assert_eq!(seen, vec![1, 2, 3]);
    assert_eq!(it.count(), 5);
    assert!(it.next(3).is_none());
    let mut from_five = EntityIterator::starting_at(EntityIndex::new(5));
    assert_eq!(from_five.next(5).map(|i| i.index()), Some(5));
    assert!(from_five.next(5).is_none());
}

#[test]
fn entity_alive_needs_state_and_health() {
    assert!(state(EntityLifeState::Alive, 1, EntityTeam::T).alive());
    assert!(!state(EntityLifeState::Alive, 0, EntityTeam::T).alive());
    assert!(!state(EntityLifeState::Dying, 50, EntityTeam::T).alive());
    assert!(!state(EntityLifeState::Dead, 100, EntityTeam::T).alive());
}

#[test]
fn enemy_target_and_listed_player() {
    let enemy = state(EntityLifeState::Alive, 100, EntityTeam::T);
    assert!(enemy.is_enemy_target(EntityTeam::CT));
    assert!(!enemy.is_enemy_target(EntityTeam::T));
    let mut dormant = enemy;
    dormant.dormant = true;
    assert!(!dormant.is_enemy_target(EntityTeam::CT));
    assert!(!dormant.is_listed_player());
    let mut prop = enemy;
    prop.is_player = false;
    assert!(!prop.is_enemy_target(EntityTeam::CT));
    assert!(!prop.is_listed_player());
    assert!(enemy.is_listed_player());
}

#[test]
fn life_state_and_team_numbers() {
    assert_eq!(EntityLifeState::from_raw(0), Some(EntityLifeState::Alive));
    assert_eq!(EntityLifeState::from_raw(1), Some(EntityLifeState::Dying));
    assert_eq!(EntityLifeState::from_raw(2), Some(EntityLifeState::Dead));
    assert_eq!(EntityLifeState::from_raw(3), None);
    assert_eq!(EntityTeam::CT.raw(), 3);
    assert_eq!(EntityTeam::T.raw(), 2);
    assert_eq!(EntityTeam::SPECTATOR.raw(), 1);
    assert_eq!(EntityTeam::NONE.raw(), 0);
    for t in [EntityTeam::CT, EntityTeam::T, EntityTeam::SPECTATOR, EntityTeam::NONE] {
        assert_eq!(EntityTeam::from_raw(t.raw()), Some(t));
    }
    assert_eq!(EntityTeam::from_raw(4), None);
    assert_eq!(EntityTeam::from_raw(-1), None);
}

#[test]
fn hitbox_numbers_round_trip() {
    assert_eq!(HitBoxes::Head.index(), 0);
    assert_eq!(HitBoxes::LowerChest.index(), 4);
    assert_eq!(HitBoxes::Max.index(), 19);
    for n in 0..20usize {
        assert_eq!(HitBoxes::from_index(n).map(|h| h.index()), Some(n));
    }
    assert_eq!(HitBoxes::from_index(20), None);
    assert_eq!(HitGroup::Gear.raw(), 10);
    assert_eq!(HitGroup::RightLeg.raw(), 7);
    assert_eq!(ModType::Studio.raw(), 3);
}

#[test]
fn item_numbers_round_trip() {
    assert_eq!(ItemDefIndices::from_raw(7), ItemDefIndices::AK47);
    assert_eq!(ItemDefIndices::from_raw(61), ItemDefIndices::USP_SILENCER);
    assert_eq!(ItemDefIndices::from_raw(0), ItemDefIndices::NONE);
    assert_eq!(ItemDefIndices::from_raw(500), ItemDefIndices::Other(500));
    for n in -3i16..100 {
        assert_eq!(ItemDefIndices::from_raw(n).raw(), n);
    }
}

#[test]
fn studio_addresses() {
    let set = StudioBoxSet { name_idx: 4, hitbox_count: 19, hitbox_index: 0x40 };
    assert_eq!(set.hitbox(0x1000, HitBoxes::Head, 68), Some(0x1040));
    assert_eq!(set.hitbox(0x1000, HitBoxes::Neck, 68), Some(0x1040 + 68));
    let zero = StudioBoxSet { name_idx: 0, hitbox_count: 0, hitbox_index: 0 };
    assert_eq!(zero.hitbox(0, HitBoxes::Head, 68), None);

    let hdr = StudioHdr { bones_count: 2, bone_idx: 0x100, hitbox_sets_count: 1, hitbox_sets_idx: 0x200 };
    assert_eq!(hdr.hitbox_set(0x8000, 0, 12), Some(0x8200));
    // One past the last set is still handed out.
    assert_eq!(hdr.hitbox_set(0x8000, 1, 12), Some(0x8200 + 12));
    assert_eq!(hdr.hitbox_set(0x8000, 2, 12), None);
    assert_eq!(hdr.bone(0x8000, 2, 100), Some(0x8100 + 200));
    assert_eq!(hdr.bone(0x8000, 3, 100), None);
}

#[test]
fn trace_filter_skips_one_entity() {
    let f = TraceFilterGeneric::new(0xAAAA);
    assert!(!f.should_hit_entity(0xAAAA, 0));
    assert!(f.should_hit_entity(0xBBBB, 0x4600400B));
    assert_eq!(f.get_trace_type(), TraceType::EVERYTHING);
}

#[test]
fn entity_iteration_yields_each_index_once_then_none() {
    // From a fresh iterator with highest index 4: 1, 2, 3, 4, then None for
    // every later call.
    let mut it = EntityIterator::new();
    let seen: Vec<Option<usize>> = (0..7).map(|_| it.next(4).map(|i| i.index())).collect();
    assert_eq!(seen, vec![Some(1), Some(2), Some(3), Some(4), None, None, None]);
    // Starting beyond the highest index yields nothing at all.
    let mut beyond = EntityIterator::starting_at(EntityIndex::new(9));
    assert!(beyond.next(4).is_none());
    assert_eq!(beyond.count(), 10);
    // An empty list (highest index 0) yields nothing from the start.
    let mut empty = EntityIterator::new();
    assert!(empty.next(0).is_none());
}

#[test]
fn entity_walk_from_any_counter() {
    // From counter 3 with highest index 5: 3, 4, 5, then None, the counter
    // moving on by one with each call.
    let mut it = EntityIterator::starting_at(EntityIndex::new(3));
    let mut counters = vec![it.count()];
    let mut outputs = Vec::new();
    for _ in 0..5 {
        outputs.push(it.next(5).map(|i| i.index()));
        counters.push(it.count());
    }
    assert_eq!(outputs, vec![Some(3), Some(4), Some(5), None, None]);
    assert_eq!(counters, vec![3, 4, 5, 6, 7, 8]);
}
