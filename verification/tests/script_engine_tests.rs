use csgo_internal::script_engine::aimbot::readiness;
use csgo_internal::script_engine::{is_script_extension, AimTrack, AimbotConfig, BHop, Readiness, ReadinessCheck, SmoothFn, WeaponState};
use csgo_internal::structs::cmdbutton::{IN_ATTACK, IN_JUMP};
use csgo_internal::structs::entityflags::FL_ONGROUND;
use csgo_internal::structs::{CmdButton, EntityFlags, EntityLifeState, EntityState, EntityTeam, HitBoxes, ItemDefIndices};

fn player(alive: bool, flags: i32) -> EntityState {
    EntityState {
        lifestate: if alive { EntityLifeState::Alive } else { EntityLifeState::Dead },
        health: if alive { 100 } else { 0 },
        dormant: false,
        is_player: true,
        team: EntityTeam::CT,
        flags: EntityFlags::from_raw(flags),
    }
}

#[test]
fn bhop_keeps_jump_on_ground_and_releases_it_in_the_air() {
    let mut bhop = BHop::new();
    let mut b = CmdButton::from_raw(IN_JUMP | IN_ATTACK);
    bhop.post_createmove(&mut b, Some(player(true, FL_ONGROUND)));
    assert_eq!(b.bits(), IN_JUMP | IN_ATTACK);
    bhop.post_createmove(&mut b, Some(player(true, 0)));
    assert_eq!(b.bits(), IN_ATTACK);
}

#[test]
fn bhop_leaves_other_cases_alone() {
    let mut bhop = BHop::new();
    let mut b = CmdButton::from_raw(IN_JUMP);
    bhop.post_createmove(&mut b, Some(player(false, 0)));
    assert_eq!(b.bits(), IN_JUMP);
    bhop.post_createmove(&mut b, None);
    assert_eq!(b.bits(), IN_JUMP);
    let mut no_jump = CmdButton::from_raw(IN_ATTACK);
    bhop.post_createmove(&mut no_jump, Some(player(true, FL_ONGROUND)));
    assert_eq!(no_jump.bits(), IN_ATTACK);
}

fn config_of(w: Option<ItemDefIndices>) -> (bool, AimbotConfig) {
    let mut c = AimbotConfig::default();
    let supported = c.set_for_weapon(w);
    (supported, c)
}

#[test]
fn aimbot_default_config() {
    let c = AimbotConfig::default();
    assert!(!c.pistol_mode);
    assert_eq!(c.smooth_fn, None);
    assert_eq!(c.max_fov, 90);
    assert!(c.hitboxes.is_empty());
    assert!(c.lock);
}

#[test]
fn aimbot_configs_by_weapon() {
    let (ok, rifle) = config_of(Some(ItemDefIndices::AK47));
    assert!(ok);
    assert_eq!(rifle.smooth_fn, Some(SmoothFn::RifleCurve));
    assert_eq!(rifle.max_fov, 16);
    assert_eq!(rifle.hitboxes, vec![HitBoxes::Head, HitBoxes::LowerChest]);
    assert!(rifle.lock && !rifle.pistol_mode);

    let (ok, sniper) = config_of(Some(ItemDefIndices::SSG08));
    assert!(ok);
    assert_eq!(sniper.max_fov, 24);
    assert_eq!(
        sniper.hitboxes,
        vec![HitBoxes::Neck, HitBoxes::Chest, HitBoxes::Stomach, HitBoxes::LowerChest]
    );
    assert!(!sniper.lock);

    let (ok, deagle) = config_of(Some(ItemDefIndices::DEAGLE));
    assert!(ok);
    assert_eq!(deagle.max_fov, 12);
    assert!(!deagle.pistol_mode);

    let (ok, pistol) = config_of(Some(ItemDefIndices::GLOCK));
    assert!(ok);
    assert!(pistol.pistol_mode);
    assert_eq!(pistol.max_fov, 14);
    assert_eq!(pistol.hitboxes, vec![HitBoxes::Head]);
}

#[test]
fn aimbot_config_without_a_supported_weapon() {
    let mut c = AimbotConfig::default();
    assert!(c.set_for_weapon(Some(ItemDefIndices::AWP)));
    assert!(!c.set_for_weapon(None));
    assert_eq!(c.max_fov, 24);
    assert!(!c.set_for_weapon(Some(ItemDefIndices::Other(42))));
    assert_eq!(c.max_fov, 90);
    assert!(c.hitboxes.is_empty());
}

fn ready_check(weapon: WeaponState) -> ReadinessCheck {
    ReadinessCheck {
        has_target: true,
        has_hitbox: true,
        weapon: Some(weapon),
        target_visible: true,
        target_set_tick0: false,
        fov_exceeds_max: false,
        next_attack_pending: false,
        primary_attack_ready: true,
    }
}

fn rifle(clip1: isize) -> WeaponState {
    WeaponState { id: ItemDefIndices::AK47, is_reloading: false, clip1 }
}

#[test]
fn readiness_in_order() {
    assert_eq!(readiness(&ready_check(rifle(30)), false), Readiness::Ready);
    let mut c = ready_check(rifle(30));
    c.has_target = false;
    assert_eq!(readiness(&c, false), Readiness::NotReady);
    let mut c = ready_check(rifle(30));
    c.weapon = None;
    assert_eq!(readiness(&c, false), Readiness::NotReady);
    let mut c = ready_check(rifle(30));
    c.target_set_tick0 = true;
    c.fov_exceeds_max = true;
    assert_eq!(readiness(&c, false), Readiness::DropTarget);
    // An invisible target is not dropped, even beyond the widest angle.
    c.target_visible = false;
    assert_eq!(readiness(&c, false), Readiness::NotReady);
    let mut c = ready_check(rifle(30));
    c.fov_exceeds_max = true;
    assert_eq!(readiness(&c, false), Readiness::Ready);
    assert_eq!(readiness(&ready_check(rifle(0)), false), Readiness::NotReady);
    let mut c = ready_check(rifle(30));
    c.next_attack_pending = true;
    assert_eq!(readiness(&c, false), Readiness::NotReady);
    let mut c = ready_check(rifle(30));
    c.primary_attack_ready = false;
    assert_eq!(readiness(&c, false), Readiness::NotReady);
    let reloading = WeaponState { id: ItemDefIndices::AK47, is_reloading: true, clip1: 10 };
    assert_eq!(readiness(&ready_check(reloading), false), Readiness::NotReady);
}

#[test]
fn readiness_pistol_rule_every_other_shot() {
    let glock = |clip1| WeaponState { id: ItemDefIndices::GLOCK, is_reloading: false, clip1 };
    // 20 rounds: (20 - 20) is even, so no shot; 19 rounds left: odd, shoot.
    assert_eq!(readiness(&ready_check(glock(20)), true), Readiness::NotReady);
    assert_eq!(readiness(&ready_check(glock(19)), true), Readiness::Ready);
    let usp = WeaponState { id: ItemDefIndices::USP_SILENCER, is_reloading: false, clip1: 11 };
    assert_eq!(readiness(&ready_check(usp), true), Readiness::Ready);
    // A weapon the pistol rule does not know never fires in pistol mode.
    assert_eq!(readiness(&ready_check(rifle(29)), true), Readiness::NotReady);
    assert_eq!(readiness(&ready_check(rifle(29)), false), Readiness::Ready);
}

type Track = AimTrack<u32, (u8, i64), u64>;

fn assert_idle(t: &Track) {
    assert_eq!(t.target(), None);
    assert_eq!(t.hitbox(), None);
    assert_eq!(t.aim_time(), None);
    assert!(!t.target_set_tick0());
}

#[test]
fn aim_track_new_target_sets_tick0_once() {
    let mut t = Track::new();
    assert_idle(&t);
    // No enemy found: no target.
    assert!(!t.set_target(false, None));
    assert_idle(&t);
    // A target found on this tick.
    assert!(t.set_target(false, Some(7)));
    assert_eq!(t.target(), Some(&7));
    assert!(t.target_set_tick0());
    assert_eq!(t.hitbox(), None);
    // Next tick, the target is kept while usable, and is no longer new;
    // the best enemy offered is ignored.
    assert!(t.set_target(true, Some(9)));
    assert_eq!(t.target(), Some(&7));
    assert!(!t.target_set_tick0());
    // A target no longer usable is dropped with everything.
    assert!(t.set_hitbox(Some((1, 5))));
    assert!(!t.set_target(false, Some(9)));
    assert_idle(&t);
}

#[test]
fn aim_track_attack_releases_everything() {
    let mut t = Track::new();
    assert!(t.triggered(false));
    assert!(t.set_target(false, Some(3)));
    assert!(t.set_hitbox(Some((0, 1))));
    assert!(!t.advance_aim(0, 10));
    assert!(t.triggered(false));
    assert_eq!(t.target(), Some(&3));
    assert!(!t.triggered(true));
    assert_idle(&t);
}

#[test]
fn aim_track_hitbox_needs_a_target() {
    let mut t = Track::new();
    assert!(!t.set_hitbox(Some((2, 2))));
    assert_eq!(t.hitbox(), None);
    assert!(t.set_target(false, Some(1)));
    assert!(!t.set_hitbox(None));
    assert_eq!(t.hitbox(), None);
    assert!(t.set_hitbox(Some((2, 2))));
    assert_eq!(t.hitbox(), Some(&(2, 2)));
    // The hitbox moves with the target.
    assert!(t.set_hitbox(Some((2, 8))));
    assert_eq!(t.hitbox(), Some(&(2, 8)));
}

#[test]
fn aim_track_first_aim_tick_only_starts_the_clock() {
    let mut t = Track::new();
    // Without a target or hitbox nothing happens.
    assert!(!t.advance_aim(0, 5));
    assert_eq!(t.aim_time(), None);
    assert!(t.set_target(false, Some(4)));
    assert!(t.set_hitbox(Some((0, 0))));
    assert!(!t.advance_aim(0, 5));
    assert_eq!(t.aim_time(), Some(&0));
    assert!(t.advance_aim(0, 16));
    assert_eq!(t.aim_time(), Some(&16));
    assert!(t.advance_aim(0, 32));
    assert_eq!(t.aim_time(), Some(&32));
}

#[test]
fn aim_track_readiness_outcomes() {
    let mut t = Track::new();
    assert!(t.set_target(false, Some(4)));
    assert!(t.set_hitbox(Some((0, 0))));
    assert!(t.apply_readiness(Readiness::Ready));
    assert!(!t.apply_readiness(Readiness::NotReady));
    assert_eq!(t.target(), Some(&4));
    assert!(!t.apply_readiness(Readiness::DropTarget));
    assert_idle(&t);
    t.reset();
    assert_idle(&t);
}

/// Runs one tick's stages in order, stopping at the first that does not go
/// on; the result says whether the view is turned.
fn run_tick(
    t: &mut Track,
    attack_held: bool,
    weapon_supported: bool,
    target_usable: bool,
    best: Option<u32>,
    found: Option<(u8, i64)>,
    r: Readiness,
    advanced: u64,
) -> bool {
    t.triggered(attack_held)
        && weapon_supported
        && t.set_target(target_usable, best)
        && t.set_hitbox(found)
        && t.apply_readiness(r)
        && t.advance_aim(0, advanced)
}

#[test]
fn aim_track_tick0_rises_only_on_the_tick_a_target_is_found() {
    let mut t = Track::new();
    // Tick 1: a target is found; the flag rises and aiming starts the clock.
    assert!(!run_tick(&mut t, false, true, false, Some(5), Some((0, 1)), Readiness::Ready, 9));
    assert!(t.target_set_tick0());
    assert_eq!(t.aim_time(), Some(&0));
    // Tick 2: the same target, usable; the flag falls and the view turns.
    assert!(run_tick(&mut t, false, true, true, Some(6), Some((0, 2)), Readiness::Ready, 9));
    assert!(!t.target_set_tick0());
    assert_eq!(t.target(), Some(&5));
    assert_eq!(t.aim_time(), Some(&9));
    // Tick 3: an unsupported weapon stops the tick before the target stage.
    assert!(!run_tick(&mut t, false, false, false, None, None, Readiness::Ready, 12));
    assert_eq!(t.target(), Some(&5));
    assert!(!t.target_set_tick0());
    // Tick 4: attack held lets go of everything.
    assert!(!run_tick(&mut t, true, true, true, Some(7), Some((0, 3)), Readiness::Ready, 12));
    assert_idle(&t);
}

#[test]
fn script_extension_is_lua() {
    assert!(is_script_extension("lua"));
    assert!(!is_script_extension("luac"));
    assert!(!is_script_extension("LUA"));
    assert!(!is_script_extension(""));
    assert!(!is_script_extension("txt"));
}
