use vstd::prelude::*;

use crate::structs::{HitBoxes, ItemDefIndices};

verus! {

/// The smoothing curves the aim assist knows; the curve itself is a
/// floating-point function that the caller evaluates.
#[derive(Clone, Copy, PartialEq, Eq, Structural, Debug)]
pub enum SmoothFn {
    /// `|sin((2t - 1/2) / 1.2)^2 + cos((t - 1/2) / 1.2) - 1.2|` of the
    /// aim time `t`, used for rifles and submachine guns.
    RifleCurve,
}

/// How the aim assist behaves with the weapon in hand.
#[derive(Debug)]
pub struct AimbotConfig {
    /// Fire only every other shot, judged by the rounds left.
    pub pistol_mode: bool,
    pub smooth_fn: Option<SmoothFn>,
    /// Widest angle, in whole degrees, at which a target is taken.
    pub max_fov: u32,
    /// Hitboxes to aim at, best first once sorted by the caller.
    pub hitboxes: Vec<HitBoxes>,
    pub lock: bool,
}

/// A configuration as plain values: pistol mode, smoothing, widest angle,
/// hitboxes and lock.
pub type ConfigView = (bool, Option<SmoothFn>, u32, Seq<HitBoxes>, bool);

impl View for AimbotConfig {
    type V = ConfigView;

    open spec fn view(&self) -> ConfigView {
        (self.pistol_mode, self.smooth_fn, self.max_fov, self.hitboxes@, self.lock)
    }
}

/// The configuration without a supported weapon.
pub open spec fn default_config() -> ConfigView {
    (false, None, 90, seq![], true)
}

/// The configuration for a weapon, if the aim assist supports it.
pub open spec fn weapon_config(weapon: ItemDefIndices) -> Option<ConfigView> {
    match weapon {
        ItemDefIndices::AK47 | ItemDefIndices::M4A1 | ItemDefIndices::MP9 | ItemDefIndices::MP7
        | ItemDefIndices::GALILAR | ItemDefIndices::FAMAS | ItemDefIndices::P90
        | ItemDefIndices::SG556 => Some(
            (false, Some(SmoothFn::RifleCurve), 16, seq![HitBoxes::Head, HitBoxes::LowerChest], true),
        ),
        ItemDefIndices::AWP | ItemDefIndices::SSG08 => Some(
            (
                false,
                None,
                24,
                seq![HitBoxes::Neck, HitBoxes::Chest, HitBoxes::Stomach, HitBoxes::LowerChest],
                false,
            ),
        ),
        ItemDefIndices::DEAGLE => Some((false, None, 12, seq![HitBoxes::Head], false)),
        ItemDefIndices::P250 | ItemDefIndices::TEC9 | ItemDefIndices::GLOCK
        | ItemDefIndices::USP_SILENCER | ItemDefIndices::HKP2000 | ItemDefIndices::FIVESEVEN => Some(
            (true, None, 14, seq![HitBoxes::Head], false),
        ),
        _ => None,
    }
}

impl Default for AimbotConfig {
    fn default() -> (config: AimbotConfig)
        ensures
            config@ == default_config(),
    {
        AimbotConfig {
            pistol_mode: false,
            smooth_fn: None,
            max_fov: 90,
            hitboxes: Vec::new(),
            lock: true,
        }
    }
}

impl AimbotConfig {
    /// Chooses the configuration for the active weapon. Without a weapon
    /// nothing changes; an unsupported weapon resets to the default. The
    /// result says whether the weapon is supported.
    pub fn set_for_weapon(&mut self, active_weapon: Option<ItemDefIndices>) -> (supported: bool)
        ensures
            match active_weapon {
                None => !supported && final(self)@ == old(self)@,
                Some(w) => match weapon_config(w) {
                    Some(c) => supported && final(self)@ == c,
                    None => !supported && final(self)@ == default_config(),
                },
            },
    {
        match active_weapon {
            Some(weapon) => match weapon {
                ItemDefIndices::AK47 | ItemDefIndices::M4A1 | ItemDefIndices::MP9
                | ItemDefIndices::MP7 | ItemDefIndices::GALILAR | ItemDefIndices::FAMAS
                | ItemDefIndices::P90 | ItemDefIndices::SG556 => {
                    *self = AimbotConfig {
                        pistol_mode: false,
                        lock: true,
                        smooth_fn: Some(SmoothFn::RifleCurve),
                        max_fov: 16,
                        hitboxes: vec![HitBoxes::Head, HitBoxes::LowerChest],
                    };
                    true
                },
                ItemDefIndices::AWP | ItemDefIndices::SSG08 => {
                    *self = AimbotConfig {
                        pistol_mode: false,
                        lock: false,
                        smooth_fn: None,
                        max_fov: 24,
                        hitboxes: vec![
                            HitBoxes::Neck,
                            HitBoxes::Chest,
                            HitBoxes::Stomach,
                            HitBoxes::LowerChest,
                        ],
                    };
                    true
                },
                ItemDefIndices::DEAGLE => {
                    *self = AimbotConfig {
                        pistol_mode: false,
                        lock: false,
                        smooth_fn: None,
                        max_fov: 12,
                        hitboxes: vec![HitBoxes::Head],
                    };
                    true
                },
                ItemDefIndices::P250 | ItemDefIndices::TEC9 | ItemDefIndices::GLOCK
                | ItemDefIndices::USP_SILENCER | ItemDefIndices::HKP2000
                | ItemDefIndices::FIVESEVEN => {
                    *self = AimbotConfig {
                        pistol_mode: true,
                        lock: false,
                        smooth_fn: None,
                        max_fov: 14,
                        hitboxes: vec![HitBoxes::Head],
                    };
                    true
                },
                _ => {
                    *self = AimbotConfig::default();
                    false
                },
            },
            None => false,
        }
    }
}

/// The magazine size the pistol rule counts shots against.
pub open spec fn pistol_magazine(weapon: ItemDefIndices) -> Option<int> {
    match weapon {
        ItemDefIndices::P250 => Some(13),
        ItemDefIndices::TEC9 => Some(18),
        ItemDefIndices::GLOCK => Some(20),
        ItemDefIndices::USP_SILENCER => Some(12),
        ItemDefIndices::HKP2000 => Some(13),
        ItemDefIndices::FIVESEVEN => Some(20),
        _ => None,
    }
}

/// The pistol rule lets a shot go when an odd number of rounds has been
/// fired from the magazine; weapons it does not know never fire.
pub open spec fn pistol_allows_shot(weapon: ItemDefIndices, clip1: int) -> bool {
    match pistol_magazine(weapon) {
        Some(m) => (m - clip1) % 2 != 0,
        None => false,
    }
}

/// What the aim assist reads of the weapon in hand.
#[derive(Clone, Copy, Debug)]
pub struct WeaponState {
    pub id: ItemDefIndices,
    pub is_reloading: bool,
    /// Rounds left in the magazine.
    pub clip1: isize,
}

/// The facts the readiness rule decides on. The geometric ones (whether
/// the hitbox is visible, whether it lies beyond the widest angle) and the
/// timing ones (whether the next attack is still pending, whether the
/// primary attack is ready at the server time) are worked out by the
/// caller in floating point.
#[derive(Clone, Copy, Debug)]
pub struct ReadinessCheck {
    pub has_target: bool,
    pub has_hitbox: bool,
    pub weapon: Option<WeaponState>,
    pub target_visible: bool,
    pub target_set_tick0: bool,
    pub fov_exceeds_max: bool,
    pub next_attack_pending: bool,
    pub primary_attack_ready: bool,
}

/// The outcome of the readiness rule.
#[derive(Clone, Copy, PartialEq, Eq, Structural, Debug)]
pub enum Readiness {
    /// Aim at the target now.
    Ready,
    /// Not this tick; keep the target.
    NotReady,
    /// Not this tick, and drop the target, its hitbox and the aim time.
    DropTarget,
}

/// The readiness rule, checked in order: a target, a hitbox and a weapon;
/// a visible hitbox; on the tick the target was chosen, a hitbox within
/// the widest angle (else the target is dropped); rounds in a weapon that
/// is not reloading; no attack pending; in pistol mode, the pistol rule;
/// last, the primary attack ready.
pub open spec fn readiness_of(check: ReadinessCheck, pistol_mode: bool) -> Readiness {
    if !check.has_target || !check.has_hitbox || check.weapon is None {
        Readiness::NotReady
    } else if !check.target_visible {
        Readiness::NotReady
    } else if check.target_set_tick0 && check.fov_exceeds_max {
        Readiness::DropTarget
    } else if check.weapon->0.is_reloading || check.weapon->0.clip1 <= 0 {
        Readiness::NotReady
    } else if check.next_attack_pending {
        Readiness::NotReady
    } else if pistol_mode && !pistol_allows_shot(check.weapon->0.id, check.weapon->0.clip1 as int) {
        Readiness::NotReady
    } else if check.primary_attack_ready {
        Readiness::Ready
    } else {
        Readiness::NotReady
    }
}

/// Applies the pistol rule to a magazine with rounds left.
fn pistol_shot_allowed(weapon: ItemDefIndices, clip1: isize) -> (allowed: bool)
    requires
        clip1 > 0,
    ensures
        allowed == pistol_allows_shot(weapon, clip1 as int),
{
    let magazine: isize = match weapon {
        ItemDefIndices::P250 => 13,
        ItemDefIndices::TEC9 => 18,
        ItemDefIndices::GLOCK => 20,
        ItemDefIndices::USP_SILENCER => 12,
        ItemDefIndices::HKP2000 => 13,
        ItemDefIndices::FIVESEVEN => 20,
        _ => {
            return false;
        },
    };
    (magazine - clip1) % 2 != 0
}

/// Decides whether the aim assist may act this tick.
pub fn readiness(check: &ReadinessCheck, pistol_mode: bool) -> (r: Readiness)
    ensures
        r == readiness_of(*check, pistol_mode),
        !check.target_visible ==> r == Readiness::NotReady,
        r == Readiness::DropTarget ==> check.target_set_tick0 && check.fov_exceeds_max,
        r == Readiness::Ready ==> check.primary_attack_ready && !check.next_attack_pending,
{
    if !check.has_target || !check.has_hitbox {
        return Readiness::NotReady;
    }
    let weapon = match check.weapon {
        Some(w) => w,
        None => {
            return Readiness::NotReady;
        },
    };
    if !check.target_visible {
        return Readiness::NotReady;
    }
    if check.target_set_tick0 && check.fov_exceeds_max {
        return Readiness::DropTarget;
    }
    if weapon.is_reloading || weapon.clip1 <= 0 {
        return Readiness::NotReady;
    }
    if check.next_attack_pending {
        return Readiness::NotReady;
    }
    if pistol_mode && !pistol_shot_allowed(weapon.id, weapon.clip1) {
        return Readiness::NotReady;
    }
    if check.primary_attack_ready {
        Readiness::Ready
    } else {
        Readiness::NotReady
    }
}

/// The aim assist's target state as plain values: the entity aimed at, the
/// hitbox chosen on it (with its point), the time spent aiming, and whether
/// the target was chosen on this tick.
pub struct AimTrackView<T, H, A> {
    pub target: Option<T>,
    pub hitbox: Option<H>,
    pub aim_time: Option<A>,
    pub target_set_tick0: bool,
}

impl<T, H, A> AimTrackView<T, H, A> {
    /// A hitbox only with a target, an aim time only with a hitbox, and the
    /// tick-0 flag only with a target.
    pub open spec fn consistent(self) -> bool {
        &&& self.hitbox is Some ==> self.target is Some
        &&& self.aim_time is Some ==> self.hitbox is Some
        &&& self.target_set_tick0 ==> self.target is Some
    }
}

/// No target, no hitbox, no aim time.
pub open spec fn idle<T, H, A>() -> AimTrackView<T, H, A> {
    AimTrackView { target: None, hitbox: None, aim_time: None, target_set_tick0: false }
}

/// The attack stage: while attack is held the aim assist lets go of
/// everything and stops for this tick.
pub open spec fn after_trigger<T, H, A>(v: AimTrackView<T, H, A>, attack_held: bool) -> (
    AimTrackView<T, H, A>,
    bool,
) {
    if attack_held {
        (idle(), false)
    } else {
        (v, true)
    }
}

/// The target stage: a target it has is kept while `target_usable` (alive
/// and in view of the network), no longer counting as chosen on this tick,
/// and dropped with everything else otherwise; without a target it takes
/// `best`, the nearest enemy the caller found, if any.
pub open spec fn after_set_target<T, H, A>(
    v: AimTrackView<T, H, A>,
    target_usable: bool,
    best: Option<T>,
) -> (AimTrackView<T, H, A>, bool) {
    match v.target {
        Some(_) => if target_usable {
            (AimTrackView { target_set_tick0: false, ..v }, true)
        } else {
            (idle(), false)
        },
        None => match best {
            Some(t) => (AimTrackView { target: Some(t), target_set_tick0: true, ..v }, true),
            None => (v, false),
        },
    }
}

/// The hitbox stage: with a target, the hitbox the caller found (the
/// chosen one moved to where it is now, or the best one on a new target)
/// is taken; without one, or when the caller found none, nothing changes.
pub open spec fn after_set_hitbox<T, H, A>(v: AimTrackView<T, H, A>, found: Option<H>) -> (
    AimTrackView<T, H, A>,
    bool,
) {
    if v.target is None {
        (v, false)
    } else {
        match found {
            Some(h) => (AimTrackView { hitbox: Some(h), ..v }, true),
            None => (v, false),
        }
    }
}

/// The readiness stage: ready goes on, not ready stops for this tick, and
/// dropping the target lets go of everything.
pub open spec fn after_readiness<T, H, A>(v: AimTrackView<T, H, A>, r: Readiness) -> (
    AimTrackView<T, H, A>,
    bool,
) {
    match r {
        Readiness::Ready => (v, true),
        Readiness::NotReady => (v, false),
        Readiness::DropTarget => (idle(), false),
    }
}

/// The aiming stage, with a target and a hitbox: the first tick only starts
/// the clock at `start` and leaves the view alone; every later tick turns
/// the view and moves the clock on to `advanced`.
pub open spec fn after_aim<T, H, A>(v: AimTrackView<T, H, A>, start: A, advanced: A) -> (
    AimTrackView<T, H, A>,
    bool,
) {
    if v.target is Some && v.hitbox is Some {
        match v.aim_time {
            None => (AimTrackView { aim_time: Some(start), ..v }, false),
            Some(_) => (AimTrackView { aim_time: Some(advanced), ..v }, true),
        }
    } else {
        (v, false)
    }
}

/// The aim assist's target state. What a target, a hitbox and an aim time
/// are is up to the caller; when each is taken, kept or dropped is decided
/// here, one stage of a tick at a time.
pub struct AimTrack<T, H, A> {
    target: Option<T>,
    hitbox: Option<H>,
    aim_time: Option<A>,
    target_set_tick0: bool,
}

impl<T, H, A> View for AimTrack<T, H, A> {
    type V = AimTrackView<T, H, A>;

    closed spec fn view(&self) -> AimTrackView<T, H, A> {
        AimTrackView {
            target: self.target,
            hitbox: self.hitbox,
            aim_time: self.aim_time,
            target_set_tick0: self.target_set_tick0,
        }
    }
}

impl<T, H, A> AimTrack<T, H, A> {
    #[verifier::type_invariant]
    spec fn well_formed(self) -> bool {
        self@.consistent()
    }

    /// A track with no target.
    pub fn new() -> (track: Self)
        ensures
            track@ == idle::<T, H, A>(),
    {
        AimTrack { target: None, hitbox: None, aim_time: None, target_set_tick0: false }
    }

    /// The target aimed at, if any.
    pub fn target(&self) -> (target: Option<&T>)
        ensures
            target is Some <==> self@.target is Some,
            target is Some ==> *target->0 == self@.target->0,
    {
        self.target.as_ref()
    }

    /// The hitbox chosen on the target, if any.
    pub fn hitbox(&self) -> (hitbox: Option<&H>)
        ensures
            hitbox is Some <==> self@.hitbox is Some,
            hitbox is Some ==> *hitbox->0 == self@.hitbox->0,
    {
        self.hitbox.as_ref()
    }

    /// The time spent aiming, once aiming has started.
    pub fn aim_time(&self) -> (aim_time: Option<&A>)
        ensures
            aim_time is Some <==> self@.aim_time is Some,
            aim_time is Some ==> *aim_time->0 == self@.aim_time->0,
    {
        self.aim_time.as_ref()
    }

    /// Whether the target was chosen on this tick.
    pub fn target_set_tick0(&self) -> (tick0: bool)
        ensures
            tick0 == self@.target_set_tick0,
    {
        self.target_set_tick0
    }

    /// Lets go of the target, its hitbox and the aim time.
    pub fn reset(&mut self)
        ensures
            final(self)@ == idle::<T, H, A>(),
    {
        proof {
            use_type_invariant(&*self);
        }
        self.aim_time = None;
        self.hitbox = None;
        self.target_set_tick0 = false;
        self.target = None;
    }

    /// The attack stage; the result says whether the tick goes on.
    pub fn triggered(&mut self, attack_held: bool) -> (go_on: bool)
        ensures
            (final(self)@, go_on) == after_trigger(old(self)@, attack_held),
    {
        if attack_held {
            self.reset();
            false
        } else {
            true
        }
    }

    /// The target stage; the result says whether there is a target.
    pub fn set_target(&mut self, target_usable: bool, best: Option<T>) -> (has_target: bool)
        ensures
            (final(self)@, has_target) == after_set_target(old(self)@, target_usable, best),
    {
        proof {
            use_type_invariant(&*self);
        }
        if self.target.is_some() {
            if target_usable {
                self.target_set_tick0 = false;
                true
            } else {
                self.reset();
                false
            }
        } else {
            match best {
                Some(t) => {
                    self.target = Some(t);
                    self.target_set_tick0 = true;
                    true
                },
                None => false,
            }
        }
    }

    /// The hitbox stage; the result says whether there is a hitbox to aim at.
    pub fn set_hitbox(&mut self, found: Option<H>) -> (has_hitbox: bool)
        ensures
            (final(self)@, has_hitbox) == after_set_hitbox(old(self)@, found),
    {
        if self.target.is_none() {
            return false;
        }
        match found {
            Some(h) => {
                self.hitbox = Some(h);
                true
            },
            None => false,
        }
    }

    /// The readiness stage; the result says whether to aim this tick.
    pub fn apply_readiness(&mut self, r: Readiness) -> (ready: bool)
        ensures
            (final(self)@, ready) == after_readiness(old(self)@, r),
    {
        match r {
            Readiness::Ready => true,
            Readiness::NotReady => false,
            Readiness::DropTarget => {
                self.reset();
                false
            },
        }
    }

    /// The aiming stage; the result says whether to turn the view.
    pub fn advance_aim(&mut self, start: A, advanced: A) -> (turn_view: bool)
        ensures
            (final(self)@, turn_view) == after_aim(old(self)@, start, advanced),
    {
        if self.target.is_none() || self.hitbox.is_none() {
            return false;
        }
        if self.aim_time.is_none() {
            self.aim_time = Some(start);
            false
        } else {
            self.aim_time = Some(advanced);
            true
        }
    }
}

/// Every stage keeps the target state consistent.
pub proof fn lemma_stages_keep_consistent<T, H, A>(
    v: AimTrackView<T, H, A>,
    attack_held: bool,
    target_usable: bool,
    best: Option<T>,
    found: Option<H>,
    r: Readiness,
    start: A,
    advanced: A,
)
    requires
        v.consistent(),
    ensures
        after_trigger(v, attack_held).0.consistent(),
        after_set_target(v, target_usable, best).0.consistent(),
        after_set_hitbox(v, found).0.consistent(),
        after_readiness(v, r).0.consistent(),
        after_aim(v, start, advanced).0.consistent(),
{
}

/// The tick-0 flag is set when a target is found on the tick it is chosen,
/// and clear otherwise: after the target stage goes on, the flag holds
/// exactly when there was no target before it; holding attack, dropping the
/// target or losing it clears it, and the stages after the target stage
/// leave it alone.
pub proof fn lemma_tick0<T, H, A>(
    v: AimTrackView<T, H, A>,
    attack_held: bool,
    target_usable: bool,
    best: Option<T>,
    found: Option<H>,
    r: Readiness,
    start: A,
    advanced: A,
)
    requires
        v.consistent(),
    ensures
        after_set_target(v, target_usable, best).1 ==> (after_set_target(
            v,
            target_usable,
            best,
        ).0.target_set_tick0 <==> v.target is None),
        !after_set_target(v, target_usable, best).0.target_set_tick0 || after_set_target(
            v,
            target_usable,
            best,
        ).1,
        attack_held ==> !after_trigger(v, attack_held).0.target_set_tick0,
        after_set_hitbox(v, found).0.target_set_tick0 == v.target_set_tick0,
        after_aim(v, start, advanced).0.target_set_tick0 == v.target_set_tick0,
        r != Readiness::DropTarget ==> after_readiness(v, r).0.target_set_tick0
            == v.target_set_tick0,
{
}

/// Holding attack, or the readiness rule dropping the target, always lets
/// go of everything; a new target starts with no hitbox and no aim time.
pub proof fn lemma_release<T, H, A>(v: AimTrackView<T, H, A>, target_usable: bool, best: Option<T>)
    requires
        v.consistent(),
    ensures
        after_trigger(v, true) == (idle::<T, H, A>(), false),
        after_readiness(v, Readiness::DropTarget) == (idle::<T, H, A>(), false),
        v.target is None && after_set_target(v, target_usable, best).1 ==> {
            let w = after_set_target(v, target_usable, best).0;
            w.hitbox is None && w.aim_time is None
        },
{
}

/// On a target and hitbox, the first aiming tick leaves the view alone and
/// starts the clock; every tick after that turns the view.
pub proof fn lemma_first_aim_tick<T, H, A>(v: AimTrackView<T, H, A>, start: A, advanced: A)
    requires
        v.target is Some,
        v.hitbox is Some,
    ensures
        v.aim_time is None ==> !after_aim(v, start, advanced).1 && after_aim(
            v,
            start,
            advanced,
        ).0.aim_time == Some(start),
        v.aim_time is Some ==> after_aim(v, start, advanced).1 && after_aim(
            v,
            start,
            advanced,
        ).0.aim_time == Some(advanced),
        after_aim(after_aim(v, start, advanced).0, start, advanced).1,
{
}

/// One tick of the aim assist: the stages in the order a tick runs them,
/// stopping at the first that does not go on. Attack, then the weapon's
/// configuration (`weapon_supported`, what `set_for_weapon` answered), the
/// target, the hitbox, readiness, and aiming. The result says whether the
/// view is turned.
pub open spec fn after_tick<T, H, A>(
    v: AimTrackView<T, H, A>,
    attack_held: bool,
    weapon_supported: bool,
    target_usable: bool,
    best: Option<T>,
    found: Option<H>,
    r: Readiness,
    start: A,
    advanced: A,
) -> (AimTrackView<T, H, A>, bool) {
    let triggered = after_trigger(v, attack_held);
    if !triggered.1 || !weapon_supported {
        (triggered.0, false)
    } else {
        let targeted = after_set_target(triggered.0, target_usable, best);
        if !targeted.1 {
            (targeted.0, false)
        } else {
            let aimed = after_set_hitbox(targeted.0, found);
            if !aimed.1 {
                (aimed.0, false)
            } else {
                let ready = after_readiness(aimed.0, r);
                if !ready.1 {
                    (ready.0, false)
                } else {
                    after_aim(ready.0, start, advanced)
                }
            }
        }
    }
}

/// Over a whole tick the target state stays consistent, and the tick-0
/// flag rises only on the tick a target is first found: if it is set after
/// a tick and was not before, there was no target before the tick and
/// there is one after it. A tick that reaches the target stage with a
/// target already held ends with the flag clear.
pub proof fn lemma_tick<T, H, A>(
    v: AimTrackView<T, H, A>,
    attack_held: bool,
    weapon_supported: bool,
    target_usable: bool,
    best: Option<T>,
    found: Option<H>,
    r: Readiness,
    start: A,
    advanced: A,
)
    requires
        v.consistent(),
    ensures
        after_tick(
            v,
            attack_held,
            weapon_supported,
            target_usable,
            best,
            found,
            r,
            start,
            advanced,
        ).0.consistent(),
        ({
            let w = after_tick(
                v,
                attack_held,
                weapon_supported,
                target_usable,
                best,
                found,
                r,
                start,
                advanced,
            ).0;
            w.target_set_tick0 && !v.target_set_tick0 ==> v.target is None && w.target is Some
        }),
        !attack_held && weapon_supported && v.target is Some ==> !after_tick(
            v,
            attack_held,
            weapon_supported,
            target_usable,
            best,
            found,
            r,
            start,
            advanced,
        ).0.target_set_tick0,
{
    let t1 = after_trigger(v, attack_held);
    lemma_stages_keep_consistent(v, attack_held, target_usable, best, found, r, start, advanced);
    let t2 = after_set_target(t1.0, target_usable, best);
    lemma_stages_keep_consistent(t1.0, attack_held, target_usable, best, found, r, start, advanced);
    let t3 = after_set_hitbox(t2.0, found);
    lemma_stages_keep_consistent(t2.0, attack_held, target_usable, best, found, r, start, advanced);
    let t4 = after_readiness(t3.0, r);
    lemma_stages_keep_consistent(t3.0, attack_held, target_usable, best, found, r, start, advanced);
    lemma_stages_keep_consistent(t4.0, attack_held, target_usable, best, found, r, start, advanced);
}

/// The readiness rule in full, over the facts themselves. The aim assist
/// acts only when there is a target, a hitbox and a weapon; the hitbox is
/// visible, on every tick; the target is not being dropped; the weapon is
/// loaded and not reloading; no attack is pending; in pistol mode an odd
/// number of rounds has left the magazine (13 for the P250 and P2000, 18
/// for the Tec-9, 20 for the Glock and Five-SeveN, 12 for the USP-S, and no
/// other weapon fires); and the primary attack is ready. It drops the
/// target exactly when the hitbox is visible but, on the tick the target
/// was chosen, beyond the widest angle. Pistol mode only ever takes
/// `Ready` away, and a hidden hitbox is never aimed at nor dropped.
pub proof fn lemma_readiness(check: ReadinessCheck, pistol_mode: bool)
    ensures
        readiness_of(check, pistol_mode) == Readiness::Ready <==> {
            &&& check.has_target && check.has_hitbox
            &&& check.weapon is Some
            &&& check.target_visible
            &&& !(check.target_set_tick0 && check.fov_exceeds_max)
            &&& !check.weapon->0.is_reloading && check.weapon->0.clip1 > 0
            &&& !check.next_attack_pending
            &&& pistol_mode ==> {
                let id = check.weapon->0.id;
                let c = check.weapon->0.clip1 as int;
                ||| id == ItemDefIndices::P250 && (13 - c) % 2 == 1
                ||| id == ItemDefIndices::TEC9 && (18 - c) % 2 == 1
                ||| id == ItemDefIndices::GLOCK && (20 - c) % 2 == 1
                ||| id == ItemDefIndices::USP_SILENCER && (12 - c) % 2 == 1
                ||| id == ItemDefIndices::HKP2000 && (13 - c) % 2 == 1
                ||| id == ItemDefIndices::FIVESEVEN && (20 - c) % 2 == 1
            }
            &&& check.primary_attack_ready
        },
        readiness_of(check, pistol_mode) == Readiness::DropTarget <==> {
            &&& check.has_target && check.has_hitbox
            &&& check.weapon is Some
            &&& check.target_visible
            &&& check.target_set_tick0 && check.fov_exceeds_max
        },
        !check.target_visible ==> readiness_of(check, pistol_mode) == Readiness::NotReady,
        readiness_of(check, true) == Readiness::Ready ==> readiness_of(check, false)
            == Readiness::Ready,
        readiness_of(check, true) == Readiness::DropTarget <==> readiness_of(check, false)
            == Readiness::DropTarget,
{
}

/// The weapons the aim assist supports, and the configuration of each:
/// the rifles and submachine guns (AK-47, M4A1, MP9, MP7, Galil AR, FAMAS,
/// P90, SG 553) lock on with the rifle curve within 16 degrees, aiming at
/// the head then the lower chest; the AWP and SSG 08 within 24 degrees at
/// neck, chest, stomach and lower chest; the Desert Eagle within 12 at the
/// head; the six pistols in pistol mode within 14 at the head. No other
/// weapon is supported.
pub proof fn lemma_weapon_table(w: ItemDefIndices)
    ensures
        (w == ItemDefIndices::AK47 || w == ItemDefIndices::M4A1 || w == ItemDefIndices::MP9
            || w == ItemDefIndices::MP7 || w == ItemDefIndices::GALILAR || w
            == ItemDefIndices::FAMAS || w == ItemDefIndices::P90 || w == ItemDefIndices::SG556)
            ==> weapon_config(w) == Some(
            (
                false,
                Some(SmoothFn::RifleCurve),
                16u32,
                seq![HitBoxes::Head, HitBoxes::LowerChest],
                true,
            ),
        ),
        (w == ItemDefIndices::AWP || w == ItemDefIndices::SSG08) ==> weapon_config(w) == Some(
            (
                false,
                None::<SmoothFn>,
                24u32,
                seq![HitBoxes::Neck, HitBoxes::Chest, HitBoxes::Stomach, HitBoxes::LowerChest],
                false,
            ),
        ),
        w == ItemDefIndices::DEAGLE ==> weapon_config(w) == Some(
            (false, None::<SmoothFn>, 12u32, seq![HitBoxes::Head], false),
        ),
        (w == ItemDefIndices::P250 || w == ItemDefIndices::TEC9 || w == ItemDefIndices::GLOCK
            || w == ItemDefIndices::USP_SILENCER || w == ItemDefIndices::HKP2000 || w
            == ItemDefIndices::FIVESEVEN) ==> weapon_config(w) == Some(
            (true, None::<SmoothFn>, 14u32, seq![HitBoxes::Head], false),
        ),
        weapon_config(w) is Some <==> (w == ItemDefIndices::AK47 || w == ItemDefIndices::M4A1
            || w == ItemDefIndices::MP9 || w == ItemDefIndices::MP7 || w == ItemDefIndices::GALILAR
            || w == ItemDefIndices::FAMAS || w == ItemDefIndices::P90 || w
            == ItemDefIndices::SG556 || w == ItemDefIndices::AWP || w == ItemDefIndices::SSG08
            || w == ItemDefIndices::DEAGLE || w == ItemDefIndices::P250 || w
            == ItemDefIndices::TEC9 || w == ItemDefIndices::GLOCK || w
            == ItemDefIndices::USP_SILENCER || w == ItemDefIndices::HKP2000 || w
            == ItemDefIndices::FIVESEVEN),
{
}

/// A supported weapon gets its own configuration; any other weapon gets the
/// default one, whose widest angle is the largest of all.
pub proof fn lemma_weapon_configs(weapon: ItemDefIndices)
    ensures
        weapon_config(weapon) matches Some(c) ==> c.2 < default_config().2 && c.3.len() > 0,
        weapon_config(weapon) matches Some(c) ==> (c.0 <==> pistol_magazine(weapon) is Some),
{
}

} // verus!
