use vstd::prelude::*;

use crate::structs::cmdbutton::{bits_contain, IN_JUMP};
use crate::structs::entityflags::FL_ONGROUND;
use crate::structs::{CmdButton, EntityFlags, EntityState};

verus! {

/// The buttons after the bunny-hop rule: while the local player is alive
/// and holds jump, jump stays held on the ground and is let go in the air.
pub open spec fn bhop_buttons(bits: i32, local_player: Option<EntityState>) -> i32 {
    match local_player {
        Some(p) => if p.spec_alive() && bits_contain(bits, IN_JUMP) {
            if bits_contain(p.flags@, FL_ONGROUND) {
                bits | IN_JUMP
            } else {
                bits & !IN_JUMP
            }
        } else {
            bits
        },
        None => bits,
    }
}

/// Jumps again as soon as the player lands, for as long as jump is held.
pub struct BHop {}

impl BHop {
    /// The module; it keeps no state.
    pub fn new() -> (module: BHop) {
        BHop {}
    }

    /// Applies the bunny-hop rule to the buttons of the command just built.
    pub fn post_createmove(&mut self, buttons: &mut CmdButton, local_player: Option<EntityState>)
        ensures
            final(buttons)@ == bhop_buttons(old(buttons)@, local_player),
    {
        if let Some(local_player) = local_player {
            if !local_player.alive() {
                return;
            }
            if buttons.contains(CmdButton::in_jump()) {
                if local_player.flags.contains(EntityFlags::on_ground()) {
                    buttons.set(CmdButton::in_jump(), true);
                } else {
                    buttons.set(CmdButton::in_jump(), false);
                }
            }
        }
    }
}

/// The bunny-hop rule never presses jump, never touches another button,
/// and leaves a held jump held exactly while an alive player is on the
/// ground.
pub proof fn lemma_bhop_only_releases_jump(bits: i32, local_player: Option<EntityState>)
    ensures
        bits_contain(bhop_buttons(bits, local_player), IN_JUMP) ==> bits_contain(bits, IN_JUMP),
        bhop_buttons(bits, local_player) & !IN_JUMP == bits & !IN_JUMP,
        local_player matches Some(p) ==> p.spec_alive() && bits_contain(bits, IN_JUMP) ==> (
        bits_contain(bhop_buttons(bits, local_player), IN_JUMP) <==> bits_contain(
            p.flags@,
            FL_ONGROUND,
        )),
{
    assert((bits | 2) & 2 == 2) by (bit_vector);
    assert((bits & !2i32) & 2 != 2) by (bit_vector);
    assert(bits & 2 == 2 ==> (bits | 2) == bits) by (bit_vector);
    assert((bits | 2) & !2i32 == bits & !2i32) by (bit_vector);
    assert((bits & !2i32) & !2i32 == bits & !2i32) by (bit_vector);
}

} // verus!
