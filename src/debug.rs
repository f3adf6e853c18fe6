use vstd::prelude::*;

use crate::exorcism::investigating;
use crate::geometry::Point;
use crate::ghost::GhostState;
use crate::states::{JournalState, MenuState, Role, RoleState};

verus! {

/// Whether the evidence debug overlay is on.
#[derive(Clone, Copy, Debug, PartialEq, Eq, Structural)]
pub struct DebugOverlayState {
    pub enabled: bool,
}

/// The sphere drawn around the investigator's tool.
#[derive(Clone, Copy, Debug, PartialEq, Eq, Structural)]
pub struct DebugToolBubble {
    pub position: Point,
    pub visible: bool,
}

/// The sphere drawn around the ghost's influence.
#[derive(Clone, Copy, Debug, PartialEq, Eq, Structural)]
pub struct DebugGhostBubble {
    pub position: Point,
    pub visible: bool,
}

/// The ray drawn along the investigator's facing; the presentation layer
/// places and turns it.
#[derive(Clone, Copy, Debug, PartialEq, Eq, Structural)]
pub struct DebugFacingRay {
    pub visible: bool,
}

/// F3 flips the overlay.
pub fn toggle_debug_overlay(f3_pressed: bool, debug: &mut DebugOverlayState)
    ensures
        final(debug).enabled == (old(debug).enabled != f3_pressed),
{
    if f3_pressed {
        debug.enabled = !debug.enabled;
    }
}

/// The overlay shows while enabled and the investigator is at play; with a
/// player, the bubbles sit on the player and the ghost. Without one nothing
/// changes.
pub fn sync_debug_overlay(
    debug: &DebugOverlayState,
    menu: &MenuState,
    journal: &JournalState,
    role: &RoleState,
    ghost: &GhostState,
    player: Option<Point>,
    tool: &mut DebugToolBubble,
    ghost_bubble: &mut DebugGhostBubble,
    ray: &mut DebugFacingRay,
)
    ensures
        player is None ==> *final(tool) == *old(tool) && *final(ghost_bubble) == *old(ghost_bubble) && *final(ray)
            == *old(ray),
        player is Some ==> {
            let visible = debug.enabled && investigating(*menu, *journal, *role);
            &&& *final(tool) == (DebugToolBubble { position: player.unwrap(), visible })
            &&& *final(ghost_bubble) == (DebugGhostBubble { position: ghost.position, visible })
            &&& final(ray).visible == visible
        },
{
    let visible = debug.enabled && !menu.open && !journal.open && role.current == Role::Investigator;
    let p = match player {
        Some(p) => p,
        None => {
            return;
        },
    };
    *tool = DebugToolBubble { position: p, visible };
    *ghost_bubble = DebugGhostBubble { position: ghost.position, visible };
    ray.visible = visible;
}

} // verus!
