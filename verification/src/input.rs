//! Input dispatch: the decision half of the frame loop. The loop itself
//! blocks on the input source, hands the decoded key to `handle_keys`, and
//! then performs whatever the returned outcome asks of the display.
use vstd::prelude::*;

use crate::object::move_outcome;
use crate::object::Object;
use crate::Game;

verus! {

/// One decoded key event the frame loop reacts to. Anything the loop does
/// not care about arrives as `Other`.
#[derive(Clone, Copy, Debug, PartialEq, Eq, Structural)]
pub enum KeyInput {
    Up,
    Down,
    Left,
    Right,
    Escape,
    AltEnter,
    Other,
}

/// The unit step a directional key asks for; `None` for every other key.
pub open spec fn key_delta(key: KeyInput) -> Option<(int, int)> {
    match key {
        KeyInput::Up => Some((0int, -1int)),
        KeyInput::Down => Some((0int, 1int)),
        KeyInput::Left => Some((-1int, 0int)),
        KeyInput::Right => Some((1int, 0int)),
        _ => None,
    }
}

/// What the caller must do once a key was dispatched: leave the loop, or
/// ask the display to toggle its fullscreen flag. Both are display or
/// lifecycle effects; neither touches the session state.
#[derive(Clone, Copy, Debug, PartialEq, Eq, Structural)]
pub struct KeyOutcome {
    pub exit: bool,
    pub toggle_fullscreen: bool,
}

/// Dispatch one key event: quit on escape, request a fullscreen toggle on
/// alt+enter, step the player by the unit delta for the four directional
/// keys, and ignore everything else.
pub fn handle_keys(key: KeyInput, game: &Game, player: &mut Object) -> (r: KeyOutcome)
    requires
        game.map.wf(),
    ensures
        r.exit == (key == KeyInput::Escape),
        r.toggle_fullscreen == (key == KeyInput::AltEnter),
        (match key_delta(key) {
            Some(d) => move_outcome(*old(player), *final(player), game.map, d.0, d.1),
            None => *final(player) == *old(player),
        }),
{
    match key {
        KeyInput::AltEnter => KeyOutcome { exit: false, toggle_fullscreen: true },
        KeyInput::Escape => KeyOutcome { exit: true, toggle_fullscreen: false },
        KeyInput::Up => {
            player.move_by(0, -1, game);
            KeyOutcome { exit: false, toggle_fullscreen: false }
        },
        KeyInput::Down => {
            player.move_by(0, 1, game);
            KeyOutcome { exit: false, toggle_fullscreen: false }
        },
        KeyInput::Left => {
            player.move_by(-1, 0, game);
            KeyOutcome { exit: false, toggle_fullscreen: false }
        },
        KeyInput::Right => {
            player.move_by(1, 0, game);
            KeyOutcome { exit: false, toggle_fullscreen: false }
        },
        KeyInput::Other => KeyOutcome { exit: false, toggle_fullscreen: false },
    }
}

} // verus!
