//! The session state machine: `Playing` until either a quit or the goal is
//! found, then `Animating` (the goal celebration) and `Done`.  The decision
//! for one event is a verified function of the world and the event; the
//! unverified shell runs the surrounding loop, reading keys and drawing.

use vstd::prelude::*;

use crate::controller::{Direction, GameEvent};
use crate::playground::{spec_move, Object, Playground};

verus! {

/// Where the session stands.  `Animating` carries into the celebration; it
/// accepts no further input and is followed by `Done` unconditionally.
#[derive(Clone, Copy, PartialEq, Eq, Structural, Debug)]
pub enum SessionState {
    Playing,
    Animating,
    Done,
}

/// The full effect of one action while `Playing`: the world afterwards, the
/// next state, and the goal object to celebrate when one was just found.
pub open spec fn spec_session_step(pg: Playground, ev: GameEvent) -> (Playground, SessionState, Option<
    Object,
>) {
    match ev {
        GameEvent::Quit => (pg, SessionState::Done, None),
        GameEvent::Move(dir) => {
            let (npg, found) = spec_move(pg, dir);
            match found {
                Some(obj) => if obj.is_kitten {
                    (npg, SessionState::Animating, Some(obj))
                } else {
                    (npg, SessionState::Playing, None)
                },
                None => (npg, SessionState::Playing, None),
            }
        },
    }
}

/// Applies one semantic action while `Playing`.  A quit moves straight to
/// `Done`, touching neither the world nor the animation; a move is applied
/// to the world, and only an encountered goal object leaves `Playing`,
/// carrying that object into `Animating`.
pub fn session_step(pg: &mut Playground, ev: GameEvent) -> (r: (SessionState, Option<Object>))
    requires
        old(pg).wf(),
    ensures
        final(pg).wf(),
        (*final(pg), r.0, r.1) == spec_session_step(*old(pg), ev),
        ev == GameEvent::Quit ==> *final(pg) == *old(pg) && r.0 == SessionState::Done && r.1
            is None,
        r.0 == SessionState::Animating <==> (r.1 matches Some(obj) && obj.is_kitten),
{
    match ev {
        GameEvent::Quit => (SessionState::Done, None),
        GameEvent::Move(dir) => {
            let found = pg.move_player(dir);
            match found {
                Some(obj) => {
                    if obj.is_kitten {
                        (SessionState::Animating, Some(obj))
                    } else {
                        (SessionState::Playing, None)
                    }
                },
                None => (SessionState::Playing, None),
            }
        },
    }
}

} // verus!
