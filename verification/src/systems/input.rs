//! The input system: fold the frame's platform events into the shared
//! keyboard state.

use vstd::prelude::*;

use crate::resources::InputState;
use crate::types::{Action, GameEvent, InputEvent, Key};

verus! {

/// The keyboard state after one event: arrow keys and their WASD twins set
/// their direction on press and clear it on release; everything else
/// leaves the state alone.
pub open spec fn apply_event(s: InputState, ev: GameEvent) -> InputState {
    match ev {
        GameEvent::Input(InputEvent::Key(k, a)) => match (k, a) {
            (Key::Left, Action::Press) => InputState { left: true, ..s },
            (Key::A, Action::Press) => InputState { left: true, ..s },
            (Key::Right, Action::Press) => InputState { right: true, ..s },
            (Key::D, Action::Press) => InputState { right: true, ..s },
            (Key::Up, Action::Press) => InputState { up: true, ..s },
            (Key::W, Action::Press) => InputState { up: true, ..s },
            (Key::Down, Action::Press) => InputState { down: true, ..s },
            (Key::S, Action::Press) => InputState { down: true, ..s },
            (Key::Left, Action::Release) => InputState { left: false, ..s },
            (Key::A, Action::Release) => InputState { left: false, ..s },
            (Key::Right, Action::Release) => InputState { right: false, ..s },
            (Key::D, Action::Release) => InputState { right: false, ..s },
            (Key::Up, Action::Release) => InputState { up: false, ..s },
            (Key::W, Action::Release) => InputState { up: false, ..s },
            (Key::Down, Action::Release) => InputState { down: false, ..s },
            (Key::S, Action::Release) => InputState { down: false, ..s },
            _ => s,
        },
        _ => s,
    }
}

/// The keyboard state after a whole queue of events, oldest first.
pub open spec fn fold_events(s: InputState, evs: Seq<GameEvent>) -> InputState
    decreases evs.len(),
{
    if evs.len() == 0 {
        s
    } else {
        apply_event(fold_events(s, evs.drop_last()), evs.last())
    }
}

/// The input system.  It holds no state of its own: the event queue lives
/// with the platform layer and the folded result in the shared
/// [`InputState`].
pub struct InputSystem;

impl InputSystem {
    /// Fold the frame's events, in order, into the keyboard state.
    pub fn run(state: &mut InputState, events: &Vec<GameEvent>)
        ensures
            *final(state) == fold_events(*old(state), events@),
    {
        let n = events.len();
        let mut i: usize = 0;
        while i < n
            invariant
                i <= n,
                n == events@.len(),
                *state == fold_events(*old(state), events@.take(i as int)),
            decreases n - i,
        {
            Self::apply(state, &events[i]);
            proof {
                assert(events@.take(i + 1).drop_last() =~= events@.take(i as int));
                assert(events@.take(i + 1).last() == events@[i as int]);
            }
            i = i + 1;
        }
        proof {
            assert(events@.take(n as int) =~= events@);
        }
    }

    /// Apply one event to the keyboard state.
    pub fn apply(state: &mut InputState, ev: &GameEvent)
        ensures
            *final(state) == apply_event(*old(state), *ev),
    {
        match ev {
            GameEvent::Input(InputEvent::Key(k, a)) => match (*k, *a) {
                (Key::Left, Action::Press) | (Key::A, Action::Press) => {
                    state.left = true;
                },
                (Key::Right, Action::Press) | (Key::D, Action::Press) => {
                    state.right = true;
                },
                (Key::Up, Action::Press) | (Key::W, Action::Press) => {
                    state.up = true;
                },
                (Key::Down, Action::Press) | (Key::S, Action::Press) => {
                    state.down = true;
                },
                (Key::Left, Action::Release) | (Key::A, Action::Release) => {
                    state.left = false;
                },
                (Key::Right, Action::Release) | (Key::D, Action::Release) => {
                    state.right = false;
                },
                (Key::Up, Action::Release) | (Key::W, Action::Release) => {
                    state.up = false;
                },
                (Key::Down, Action::Release) | (Key::S, Action::Release) => {
                    state.down = false;
                },
                _ => {},
            },
            _ => {},
        }
    }
}

} // verus!
