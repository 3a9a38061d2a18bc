//! The synthesized copy shortcut: command down, C down, C up, command up.

use vstd::prelude::*;
use crate::model::{KeyFailure, SelectionError};
use crate::protocol::{Effect, Event, KeyPost, KeyStroke, Step};

verus! {

/// Virtual key code of the command modifier.
pub const CMD_KEY: u16 = 0x37;

/// Virtual key code of the letter C.
pub const KEY_C: u16 = 8;

/// Milliseconds to let the input queue drain after each key event.
pub const SETTLE_DELAY_MS: u64 = 20;

/// What a key event that was to be posted comes to: success where it was
/// posted, else `EventSimulationFailed` with the part that could not be built.
pub open spec fn simulated(post: KeyPost) -> Result<(), SelectionError> {
    match post {
        KeyPost::Posted => Ok(()),
        KeyPost::NoEventSource => Err(
            SelectionError::EventSimulationFailed(KeyFailure::NoEventSource),
        ),
        KeyPost::NoKeyboardEvent => Err(
            SelectionError::EventSimulationFailed(KeyFailure::NoKeyboardEvent),
        ),
    }
}

/// Whether a key event was built and posted: neither a missing event source
/// nor a missing keyboard event is recovered from.
pub fn simulate(post: KeyPost) -> (r: Result<(), SelectionError>)
    ensures
        r == simulated(post),
{
    match post {
        KeyPost::Posted => Ok(()),
        KeyPost::NoEventSource => Err(
            SelectionError::EventSimulationFailed(KeyFailure::NoEventSource),
        ),
        KeyPost::NoKeyboardEvent => Err(
            SelectionError::EventSimulationFailed(KeyFailure::NoKeyboardEvent),
        ),
    }
}

/// Which key event of the copy shortcut is under way.
#[derive(Debug, Clone, Copy, PartialEq, Eq, Structural)]
pub enum CopyKeys {
    /// Nothing was asked yet.
    Start,
    CommandDown,
    CDown,
    CUp,
    CommandUp,
}

/// A transition of the copy shortcut.
pub type CopyKeysStep<T> = Step<CopyKeys, T, Result<(), SelectionError>>;

impl CopyKeys {
    /// The key event that is under way, where one is: the modifier goes down
    /// first and comes up last, and the letter goes down and up in between.
    pub open spec fn stroke(self) -> Option<KeyStroke> {
        match self {
            CopyKeys::Start => None,
            CopyKeys::CommandDown => Some(KeyStroke { key: CMD_KEY, key_down: true }),
            CopyKeys::CDown => Some(KeyStroke { key: KEY_C, key_down: true }),
            CopyKeys::CUp => Some(KeyStroke { key: KEY_C, key_down: false }),
            CopyKeys::CommandUp => Some(KeyStroke { key: CMD_KEY, key_down: false }),
        }
    }

    /// How many key events are still to be posted, the one under way included.
    pub open spec fn remaining(self) -> nat {
        match self {
            CopyKeys::Start => 5,
            CopyKeys::CommandDown => 4,
            CopyKeys::CDown => 3,
            CopyKeys::CUp => 2,
            CopyKeys::CommandUp => 1,
        }
    }

    /// The key event that follows this one, where one does.
    pub open spec fn following(self) -> Option<CopyKeys> {
        match self {
            CopyKeys::Start => Some(CopyKeys::CommandDown),
            CopyKeys::CommandDown => Some(CopyKeys::CDown),
            CopyKeys::CDown => Some(CopyKeys::CUp),
            CopyKeys::CUp => Some(CopyKeys::CommandUp),
            CopyKeys::CommandUp => None,
        }
    }
}

/// The step that asks for the key event of `next` to be posted and to settle.
pub open spec fn posting<T>(next: CopyKeys) -> CopyKeysStep<T> {
    Step::Next(next, Effect::PostKey { stroke: next.stroke().unwrap(), settle_ms: SETTLE_DELAY_MS })
}

/// The transition function of [`sim_ctrl_c`].
pub open spec fn copy_keys_spec<T>(pre: CopyKeys, event: Event<T>) -> CopyKeysStep<T> {
    match (pre, event) {
        (CopyKeys::Start, Event::Begin) => posting(CopyKeys::CommandDown),
        (CopyKeys::Start, _) => Step::Next(pre, Effect::Idle),
        (_, Event::KeyPosted(post)) => match simulated(post) {
            Err(e) => Step::Done(Err(e)),
            Ok(_) => match pre.following() {
                Some(next) => posting(next),
                None => Step::Done(Ok(())),
            },
        },
        _ => Step::Next(pre, Effect::Idle),
    }
}

/// One transition of the synthesized copy shortcut.
///
/// The four key events are asked for one after the other, each only once the
/// one before was posted. The first that cannot be built ends the stage with
/// `EventSimulationFailed`; the fourth, posted, ends it with success.
pub fn sim_ctrl_c<T>(stage: CopyKeys, event: Event<T>) -> (r: CopyKeysStep<T>)
    ensures
        r == copy_keys_spec(stage, event),
{
    match event {
        Event::Begin => match stage {
            CopyKeys::Start => Step::Next(
                CopyKeys::CommandDown,
                Effect::PostKey {
                    stroke: KeyStroke { key: CMD_KEY, key_down: true },
                    settle_ms: SETTLE_DELAY_MS,
                },
            ),
            _ => Step::Next(stage, Effect::Idle),
        },
        Event::KeyPosted(post) => match stage {
            CopyKeys::Start => Step::Next(stage, Effect::Idle),
            _ => match simulate(post) {
                Err(e) => Step::Done(Err(e)),
                Ok(()) => match stage {
                    CopyKeys::CommandDown => Step::Next(
                        CopyKeys::CDown,
                        Effect::PostKey {
                            stroke: KeyStroke { key: KEY_C, key_down: true },
                            settle_ms: SETTLE_DELAY_MS,
                        },
                    ),
                    CopyKeys::CDown => Step::Next(
                        CopyKeys::CUp,
                        Effect::PostKey {
                            stroke: KeyStroke { key: KEY_C, key_down: false },
                            settle_ms: SETTLE_DELAY_MS,
                        },
                    ),
                    CopyKeys::CUp => Step::Next(
                        CopyKeys::CommandUp,
                        Effect::PostKey {
                            stroke: KeyStroke { key: CMD_KEY, key_down: false },
                            settle_ms: SETTLE_DELAY_MS,
                        },
                    ),
                    _ => Step::Done(Ok(())),
                },
            },
        },
        _ => Step::Next(stage, Effect::Idle),
    }
}

} // verus!
