//! Names under which logical actions are published to the session's
//! listeners.

use vstd::prelude::*;
use crate::shortcut::LogicalAction;

verus! {

/// The name of the session event that stands for `action`.
pub open spec fn event_name_of(action: LogicalAction) -> Seq<char> {
    match action {
        LogicalAction::PushToTalkStart => "shortcut-pressed"@,
        LogicalAction::PushToTalkStop => "shortcut-released"@,
        LogicalAction::TriggerPaste => "shortcut-paste"@,
    }
}

/// The point from which logical actions are published, each under a fixed
/// name. Publishing is fire-and-forget: the bus keeps nothing, and a listener
/// that is not there misses the event.
#[derive(Clone, Copy, Debug, PartialEq, Eq, Hash, Structural)]
pub struct SessionEventBus {}

impl SessionEventBus {
    pub fn new() -> (bus: SessionEventBus)
        ensures
            bus == (SessionEventBus {  }),
    {
        SessionEventBus {  }
    }

    /// The name under which `action` is to be published.
    pub fn emit(&self, action: LogicalAction) -> (name: &'static str)
        ensures
            name@ == event_name_of(action),
    {
        match action {
            LogicalAction::PushToTalkStart => "shortcut-pressed",
            LogicalAction::PushToTalkStop => "shortcut-released",
            LogicalAction::TriggerPaste => "shortcut-paste",
        }
    }
}

} // verus!
