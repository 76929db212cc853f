//! Presence data carried in the identify payload and updated over the
//! session.

use vstd::prelude::*;

verus! {

/// The online status the shard advertises.
#[derive(Clone, Copy, Debug, Eq, Hash, PartialEq, Structural)]
pub enum OnlineStatus {
    DoNotDisturb,
    Idle,
    Invisible,
    Offline,
    Online,
}

impl Default for OnlineStatus {
    fn default() -> (r: Self)
        ensures
            r == OnlineStatus::Online,
    {
        OnlineStatus::Online
    }
}

/// An activity shown under the bot's name.
#[derive(Clone, Debug, Eq, PartialEq)]
pub struct ActivityData {
    /// The text of the activity.
    pub name: String,
    /// Optional detail line of the activity.
    pub state: Option<String>,
}

/// The presence the shard sends at identify and on presence updates.
#[derive(Clone, Debug, Eq, PartialEq)]
pub struct PresenceData {
    pub activity: Option<ActivityData>,
    pub status: OnlineStatus,
}

/// The presence a fresh shard starts with: online, with no activity.
pub open spec fn default_presence() -> PresenceData {
    PresenceData { activity: None, status: OnlineStatus::Online }
}

impl Default for PresenceData {
    fn default() -> (r: Self)
        ensures
            r == default_presence(),
    {
        PresenceData { activity: None, status: OnlineStatus::Online }
    }
}

} // verus!
