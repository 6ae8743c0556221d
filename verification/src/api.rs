//! The host's programming interface as a plugin holds it before any host is
//! attached.

use vstd::prelude::*;
use crate::records::{Activity, Event, EventType, SubscriptionId};

verus! {

/// Access to the host's activities and events.
///
/// Detached from a host it knows no activity, stores nothing and delivers no
/// event: every query is empty and every identifier is zero.
pub struct PluginAPI {}

impl PluginAPI {
    /// The activities recorded between `start` and `end`: none.
    pub fn get_activities(&self, _start: i64, _end: i64) -> (found: Result<Vec<Activity>, String>)
        ensures
            found matches Ok(activities) && activities@.len() == 0,
    {
        Ok(Vec::new())
    }

    /// Takes `activity` and answers with the identifier it was stored under:
    /// zero, as nothing is stored.
    pub fn create_activity(&self, _activity: Activity) -> (id: Result<i64, String>)
        ensures
            id == Ok::<i64, String>(0),
    {
        Ok(0)
    }

    /// Subscribes `callback` to events of kind `event`. No event is ever
    /// delivered, so the callback is never run; the subscription is number
    /// zero.
    pub fn subscribe<F: Fn(Event)>(&self, _event: EventType, _callback: F) -> (id: SubscriptionId)
        ensures
            id.0 == 0,
    {
        SubscriptionId(0)
    }
}

} // verus!
