//! The records that pass between the host and a plugin.
//!
//! The host produces activities and categories and a plugin reads them; a
//! plugin declares migrations and the host applies them. None of them is
//! changed once it has been built.

use vstd::prelude::*;

verus! {

/// A stretch of time spent in one window of one application.
#[derive(Debug, Clone)]
pub struct Activity {
    /// Unset until the host has stored the activity.
    pub id: Option<i64>,
    pub app_name: String,
    pub window_title: String,
    pub started_at: i64,
    pub ended_at: Option<i64>,
    pub category_id: Option<i64>,
}

/// What an [`Activity`] holds, as mathematical values.
pub struct ActivityView {
    pub id: Option<i64>,
    pub app_name: Seq<char>,
    pub window_title: Seq<char>,
    pub started_at: i64,
    pub ended_at: Option<i64>,
    pub category_id: Option<i64>,
}

impl View for Activity {
    type V = ActivityView;

    open spec fn view(&self) -> ActivityView {
        ActivityView {
            id: self.id,
            app_name: self.app_name@,
            window_title: self.window_title@,
            started_at: self.started_at,
            ended_at: self.ended_at,
            category_id: self.category_id,
        }
    }
}

/// A named, coloured group of activities.
#[derive(Debug, Clone)]
pub struct Category {
    /// Unset until the host has stored the category.
    pub id: Option<i64>,
    pub name: String,
    pub color: String,
}

/// What a [`Category`] holds, as mathematical values.
pub struct CategoryView {
    pub id: Option<i64>,
    pub name: Seq<char>,
    pub color: Seq<char>,
}

impl View for Category {
    type V = CategoryView;

    open spec fn view(&self) -> CategoryView {
        CategoryView { id: self.id, name: self.name@, color: self.color@ }
    }
}

/// One step in the evolution of a plugin's schema: the host runs `sql` to
/// reach `version`.
pub struct Migration {
    pub version: i32,
    pub sql: String,
}

/// What a [`Migration`] holds, as mathematical values.
pub struct MigrationView {
    pub version: i32,
    pub sql: Seq<char>,
}

impl View for Migration {
    type V = MigrationView;

    open spec fn view(&self) -> MigrationView {
        MigrationView { version: self.version, sql: self.sql@ }
    }
}

/// The kinds of event a plugin can subscribe to.
pub enum EventType {
    ActivityRecorded,
    CategoryCreated,
    ProjectCreated,
}

/// Something that happened in the host, with its payload.
pub struct Event {
    pub event_type: EventType,
    pub data: serde_json::Value,
}

/// The host's name for one subscription.
#[derive(Debug, Clone, Copy)]
pub struct SubscriptionId(pub i64);

} // verus!
