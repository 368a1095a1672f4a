//! The data that the relay keeps and exchanges.

use crate::clock::{toward_zero, utc_now, Moment, NANOS_PER_SECOND};
use crate::store::QueueStore;
use crate::uptime::{format_uptime, uptime_text};
use vstd::prelude::*;

verus! {

/// `serde_json::Value`, the content of an item. The library carries it through
/// and never looks inside.
#[verifier::external_type_specification]
#[verifier::external_body]
pub struct ExJsonValue(serde_json::Value);

/// `Clone::clone` of `serde_json::Value`: the copy is the same JSON value as
/// the one it was made from.
pub assume_specification[ <serde_json::Value as Clone>::clone ](v: &serde_json::Value) -> (res:
    serde_json::Value)
    ensures
        res == *v,
;

/// Name, version and authors of the running package.
#[derive(Debug)]
pub struct CargoPkgInfo {
    pub name: String,
    pub version: String,
    pub authors: String,
}

/// The configuration file as a whole.
#[derive(Clone, Debug)]
pub struct TOMLData {
    pub config: Config,
}

/// The `[config]` table of the configuration file.
#[derive(Clone, Debug)]
pub struct Config {
    pub web_host: String,
    pub web_port: u16,
    pub write_logs: bool,
    pub write_logs_file: String,
    pub api_keys: Option<Vec<String>>,
}

impl Config {
    /// The allow-list of the configuration: the keys it names, or none where it
    /// names no list, which leaves the guard open.
    pub fn allow_list(self) -> (keys: Vec<String>)
        ensures
            keys@ == match self.api_keys {
                Some(listed) => listed@,
                None => Seq::<String>::empty(),
            },
    {
        match self.api_keys {
            Some(listed) => listed,
            None => Vec::new(),
        }
    }
}

/// What the process holds while it serves: the time it started, the queue
/// store, and the allow-list of API keys.
pub struct AppState {
    pub start_time: Moment,
    pub item_queue: QueueStore,
    pub api_keys: Vec<String>,
}

/// Whole seconds from `start` to `now`, rounded toward zero.
pub open spec fn elapsed_seconds(start: Moment, now: Moment) -> int {
    toward_zero(now.epoch_nanos() - start.epoch_nanos(), NANOS_PER_SECOND as int)
}

/// The uptime does not run backwards: of two moments, the later one is at
/// least as many whole seconds from the start as the earlier one.
pub proof fn law_uptime_monotone(start: Moment, earlier: Moment, later: Moment)
    requires
        earlier.epoch_nanos() <= later.epoch_nanos(),
    ensures
        elapsed_seconds(start, earlier) <= elapsed_seconds(start, later),
{
}

impl AppState {
    /// The state of a process that starts now: an empty store behind the
    /// given allow-list.
    pub fn new(api_keys: Vec<String>) -> (state: AppState)
        ensures
            state.api_keys == api_keys,
            state.item_queue@ == Seq::<Item>::empty(),
    {
        AppState::started_at(utc_now(), api_keys)
    }

    /// The state of a process that started at `start_time`.
    pub fn started_at(start_time: Moment, api_keys: Vec<String>) -> (state: AppState)
        ensures
            state.start_time == start_time,
            state.api_keys == api_keys,
            state.item_queue@ == Seq::<Item>::empty(),
    {
        AppState { start_time, item_queue: QueueStore::new(), api_keys }
    }

    /// The uptime text for the time that has passed since the start, by the
    /// system clock.
    pub fn uptime(&self) -> (text: String)
        ensures
            exists|now: Moment| text@ == uptime_text(elapsed_seconds(self.start_time, now)),
    {
        let now = utc_now();
        self.uptime_at(&now)
    }

    /// The uptime text at the moment `now`.
    pub fn uptime_at(&self, now: &Moment) -> (text: String)
        ensures
            text@ == uptime_text(elapsed_seconds(self.start_time, *now)),
    {
        format_uptime(now.seconds_since(&self.start_time))
    }
}

/// Body of a response that reports a failure.
#[derive(Debug)]
pub struct WebError {
    pub timestamp: String,
    pub error: String,
}

/// Body of the health response.
#[derive(Debug)]
pub struct WebHealth {
    pub uptime: String,
}

/// What the server records about an item on receipt.
#[derive(Clone, Copy, Debug, PartialEq, Eq, Structural)]
pub struct Meta {
    /// Seconds since the Unix epoch at which the item was received.
    pub received_epoch: i64,
}

/// An item of a queue.
#[derive(Debug)]
pub struct Item {
    pub queue: String,
    pub content: serde_json::Value,
    pub meta: Option<Meta>,
}

impl Clone for Item {
    fn clone(&self) -> (copy: Self)
        ensures
            copy == *self,
    {
        Item { queue: self.queue.clone(), content: self.content.clone(), meta: self.meta }
    }
}

impl Item {
    /// The item with `meta` replaced by a record of the time of receipt.
    pub fn stamped(self, received_epoch: i64) -> (item: Item)
        ensures
            item == (Item { meta: Some(Meta { received_epoch }), ..self }),
    {
        Item { queue: self.queue, content: self.content, meta: Some(Meta { received_epoch }) }
    }
}

} // verus!
