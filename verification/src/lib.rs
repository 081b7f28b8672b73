//! Core of a "now playing" tracker: reports of media items that started
//! playing arrive as raw URLs with a timestamp, are validated and enriched
//! with catalog metadata, and are appended to an ordered event log that
//! answers temporal queries (what plays now, what played before, the full
//! history, and the offset into the current item's playback window).

use vstd::prelude::*;

pub mod bot;
pub mod client;
pub mod database;
pub mod duration;
pub mod error;
pub mod server_error;
pub mod util;
pub mod youtube;

verus! {

/// The single ingestion protocol version the store accepts.
pub const CURRENT_API_VERSION: u32 = 1;

/// A raw play report as it arrives from a reporting client: the media
/// reference, the caller-supplied start timestamp in milliseconds since the
/// epoch, and the protocol version the client speaks.
#[derive(Debug)]
pub struct Item {
    pub kind: ItemKind,
    pub ts: i64,
    pub version: u32,
}

/// The kind of media reference carried by a report.
#[derive(Debug)]
pub enum ItemKind {
    Youtube(String),
}

/// The URL carried by a report, as a sequence of characters.
pub open spec fn item_url(item: Item) -> Seq<char> {
    match item.kind {
        ItemKind::Youtube(url) => url@,
    }
}

impl Clone for Item {
    fn clone(&self) -> (r: Self)
        ensures
            r == *self,
    {
        Item { kind: self.kind.clone(), ts: self.ts, version: self.version }
    }
}

impl Clone for ItemKind {
    fn clone(&self) -> (r: Self)
        ensures
            r == *self,
    {
        match self {
            ItemKind::Youtube(url) => ItemKind::Youtube(url.clone()),
        }
    }
}

/// What an event store owes its callers: an ordered log of persisted
/// events, queried by recency and appended to by the ingestion pipeline.
/// `store_log` is the mathematical image of the log and `store_wf` the
/// store's validity; every operation is specified against them.
pub trait Storage<T: View>: Sized {
    /// The stored log, in insertion order.
    spec fn store_log(&self) -> Seq<T::V>;

    /// Validity of the store's representation.
    spec fn store_wf(&self) -> bool;

    /// Ingests one raw report together with the outcome of its catalog
    /// lookup; on failure the log is unchanged.
    fn insert(&mut self, item: Item, fetched: crate::youtube::FetchOutcome) -> (r: Result<
        (),
        crate::error::Error,
    >)
        requires
            old(self).store_wf(),
        ensures
            final(self).store_wf(),
            r is Err ==> final(self).store_log() == old(self).store_log(),
            r is Ok ==> final(self).store_log().len() == old(self).store_log().len() + 1,
    ;

    /// The most recently inserted event; fails on an empty log.
    fn current(&self) -> (r: Result<T, crate::error::Error>)
        requires
            self.store_wf(),
        ensures
            self.store_log().len() == 0 ==> r is Err,
            self.store_log().len() > 0 ==> (r matches Ok(v) && v@ == self.store_log().last()),
    ;

    /// The event inserted immediately before the most recent one; fails
    /// when fewer than two events exist.
    fn previous(&self) -> (r: Result<T, crate::error::Error>)
        requires
            self.store_wf(),
        ensures
            self.store_log().len() < 2 ==> r is Err,
            self.store_log().len() >= 2 ==> (r matches Ok(v) && v@ == self.store_log()[self.store_log().len()
                - 2]),
    ;

    /// Every persisted event, in insertion order.
    fn all(&self) -> (r: Result<Vec<T>, crate::error::Error>)
        requires
            self.store_wf(),
        ensures
            r matches Ok(v) && v@.map_values(|t: T| t@) == self.store_log(),
    ;
}

/// The credentials the metadata resolver presents to the external catalog.
/// The credential is an explicit configuration value owned by the service
/// bootstrap, not ambient process-wide state.
#[derive(Debug)]
pub struct ApiKeys {
    pub youtube: String,
}

/// Builds the explicit credential configuration for the metadata resolver.
/// The front end reads the credential from its environment and hands it in
/// as a plain string.
pub fn init_api_keys_from_env(youtube_key: String) -> (r: ApiKeys)
    ensures
        r.youtube@ == youtube_key@,
{
    ApiKeys { youtube: youtube_key }
}

} // verus!
