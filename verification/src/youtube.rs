//! The video-event component: extracts video identifiers from reported
//! URLs, decides what a catalog lookup yields, and keeps the append-only
//! log of play events with its ordering and selection semantics.

use vstd::prelude::*;

use crate::error::Error;

verus! {

/// Whether `c` may appear in a video identifier: ASCII letters, digits,
/// underscore or hyphen.
pub open spec fn is_id_char(c: char) -> bool {
    (65 <= c as u32 && c as u32 <= 90) || (97 <= c as u32 && c as u32 <= 122) || (48 <= c as u32
        && c as u32 <= 57) || c == '_' || c == '-'
}

/// The short-link host shape: the characters `youtu.be/` end just before
/// index `p`.
pub open spec fn short_link_before(s: Seq<char>, p: int) -> bool {
    &&& p >= 9
    &&& s[p - 9] == 'y'
    &&& s[p - 8] == 'o'
    &&& s[p - 7] == 'u'
    &&& s[p - 6] == 't'
    &&& s[p - 5] == 'u'
    &&& s[p - 4] == '.'
    &&& s[p - 3] == 'b'
    &&& s[p - 2] == 'e'
    &&& s[p - 1] == '/'
}

/// The full host token `youtube.com` occupies `s[k .. k + 11]`.
pub open spec fn full_host_at(s: Seq<char>, k: int) -> bool {
    &&& 0 <= k
    &&& k + 11 <= s.len()
    &&& s[k] == 'y'
    &&& s[k + 1] == 'o'
    &&& s[k + 2] == 'u'
    &&& s[k + 3] == 't'
    &&& s[k + 4] == 'u'
    &&& s[k + 5] == 'b'
    &&& s[k + 6] == 'e'
    &&& s[k + 7] == '.'
    &&& s[k + 8] == 'c'
    &&& s[k + 9] == 'o'
    &&& s[k + 10] == 'm'
}

/// The query-parameter shape: a `v=` introducer ends just before index `p`,
/// somewhere after the full host token.
pub open spec fn query_link_before(s: Seq<char>, p: int) -> bool {
    &&& p >= 2
    &&& s[p - 2] == 'v'
    &&& s[p - 1] == '='
    &&& exists|k: int| #[trigger] full_host_at(s, k) && k + 11 <= p - 2
}

/// An 11-character identifier run begins at index `p`, immediately after
/// one of the two accepted URL shapes.
pub open spec fn id_at(s: Seq<char>, p: int) -> bool {
    &&& 0 <= p
    &&& p + 11 <= s.len()
    &&& forall|k: int| p <= k < p + 11 ==> is_id_char(#[trigger] s[k])
    &&& (short_link_before(s, p) || query_link_before(s, p))
}

/// The string opens with the scheme prefix `http`. The prefix match is
/// case-sensitive, as is the identifier itself.
pub open spec fn has_http_prefix(s: Seq<char>) -> bool {
    s.len() >= 4 && s[0] == 'h' && s[1] == 't' && s[2] == 't' && s[3] == 'p'
}

/// Whether a video identifier can be extracted from `s`.
pub open spec fn extractable(s: Seq<char>) -> bool {
    has_http_prefix(s) && exists|p: int| #[trigger] id_at(s, p)
}

/// The position of the leftmost identifier run of `s`.
pub open spec fn first_id_pos(s: Seq<char>) -> int {
    choose|p: int| #[trigger] id_at(s, p) && (forall|q: int| 0 <= q < p ==> !(#[trigger] id_at(
        s,
        q,
    )))
}

/// The identifier the extractor returns on `s`: the leftmost run.
pub open spec fn first_id(s: Seq<char>) -> Seq<char> {
    s.subrange(first_id_pos(s), first_id_pos(s) + 11)
}

fn char_in_id_set(c: char) -> (b: bool)
    ensures
        b == is_id_char(c),
{
    let u = c as u32;
    (65 <= u && u <= 90) || (97 <= u && u <= 122) || (48 <= u && u <= 57) || c == '_' || c == '-'
}

fn id_run_at(url: &str, p: usize, n: usize) -> (b: bool)
    requires
        n == url@.len(),
        p <= n,
    ensures
        b == (p + 11 <= url@.len() && (forall|k: int|
            p <= k < p + 11 ==> is_id_char(#[trigger] url@[k]))),
{
    if n < 11 || p > n - 11 {
        return false;
    }
    let mut j: usize = 0;
    while j < 11
        invariant
            n == url@.len(),
            p + 11 <= n,
            j <= 11,
            forall|k: int| p <= k < p + j ==> is_id_char(#[trigger] url@[k]),
        decreases 11 - j,
    {
        if !char_in_id_set(url.get_char(p + j)) {
            return false;
        }
        j = j + 1;
    }
    true
}

fn short_link_ends_at(url: &str, p: usize) -> (b: bool)
    requires
        p <= url@.len(),
    ensures
        b == short_link_before(url@, p as int),
{
    if p < 9 {
        return false;
    }
    url.get_char(p - 9) == 'y' && url.get_char(p - 8) == 'o' && url.get_char(p - 7) == 'u'
        && url.get_char(p - 6) == 't' && url.get_char(p - 5) == 'u' && url.get_char(p - 4) == '.'
        && url.get_char(p - 3) == 'b' && url.get_char(p - 2) == 'e' && url.get_char(p - 1) == '/'
}

fn full_host_starts_at(url: &str, k: usize) -> (b: bool)
    requires
        k + 11 <= url@.len(),
        k + 11 <= usize::MAX,
    ensures
        b == full_host_at(url@, k as int),
{
    url.get_char(k) == 'y' && url.get_char(k + 1) == 'o' && url.get_char(k + 2) == 'u'
        && url.get_char(k + 3) == 't' && url.get_char(k + 4) == 'u' && url.get_char(k + 5) == 'b'
        && url.get_char(k + 6) == 'e' && url.get_char(k + 7) == '.' && url.get_char(k + 8) == 'c'
        && url.get_char(k + 9) == 'o' && url.get_char(k + 10) == 'm'
}

/// Extracts the 11-character video identifier from a reported URL: the
/// leftmost identifier run that immediately follows either the short-link
/// host (`youtu.be/`) or the full host with a `v=` query introducer, in a
/// string opening with `http`. Both host shapes are matched
/// case-sensitively. Fails with the original string when no such run
/// exists under either shape.
pub fn extract_video_id(url: &str) -> (r: Result<String, Error>)
    ensures
        extractable(url@) ==> (r matches Ok(id) && id@ == first_id(url@) && id@.len() == 11),
        !extractable(url@) ==> (r matches Err(e) && e matches Error::InvalidSourceUrl(u) && u@
            == url@),
{
    let n = url.unicode_len();
    if n < 4 || !(url.get_char(0) == 'h' && url.get_char(1) == 't' && url.get_char(2) == 't'
        && url.get_char(3) == 'p') {
        return Err(Error::InvalidSourceUrl(String::from_str(url)));
    }
    let mut host_seen: bool = false;
    let mut p: usize = 0;
    while p < n
        invariant
            n == url@.len(),
            p <= n,
            has_http_prefix(url@),
            host_seen == exists|k: int| #[trigger] full_host_at(url@, k) && k + 11 <= p - 3,
            forall|q: int| 0 <= q < p ==> !(#[trigger] id_at(url@, q)),
        decreases n - p,
    {
        let ghost host_seen_entry = host_seen;
        if p >= 13 {
            if full_host_starts_at(url, p - 13) {
                host_seen = true;
            }
        }
        proof {
            assert forall|k: int| (#[trigger] full_host_at(url@, k) && k + 11 <= p - 2) implies
                host_seen by {
                if k + 11 <= p - 3 {
                    assert(host_seen_entry);
                } else {
                    assert(k == p - 13);
                }
            }
            if host_seen && !(exists|k: int| #[trigger] full_host_at(url@, k) && k + 11 <= p
                - 2) {
                if host_seen_entry {
                    let k = choose|k: int| #[trigger] full_host_at(url@, k) && k + 11 <= p - 3;
                    assert(full_host_at(url@, k) && k + 11 <= p - 2);
                } else {
                    assert(full_host_at(url@, p - 13) && (p - 13) + 11 <= p - 2);
                }
                assert(false);
            }
            assert(host_seen == exists|k: int| #[trigger] full_host_at(url@, k) && k + 11 <= p
                - 2);
        }
        let short_ok = short_link_ends_at(url, p);
        let query_ok = !short_ok && host_seen && p >= 2 && url.get_char(p - 2) == 'v'
            && url.get_char(p - 1) == '=';
        if (short_ok || query_ok) && id_run_at(url, p, n) {
            assert(id_at(url@, p as int));
            let id = url.substring_char(p, p + 11);
            let id_string = String::from_str(id);
            proof {
                let p0 = p as int;
                assert(extractable(url@));
                let pc = first_id_pos(url@);
                assert(id_at(url@, pc) && (forall|q: int|
                    0 <= q < pc ==> !(#[trigger] id_at(url@, q)))) by {
                    assert(id_at(url@, p0) && (forall|q: int|
                        0 <= q < p0 ==> !(#[trigger] id_at(url@, q))));
                }
                assert(pc == p0);
            }
            return Ok(id_string);
        }
        p = p + 1;
    }
    assert(!extractable(url@)) by {
        if exists|q: int| #[trigger] id_at(url@, q) {
            let q = choose|q: int| #[trigger] id_at(url@, q);
            assert(q < n);
            assert(false);
        }
    }
    Err(Error::InvalidSourceUrl(String::from_str(url)))
}

/// Title and playback length resolved for a video identifier.
#[derive(Debug)]
pub struct Item {
    pub title: String,
    pub duration: i64,
}

/// One entry of the catalog's response, as plain values: the displayed
/// title and the compact duration encoding.
#[derive(Debug)]
pub struct ResponseItem {
    pub title: String,
    pub duration: String,
}

/// What the single outbound catalog lookup produced: a transport-level
/// failure (connection refused, timeout, non-success status), or the list
/// of result items the catalog returned.
#[derive(Debug)]
pub enum FetchOutcome {
    Unavailable,
    Response(Vec<ResponseItem>),
}

/// The items carried by a catalog lookup outcome; empty for a transport
/// failure.
pub open spec fn outcome_items(outcome: FetchOutcome) -> Seq<ResponseItem> {
    match outcome {
        FetchOutcome::Unavailable => Seq::empty(),
        FetchOutcome::Response(items) => items@,
    }
}

impl Item {
    /// Decides what a catalog lookup outcome yields: a transport failure is
    /// reported as `MetadataUnavailable`, a response with zero items as
    /// `InvalidMetadata`, and otherwise the first item's title together
    /// with its duration decoded into seconds.
    pub fn resolve(outcome: FetchOutcome) -> (r: Result<Item, Error>)
        ensures
            outcome is Unavailable ==> (r matches Err(e) && e == Error::MetadataUnavailable),
            (outcome is Response && outcome_items(outcome).len() == 0) ==> (r matches Err(e) && e
                == Error::InvalidMetadata),
            (outcome is Response && outcome_items(outcome).len() > 0) ==> (r matches Ok(info)
                && info.title@ == outcome_items(outcome)[0].title@ && info.duration
                == crate::duration::clamp_i64(
                crate::duration::duration_secs(outcome_items(outcome)[0].duration@),
            ) && info.duration >= 0),
    {
        match outcome {
            FetchOutcome::Unavailable => Err(Error::MetadataUnavailable),
            FetchOutcome::Response(items) => {
                if items.len() == 0 {
                    Err(Error::InvalidMetadata)
                } else {
                    let first = &items[0];
                    Ok(
                        Item {
                            title: first.title.clone(),
                            duration: crate::duration::from_iso8601(first.duration.as_str()),
                        },
                    )
                }
            },
        }
    }
}

/// One persisted play event: the store-assigned sequence number, the video
/// identifier, the caller-supplied start timestamp in milliseconds, the
/// playback length in seconds, and the resolved title.
#[derive(Debug)]
pub struct Song {
    pub id: i64,
    pub vid: String,
    pub timestamp: i64,
    pub duration: i64,
    pub title: String,
}

/// The mathematical image of a persisted play event.
pub struct SongView {
    pub id: int,
    pub vid: Seq<char>,
    pub timestamp: int,
    pub duration: int,
    pub title: Seq<char>,
}

impl View for Song {
    type V = SongView;

    open spec fn view(&self) -> SongView {
        SongView {
            id: self.id as int,
            vid: self.vid@,
            timestamp: self.timestamp as int,
            duration: self.duration as int,
            title: self.title@,
        }
    }
}

impl Clone for Song {
    fn clone(&self) -> (r: Self)
        ensures
            r@ == self@,
    {
        Song {
            id: self.id,
            vid: self.vid.clone(),
            timestamp: self.timestamp,
            duration: self.duration,
            title: self.title.clone(),
        }
    }
}

impl Song {
    /// The caller-supplied start timestamp of this event.
    pub fn timestamp(&self) -> (r: i64)
        ensures
            r == self@.timestamp,
    {
        self.timestamp
    }
}

/// The image of a stored sequence of events.
pub open spec fn songs_view(songs: Seq<Song>) -> Seq<SongView> {
    songs.map_values(|s: Song| s@)
}

/// The append-only event store: an ordered log of play events and the
/// monotone counter that assigns sequence numbers. The log is only ever
/// appended to; reads never mutate it.
pub struct Youtube {
    songs: Vec<Song>,
    next_sequence: i64,
}

impl Youtube {
    /// The stored log, in insertion order.
    pub closed spec fn log(&self) -> Seq<SongView> {
        songs_view(self.songs@)
    }

    /// The sequence number the next accepted insert will receive.
    pub closed spec fn next_seq(&self) -> int {
        self.next_sequence as int
    }

    /// Well-formedness of the store: sequence numbers strictly increase
    /// with insertion order, every assigned number lies below the counter,
    /// and every persisted event has a non-negative playback length.
    pub open spec fn wf(&self) -> bool {
        &&& forall|i: int, j: int|
            #![trigger self.log()[i], self.log()[j]]
            0 <= i < j < self.log().len() ==> self.log()[i].id < self.log()[j].id
        &&& forall|i: int| 0 <= i < self.log().len() ==> (#[trigger] self.log()[i]).id
            < self.next_seq()
        &&& 1 <= self.next_seq()
        &&& forall|i: int| 0 <= i < self.log().len() ==> (#[trigger] self.log()[i]).duration >= 0
        &&& forall|i: int| 0 <= i < self.log().len() ==> (#[trigger] self.log()[i]).vid.len() > 0
    }

    /// A fresh, empty store whose first assigned sequence number is 1.
    pub fn new() -> (r: Youtube)
        ensures
            r.wf(),
            r.log().len() == 0,
            r.next_seq() == 1,
    {
        Youtube { songs: Vec::new(), next_sequence: 1 }
    }

    /// Appends an already-resolved event: assigns the next sequence number,
    /// persists the event, and advances the counter. Fails only when the
    /// sequence counter is exhausted, in which case the log is unchanged.
    pub fn append(&mut self, vid: String, ts: i64, info: Item) -> (r: Result<i64, Error>)
        requires
            old(self).wf(),
            info.duration >= 0,
            vid@.len() > 0,
        ensures
            final(self).wf(),
            old(self).next_seq() == i64::MAX ==> (r matches Err(e) && e == Error::StorageError
                && final(self).log() == old(self).log() && final(self).next_seq() == old(
                self,
            ).next_seq()),
            old(self).next_seq() < i64::MAX ==> (r matches Ok(seq_no) && seq_no == old(
                self,
            ).next_seq() && final(self).next_seq() == old(self).next_seq() + 1 && final(self).log()
                == old(self).log().push(
                SongView {
                    id: old(self).next_seq(),
                    vid: vid@,
                    timestamp: ts as int,
                    duration: info.duration as int,
                    title: info.title@,
                },
            )),
    {
        if self.next_sequence == i64::MAX {
            return Err(Error::StorageError);
        }
        let assigned = self.next_sequence;
        self.next_sequence = self.next_sequence + 1;
        let song = Song {
            id: assigned,
            vid,
            timestamp: ts,
            duration: info.duration,
            title: info.title,
        };
        self.songs.push(song);
        proof {
            assert(self.log() =~= old(self).log().push(
                SongView {
                    id: assigned as int,
                    vid: song.vid@,
                    timestamp: ts as int,
                    duration: info.duration as int,
                    title: song.title@,
                },
            ));
        }
        Ok(assigned)
    }

    /// The full ingestion pipeline for one raw report: validates the
    /// protocol version, extracts the video identifier from the reported
    /// URL, decides what the catalog lookup outcome yields, and appends the
    /// enriched event. On any failure the log and the counter are left
    /// unchanged.
    pub fn insert(&mut self, item: crate::Item, fetched: FetchOutcome) -> (r: Result<(), Error>)
        requires
            old(self).wf(),
        ensures
            final(self).wf(),
            r is Err ==> final(self).log() == old(self).log() && final(self).next_seq() == old(
                self,
            ).next_seq(),
            item.version != crate::CURRENT_API_VERSION ==> (r matches Err(e) && e matches Error::UnsupportedVersion {
                expected,
                got,
            } && expected == crate::CURRENT_API_VERSION && got == item.version),
            (item.version == crate::CURRENT_API_VERSION && !extractable(crate::item_url(item)))
                ==> (r matches Err(e) && e matches Error::InvalidSourceUrl(u) && u@
                == crate::item_url(item)),
            (item.version == crate::CURRENT_API_VERSION && extractable(crate::item_url(item))
                && fetched is Unavailable) ==> (r matches Err(e) && e
                == Error::MetadataUnavailable),
            (item.version == crate::CURRENT_API_VERSION && extractable(crate::item_url(item))
                && fetched is Response && outcome_items(fetched).len() == 0) ==> (r matches Err(e)
                && e == Error::InvalidMetadata),
            (item.version == crate::CURRENT_API_VERSION && extractable(crate::item_url(item))
                && fetched is Response && outcome_items(fetched).len() > 0 && old(self).next_seq()
                == i64::MAX) ==> (r matches Err(e) && e == Error::StorageError),
            (item.version == crate::CURRENT_API_VERSION && extractable(crate::item_url(item))
                && fetched is Response && outcome_items(fetched).len() > 0 && old(self).next_seq()
                < i64::MAX) ==> (r is Ok && final(self).next_seq() == old(self).next_seq() + 1
                && final(self).log() == old(self).log().push(
                SongView {
                    id: old(self).next_seq(),
                    vid: first_id(crate::item_url(item)),
                    timestamp: item.ts as int,
                    duration: crate::duration::clamp_i64(
                        crate::duration::duration_secs(outcome_items(fetched)[0].duration@),
                    ),
                    title: outcome_items(fetched)[0].title@,
                },
            )),
    {
        if item.version != crate::CURRENT_API_VERSION {
            return Err(
                Error::UnsupportedVersion {
                    expected: crate::CURRENT_API_VERSION,
                    got: item.version,
                },
            );
        }
        let crate::ItemKind::Youtube(url) = item.kind;
        let vid = match extract_video_id(url.as_str()) {
            Ok(v) => v,
            Err(e) => {
                return Err(e);
            },
        };
        let info = match Item::resolve(fetched) {
            Ok(v) => v,
            Err(e) => {
                return Err(e);
            },
        };
        match self.append(vid, item.ts, info) {
            Ok(_) => Ok(()),
            Err(e) => Err(e),
        }
    }

    /// The event with the greatest sequence number: the most recently
    /// reported one. Fails with `NotFound` on an empty log.
    pub fn current(&self) -> (r: Result<Song, Error>)
        requires
            self.wf(),
        ensures
            self.log().len() == 0 ==> (r matches Err(e) && e == Error::NotFound),
            self.log().len() > 0 ==> (r matches Ok(song) && song@ == self.log().last() && (forall|
                i: int,
            | 0 <= i < self.log().len() ==> (#[trigger] self.log()[i]).id <= song@.id)),
    {
        if self.songs.len() == 0 {
            Err(Error::NotFound)
        } else {
            let song = self.songs[self.songs.len() - 1].clone();
            proof {
                let last = self.log().len() - 1;
                assert(song@ == self.log()[last]);
                assert forall|i: int|
                    0 <= i < self.log().len() implies (#[trigger] self.log()[i]).id
                    <= song@.id by {
                    if i < last {
                        assert(self.log()[i].id < self.log()[last].id);
                    }
                }
            }
            Ok(song)
        }
    }

    /// The event with the second-greatest sequence number: the one that
    /// played immediately before `current()`. Fails with `NotFound` when
    /// fewer than two events exist.
    pub fn previous(&self) -> (r: Result<Song, Error>)
        requires
            self.wf(),
        ensures
            self.log().len() < 2 ==> (r matches Err(e) && e == Error::NotFound),
            self.log().len() >= 2 ==> (r matches Ok(song) && song@ == self.log()[self.log().len()
                - 2] && (forall|i: int|
                0 <= i < self.log().len() && i != self.log().len() - 1
                    ==> (#[trigger] self.log()[i]).id <= song@.id)),
    {
        if self.songs.len() < 2 {
            Err(Error::NotFound)
        } else {
            let song = self.songs[self.songs.len() - 2].clone();
            proof {
                let snd = self.log().len() - 2;
                assert(song@ == self.log()[snd]);
                assert forall|i: int|
                    0 <= i < self.log().len() && i != self.log().len() - 1 implies (
                #[trigger] self.log()[i]).id <= song@.id by {
                    if i < snd {
                        assert(self.log()[i].id < self.log()[snd].id);
                    }
                }
            }
            Ok(song)
        }
    }

    /// Every persisted event, ordered by ascending sequence number (the
    /// insertion order).
    pub fn all(&self) -> (r: Result<Vec<Song>, Error>)
        requires
            self.wf(),
        ensures
            r matches Ok(v) && songs_view(v@) == self.log(),
    {
        let mut out: Vec<Song> = Vec::new();
        let mut i: usize = 0;
        while i < self.songs.len()
            invariant
                i <= self.songs@.len(),
                out@.len() == i,
                forall|k: int| 0 <= k < i ==> (#[trigger] out@[k])@ == self.songs@[k]@,
            decreases self.songs@.len() - i,
        {
            out.push(self.songs[i].clone());
            i = i + 1;
        }
        proof {
            assert(songs_view(out@) =~= self.log());
        }
        Ok(out)
    }
}

impl Default for Youtube {
    /// A fresh, empty store.
    fn default() -> (r: Self)
        ensures
            r.wf(),
            r.log().len() == 0,
            r.next_seq() == 1,
    {
        Youtube::new()
    }
}

impl crate::Storage<Song> for Youtube {
    open spec fn store_log(&self) -> Seq<SongView> {
        self.log()
    }

    open spec fn store_wf(&self) -> bool {
        self.wf()
    }

    fn insert(&mut self, item: crate::Item, fetched: FetchOutcome) -> (r: Result<(), Error>) {
        Youtube::insert(self, item, fetched)
    }

    fn current(&self) -> (r: Result<Song, Error>) {
        Youtube::current(self)
    }

    fn previous(&self) -> (r: Result<Song, Error>) {
        Youtube::previous(self)
    }

    fn all(&self) -> (r: Result<Vec<Song>, Error>) {
        Youtube::all(self)
    }
}

/// Law: in a well-formed store the assigned sequence numbers strictly
/// increase with insertion order, so every event's number is unique; with
/// inserts serialized by exclusive access to the store, any group of
/// inserts therefore receives pairwise distinct, increasing numbers.
pub proof fn lemma_sequences_strictly_increasing(store: &Youtube)
    requires
        store.wf(),
    ensures
        forall|i: int, j: int|
            #![trigger store.log()[i], store.log()[j]]
            0 <= i < j < store.log().len() ==> store.log()[i].id < store.log()[j].id,
        forall|i: int, j: int|
            #![trigger store.log()[i], store.log()[j]]
            0 <= i < j < store.log().len() ==> store.log()[i].id != store.log()[j].id,
{
}

/// Law: an event appended to the log is read back unchanged: the log grows
/// by exactly that event, its fields identical to those given at insert
/// time, and every earlier event is untouched. Together with the contract
/// of `all`, a written event round-trips with identical field values.
pub proof fn lemma_round_trip(log: Seq<SongView>, e: SongView)
    ensures
        log.push(e).len() == log.len() + 1,
        log.push(e).last() == e,
        forall|i: int| 0 <= i < log.len() ==> log.push(e)[i] == log[i],
{
}

} // verus!
