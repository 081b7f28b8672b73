//! The query side used by the chat front end: mapping user-typed aliases
//! to commands, naming the query endpoints, and resolving the offset into
//! the current event's playback window at a given wall-clock instant.

use vstd::prelude::*;

verus! {

/// The outcome of an offset query: either the viewer is inside the
/// playback window, with the whole seconds elapsed since the event
/// started, or nothing is currently playing. An offset of zero while
/// playing is distinct from `Finished`.
#[derive(Clone, Copy, Debug, PartialEq, Eq, Structural)]
pub enum PlaybackStatus {
    Playing(i64),
    Finished,
}

/// The playback window of an event that started at `reported_at`
/// milliseconds and lasts `duration` seconds covers `now` (milliseconds).
pub open spec fn in_window(reported_at: int, duration: int, now: int) -> bool {
    reported_at <= now < reported_at + duration * 1000
}

/// Resolves the deep-link offset for an event against the present
/// wall-clock instant: inside the playback window the offset is the
/// elapsed milliseconds floor-divided into seconds, at least 0 and less
/// than the event's duration; outside the window (clock skew before the
/// start, or at or past the end) nothing is playing.
pub fn calculate_offset(reported_at: i64, duration: i64, now: i64) -> (r: PlaybackStatus)
    requires
        duration >= 0,
    ensures
        in_window(reported_at as int, duration as int, now as int) ==> (r matches PlaybackStatus::Playing(off)
            && off == (now - reported_at) / 1000 && 0 <= off < duration),
        !in_window(reported_at as int, duration as int, now as int) ==> r
            == PlaybackStatus::Finished,
{
    let elapsed: i128 = now as i128 - reported_at as i128;
    let window: i128 = duration as i128 * 1000;
    if elapsed < 0 || elapsed >= window {
        PlaybackStatus::Finished
    } else {
        let off_wide: u128 = (elapsed as u128) / 1000;
        assert(off_wide == (now - reported_at) / 1000);
        assert(off_wide < duration) by {
            assert(elapsed <= duration * 1000 - 1);
            assert(elapsed / 1000 <= (duration * 1000 - 1) / 1000) by {
                vstd::arithmetic::div_mod::lemma_div_is_ordered(
                    elapsed as int,
                    duration * 1000 - 1,
                    1000,
                );
            }
            assert((duration * 1000 - 1) / 1000 == duration - 1) by {
                vstd::arithmetic::div_mod::lemma_div_multiples_vanish_fancy(
                    duration as int - 1,
                    999,
                    1000,
                );
            }
        }
        PlaybackStatus::Playing(off_wide as i64)
    }
}

/// A command a chat user asked for, parsed from the leading word of a
/// message.
#[derive(Clone, Copy, Debug, PartialEq, Eq, Structural)]
pub enum Command {
    Previous,
    Current,
    List,
    Unknown,
}

/// The query endpoints of the service, as path suffixes.
#[derive(Clone, Copy, Debug, PartialEq, Eq, Structural)]
pub enum ReqType {
    Current,
    Previous,
    List,
}

impl ReqType {
    /// The path suffix of this query endpoint.
    pub fn as_ep(&self) -> (r: &'static str)
        ensures
            *self is Current ==> r@ == "current"@,
            *self is Previous ==> r@ == "previous"@,
            *self is List ==> r@ == "list/youtube"@,
    {
        match self {
            ReqType::Current => "current",
            ReqType::Previous => "previous",
            ReqType::List => "list/youtube",
        }
    }
}

/// The user-configurable alias words for each command.
#[derive(Clone, Debug)]
pub struct CommandAliases {
    pub previous: Vec<String>,
    pub current: Vec<String>,
    pub list: Vec<String>,
}

/// Whether one of the alias words equals the user's word.
pub open spec fn alias_match(aliases: Seq<String>, user: Seq<char>) -> bool {
    exists|i: int| 0 <= i < aliases.len() && (#[trigger] aliases[i])@ == user
}

/// The command a user's leading word parses to: the `previous` aliases are
/// consulted first, then `current`, then `list`.
pub open spec fn parsed_command(aliases: CommandAliases, user: Seq<char>) -> Command {
    if alias_match(aliases.previous@, user) {
        Command::Previous
    } else if alias_match(aliases.current@, user) {
        Command::Current
    } else if alias_match(aliases.list@, user) {
        Command::List
    } else {
        Command::Unknown
    }
}

/// The default alias set.
pub open spec fn is_default_aliases(aliases: CommandAliases) -> bool {
    &&& aliases.previous@.len() == 1 && aliases.previous@[0]@ == "!previous"@
    &&& aliases.current@.len() == 1 && aliases.current@[0]@ == "!current"@
    &&& aliases.list@.len() == 1 && aliases.list@[0]@ == "!songlist"@
}

fn str_eq(a: &str, b: &str) -> (r: bool)
    ensures
        r == (a@ == b@),
{
    let n = a.unicode_len();
    let m = b.unicode_len();
    if n != m {
        assert(a@ != b@);
        return false;
    }
    let mut i: usize = 0;
    while i < n
        invariant
            n == a@.len(),
            n == b@.len(),
            i <= n,
            forall|k: int| 0 <= k < i ==> a@[k] == b@[k],
        decreases n - i,
    {
        if a.get_char(i) != b.get_char(i) {
            assert(a@ != b@);
            return false;
        }
        i = i + 1;
    }
    assert(a@ =~= b@);
    true
}

fn any_matches(aliases: &Vec<String>, user: &str) -> (r: bool)
    ensures
        r == alias_match(aliases@, user@),
{
    let mut i: usize = 0;
    while i < aliases.len()
        invariant
            i <= aliases@.len(),
            forall|k: int| 0 <= k < i ==> (#[trigger] aliases@[k])@ != user@,
        decreases aliases@.len() - i,
    {
        if str_eq(aliases[i].as_str(), user) {
            return true;
        }
        i = i + 1;
    }
    false
}

impl CommandAliases {
    /// Parses the leading word a chat user typed into a command, trying
    /// the `previous` aliases first, then `current`, then `list`.
    pub fn parse_user(&self, user: &str) -> (r: Command)
        ensures
            r == parsed_command(*self, user@),
    {
        if any_matches(&self.previous, user) {
            return Command::Previous;
        }
        if any_matches(&self.current, user) {
            return Command::Current;
        }
        if any_matches(&self.list, user) {
            return Command::List;
        }
        Command::Unknown
    }
}

impl Default for CommandAliases {
    /// One alias for each command.
    fn default() -> (r: Self)
        ensures
            is_default_aliases(r),
    {
        CommandAliases {
            previous: vec![String::from_str("!previous")],
            current: vec![String::from_str("!current")],
            list: vec![String::from_str("!songlist")],
        }
    }
}

/// The chat front end's configuration: the bot's nickname, the single
/// channel it watches, and the alias words.
#[derive(Debug)]
pub struct Configuration {
    pub nickname: String,
    pub channel: String,
    pub commands: CommandAliases,
}

impl Default for Configuration {
    fn default() -> (r: Self)
        ensures
            r.nickname@ == "shaken_bot"@,
            r.channel@ == "museun"@,
            is_default_aliases(r.commands),
    {
        Configuration {
            nickname: String::from_str("shaken_bot"),
            channel: String::from_str("museun"),
            commands: CommandAliases::default(),
        }
    }
}

} // verus!
