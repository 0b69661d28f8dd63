//! Unified log forwarding for the pager.
//!
//! Log entries are buffered in memory and handed out in batches to be sent to the shell
//! as `x.ai/log` notifications. A batch goes out on its own once sixteen entries are
//! buffered and a sender is bound; otherwise entries wait for an explicit flush.
use vstd::prelude::*;
use crate::setup_wizard::validate::opt_string_view;
use crate::text::{opt_str_ref_view, string_of};

verus! {

#[verifier::external_type_specification]
#[verifier::external_body]
pub struct ExJsonValue(serde_json::Value);

/// The notification method log batches are sent under.
pub const LOG_METHOD: &'static str = "x.ai/log";

/// The number of buffered entries at which a batch goes out without a flush.
pub const AUTO_FLUSH_BATCH: usize = 16;

#[derive(Debug, Clone, Copy, PartialEq, Eq, Structural)]
pub enum LogLevel {
    Debug,
    Info,
    Warn,
    Error,
}

/// Which process a batch comes from.
#[derive(Debug, Clone, Copy, PartialEq, Eq, Structural)]
pub enum LogSource {
    GrokPager,
}

/// One log entry.
#[derive(Debug)]
pub struct ClientLogEntry {
    pub ts: String,
    pub pid: Option<u32>,
    pub ver: Option<String>,
    pub lvl: LogLevel,
    pub sid: Option<String>,
    pub msg: String,
    pub ctx: Option<serde_json::Value>,
}

/// The parameters of one log notification.
#[derive(Debug)]
pub struct LogNotificationParams {
    pub src: LogSource,
    pub entries: Vec<ClientLogEntry>,
}

/// An ASCII digit.
pub open spec fn is_digit(c: char) -> bool {
    '0' <= c && c <= '9'
}

/// A year as RFC 3339 writes it: four digits, or for a year outside `0..=9999` a sign
/// and at least four digits.
pub open spec fn year_text_ok(y: Seq<char>) -> bool {
    ||| y.len() == 4 && forall|i: int| 0 <= i < 4 ==> is_digit(#[trigger] y[i])
    ||| y.len() >= 5 && (y[0] == '+' || y[0] == '-') && forall|i: int| 1 <= i < y.len() ==> is_digit(#[trigger] y[i])
}

/// What follows the year: `-MM-DDTHH:MM:SS.mmmZ`, each letter a digit.
pub open spec fn time_text_ok(t: Seq<char>) -> bool {
    &&& t.len() == 20
    &&& t[0] == '-' && t[3] == '-' && t[6] == 'T' && t[9] == ':' && t[12] == ':' && t[15] == '.' && t[19] == 'Z'
    &&& forall|i: int|
        0 <= i < 19 && i != 0 && i != 3 && i != 6 && i != 9 && i != 12 && i != 15 ==> is_digit(#[trigger] t[i])
}

/// An RFC 3339 UTC timestamp with milliseconds and a `Z` suffix.
pub open spec fn utc_millis_timestamp(s: Seq<char>) -> bool {
    s.len() >= 24 && year_text_ok(s.subrange(0, s.len() - 20)) && time_text_ok(s.subrange(s.len() - 20, s.len() as int))
}

/// How far the clock reads from the Unix epoch, from
/// `std::time::SystemTime::now().duration_since(std::time::UNIX_EPOCH)`: whole seconds
/// and the nanoseconds past them, `Ok` at or after the epoch and `Err` (the distance
/// back) before it. The reading depends on the clock; only that the nanoseconds are
/// below one billion, as `Duration::subsec_nanos` documents, is stated.
#[verifier::external_body]
fn clock_since_epoch() -> (r: Result<(u64, u32), (u64, u32)>)
    ensures
        match r {
            Ok((_, n)) => n < 1_000_000_000,
            Err((_, n)) => n < 1_000_000_000,
        },
{
    match std::time::SystemTime::now().duration_since(std::time::UNIX_EPOCH) {
        Ok(d) => Ok((d.as_secs(), d.subsec_nanos())),
        Err(e) => Err((e.duration().as_secs(), e.duration().subsec_nanos())),
    }
}

/// A clock reading as a Unix timestamp: seconds, negative before the epoch, and the
/// nanoseconds past them; `None` when the seconds do not fit in an `i64` or the
/// nanoseconds are not below one billion.
pub open spec fn signed_timestamp_spec(reading: Result<(u64, u32), (u64, u32)>) -> Option<(int, int)> {
    match reading {
        Ok((_, n)) if n >= 1_000_000_000 => None,
        Err((_, n)) if n >= 1_000_000_000 => None,
        Ok((s, n)) => if s <= i64::MAX {
            Some((s as int, n as int))
        } else {
            None
        },
        Err((s, n)) => if s > i64::MAX {
            None
        } else if n == 0 {
            Some((-s, 0))
        } else {
            Some((-s - 1, 1_000_000_000 - n))
        },
    }
}

/// The Unix timestamp of a clock reading (see [`signed_timestamp_spec`]).
pub fn signed_timestamp(reading: Result<(u64, u32), (u64, u32)>) -> (r: Option<(i64, u32)>)
    ensures
        match signed_timestamp_spec(reading) {
            Some((s, n)) => r matches Some((a, b)) && a == s && b == n,
            None => r is None,
        },
{
    let max: u64 = 0x7fff_ffff_ffff_ffff;
    let nanos = match reading {
        Ok((_, n)) => n,
        Err((_, n)) => n,
    };
    if nanos >= 1_000_000_000 {
        return None;
    }
    match reading {
        Ok((s, n)) => if s <= max {
            Some((s as i64, n))
        } else {
            None
        },
        Err((s, n)) => if s > max {
            None
        } else if n == 0 {
            Some((-(s as i64), 0))
        } else {
            Some((-(s as i64) - 1, 1_000_000_000 - n))
        },
    }
}

/// The RFC 3339 text chrono gives for a Unix timestamp, when it can represent it.
pub uninterp spec fn chrono_utc_millis_text(secs: i64, nanos: u32) -> Option<Seq<char>>;

/// `chrono::DateTime::<chrono::Utc>::from_timestamp(secs, nanos)`, written with
/// `to_rfc3339_opts(chrono::SecondsFormat::Millis, true)`: `None` when chrono cannot
/// represent the instant, else RFC 3339 text with milliseconds and, the offset being
/// zero, a `Z` suffix. Which instants chrono represents is not stated.
#[verifier::external_body]
fn utc_rfc3339_millis(secs: i64, nanos: u32) -> (r: Option<String>)
    ensures
        chrono_utc_millis_text(secs, nanos) == opt_string_view(r),
        r matches Some(t) ==> utc_millis_timestamp(t@),
{
    match chrono::DateTime::<chrono::Utc>::from_timestamp(secs, nanos) {
        Some(d) => Some(d.to_rfc3339_opts(chrono::SecondsFormat::Millis, true)),
        None => None,
    }
}

/// The stamp for a clock reading: chrono's RFC 3339 text for its Unix timestamp, or the
/// epoch's when chrono cannot represent that instant.
pub open spec fn reading_stamp_spec(reading: Result<(u64, u32), (u64, u32)>) -> Seq<char> {
    match signed_timestamp_spec(reading) {
        Some((s, n)) => match chrono_utc_millis_text(s as i64, n as u32) {
            Some(t) => t,
            None => "1970-01-01T00:00:00.000Z"@,
        },
        None => "1970-01-01T00:00:00.000Z"@,
    }
}

/// The current time as RFC 3339 UTC text with milliseconds: the stamp for the clock's
/// reading.
fn now_ts() -> (r: String)
    ensures
        utc_millis_timestamp(r@),
{
    stamp_for_reading(clock_since_epoch())
}

/// The stamp for a clock reading, as RFC 3339 UTC text with milliseconds (see
/// [`reading_stamp_spec`]). A reading chrono cannot represent (hundreds of thousands of
/// years away from 1970) is stamped with the epoch.
pub fn stamp_for_reading(reading: Result<(u64, u32), (u64, u32)>) -> (r: String)
    ensures
        r@ == reading_stamp_spec(reading),
        utc_millis_timestamp(r@),
{
    if let Some((secs, nanos)) = signed_timestamp(reading) {
        if let Some(text) = utc_rfc3339_millis(secs, nanos) {
            return text;
        }
    }
    let text = string_of("1970-01-01T00:00:00.000Z");
    proof {
        reveal_strlit("1970-01-01T00:00:00.000Z");
        let t = text@;
        let y = t.subrange(0, 4);
        let z = t.subrange(4, 24);
        assert(y[0] == '1' && y[1] == '9' && y[2] == '7' && y[3] == '0');
        assert(z[0] == '-' && z[1] == '0' && z[2] == '1' && z[3] == '-' && z[4] == '0' && z[5] == '1');
        assert(z[6] == 'T' && z[7] == '0' && z[8] == '0' && z[9] == ':' && z[10] == '0' && z[11] == '0');
        assert(z[12] == ':' && z[13] == '0' && z[14] == '0' && z[15] == '.' && z[16] == '0' && z[17] == '0');
        assert(z[18] == '0' && z[19] == 'Z');
        assert(year_text_ok(y));
        assert(time_text_ok(z));
    }
    text
}

/// The buffer of entries not yet sent and the sender future flushes go through.
pub struct LogForwarder<Tx> {
    sender: Option<Tx>,
    buffer: Vec<ClientLogEntry>,
    pid: Option<u32>,
    ver: Option<String>,
}

/// The forwarder as plain values.
pub struct LogForwarderView<Tx> {
    pub sender: Option<Tx>,
    pub buffer: Seq<ClientLogEntry>,
    pub pid: Option<u32>,
    pub ver: Option<Seq<char>>,
}

impl<Tx> View for LogForwarder<Tx> {
    type V = LogForwarderView<Tx>;

    closed spec fn view(&self) -> LogForwarderView<Tx> {
        LogForwarderView { sender: self.sender, buffer: self.buffer@, pid: self.pid, ver: opt_string_view(self.ver) }
    }
}

/// Whether pushing onto `buffer` sends the batch at once.
pub open spec fn auto_flushes<Tx>(sender: Option<Tx>, buffer: Seq<ClientLogEntry>) -> bool {
    buffer.len() >= AUTO_FLUSH_BATCH && sender is Some
}

/// A batch of entries to send, or `None` when there is nothing to send.
pub open spec fn batch_view(b: Option<Vec<ClientLogEntry>>) -> Option<Seq<ClientLogEntry>> {
    match b {
        Some(v) => Some(v@),
        None => None,
    }
}

/// `entry` carries the given level, message, session, context, process id and version,
/// and a UTC timestamp read from the clock.
pub open spec fn entry_for(
    entry: ClientLogEntry,
    lvl: LogLevel,
    msg: Seq<char>,
    sid: Option<Seq<char>>,
    ctx: Option<serde_json::Value>,
    pid: Option<u32>,
    ver: Option<Seq<char>>,
) -> bool {
    &&& utc_millis_timestamp(entry.ts@)
    &&& entry.lvl == lvl
    &&& entry.msg@ == msg
    &&& opt_string_view(entry.sid) == sid
    &&& entry.ctx == ctx
    &&& entry.pid == pid
    &&& opt_string_view(entry.ver) == ver
}

/// Pushing `entry` took the forwarder from `old` to `new` and handed out `r`: the
/// buffer with the entry goes out whole when it reaches a batch and a sender is bound,
/// else the entry waits in the buffer.
pub open spec fn pushed<Tx>(
    old: LogForwarderView<Tx>,
    new: LogForwarderView<Tx>,
    r: Option<Seq<ClientLogEntry>>,
    entry: ClientLogEntry,
) -> bool {
    &&& new.sender == old.sender
    &&& new.pid == old.pid
    &&& new.ver == old.ver
    &&& if auto_flushes(old.sender, old.buffer.push(entry)) {
        r == Some(old.buffer.push(entry)) && new.buffer == Seq::<ClientLogEntry>::empty()
    } else {
        r is None && new.buffer == old.buffer.push(entry)
    }
}

impl<Tx> LogForwarder<Tx> {
    /// An empty forwarder with no sender; entries it makes carry `pid` and `ver`.
    pub fn new(pid: Option<u32>, ver: Option<&str>) -> (r: Self)
        ensures
            r@.sender is None,
            r@.buffer == Seq::<ClientLogEntry>::empty(),
            r@.pid == pid,
            r@.ver == opt_str_ref_view(ver),
    {
        LogForwarder {
            sender: None,
            buffer: Vec::new(),
            pid,
            ver: match ver {
                Some(v) => Some(string_of(v)),
                None => None,
            },
        }
    }

    /// Replaces the sender used for future flushes.
    pub fn set_sender(&mut self, tx: Tx)
        ensures
            final(self)@.sender == Some(tx),
            final(self)@.buffer == old(self)@.buffer,
            final(self)@.pid == old(self)@.pid,
            final(self)@.ver == old(self)@.ver,
    {
        self.sender = Some(tx);
    }

    /// The sender future flushes go through.
    pub fn current_sender(&self) -> (r: Option<&Tx>)
        ensures
            match r {
                Some(t) => self@.sender == Some(*t),
                None => self@.sender is None,
            },
    {
        self.sender.as_ref()
    }

    /// The entries waiting to be sent.
    pub fn buffered(&self) -> (r: &Vec<ClientLogEntry>)
        ensures
            r@ == self@.buffer,
    {
        &self.buffer
    }

    fn take_buffer(&mut self) -> (r: Vec<ClientLogEntry>)
        ensures
            r@ == old(self)@.buffer,
            final(self)@.buffer == Seq::<ClientLogEntry>::empty(),
            final(self)@.sender == old(self)@.sender,
            final(self)@.pid == old(self)@.pid,
            final(self)@.ver == old(self)@.ver,
    {
        let mut taken: Vec<ClientLogEntry> = Vec::new();
        std::mem::swap(&mut taken, &mut self.buffer);
        taken
    }

    /// Buffers `entry`; once sixteen entries are buffered and a sender is bound, hands
    /// them all out to be sent.
    pub fn push_entry(&mut self, entry: ClientLogEntry) -> (r: Option<Vec<ClientLogEntry>>)
        ensures
            pushed(old(self)@, final(self)@, batch_view(r), entry),
    {
        self.buffer.push(entry);
        if self.buffer.len() >= AUTO_FLUSH_BATCH && self.sender.is_some() {
            Some(self.take_buffer())
        } else {
            None
        }
    }

    /// Makes an entry stamped with the current time and buffers it (see [`Self::push_entry`]).
    pub fn log(&mut self, lvl: LogLevel, msg: &str, sid: Option<&str>, ctx: Option<serde_json::Value>) -> (r: Option<Vec<ClientLogEntry>>)
        ensures
            exists|entry: ClientLogEntry|
                #[trigger] entry_for(entry, lvl, msg@, opt_str_ref_view(sid), ctx, old(self)@.pid, old(self)@.ver)
                    && pushed(old(self)@, final(self)@, batch_view(r), entry),
    {
        let entry = ClientLogEntry {
            ts: now_ts(),
            pid: self.pid,
            ver: match &self.ver {
                Some(v) => Some(v.clone()),
                None => None,
            },
            lvl,
            sid: match sid {
                Some(s) => Some(string_of(s)),
                None => None,
            },
            msg: string_of(msg),
            ctx,
        };
        let ghost e = entry;
        assert(entry_for(e, lvl, msg@, opt_str_ref_view(sid), ctx, old(self)@.pid, old(self)@.ver));
        self.push_entry(entry)
    }

    /// Logs an info-level entry.
    pub fn info(&mut self, msg: &str, sid: Option<&str>, ctx: Option<serde_json::Value>) -> (r: Option<Vec<ClientLogEntry>>)
        ensures
            exists|entry: ClientLogEntry|
                #[trigger] entry_for(entry, LogLevel::Info, msg@, opt_str_ref_view(sid), ctx, old(self)@.pid, old(self)@.ver)
                    && pushed(old(self)@, final(self)@, batch_view(r), entry),
    {
        self.log(LogLevel::Info, msg, sid, ctx)
    }

    /// Logs a warn-level entry.
    pub fn warn(&mut self, msg: &str, sid: Option<&str>, ctx: Option<serde_json::Value>) -> (r: Option<Vec<ClientLogEntry>>)
        ensures
            exists|entry: ClientLogEntry|
                #[trigger] entry_for(entry, LogLevel::Warn, msg@, opt_str_ref_view(sid), ctx, old(self)@.pid, old(self)@.ver)
                    && pushed(old(self)@, final(self)@, batch_view(r), entry),
    {
        self.log(LogLevel::Warn, msg, sid, ctx)
    }

    /// Logs an error-level entry.
    pub fn error(&mut self, msg: &str, sid: Option<&str>, ctx: Option<serde_json::Value>) -> (r: Option<Vec<ClientLogEntry>>)
        ensures
            exists|entry: ClientLogEntry|
                #[trigger] entry_for(entry, LogLevel::Error, msg@, opt_str_ref_view(sid), ctx, old(self)@.pid, old(self)@.ver)
                    && pushed(old(self)@, final(self)@, batch_view(r), entry),
    {
        self.log(LogLevel::Error, msg, sid, ctx)
    }

    /// Logs a debug-level entry.
    pub fn debug(&mut self, msg: &str, sid: Option<&str>, ctx: Option<serde_json::Value>) -> (r: Option<Vec<ClientLogEntry>>)
        ensures
            exists|entry: ClientLogEntry|
                #[trigger] entry_for(entry, LogLevel::Debug, msg@, opt_str_ref_view(sid), ctx, old(self)@.pid, old(self)@.ver)
                    && pushed(old(self)@, final(self)@, batch_view(r), entry),
    {
        self.log(LogLevel::Debug, msg, sid, ctx)
    }

    /// Hands out every buffered entry to be sent. Without a sender the entries are
    /// dropped, as there is nowhere to send them.
    pub fn flush(&mut self) -> (r: Option<Vec<ClientLogEntry>>)
        ensures
            final(self)@.buffer == Seq::<ClientLogEntry>::empty(),
            final(self)@.sender == old(self)@.sender,
            final(self)@.pid == old(self)@.pid,
            final(self)@.ver == old(self)@.ver,
            batch_view(r) == (if old(self)@.buffer.len() > 0 && old(self)@.sender is Some {
                Some(old(self)@.buffer)
            } else {
                None
            }),
    {
        if self.buffer.len() == 0 {
            return None;
        }
        let entries = self.take_buffer();
        if self.sender.is_none() {
            return None;
        }
        Some(entries)
    }

    /// Forgets the sender and every buffered entry.
    pub fn reset_for_tests(&mut self)
        ensures
            final(self)@.sender is None,
            final(self)@.buffer == Seq::<ClientLogEntry>::empty(),
            final(self)@.pid == old(self)@.pid,
            final(self)@.ver == old(self)@.ver,
    {
        self.sender = None;
        self.buffer = Vec::new();
    }
}

/// The notification parameters for a batch; none for an empty batch.
pub fn build_notification(entries: Vec<ClientLogEntry>) -> (r: Option<LogNotificationParams>)
    ensures
        entries@.len() == 0 ==> r is None,
        entries@.len() > 0 ==> (r matches Some(p) && p.src == LogSource::GrokPager && p.entries@ == entries@),
{
    if entries.len() == 0 {
        return None;
    }
    Some(LogNotificationParams { src: LogSource::GrokPager, entries })
}

} // verus!
