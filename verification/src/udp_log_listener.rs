//! Log lines the ClearCore sends over UDP: the frame format, the record kept for each
//! line, its HTML rendering and the bounded backlog.
//!
//! A frame is `SOH [ANSI level tag] source-info STX message ETX`; the level tag is one of
//! the coloured `[ERROR]`, `[WARN]`, `[INFO]`, `[DEBUG]`, `[TRACE]` markers.
use vstd::prelude::*;
use vstd::utf8::{decode_utf8, valid_utf8};
use std::collections::VecDeque;
use crate::text::{push_str, trim, trimmed};

verus! {

/// Most log records kept for display.
pub const MAX_LOG_ENTRIES: usize = 200;

/// Start of heading.
pub const SOH: u8 = 0x01;
/// Start of text.
pub const STX: u8 = 0x02;
/// End of text.
pub const ETX: u8 = 0x03;

/// Severity of a log line.
#[derive(Clone, Copy, Debug, PartialEq, Eq, Structural)]
pub enum LogLevel {
    Error,
    Warn,
    Info,
    Debug,
    Trace,
}

impl LogLevel {
    /// The level's name padded to five characters, as log lines print it.
    pub open spec fn spec_padded_name(self) -> Seq<char> {
        match self {
            LogLevel::Error => "ERROR"@,
            LogLevel::Warn => "WARN "@,
            LogLevel::Info => "INFO "@,
            LogLevel::Debug => "DEBUG"@,
            LogLevel::Trace => "TRACE"@,
        }
    }

    pub fn padded_name(&self) -> (s: &'static str)
        ensures
            s@ == self.spec_padded_name(),
    {
        match self {
            LogLevel::Error => "ERROR",
            LogLevel::Warn => "WARN ",
            LogLevel::Info => "INFO ",
            LogLevel::Debug => "DEBUG",
            LogLevel::Trace => "TRACE",
        }
    }
}

/// The ANSI-coloured marker that opens a line of the given level:
/// `ESC[3<colour>m[<LEVEL>]ESC[0m`.
pub open spec fn level_tag(level: LogLevel) -> Seq<u8> {
    let (colour, label): (u8, Seq<u8>) = match level {
        LogLevel::Error => (0x31u8, seq![0x45u8, 0x52, 0x52, 0x4f, 0x52]),
        LogLevel::Warn => (0x33u8, seq![0x57u8, 0x41, 0x52, 0x4e]),
        LogLevel::Info => (0x34u8, seq![0x49u8, 0x4e, 0x46, 0x4f]),
        LogLevel::Debug => (0x35u8, seq![0x44u8, 0x45, 0x42, 0x55, 0x47]),
        LogLevel::Trace => (0x37u8, seq![0x54u8, 0x52, 0x41, 0x43, 0x45]),
    };
    seq![0x1bu8, 0x5b, 0x33, colour, 0x6d, 0x5b] + label + seq![0x5du8, 0x1b, 0x5b, 0x30, 0x6d]
}

pub open spec fn starts_with(s: Seq<u8>, t: Seq<u8>) -> bool {
    t.len() <= s.len() && s.subrange(0, t.len() as int) == t
}

/// The level whose marker opens `rem`, trying error, warn, info, debug, trace in turn.
pub open spec fn leading_level(rem: Seq<u8>) -> Option<LogLevel> {
    if starts_with(rem, level_tag(LogLevel::Error)) {
        Some(LogLevel::Error)
    } else if starts_with(rem, level_tag(LogLevel::Warn)) {
        Some(LogLevel::Warn)
    } else if starts_with(rem, level_tag(LogLevel::Info)) {
        Some(LogLevel::Info)
    } else if starts_with(rem, level_tag(LogLevel::Debug)) {
        Some(LogLevel::Debug)
    } else if starts_with(rem, level_tag(LogLevel::Trace)) {
        Some(LogLevel::Trace)
    } else {
        None
    }
}

/// `rem` without its level marker, if it has one.
pub open spec fn after_level_tag(rem: Seq<u8>) -> Seq<u8> {
    match leading_level(rem) {
        Some(l) => rem.skip(level_tag(l).len() as int),
        None => rem,
    }
}

/// The index of the first `b` in `s`.
pub open spec fn find_byte(s: Seq<u8>, b: u8) -> Option<int>
    decreases s.len(),
{
    if s.len() == 0 {
        None
    } else if s[0] == b {
        Some(0)
    } else {
        match find_byte(s.drop_first(), b) {
            Some(i) => Some(i + 1),
            None => None,
        }
    }
}

/// The parts of a well-formed frame: its level, the bytes of its source info and the
/// bytes of its message. A frame that does not start with SOH, or lacks the STX after
/// the source info or the ETX after the message, has none.
pub open spec fn spec_decode_frame(buf: Seq<u8>) -> Option<(Option<LogLevel>, Seq<u8>, Seq<u8>)> {
    if buf.len() == 0 || buf[0] != SOH {
        None
    } else {
        let rem = buf.drop_first();
        let after = after_level_tag(rem);
        match find_byte(after, STX) {
            None => None,
            Some(stx) => {
                let tail = after.skip(stx + 1);
                match find_byte(tail, ETX) {
                    None => None,
                    Some(etx) => Some((leading_level(rem), after.take(stx), tail.take(etx))),
                }
            },
        }
    }
}

/// The parts of one decoded frame.
#[derive(Debug)]
pub struct LogFrame {
    pub level: Option<LogLevel>,
    pub source: Vec<u8>,
    pub message: Vec<u8>,
}

proof fn lemma_find_byte_at(s: Seq<u8>, b: u8, i: int)
    requires
        0 <= i <= s.len(),
        forall|k: int| 0 <= k < i ==> s[k] != b,
    ensures
        i < s.len() && s[i] == b ==> find_byte(s, b) == Some(i),
        i == s.len() ==> find_byte(s, b) is None,
    decreases i,
{
    if i > 0 {
        let t = s.drop_first();
        assert forall|k: int| 0 <= k < i - 1 implies t[k] != b by {
            assert(t[k] == s[k + 1]);
        }
        lemma_find_byte_at(t, b, i - 1);
        if i < s.len() && s[i] == b {
            assert(t[i - 1] == s[i]);
        }
    } else if s.len() > 0 {
    }
}

/// The first index at or after `from` where `buf` holds `b`.
fn find_from(buf: &[u8], from: usize, b: u8) -> (r: Option<usize>)
    requires
        from <= buf@.len(),
    ensures
        r is None <==> find_byte(buf@.skip(from as int), b) is None,
        r matches Some(i) ==> from <= i < buf@.len() && find_byte(buf@.skip(from as int), b)
            == Some(i - from),
{
    let ghost s = buf@.skip(from as int);
    let mut i = from;
    while i < buf.len()
        invariant
            from <= i <= buf@.len(),
            s == buf@.skip(from as int),
            forall|k: int| 0 <= k < i - from ==> s[k] != b,
        decreases buf.len() - i,
    {
        if buf[i] == b {
            proof {
                lemma_find_byte_at(s, b, i - from);
            }
            return Some(i);
        }
        i = i + 1;
    }
    proof {
        lemma_find_byte_at(s, b, i - from);
    }
    None
}

/// Whether `buf` holds `tag` starting at `from`.
fn has_at(buf: &[u8], from: usize, tag: &Vec<u8>) -> (r: bool)
    requires
        from <= buf@.len(),
    ensures
        r == starts_with(buf@.skip(from as int), tag@),
{
    if tag.len() > buf.len() - from {
        return false;
    }
    let mut k: usize = 0;
    while k < tag.len()
        invariant
            from <= buf@.len(),
            from + tag@.len() <= buf.len(),
            k <= tag@.len(),
            forall|j: int| 0 <= j < k ==> buf@[from + j] == tag@[j],
        decreases tag.len() - k,
    {
        if buf[from + k] != tag[k] {
            proof {
                assert(buf@.skip(from as int).subrange(0, tag@.len() as int)[k as int] == buf@[from + k]);
            }
            return false;
        }
        k = k + 1;
    }
    proof {
        assert(buf@.skip(from as int).subrange(0, tag@.len() as int) =~= tag@);
    }
    true
}

fn level_tag_bytes(level: LogLevel) -> (v: Vec<u8>)
    ensures
        v@ == level_tag(level),
{
    let v = match level {
        LogLevel::Error => vec![0x1bu8, 0x5b, 0x33, 0x31, 0x6d, 0x5b, 0x45, 0x52, 0x52, 0x4f, 0x52, 0x5d, 0x1b, 0x5b, 0x30, 0x6d],
        LogLevel::Warn => vec![0x1bu8, 0x5b, 0x33, 0x33, 0x6d, 0x5b, 0x57, 0x41, 0x52, 0x4e, 0x5d, 0x1b, 0x5b, 0x30, 0x6d],
        LogLevel::Info => vec![0x1bu8, 0x5b, 0x33, 0x34, 0x6d, 0x5b, 0x49, 0x4e, 0x46, 0x4f, 0x5d, 0x1b, 0x5b, 0x30, 0x6d],
        LogLevel::Debug => vec![0x1bu8, 0x5b, 0x33, 0x35, 0x6d, 0x5b, 0x44, 0x45, 0x42, 0x55, 0x47, 0x5d, 0x1b, 0x5b, 0x30, 0x6d],
        LogLevel::Trace => vec![0x1bu8, 0x5b, 0x33, 0x37, 0x6d, 0x5b, 0x54, 0x52, 0x41, 0x43, 0x45, 0x5d, 0x1b, 0x5b, 0x30, 0x6d],
    };
    assert(v@ =~= level_tag(level));
    v
}

/// Copies `buf[from..to]`.
fn copy_range(buf: &[u8], from: usize, to: usize) -> (v: Vec<u8>)
    requires
        from <= to <= buf@.len(),
    ensures
        v@ == buf@.subrange(from as int, to as int),
{
    let mut v = Vec::new();
    let mut i = from;
    while i < to
        invariant
            from <= i <= to <= buf@.len(),
            v@ == buf@.subrange(from as int, i as int),
        decreases to - i,
    {
        v.push(buf[i]);
        proof {
            assert(buf@.subrange(from as int, i + 1) =~= buf@.subrange(from as int, i as int).push(buf@[i as int]));
        }
        i = i + 1;
    }
    v
}

/// Splits one datagram into level, source info and message. Whatever the outcome, a
/// non-empty datagram is consumed whole.
pub fn decode_frame(buf: &[u8]) -> (r: Option<LogFrame>)
    ensures
        match spec_decode_frame(buf@) {
            Some((level, source, message)) => r matches Some(f) && f.level == level && f.source@
                == source && f.message@ == message,
            None => r is None,
        },
{
    if buf.len() == 0 {
        return None;
    }
    if buf[0] != SOH {
        return None;
    }
    let ghost rem = buf@.drop_first();
    proof {
        assert(buf@.skip(1) =~= rem);
    }
    let mut level: Option<LogLevel> = None;
    let mut start: usize = 1;
    if has_at(buf, 1, &level_tag_bytes(LogLevel::Error)) {
        level = Some(LogLevel::Error);
        start = 1 + 16;
    } else if has_at(buf, 1, &level_tag_bytes(LogLevel::Warn)) {
        level = Some(LogLevel::Warn);
        start = 1 + 15;
    } else if has_at(buf, 1, &level_tag_bytes(LogLevel::Info)) {
        level = Some(LogLevel::Info);
        start = 1 + 15;
    } else if has_at(buf, 1, &level_tag_bytes(LogLevel::Debug)) {
        level = Some(LogLevel::Debug);
        start = 1 + 16;
    } else if has_at(buf, 1, &level_tag_bytes(LogLevel::Trace)) {
        level = Some(LogLevel::Trace);
        start = 1 + 16;
    }
    let ghost after = after_level_tag(rem);
    proof {
        assert(level == leading_level(rem));
        assert(buf@.skip(start as int) =~= after);
    }
    let stx = match find_from(buf, start, STX) {
        Some(p) => p,
        None => return None,
    };
    let msg_start = stx + 1;
    let ghost i = stx - start;
    let ghost tail = after.skip(i + 1);
    proof {
        assert(find_byte(after, STX) == Some(i));
        assert(buf@.skip(msg_start as int) =~= tail);
    }
    let etx = match find_from(buf, msg_start, ETX) {
        Some(p) => p,
        None => return None,
    };
    let source = copy_range(buf, start, stx);
    let message = copy_range(buf, msg_start, etx);
    proof {
        assert(find_byte(tail, ETX) == Some(etx - msg_start));
        assert(source@ =~= after.take(i));
        assert(message@ =~= tail.take(etx - msg_start));
    }
    Some(LogFrame { level, source, message })
}

/// What `String::from_utf8_lossy` makes of `bytes`.
pub uninterp spec fn utf8_lossy(bytes: Seq<u8>) -> Seq<char>;

/// Decodes bytes as UTF-8, replacing invalid sequences (std `String::from_utf8_lossy`);
/// valid UTF-8 decodes as itself.
#[verifier::external_body]
fn decode_utf8_lossy(bytes: &[u8]) -> (s: String)
    ensures
        s@ == utf8_lossy(bytes@),
        valid_utf8(bytes@) ==> s@ == decode_utf8(bytes@),
{
    String::from_utf8_lossy(bytes).into_owned()
}

/// One log line as kept and shown. `timestamp` is the local time the line arrived, as text.
#[derive(Clone, Debug)]
pub struct ClearcoreLog {
    pub timestamp: String,
    pub level: Option<LogLevel>,
    pub source_info: String,
    pub message: String,
}

impl ClearcoreLog {
    /// The record of a decoded frame: source info and message decoded (lossily) as UTF-8
    /// and trimmed.
    pub fn from_frame(frame: &LogFrame, timestamp: String) -> (l: ClearcoreLog)
        ensures
            l.timestamp == timestamp,
            l.level == frame.level,
            l.source_info@ == trim(utf8_lossy(frame.source@)),
            l.message@ == trim(utf8_lossy(frame.message@)),
            valid_utf8(frame.source@) ==> l.source_info@ == trim(decode_utf8(frame.source@)),
            valid_utf8(frame.message@) ==> l.message@ == trim(decode_utf8(frame.message@)),
    {
        let source_raw = decode_utf8_lossy(frame.source.as_slice());
        let message_raw = decode_utf8_lossy(frame.message.as_slice());
        ClearcoreLog {
            timestamp,
            level: frame.level,
            source_info: trimmed(source_raw.as_str()),
            message: trimmed(message_raw.as_str()),
        }
    }

    pub open spec fn spec_list_element_class(log_level: Option<LogLevel>) -> Seq<char> {
        match log_level {
            Some(LogLevel::Error) => "clearcore-log-entry-error"@,
            Some(LogLevel::Warn) => "clearcore-log-entry-warn"@,
            Some(LogLevel::Info) => "clearcore-log-entry-info"@,
            Some(LogLevel::Debug) => "clearcore-log-entry-debug"@,
            Some(LogLevel::Trace) => "clearcore-log-entry-trace"@,
            None => "clearcore-log-entry-none"@,
        }
    }

    /// CSS class of a log list item.
    pub fn log_level_as_list_element_class(log_level: Option<LogLevel>) -> (s: &'static str)
        ensures
            s@ == Self::spec_list_element_class(log_level),
    {
        match log_level {
            Some(LogLevel::Error) => "clearcore-log-entry-error",
            Some(LogLevel::Warn) => "clearcore-log-entry-warn",
            Some(LogLevel::Info) => "clearcore-log-entry-info",
            Some(LogLevel::Debug) => "clearcore-log-entry-debug",
            Some(LogLevel::Trace) => "clearcore-log-entry-trace",
            None => "clearcore-log-entry-none",
        }
    }

    pub open spec fn spec_span_class(log_level: LogLevel) -> Seq<char> {
        match log_level {
            LogLevel::Error => "clearcore-log-level-error"@,
            LogLevel::Warn => "clearcore-log-level-warn"@,
            LogLevel::Info => "clearcore-log-level-info"@,
            LogLevel::Debug => "clearcore-log-level-debug"@,
            LogLevel::Trace => "clearcore-log-level-trace"@,
        }
    }

    /// CSS class of the level badge.
    pub fn log_level_as_span_class(log_level: LogLevel) -> (s: &'static str)
        ensures
            s@ == Self::spec_span_class(log_level),
    {
        match log_level {
            LogLevel::Error => "clearcore-log-level-error",
            LogLevel::Warn => "clearcore-log-level-warn",
            LogLevel::Info => "clearcore-log-level-info",
            LogLevel::Debug => "clearcore-log-level-debug",
            LogLevel::Trace => "clearcore-log-level-trace",
        }
    }

    pub open spec fn spec_span(log_level: LogLevel) -> Seq<char> {
        "<span class='"@ + Self::spec_span_class(log_level) + "'>["@ + log_level.spec_padded_name()
            + "]</span>"@
    }

    /// The level badge: `<span class='...'>[LEVEL]</span>`.
    pub fn log_level_as_span(log_level: LogLevel) -> (s: String)
        ensures
            s@ == Self::spec_span(log_level),
    {
        let mut s = String::from_str("<span class='");
        push_str(&mut s, Self::log_level_as_span_class(log_level));
        push_str(&mut s, "'>[");
        push_str(&mut s, log_level.padded_name());
        push_str(&mut s, "]</span>");
        s
    }

    pub open spec fn spec_html(&self) -> Seq<char> {
        let level_span = match self.level {
            Some(l) => Self::spec_span(l),
            None => Seq::<char>::empty(),
        };
        "<li class='clearcore-log-entry "@ + Self::spec_list_element_class(self.level)
            + "'><span class='clearcore-log-timestamp'>"@ + self.timestamp@
            + " </span><span class='clearcore-log-source'>"@ + self.source_info@ + " </span> "@
            + level_span + " <span class='clearcore-log-message'>"@ + self.message@
            + "</span></li>"@
    }

    /// The record as a list item of the log view.
    pub fn as_html_list_element(&self) -> (s: String)
        ensures
            s@ == self.spec_html(),
    {
        let mut s = String::from_str("<li class='clearcore-log-entry ");
        push_str(&mut s, Self::log_level_as_list_element_class(self.level));
        push_str(&mut s, "'><span class='clearcore-log-timestamp'>");
        push_str(&mut s, self.timestamp.as_str());
        push_str(&mut s, " </span><span class='clearcore-log-source'>");
        push_str(&mut s, self.source_info.as_str());
        push_str(&mut s, " </span> ");
        match self.level {
            Some(l) => {
                let span = Self::log_level_as_span(l);
                push_str(&mut s, span.as_str());
            },
            None => {},
        }
        push_str(&mut s, " <span class='clearcore-log-message'>");
        push_str(&mut s, self.message.as_str());
        push_str(&mut s, "</span></li>");
        proof {
            assert(s@ =~= self.spec_html());
        }
        s
    }

    /// An error-level line is also raised to the user as a toast carrying its message.
    pub fn toast_message(&self) -> (m: Option<String>)
        ensures
            self.level == Some(LogLevel::Error) ==> (m matches Some(t) && t@ == self.message@),
            self.level != Some(LogLevel::Error) ==> m is None,
    {
        match self.level {
            Some(LogLevel::Error) => Some(self.message.clone()),
            _ => None,
        }
    }
}

/// Appends a record to the backlog, first dropping the oldest one when the backlog is full.
pub fn push_log<T>(buffer: &mut VecDeque<T>, log: T)
    ensures
        old(buffer)@.len() >= MAX_LOG_ENTRIES ==> final(buffer)@ == old(buffer)@.drop_first().push(log),
        old(buffer)@.len() < MAX_LOG_ENTRIES ==> final(buffer)@ == old(buffer)@.push(log),
{
    if buffer.len() >= MAX_LOG_ENTRIES {
        let _ = buffer.pop_front();
        proof {
            assert(buffer@ =~= old(buffer)@.drop_first());
        }
    }
    buffer.push_back(log);
}

/// The datagram the ClearCore sends for one log line.
pub open spec fn encode_frame(level: Option<LogLevel>, source: Seq<u8>, message: Seq<u8>) -> Seq<u8> {
    let tag = match level {
        Some(l) => level_tag(l),
        None => Seq::<u8>::empty(),
    };
    seq![SOH] + tag + source + seq![STX] + message + seq![ETX]
}

proof fn lemma_tag_has_no_stx(l: LogLevel)
    ensures
        forall|i: int| 0 <= i < level_tag(l).len() ==> level_tag(l)[i] != STX,
        level_tag(l).len() >= 4,
{
    let t = level_tag(l);
    assert forall|i: int| 0 <= i < t.len() implies t[i] != STX by {
        match l {
            LogLevel::Error => {},
            LogLevel::Warn => {},
            LogLevel::Info => {},
            LogLevel::Debug => {},
            LogLevel::Trace => {},
        }
    }
}

proof fn lemma_no_tag_after_plain_source(source: Seq<u8>, rest: Seq<u8>, l: LogLevel)
    requires
        !starts_with(source, level_tag(l)),
        forall|i: int| 0 <= i < source.len() ==> source[i] != STX,
    ensures
        !starts_with(source + seq![STX] + rest, level_tag(l)),
{
    let t = level_tag(l);
    let r = source + seq![STX] + rest;
    lemma_tag_has_no_stx(l);
    if starts_with(r, t) {
        if source.len() >= t.len() {
            assert(source.subrange(0, t.len() as int) =~= r.subrange(0, t.len() as int));
        } else {
            assert(r.subrange(0, t.len() as int)[source.len() as int] == r[source.len() as int]);
            assert(r[source.len() as int] == STX);
        }
    }
}

proof fn lemma_other_tag_absent(l: LogLevel, other: LogLevel, rest: Seq<u8>)
    requires
        l != other,
    ensures
        !starts_with(level_tag(l) + rest, level_tag(other)),
{
    let r = level_tag(l) + rest;
    let t = level_tag(other);
    assert(r[3] == level_tag(l)[3]);
    if t.len() <= r.len() {
        assert(r.subrange(0, t.len() as int)[3] == r[3]);
    }
}

proof fn lemma_tag_leads(l: LogLevel, rest: Seq<u8>)
    ensures
        leading_level(level_tag(l) + rest) == Some(l),
{
    let r = level_tag(l) + rest;
    assert(r.subrange(0, level_tag(l).len() as int) =~= level_tag(l));
    if l != LogLevel::Error {
        lemma_other_tag_absent(l, LogLevel::Error, rest);
    }
    if l != LogLevel::Warn {
        lemma_other_tag_absent(l, LogLevel::Warn, rest);
    }
    if l != LogLevel::Info {
        lemma_other_tag_absent(l, LogLevel::Info, rest);
    }
    if l != LogLevel::Debug {
        lemma_other_tag_absent(l, LogLevel::Debug, rest);
    }
}

/// What the ClearCore sends is read back as sent: a line's level, source info and
/// message come out of the decoder unchanged, as long as the source info holds no STX,
/// the message no ETX, and a line without a level does not open with a level marker.
pub proof fn law_frame_roundtrip(level: Option<LogLevel>, source: Seq<u8>, message: Seq<u8>)
    requires
        forall|i: int| 0 <= i < source.len() ==> source[i] != STX,
        forall|i: int| 0 <= i < message.len() ==> message[i] != ETX,
        level is None ==> leading_level(source) is None,
    ensures
        spec_decode_frame(encode_frame(level, source, message)) == Some((level, source, message)),
{
    let buf = encode_frame(level, source, message);
    let tag = match level {
        Some(l) => level_tag(l),
        None => Seq::<u8>::empty(),
    };
    let after = source + seq![STX] + message + seq![ETX];
    let rem = buf.drop_first();
    assert(rem =~= tag + after);
    match level {
        Some(l) => {
            lemma_tag_leads(l, after);
        },
        None => {
            assert(rem =~= after);
            assert(after =~= source + seq![STX] + (message + seq![ETX]));
            lemma_no_tag_after_plain_source(source, message + seq![ETX], LogLevel::Error);
            lemma_no_tag_after_plain_source(source, message + seq![ETX], LogLevel::Warn);
            lemma_no_tag_after_plain_source(source, message + seq![ETX], LogLevel::Info);
            lemma_no_tag_after_plain_source(source, message + seq![ETX], LogLevel::Debug);
            lemma_no_tag_after_plain_source(source, message + seq![ETX], LogLevel::Trace);
        },
    }
    assert(leading_level(rem) == level);
    assert(after_level_tag(rem) =~= after);
    assert(after[source.len() as int] == STX);
    lemma_find_byte_at(after, STX, source.len() as int);
    let tail = after.skip(source.len() as int + 1);
    assert(tail =~= message + seq![ETX]);
    assert(tail[message.len() as int] == ETX);
    lemma_find_byte_at(tail, ETX, message.len() as int);
    assert(after.take(source.len() as int) =~= source);
    assert(tail.take(message.len() as int) =~= message);
}

/// The backlog never grows past its bound, and the newest record is always last.
pub proof fn law_backlog_bounded<T>(before: Seq<T>, log: T)
    requires
        before.len() <= MAX_LOG_ENTRIES,
    ensures
        ({
            let after = if before.len() >= MAX_LOG_ENTRIES {
                before.drop_first().push(log)
            } else {
                before.push(log)
            };
            after.len() <= MAX_LOG_ENTRIES && after.last() == log
        }),
{
}

/// The lower-case word a level goes by in the CSS classes of the log view.
pub open spec fn level_word(l: LogLevel) -> Seq<char> {
    match l {
        LogLevel::Error => "error"@,
        LogLevel::Warn => "warn"@,
        LogLevel::Info => "info"@,
        LogLevel::Debug => "debug"@,
        LogLevel::Trace => "trace"@,
    }
}

/// The level's name in capitals, padded to five characters.
pub open spec fn level_label(l: LogLevel) -> Seq<char> {
    match l {
        LogLevel::Error => "ERROR"@,
        LogLevel::Warn => "WARN "@,
        LogLevel::Info => "INFO "@,
        LogLevel::Debug => "DEBUG"@,
        LogLevel::Trace => "TRACE"@,
    }
}

/// A rendered log line shows its level twice: the list item's class names it (`none`
/// when it has none), and a line with a level carries a badge `[LEVEL]` whose class
/// names the same level, between the source and the message. Only a line without a
/// level has no badge. Timestamp, source and message appear as they are, in that order.
pub proof fn law_html_shows_level(log: ClearcoreLog)
    ensures
        ({
            let word = match log.level {
                Some(l) => level_word(l),
                None => "none"@,
            };
            let badge = match log.level {
                Some(l) => "<span class='clearcore-log-level-"@ + level_word(l) + "'>["@ + level_label(l)
                    + "]</span>"@,
                None => Seq::<char>::empty(),
            };
            log.spec_html() == "<li class='clearcore-log-entry clearcore-log-entry-"@ + word
                + "'><span class='clearcore-log-timestamp'>"@ + log.timestamp@
                + " </span><span class='clearcore-log-source'>"@ + log.source_info@ + " </span> "@ + badge
                + " <span class='clearcore-log-message'>"@ + log.message@ + "</span></li>"@
        }),
{
    reveal_strlit("<li class='clearcore-log-entry clearcore-log-entry-");
    reveal_strlit("<li class='clearcore-log-entry ");
    reveal_strlit("<span class='clearcore-log-level-");
    reveal_strlit("<span class='");
    match log.level {
        Some(LogLevel::Error) => {
            reveal_strlit("clearcore-log-entry-error");
            reveal_strlit("clearcore-log-level-error");
            reveal_strlit("error");
            reveal_strlit("ERROR");
        },
        Some(LogLevel::Warn) => {
            reveal_strlit("clearcore-log-entry-warn");
            reveal_strlit("clearcore-log-level-warn");
            reveal_strlit("warn");
            reveal_strlit("WARN ");
        },
        Some(LogLevel::Info) => {
            reveal_strlit("clearcore-log-entry-info");
            reveal_strlit("clearcore-log-level-info");
            reveal_strlit("info");
            reveal_strlit("INFO ");
        },
        Some(LogLevel::Debug) => {
            reveal_strlit("clearcore-log-entry-debug");
            reveal_strlit("clearcore-log-level-debug");
            reveal_strlit("debug");
            reveal_strlit("DEBUG");
        },
        Some(LogLevel::Trace) => {
            reveal_strlit("clearcore-log-entry-trace");
            reveal_strlit("clearcore-log-level-trace");
            reveal_strlit("trace");
            reveal_strlit("TRACE");
        },
        None => {
            reveal_strlit("clearcore-log-entry-none");
            reveal_strlit("none");
        },
    }
    let word = match log.level {
        Some(l) => level_word(l),
        None => "none"@,
    };
    let badge = match log.level {
        Some(l) => "<span class='clearcore-log-level-"@ + level_word(l) + "'>["@ + level_label(l) + "]</span>"@,
        None => Seq::<char>::empty(),
    };
    assert("<li class='clearcore-log-entry "@ + ClearcoreLog::spec_list_element_class(log.level)
        =~= "<li class='clearcore-log-entry clearcore-log-entry-"@ + word);
    match log.level {
        Some(l) => {
            assert("<span class='"@ + ClearcoreLog::spec_span_class(l) =~= "<span class='clearcore-log-level-"@
                + level_word(l));
            assert(ClearcoreLog::spec_span(l) =~= badge);
        },
        None => {},
    }
    assert(log.spec_html() =~= "<li class='clearcore-log-entry clearcore-log-entry-"@ + word
        + "'><span class='clearcore-log-timestamp'>"@ + log.timestamp@
        + " </span><span class='clearcore-log-source'>"@ + log.source_info@ + " </span> "@ + badge
        + " <span class='clearcore-log-message'>"@ + log.message@ + "</span></li>"@);
}

} // verus!
