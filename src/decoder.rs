//! The line protocol spoken by the peripheral.
//!
//! Notification text is framed into lines at `'\n'`; `'\r'` and `'\0'` are
//! dropped. A non-empty line is split at `':'`; its first field, the tag,
//! selects how many fields the line must have and what they mean.
use vstd::prelude::*;
use crate::number::{decimal_value, parse_i16, parse_i32, parse_u32, within};
use crate::text::{lemma_split_nonempty, same_text, split_fields, split_spec, views_of};

verus! {

/// What is to be shown for a valid line.
#[derive(Debug, Clone, Copy, PartialEq, Eq, Structural)]
pub enum Verdict {
    /// The line itself is reported.
    Report,
    /// The line is valid and nothing is reported.
    Silent,
    /// Someone is asking for attention; the noise lasted this long.
    Alert { duration_ms: u32 },
}

/// Why a line breaks the protocol.
#[derive(Debug, Clone, Copy, PartialEq, Eq, Structural)]
pub enum ProtocolError {
    /// The tag is none of the known ones.
    UnknownTag,
    /// A known tag came with the wrong number of fields (the tag counts as one).
    WrongArity { expected: usize, found: usize },
    /// A `button` line named an action other than down, up, press or hold.
    UnknownButtonAction,
    /// The field at this index (the tag is field 0) is not a number of its type.
    InvalidNumber { field: usize },
    /// The peripheral reported that it received a malformed command.
    PeripheralRejectedCommand,
}

/// A completed line of notification text and what it means.
#[derive(Debug)]
pub struct DecodedLine {
    pub text: String,
    /// The line split at `':'`; the first field is the tag.
    pub fields: Vec<String>,
    pub verdict: Result<Verdict, ProtocolError>,
}

/// The alert rule on a noise report.
pub open spec fn alert_spec(duration: int, max_sound_level: int, average_peak_frequency: int) -> bool {
    duration > 300 && max_sound_level > 50 && 500 < average_peak_frequency
        && average_peak_frequency < 900
}

/// `v` when a line has `n` fields, else the arity error.
pub open spec fn arity_spec(found: int, n: int, v: Result<Verdict, ProtocolError>) -> Result<
    Verdict,
    ProtocolError,
> {
    if found == n {
        v
    } else {
        Err(ProtocolError::WrongArity { expected: n as usize, found: found as usize })
    }
}

/// The meaning of the fields of a `noise` line (field 0 is the tag).
pub open spec fn noise_spec(f: Seq<Seq<char>>) -> Result<Verdict, ProtocolError> {
    if f.len() != 6 {
        Err(ProtocolError::WrongArity { expected: 6, found: f.len() as usize })
    } else {
        match within(decimal_value(f[1], false), 0, u32::MAX as int) {
            None => Err(ProtocolError::InvalidNumber { field: 1 }),
            Some(d) => match within(decimal_value(f[2], true), i32::MIN as int, i32::MAX as int) {
                None => Err(ProtocolError::InvalidNumber { field: 2 }),
                Some(l) => match within(
                    decimal_value(f[3], true),
                    i16::MIN as int,
                    i16::MAX as int,
                ) {
                    None => Err(ProtocolError::InvalidNumber { field: 3 }),
                    Some(a) => if within(
                        decimal_value(f[4], true),
                        i16::MIN as int,
                        i16::MAX as int,
                    ) is None {
                        Err(ProtocolError::InvalidNumber { field: 4 })
                    } else if within(
                        decimal_value(f[5], true),
                        i16::MIN as int,
                        i16::MAX as int,
                    ) is None {
                        Err(ProtocolError::InvalidNumber { field: 5 })
                    } else if alert_spec(d, l, a) {
                        Ok(Verdict::Alert { duration_ms: d as u32 })
                    } else {
                        Ok(Verdict::Silent)
                    },
                },
            },
        }
    }
}

/// The meaning of the action of a `button` line.
pub open spec fn button_spec(action: Seq<char>) -> Result<Verdict, ProtocolError> {
    if action == "press"@ || action == "hold"@ {
        Ok(Verdict::Report)
    } else if action == "down"@ || action == "up"@ {
        Ok(Verdict::Silent)
    } else {
        Err(ProtocolError::UnknownButtonAction)
    }
}

/// The meaning of one line of text. An empty line means nothing.
pub open spec fn classify(line: Seq<char>) -> Result<Verdict, ProtocolError> {
    let f = split_spec(line, ':');
    let tag = f[0];
    if line.len() == 0 {
        Ok(Verdict::Silent)
    } else if tag == "hello"@ || tag == "bye"@ {
        arity_spec(f.len() as int, 1, Ok(Verdict::Report))
    } else if tag == "uptime"@ || tag == "led"@ || tag == "buzzer"@ || tag == "buzzer-duration"@
        || tag == "volume-threshold"@ {
        arity_spec(f.len() as int, 2, Ok(Verdict::Report))
    } else if tag == "button"@ {
        arity_spec(f.len() as int, 2, button_spec(f[1]))
    } else if tag == "noise"@ {
        noise_spec(f)
    } else if tag == "invalid-command"@ {
        arity_spec(f.len() as int, 3, Err(ProtocolError::PeripheralRejectedCommand))
    } else {
        Err(ProtocolError::UnknownTag)
    }
}

/// Whether a noise report asks for attention: it lasted more than 300 ms,
/// was louder than 50 %, and its average peak frequency lies strictly
/// between 500 Hz and 900 Hz.
pub fn noise_alert(duration: u32, max_sound_level: i32, average_peak_frequency: i16) -> (r: bool)
    ensures
        r == alert_spec(duration as int, max_sound_level as int, average_peak_frequency as int),
{
    duration > 300 && max_sound_level > 50 && average_peak_frequency > 500
        && average_peak_frequency < 900
}

fn check_arity(found: usize, n: usize, v: Result<Verdict, ProtocolError>) -> (r: Result<
    Verdict,
    ProtocolError,
>)
    ensures
        r == arity_spec(found as int, n as int, v),
{
    if found == n {
        v
    } else {
        Err(ProtocolError::WrongArity { expected: n, found })
    }
}

/// Evaluates the fields of a `noise` line: duration (u32 ms), maximum sound
/// level (i32 %), average, minimum and maximum peak frequency (i16 Hz).
/// Every numeric field must parse; the minimum and maximum frequency take
/// no part in the alert rule.
pub fn process_noise_message(tokens: &Vec<String>) -> (r: Result<Verdict, ProtocolError>)
    requires
        tokens@.len() >= 1,
        tokens@[0]@ == "noise"@,
    ensures
        r == noise_spec(views_of(tokens@)),
{
    if tokens.len() != 6 {
        return Err(ProtocolError::WrongArity { expected: 6, found: tokens.len() });
    }
    let ghost f = views_of(tokens@);
    assert(f[1] == tokens@[1]@ && f[2] == tokens@[2]@ && f[3] == tokens@[3]@);
    assert(f[4] == tokens@[4]@ && f[5] == tokens@[5]@);
    let duration = match parse_u32(tokens[1].as_str()) {
        Some(v) => v,
        None => return Err(ProtocolError::InvalidNumber { field: 1 }),
    };
    let max_sound_level = match parse_i32(tokens[2].as_str()) {
        Some(v) => v,
        None => return Err(ProtocolError::InvalidNumber { field: 2 }),
    };
    let average_peak_frequency = match parse_i16(tokens[3].as_str()) {
        Some(v) => v,
        None => return Err(ProtocolError::InvalidNumber { field: 3 }),
    };
    if parse_i16(tokens[4].as_str()).is_none() {
        return Err(ProtocolError::InvalidNumber { field: 4 });
    }
    if parse_i16(tokens[5].as_str()).is_none() {
        return Err(ProtocolError::InvalidNumber { field: 5 });
    }
    if noise_alert(duration, max_sound_level, average_peak_frequency) {
        Ok(Verdict::Alert { duration_ms: duration })
    } else {
        Ok(Verdict::Silent)
    }
}

fn button_verdict(action: &str) -> (r: Result<Verdict, ProtocolError>)
    ensures
        r == button_spec(action@),
{
    if same_text(action, "press") || same_text(action, "hold") {
        Ok(Verdict::Report)
    } else if same_text(action, "down") || same_text(action, "up") {
        Ok(Verdict::Silent)
    } else {
        Err(ProtocolError::UnknownButtonAction)
    }
}

/// Validates one line and says what is to be shown for it.
pub fn process_message(message: &str) -> (r: Result<Verdict, ProtocolError>)
    ensures
        r == classify(message@),
{
    if message.is_empty() {
        return Ok(Verdict::Silent);
    }
    let tokens = split_fields(message, ':');
    proof {
        lemma_split_nonempty(message@, ':');
    }
    let ghost f = views_of(tokens@);
    assert(f[0] == tokens@[0]@);
    let n = tokens.len();
    let tag = tokens[0].as_str();
    if same_text(tag, "hello") || same_text(tag, "bye") {
        check_arity(n, 1, Ok(Verdict::Report))
    } else if same_text(tag, "uptime") || same_text(tag, "led") || same_text(tag, "buzzer")
        || same_text(tag, "buzzer-duration") || same_text(tag, "volume-threshold") {
        check_arity(n, 2, Ok(Verdict::Report))
    } else if same_text(tag, "button") {
        if n != 2 {
            return Err(ProtocolError::WrongArity { expected: 2, found: n });
        }
        assert(f[1] == tokens@[1]@);
        button_verdict(tokens[1].as_str())
    } else if same_text(tag, "noise") {
        process_noise_message(&tokens)
    } else if same_text(tag, "invalid-command") {
        check_arity(n, 3, Err(ProtocolError::PeripheralRejectedCommand))
    } else {
        Err(ProtocolError::UnknownTag)
    }
}


/// Whether a character is dropped from notification text: a carriage
/// return, or the zero byte a peripheral emits while it starts up.
pub open spec fn is_dropped(c: char) -> bool {
    c == '\r' || c == '\0'
}

/// `s` without its dropped characters.
pub open spec fn strip(s: Seq<char>) -> Seq<char>
    decreases s.len(),
{
    if s.len() == 0 {
        s
    } else if is_dropped(s.last()) {
        strip(s.drop_last())
    } else {
        strip(s.drop_last()).push(s.last())
    }
}

/// One character of notification text taken in: the lines completed so far
/// and the pending text become the next ones.
pub open spec fn step_spec(lines: Seq<Seq<char>>, pending: Seq<char>, c: char) -> (
    Seq<Seq<char>>,
    Seq<char>,
) {
    if c == '\n' {
        if pending.len() > 0 {
            (lines.push(pending), Seq::empty())
        } else {
            (lines, Seq::empty())
        }
    } else if is_dropped(c) {
        (lines, pending)
    } else {
        (lines, pending.push(c))
    }
}

/// The non-empty lines that `input` completes after the pending text
/// `pending`, and the text left pending after it.
pub open spec fn feed_spec(pending: Seq<char>, input: Seq<char>) -> (Seq<Seq<char>>, Seq<char>)
    decreases input.len(),
{
    if input.len() == 0 {
        (Seq::empty(), pending)
    } else {
        let prev = feed_spec(pending, input.drop_last());
        step_spec(prev.0, prev.1, input.last())
    }
}

/// `out` holds `lines`, in order, each with its fields and its verdict.
pub open spec fn decoded_as(out: Seq<DecodedLine>, lines: Seq<Seq<char>>) -> bool {
    &&& out.len() == lines.len()
    &&& forall|i: int|
        0 <= i < out.len() ==> {
            &&& (#[trigger] out[i]).text@ == lines[i]
            &&& views_of(out[i].fields@) == split_spec(lines[i], ':')
            &&& out[i].verdict == classify(lines[i])
        }
}

/// Takes in notification text after the pending text in `buffer`. Each
/// completed non-empty line comes out with its verdict, in order; what
/// follows the last line end is left in `buffer`.
pub fn process_device_notification(notification: &str, buffer: &mut String) -> (r: Vec<
    DecodedLine,
>)
    ensures
        final(buffer)@ == feed_spec(old(buffer)@, notification@).1,
        decoded_as(r@, feed_spec(old(buffer)@, notification@).0),
{
    let ghost start = buffer@;
    let n = notification.unicode_len();
    let mut out: Vec<DecodedLine> = Vec::new();
    let mut i: usize = 0;
    assert(notification@.take(0) == Seq::<char>::empty());
    while i < n
        invariant
            n == notification@.len(),
            i <= n,
            buffer@ == feed_spec(start, notification@.take(i as int)).1,
            decoded_as(out@, feed_spec(start, notification@.take(i as int)).0),
        decreases n - i,
    {
        let c = notification.get_char(i);
        let ghost t = notification@.take(i + 1);
        assert(t.drop_last() == notification@.take(i as int));
        assert(t.last() == c);
        if c == '\n' {
            if !buffer.as_str().is_empty() {
                let verdict = process_message(buffer.as_str());
                let fields = split_fields(buffer.as_str(), ':');
                out.push(DecodedLine { text: buffer.clone(), fields, verdict });
            }
            *buffer = String::new();
        } else if c != '\r' && c != '\0' {
            let ghost before = buffer@;
            buffer.append(notification.substring_char(i, i + 1));
            assert(buffer@ == before.push(c));
        }
        i = i + 1;
    }
    assert(notification@.take(n as int) == notification@);
    out
}

/// Framing: a line of content that holds no line end, with any carriage
/// returns and zero bytes mixed in, followed by a line end, yields exactly
/// the content without those characters as its one line, and leaves
/// nothing pending.
pub proof fn lemma_framing(content: Seq<char>)
    requires
        forall|i: int| 0 <= i < content.len() ==> content[i] != '\n',
        strip(content).len() > 0,
    ensures
        feed_spec(Seq::empty(), content.push('\n')).0 == seq![strip(content)],
        feed_spec(Seq::empty(), content.push('\n')).1.len() == 0,
{
    lemma_no_line_end(content);
    assert(content.push('\n').drop_last() == content);
}

/// Text without a line end completes no line: it is only added to the
/// pending text, without the dropped characters.
proof fn lemma_no_line_end(content: Seq<char>)
    requires
        forall|i: int| 0 <= i < content.len() ==> content[i] != '\n',
    ensures
        feed_spec(Seq::empty(), content) == (Seq::<Seq<char>>::empty(), strip(content)),
    decreases content.len(),
{
    if content.len() > 0 {
        lemma_no_line_end(content.drop_last());
    }
}

/// Buffer reset: once a line end has been taken in, whatever the line was,
/// nothing is pending.
pub proof fn lemma_line_end_clears(pending: Seq<char>, input: Seq<char>)
    requires
        input.len() > 0,
        input.last() == '\n',
    ensures
        feed_spec(pending, input).1.len() == 0,
{
}

} // verus!
