use vstd::prelude::*;

use crate::decimal::{push_signed_decimal, signed_decimal};

verus! {

/// The text that lossy UTF-8 decoding gives for some bytes.
pub uninterp spec fn lossy_text(b: Seq<u8>) -> Seq<char>;

/// A character with the Unicode `White_Space` property.
pub open spec fn is_white_space(c: char) -> bool {
    let u = c as u32;
    (0x9 <= u <= 0xd) || u == 0x20 || u == 0x85 || u == 0xa0 || u == 0x1680 || (0x2000 <= u
        <= 0x200a) || u == 0x2028 || u == 0x2029 || u == 0x202f || u == 0x205f || u == 0x3000
}

pub open spec fn trim_start_ws(s: Seq<char>) -> Seq<char>
    decreases s.len(),
{
    if s.len() > 0 && is_white_space(s[0]) {
        trim_start_ws(s.drop_first())
    } else {
        s
    }
}

pub open spec fn trim_end_ws(s: Seq<char>) -> Seq<char>
    decreases s.len(),
{
    if s.len() > 0 && is_white_space(s.last()) {
        trim_end_ws(s.drop_last())
    } else {
        s
    }
}

/// Some text without its leading and trailing whitespace.
pub open spec fn trimmed(s: Seq<char>) -> Seq<char> {
    trim_end_ws(trim_start_ws(s))
}

/// Relies on `String::from_utf8_lossy`: the text depends on the bytes alone,
/// and no bytes give no text.
#[verifier::external_body]
fn decode_lossy(b: &[u8]) -> (r: String)
    ensures
        r@ == lossy_text(b@),
        b@.len() == 0 ==> r@.len() == 0,
{
    String::from_utf8_lossy(b).into_owned()
}

/// Relies on `str::trim`: the text without the characters of the Unicode
/// `White_Space` property at either end.
#[verifier::external_body]
fn trim_text(s: &str) -> (r: &str)
    ensures
        r@ == trimmed(s@),
{
    s.trim()
}

/// An event of the backend's output stream.
pub enum OutputEvent {
    /// A chunk of standard output.
    Stdout(Vec<u8>),
    /// A chunk of standard error.
    Stderr(Vec<u8>),
    /// The backend ended, with its exit code or the signal that ended it.
    Terminated { code: Option<i32>, signal: Option<i32> },
    /// Any other event of the stream, which the relay passes over.
    Other,
}

/// Where the relay's copy for the host's own console goes.
#[derive(Clone, Copy, PartialEq, Eq, Structural, Debug)]
pub enum Console {
    Stdout,
    Stderr,
}

/// What the relay makes of an event: a line for the log sink, and the text
/// echoed to the host's console.
pub struct RelayRecord {
    pub log_line: String,
    pub console: Console,
    pub echo: String,
}

/// The `Debug` spelling of an optional integer.
pub open spec fn option_text(o: Option<i32>) -> Seq<char> {
    match o {
        Some(v) => "Some("@ + signed_decimal(v as int) + ")"@,
        None => "None"@,
    }
}

/// The log line for an event, if the relay records it.
pub open spec fn log_line_of(e: OutputEvent) -> Option<Seq<char>> {
    match e {
        OutputEvent::Stdout(b) => Some(output_log_line(Console::Stdout, lossy_text(b@))),
        OutputEvent::Stderr(b) => Some(output_log_line(Console::Stderr, lossy_text(b@))),
        OutputEvent::Terminated { code, signal } => Some(termination_message(code, signal)),
        OutputEvent::Other => None,
    }
}

/// The console echo for an event, if the relay records it.
pub open spec fn echo_of(e: OutputEvent) -> Option<(Console, Seq<char>)> {
    match e {
        OutputEvent::Stdout(b) => Some((Console::Stdout, output_echo(lossy_text(b@)))),
        OutputEvent::Stderr(b) => Some((Console::Stderr, output_echo(lossy_text(b@)))),
        OutputEvent::Terminated { code, signal } => Some(
            (Console::Stdout, "[THÉRÈSE] "@ + termination_message(code, signal) + "\n"@),
        ),
        OutputEvent::Other => None,
    }
}

pub open spec fn termination_message(code: Option<i32>, signal: Option<i32>) -> Seq<char> {
    "Sidecar terminé (code: "@ + option_text(code) + ", signal: "@ + option_text(signal) + ")"@
}

/// The log lines that the relay writes for a stream of events: one for each
/// output chunk and for the end, in the order of the stream, and nothing
/// after the end.
pub open spec fn relay_log(events: Seq<OutputEvent>) -> Seq<Seq<char>>
    decreases events.len(),
{
    if events.len() == 0 {
        seq![]
    } else {
        let e = events[0];
        let here = match log_line_of(e) {
            Some(l) => seq![l],
            None => seq![],
        };
        if e is Terminated {
            here
        } else {
            here + relay_log(events.drop_first())
        }
    }
}

/// Whether the stream holds its end.
pub open spec fn has_ended(events: Seq<OutputEvent>) -> bool {
    exists|i: int| 0 <= i < events.len() && (#[trigger] events[i]) is Terminated
}

fn push_option(s: &mut String, o: Option<i32>)
    ensures
        final(s)@ == old(s)@ + option_text(o),
{
    match o {
        Some(v) => {
            s.append("Some(");
            push_signed_decimal(s, v);
            s.append(")");
            assert(final(s)@ =~= old(s)@ + option_text(o));
        },
        None => {
            s.append("None");
        },
    }
}

/// The message that reports how the backend ended.
pub fn termination_text(code: Option<i32>, signal: Option<i32>) -> (r: String)
    ensures
        r@ == termination_message(code, signal),
{
    let mut s = String::from_str("Sidecar terminé (code: ");
    push_option(&mut s, code);
    s.append(", signal: ");
    push_option(&mut s, signal);
    s.append(")");
    assert(s@ =~= termination_message(code, signal));
    s
}

/// The log line for a decoded chunk of output: its stream, then the text
/// without surrounding whitespace.
pub open spec fn output_log_line(console: Console, text: Seq<char>) -> Seq<char> {
    match console {
        Console::Stdout => "[stdout] "@ + trimmed(text),
        Console::Stderr => "[stderr] "@ + trimmed(text),
    }
}

/// The console echo for a decoded chunk of output: the text as it came.
pub open spec fn output_echo(text: Seq<char>) -> Seq<char> {
    "[backend] "@ + text
}

/// What the relay makes of a chunk of output once decoded: a log line and
/// an echo to the console of the same stream.
pub fn output_record(console: Console, text: &str) -> (r: RelayRecord)
    ensures
        r.console == console,
        r.log_line@ == output_log_line(console, text@),
        r.echo@ == output_echo(text@),
{
    let head = match console {
        Console::Stdout => String::from_str("[stdout] "),
        Console::Stderr => String::from_str("[stderr] "),
    };
    let log_line = head.concat(trim_text(text));
    let echo = String::from_str("[backend] ").concat(text);
    RelayRecord { log_line, console, echo }
}

/// What the relay makes of one event.
pub fn relay_record(e: &OutputEvent) -> (r: Option<RelayRecord>)
    ensures
        r is Some <==> log_line_of(*e) is Some,
        r is Some ==> Some(r->Some_0.log_line@) == log_line_of(*e) && Some(
            (r->Some_0.console, r->Some_0.echo@),
        ) == echo_of(*e),
{
    match e {
        OutputEvent::Stdout(b) => {
            let text = decode_lossy(b.as_slice());
            Some(output_record(Console::Stdout, text.as_str()))
        },
        OutputEvent::Stderr(b) => {
            let text = decode_lossy(b.as_slice());
            Some(output_record(Console::Stderr, text.as_str()))
        },
        OutputEvent::Terminated { code, signal } => {
            let msg = termination_text(*code, *signal);
            let echo = String::from_str("[THÉRÈSE] ").concat(msg.as_str()).concat("\n");
            Some(RelayRecord { log_line: msg, console: Console::Stdout, echo })
        },
        OutputEvent::Other => None,
    }
}

/// The log lines of one event.
pub open spec fn event_log(e: OutputEvent) -> Seq<Seq<char>> {
    match log_line_of(e) {
        Some(l) => seq![l],
        None => seq![],
    }
}

/// The relay keeps the order of the stream and stops at its end: before the
/// end, the log of a longer stream is the log of its first part followed by
/// the log of the rest; once the end has come, nothing more is logged.
pub proof fn lemma_relay_order(first: Seq<OutputEvent>, rest: Seq<OutputEvent>)
    ensures
        !has_ended(first) ==> relay_log(first + rest) == relay_log(first) + relay_log(rest),
        has_ended(first) ==> relay_log(first + rest) == relay_log(first),
    decreases first.len(),
{
    if first.len() == 0 {
        assert(first + rest =~= rest);
        assert(relay_log(first) =~= Seq::<Seq<char>>::empty());
    } else {
        let joined = first + rest;
        assert(joined[0] == first[0]);
        assert(joined.drop_first() =~= first.drop_first() + rest);
        lemma_relay_order(first.drop_first(), rest);
        if !(first[0] is Terminated) {
            if has_ended(first) {
                let i = choose|i: int| 0 <= i < first.len() && (#[trigger] first[i]) is Terminated;
                assert(first.drop_first()[i - 1] == first[i]);
            } else {
                assert forall|i: int| 0 <= i < first.drop_first().len() implies !(
                #[trigger] first.drop_first()[i] is Terminated) by {
                    assert(first.drop_first()[i] == first[i + 1]);
                }
            }
            assert(event_log(first[0]) + (relay_log(first.drop_first()) + relay_log(rest))
                =~= event_log(first[0]) + relay_log(first.drop_first()) + relay_log(rest));
        } else {
            assert(has_ended(first));
        }
    }
}

/// Drains the backend's output stream into the log sink, one event at a
/// time, until the stream ends.
pub struct OutputRelay {
    /// Whether the end of the stream has come.
    pub finished: bool,
    /// The events handed to the relay so far.
    pub history: Ghost<Seq<OutputEvent>>,
}

impl OutputRelay {
    /// Whether the relay has seen the end exactly when its history holds it.
    pub open spec fn inv(&self) -> bool {
        self.finished == has_ended(self.history@)
    }

    /// A relay that has seen nothing.
    pub fn new() -> (r: OutputRelay)
        ensures
            r.inv(),
            r.history@ == Seq::<OutputEvent>::empty(),
            !r.finished,
    {
        OutputRelay { finished: false, history: Ghost(Seq::empty()) }
    }

    /// Whether the stream has ended, so that the relay's task is over.
    pub fn is_finished(&self) -> (r: bool)
        ensures
            r == self.finished,
    {
        self.finished
    }

    /// Takes the next event of the stream and returns what to record of it:
    /// the log then holds the lines of the whole history, in order.
    pub fn handle(&mut self, e: &OutputEvent) -> (r: Option<RelayRecord>)
        requires
            old(self).inv(),
        ensures
            final(self).inv(),
            final(self).history@ == old(self).history@.push(*e),
            final(self).finished == (old(self).finished || e is Terminated),
            relay_log(final(self).history@) == relay_log(old(self).history@) + match r {
                Some(rec) => seq![rec.log_line@],
                None => Seq::<Seq<char>>::empty(),
            },
            old(self).finished ==> r is None,
            !old(self).finished ==> (r is Some <==> log_line_of(*e) is Some),
            !old(self).finished && r is Some ==> echo_of(*e) == Some(
                (r->Some_0.console, r->Some_0.echo@),
            ),
    {
        let ghost before = self.history@;
        let ghost after = before.push(*e);
        proof {
            lemma_relay_order(before, seq![*e]);
            assert(before + seq![*e] =~= after);
            assert(seq![*e].drop_first() =~= Seq::<OutputEvent>::empty());
            assert(seq![*e][0] == *e);
            assert(relay_log(seq![*e].drop_first()) =~= Seq::<Seq<char>>::empty());
            assert(relay_log(seq![*e]) =~= event_log(*e));
            if has_ended(before) {
                let i = choose|i: int| 0 <= i < before.len() && (#[trigger] before[i]) is Terminated;
                assert(after[i] == before[i]);
            }
            if e is Terminated {
                assert(after[before.len() as int] == *e);
            }
            if has_ended(after) && !(e is Terminated) {
                let i = choose|i: int| 0 <= i < after.len() && (#[trigger] after[i]) is Terminated;
                assert(i < before.len());
                assert(before[i] == after[i]);
            }
        }
        self.history = Ghost(after);
        if self.finished {
            return None;
        }
        let r = relay_record(e);
        if let OutputEvent::Terminated { .. } = e {
            self.finished = true;
        }
        r
    }
}

} // verus!
