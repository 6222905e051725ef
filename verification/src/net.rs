//! The per-event steps of the network reader and writer tasks, and the tick
//! budget of the render/input loop. The tasks' I/O stays outside; these
//! functions decide, from plain values, what each task delivers, writes and
//! when it stops.

use vstd::prelude::*;
use vstd::string::StringExecFns;
use crate::text::{is_quit_line, strip_newline_line, strip_newline_spec};

verus! {

/// The status line delivered when the peer closes the stream.
pub open spec fn closed_notice() -> Seq<char> {
    "Connection to the server closed."@
}

/// The prefix of the status line delivered when a read fails.
pub open spec fn read_failed_prefix() -> Seq<char> {
    "Could not read from the server: "@
}

/// One outcome of reading a frame from the inbound byte stream.
pub enum ReadEvent {
    /// The stream ended cleanly: zero bytes read.
    Closed,
    /// One newline-terminated frame, delimiter still attached.
    Data(String),
    /// The read failed; the argument describes the error.
    Failed(String),
}

/// What the reader does with one read outcome: the line to deliver on the
/// inbound channel, and whether the reader ends.
pub struct ReaderStep {
    /// The line to forward to the render/input loop.
    pub deliver: String,
    /// Whether the reader terminates after delivering.
    pub stop: bool,
}

/// Decides the reader's reaction to one read outcome: a clean close delivers
/// one disconnection notice and stops; a frame delivers its content with
/// exactly the trailing delimiter stripped — nothing else — and goes on; a
/// failure delivers one error line and stops.
pub fn reader_step(ev: ReadEvent) -> (r: ReaderStep)
    ensures
        match ev {
            ReadEvent::Closed => r.deliver@ == closed_notice() && r.stop,
            ReadEvent::Data(line) => r.deliver@ == strip_newline_spec(line@) && !r.stop,
            ReadEvent::Failed(msg) => r.deliver@ == read_failed_prefix() + msg@ && r.stop,
        },
{
    match ev {
        ReadEvent::Closed => ReaderStep {
            deliver: String::from_str("Connection to the server closed."),
            stop: true,
        },
        ReadEvent::Data(line) => ReaderStep {
            deliver: strip_newline_line(line.as_str()),
            stop: false,
        },
        ReadEvent::Failed(msg) => ReaderStep {
            deliver: String::from_str("Could not read from the server: ").concat(msg.as_str()),
            stop: true,
        },
    }
}

/// What the writer does with one outbound line: the frame to put on the
/// stream, and whether the writer ends.
pub struct WriterStep {
    /// The full frame to write: the line with the delimiter appended.
    pub frame: String,
    /// Whether the writer terminates after writing, which it does exactly on
    /// the quit sentinel.
    pub stop: bool,
}

/// Decides the writer's reaction to one line from the outbound channel: the
/// line is framed by appending the newline delimiter, and the writer stops
/// exactly when the line, trimmed and ignoring letter case, is the quit
/// sentinel.
pub fn writer_step(message: &str) -> (r: WriterStep)
    ensures
        r.frame@ == message@ + "\n"@,
        r.stop == is_quit_line(message@),
{
    let frame = message.to_owned().concat("\n");
    let stop = crate::text::line_is_quit(message);
    WriterStep { frame, stop }
}

/// The event-wait budget left in a tick: the tick period minus the time
/// already elapsed, floored at zero.
pub fn tick_budget(tick_ms: u64, elapsed_ms: u64) -> (r: u64)
    ensures
        r == (if elapsed_ms < tick_ms {
            (tick_ms - elapsed_ms) as u64
        } else {
            0u64
        }),
{
    if elapsed_ms < tick_ms {
        tick_ms - elapsed_ms
    } else {
        0
    }
}

/// A line free of the delimiter survives the round trip unchanged: framed by
/// the writer, echoed back as one frame, and stripped of its delimiter by
/// the reader, what comes out is character for character the line that went
/// in.
pub proof fn lemma_echo_round_trip(line: Seq<char>, frame: Seq<char>, delivered: Seq<char>)
    requires
        !line.contains('\n'),
        frame == line + "\n"@,
        delivered == strip_newline_spec(frame),
    ensures
        delivered == line,
{
    reveal_strlit("\n");
    assert(frame.len() == line.len() + 1);
    assert(frame.last() == '\n');
    assert(frame.drop_last() =~= line);
}

} // verus!
