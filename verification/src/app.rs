//! Application state of the chat client: the bounded message log with its
//! selection cursor, the input buffer, and the key-dispatch rules of the
//! render/input loop.

use vstd::prelude::*;
use vstd::string::StringExecFns;
use crate::text::{is_quit_line, line_is_quit, push_char, pop_char, quit_sentinel};

verus! {

/// How many lines the message log keeps; past this, the oldest line is
/// evicted first.
pub const LOG_CAPACITY: usize = 50;

/// The label put in front of a line the user sends, as it appears in the log.
pub open spec fn sender_label() -> Seq<char> {
    "Ben: "@
}

/// One append to the log: an empty line is ignored; otherwise the line goes
/// at the end, and when the log is full the oldest line is evicted first.
pub open spec fn log_append(msgs: Seq<Seq<char>>, line: Seq<char>) -> Seq<Seq<char>> {
    if line.len() == 0 {
        msgs
    } else if msgs.len() < LOG_CAPACITY {
        msgs.push(line)
    } else {
        msgs.subrange(1, msgs.len() as int).push(line)
    }
}

/// The log after a whole sequence of appends, oldest first.
pub open spec fn log_after(msgs: Seq<Seq<char>>, lines: Seq<Seq<char>>) -> Seq<Seq<char>>
    decreases lines.len(),
{
    if lines.len() == 0 {
        msgs
    } else {
        log_after(log_append(msgs, lines.first()), lines.drop_first())
    }
}

/// However many lines are appended, the log never grows past its capacity,
/// and a full log keeps its newest lines: each non-empty append drops
/// exactly the oldest entry.
pub proof fn lemma_log_bounded(msgs: Seq<Seq<char>>, lines: Seq<Seq<char>>)
    requires
        msgs.len() <= LOG_CAPACITY,
    ensures
        log_after(msgs, lines).len() <= LOG_CAPACITY,
    decreases lines.len(),
{
    if lines.len() > 0 {
        lemma_log_bounded(log_append(msgs, lines.first()), lines.drop_first());
    }
}

/// Where the selection cursor lands when it moves one line up: absent on an
/// empty log, established at the top when it was absent, otherwise one step
/// up and never past the top.
pub open spec fn scroll_up_sel(len: nat, sel: Option<usize>) -> Option<usize> {
    if len == 0 {
        sel
    } else {
        match sel {
            None => Some(0usize),
            Some(i) => if i > 0 {
                Some((i - 1) as usize)
            } else {
                Some(0usize)
            },
        }
    }
}

/// Where the selection cursor lands when it moves one line down: one step
/// down while below the last line; on the last line it snaps back one step
/// (staying put on a single-line log); absent selection counts as the top.
pub open spec fn scroll_down_sel(len: nat, sel: Option<usize>) -> Option<usize> {
    if len == 0 {
        sel
    } else {
        let cur = match sel {
            None => 0nat,
            Some(i) => i as nat,
        };
        if cur < len - 1 {
            Some((cur + 1) as usize)
        } else if cur > 0 {
            Some((cur - 1) as usize)
        } else {
            Some(0usize)
        }
    }
}

/// Where the selection cursor lands when snapped to the bottom: the last
/// line, or absent on an empty log.
pub open spec fn bottom_sel(len: nat) -> Option<usize> {
    if len == 0 {
        None
    } else {
        Some((len - 1) as usize)
    }
}

/// One terminal key, as the render/input loop dispatches on it.
pub enum KeyInput {
    /// The Enter key: submit the input buffer.
    Enter,
    /// The Up arrow: move the selection one line up.
    Up,
    /// The Down arrow: move the selection one line down.
    Down,
    /// A printable character to append to the input buffer.
    Printable(char),
    /// The Backspace key: drop the last character of the input buffer.
    Backspace,
    /// The Escape key: quit the session.
    Escape,
    /// Any other key: ignored.
    Other,
}

/// The state the render/input loop owns: the message log and its selection
/// cursor, the input buffer, and the quit bookkeeping.
pub struct App {
    /// The line being composed by the user.
    pub input: String,
    /// The log of chat lines, oldest first, at most `LOG_CAPACITY` of them.
    pub messages: Vec<String>,
    /// The selected line of the log, always in bounds, absent when the log
    /// is empty.
    pub selected: Option<usize>,
    /// Whether the loop has decided to end the session.
    pub should_quit: bool,
    /// Whether the quit sentinel has already gone out on the outbound
    /// channel, so that it is never submitted twice.
    pub sentinel_sent: bool,
}

impl App {
    /// The log as a sequence of character sequences, oldest first.
    pub open spec fn msgs(self) -> Seq<Seq<char>> {
        self.messages.deep_view()
    }

    /// The state's invariant: the log never exceeds its capacity, and the
    /// selection, when present, is a valid index, absent on an empty log.
    pub open spec fn wf(self) -> bool {
        &&& self.msgs().len() <= LOG_CAPACITY
        &&& match self.selected {
            Some(i) => i < self.msgs().len(),
            None => true,
        }
        &&& self.msgs().len() == 0 ==> self.selected is None
    }

    /// A fresh state: empty log, empty input, no selection, not quitting.
    pub fn new() -> (r: App)
        ensures
            r.wf(),
            r.input@.len() == 0,
            r.msgs().len() == 0,
            r.selected is None,
            !r.should_quit,
            !r.sentinel_sent,
    {
        let r = App {
            input: String::new(),
            messages: Vec::new(),
            selected: None,
            should_quit: false,
            sentinel_sent: false,
        };
        proof {
            assert(r.msgs() =~= Seq::<Seq<char>>::empty());
        }
        r
    }

    /// Appends a line to the log: an empty line is ignored; otherwise the
    /// line goes at the end, the oldest line is evicted when the log is
    /// full, and the selection snaps to the new last line.
    pub fn add_message(&mut self, message: String)
        requires
            old(self).wf(),
        ensures
            final(self).wf(),
            final(self).msgs() == log_append(old(self).msgs(), message@),
            message@.len() > 0 ==> final(self).selected == Some(
                (final(self).msgs().len() - 1) as usize,
            ),
            message@.len() == 0 ==> *final(self) == *old(self),
            final(self).input == old(self).input,
            final(self).should_quit == old(self).should_quit,
            final(self).sentinel_sent == old(self).sentinel_sent,
    {
        if !message.as_str().is_empty() {
            let ghost pre = self.messages@;
            self.messages.push(message);
            if self.messages.len() > LOG_CAPACITY {
                self.messages.remove(0);
                proof {
                    assert(self.messages@ =~= pre.subrange(1, pre.len() as int).push(message));
                    assert(self.msgs() =~= log_append(old(self).msgs(), message@));
                }
            } else {
                proof {
                    assert(self.msgs() =~= log_append(old(self).msgs(), message@));
                }
            }
            let n = self.messages.len();
            self.selected = Some(n - 1);
        }
    }

    /// Submits the input buffer: on a non-empty buffer, logs it under the
    /// sender label, clears the buffer, and returns the raw text for the
    /// outbound channel; on an empty buffer, does nothing.
    pub fn handle_enter(&mut self) -> (r: Option<String>)
        requires
            old(self).wf(),
        ensures
            final(self).wf(),
            final(self).should_quit == old(self).should_quit,
            final(self).sentinel_sent == old(self).sentinel_sent,
            old(self).input@.len() == 0 ==> r is None && *final(self) == *old(self),
            old(self).input@.len() > 0 ==> {
                &&& r matches Some(m) && m@ == old(self).input@
                &&& final(self).input@.len() == 0
                &&& final(self).msgs() == log_append(
                    old(self).msgs(),
                    sender_label() + old(self).input@,
                )
                &&& final(self).selected == Some((final(self).msgs().len() - 1) as usize)
            },
    {
        if !self.input.as_str().is_empty() {
            let message_to_send = self.input.clone();
            let labeled = String::from_str("Ben: ").concat(self.input.as_str());
            self.add_message(labeled);
            self.input = String::new();
            Some(message_to_send)
        } else {
            None
        }
    }

    /// Moves the selection one line up, as `scroll_up_sel` says; nothing
    /// else changes.
    pub fn scroll_up(&mut self)
        requires
            old(self).wf(),
        ensures
            final(self).wf(),
            *final(self) == (App {
                selected: scroll_up_sel(old(self).msgs().len(), old(self).selected),
                ..*old(self)
            }),
    {
        if !self.messages.is_empty() {
            let cur = match self.selected {
                Some(i) => i,
                None => 0,
            };
            if cur > 0 {
                self.selected = Some(cur - 1);
            } else {
                self.selected = Some(0);
            }
        }
    }

    /// Moves the selection one line down, as `scroll_down_sel` says; nothing
    /// else changes.
    pub fn scroll_down(&mut self)
        requires
            old(self).wf(),
        ensures
            final(self).wf(),
            *final(self) == (App {
                selected: scroll_down_sel(old(self).msgs().len(), old(self).selected),
                ..*old(self)
            }),
    {
        let len = self.messages.len();
        if len > 0 {
            let cur = match self.selected {
                Some(i) => i,
                None => 0,
            };
            if cur < len - 1 {
                self.selected = Some(cur + 1);
            } else if cur > 0 {
                self.selected = Some(cur - 1);
            } else {
                self.selected = Some(0);
            }
        }
    }

    /// Snaps the selection to the last line, or clears it on an empty log;
    /// nothing else changes.
    pub fn scroll_to_bottom(&mut self)
        requires
            old(self).wf(),
        ensures
            final(self).wf(),
            *final(self) == scroll_to_bottom_spec(*old(self)),
    {
        if !self.messages.is_empty() {
            let n = self.messages.len();
            self.selected = Some(n - 1);
        } else {
            self.selected = None;
        }
    }

    /// Dispatches one key press, mutating the state as the render/input
    /// loop requires, and returns the text to submit on the outbound
    /// channel, if any. Submitting the quit sentinel marks the session as
    /// quitting and remembers that the sentinel already went out.
    pub fn handle_key(&mut self, key: KeyInput) -> (out: Option<String>)
        requires
            old(self).wf(),
        ensures
            final(self).wf(),
            match key {
                KeyInput::Enter => if old(self).input@.len() == 0 {
                    out is None && *final(self) == *old(self)
                } else {
                    &&& out matches Some(m) && m@ == old(self).input@
                    &&& final(self).input@.len() == 0
                    &&& final(self).msgs() == log_append(
                        old(self).msgs(),
                        sender_label() + old(self).input@,
                    )
                    &&& final(self).selected == Some((final(self).msgs().len() - 1) as usize)
                    &&& final(self).should_quit == (old(self).should_quit || is_quit_line(
                        old(self).input@,
                    ))
                    &&& final(self).sentinel_sent == (old(self).sentinel_sent || is_quit_line(
                        old(self).input@,
                    ))
                },
                KeyInput::Up => out is None && *final(self) == (App {
                    selected: scroll_up_sel(old(self).msgs().len(), old(self).selected),
                    ..*old(self)
                }),
                KeyInput::Down => out is None && *final(self) == (App {
                    selected: scroll_down_sel(old(self).msgs().len(), old(self).selected),
                    ..*old(self)
                }),
                KeyInput::Printable(c) => out is None && *final(self) == (App {
                    input: final(self).input,
                    selected: bottom_sel(old(self).msgs().len()),
                    ..*old(self)
                }) && final(self).input@ == old(self).input@.push(c),
                KeyInput::Backspace => out is None && *final(self) == (App {
                    input: final(self).input,
                    selected: bottom_sel(old(self).msgs().len()),
                    ..*old(self)
                }) && final(self).input@ == (if old(self).input@.len() == 0 {
                    old(self).input@
                } else {
                    old(self).input@.drop_last()
                }),
                KeyInput::Escape => out is None && *final(self) == (App {
                    should_quit: true,
                    ..*old(self)
                }),
                KeyInput::Other => out is None && *final(self) == *old(self),
            },
    {
        match key {
            KeyInput::Enter => {
                let submitted = self.handle_enter();
                match submitted {
                    Some(m) => {
                        if line_is_quit(m.as_str()) {
                            self.should_quit = true;
                            self.sentinel_sent = true;
                        }
                        Some(m)
                    },
                    None => None,
                }
            },
            KeyInput::Up => {
                self.scroll_up();
                None
            },
            KeyInput::Down => {
                self.scroll_down();
                None
            },
            KeyInput::Printable(c) => {
                push_char(&mut self.input, c);
                self.scroll_to_bottom();
                None
            },
            KeyInput::Backspace => {
                pop_char(&mut self.input);
                self.scroll_to_bottom();
                None
            },
            KeyInput::Escape => {
                self.should_quit = true;
                None
            },
            KeyInput::Other => None,
        }
    }

    /// What a failed submission decides: when the outbound channel has no
    /// receiver left, the session is marked as quitting; nothing else
    /// changes.
    pub fn submit_failed(&mut self)
        ensures
            *final(self) == (App { should_quit: true, ..*old(self) }),
    {
        self.should_quit = true;
    }

    /// The follow-up once quitting is decided: the quit sentinel to submit,
    /// best effort, so the writer can shut down — or nothing, when the
    /// sentinel already went out or still sits in the input buffer.
    pub fn quit_message(&self) -> (r: Option<String>)
        ensures
            match r {
                Some(m) => m@ == quit_sentinel() && !self.sentinel_sent && !is_quit_line(
                    self.input@,
                ),
                None => self.sentinel_sent || is_quit_line(self.input@),
            },
    {
        if !self.sentinel_sent && !line_is_quit(self.input.as_str()) {
            Some(String::from_str("/quit"))
        } else {
            None
        }
    }
}

/// The state after the selection snaps to the bottom.
pub open spec fn scroll_to_bottom_spec(a: App) -> App {
    App { selected: bottom_sel(a.msgs().len()), ..a }
}

/// Snapping the selection to the bottom twice lands exactly where snapping
/// once does.
pub proof fn lemma_select_last_idempotent(a: App)
    ensures
        scroll_to_bottom_spec(scroll_to_bottom_spec(a)) == scroll_to_bottom_spec(a),
{
}

/// On a well-formed state the selection, when present, is a valid index into
/// the log; the scroll operations keep it so.
pub proof fn lemma_selection_in_bounds(a: App)
    requires
        a.wf(),
    ensures
        a.selected matches Some(i) ==> 0 <= i < a.msgs().len(),
{
}

} // verus!
