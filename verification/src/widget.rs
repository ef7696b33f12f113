//! The interactive list-selection widget: a key-event interpreter over the
//! list model, a minimal terminal capability set, and a session that owns
//! raw terminal mode for exactly the span of one selection.
//!
//! The widget is driven one iteration at a time: each [`SelectionSession::step`]
//! draws the list, polls once for input and dispatches the event. The caller
//! repeats `step` until it reports completion and then takes the outcome.
//! Whatever path ends the session — selection, cancellation, or a failure of
//! the terminal — the session releases raw mode before reporting it.

use vstd::prelude::*;

use crate::list::{next_index, prev_index, Candidate, StatefulList};

verus! {

/// A key, as far as the widget distinguishes keys.
#[derive(Clone, Copy, Debug)]
pub enum KeyCode {
    Down,
    Up,
    Left,
    Enter,
    Char(char),
    Other,
}

/// One keyboard event: the key, whether Control was held, and whether this
/// is a press (as opposed to a release or repeat artifact).
#[derive(Clone, Copy, Debug)]
pub struct KeyEvent {
    pub code: KeyCode,
    pub ctrl: bool,
    pub press: bool,
}

/// The render loop's state: still collecting input, an entry accepted, or
/// the whole selection called off.
#[derive(Clone, Copy, Debug, PartialEq, Eq, Structural)]
pub enum LoopState {
    Running,
    Selected,
    Cancelled,
}

/// How a selection can fail.
#[derive(Clone, Copy, Debug, PartialEq, Eq, Structural)]
pub enum WidgetError {
    /// Raw input mode could not be entered.
    TerminalUnavailable,
    /// The user called the selection off.
    Cancelled,
    /// Drawing or polling the terminal failed mid-loop.
    RenderFailure,
}

/// What one key event does to the widget: the new cursor and the new loop
/// state. Only presses count; 'q' and Control-C cancel; Enter accepts the
/// current selection if there is one; the arrow keys move the cursor; Left
/// clears it; everything else is ignored.
pub open spec fn interpret(sel: Option<int>, len: int, ev: KeyEvent) -> (Option<int>, LoopState) {
    if !ev.press {
        (sel, LoopState::Running)
    } else {
        match ev.code {
            KeyCode::Char(c) => if c == 'q' {
                (sel, LoopState::Cancelled)
            } else if c == 'c' && ev.ctrl {
                (sel, LoopState::Cancelled)
            } else {
                (sel, LoopState::Running)
            },
            KeyCode::Enter => if sel is Some {
                (sel, LoopState::Selected)
            } else {
                (sel, LoopState::Running)
            },
            KeyCode::Left => (None, LoopState::Running),
            KeyCode::Down => (next_index(sel, len), LoopState::Running),
            KeyCode::Up => (prev_index(sel, len), LoopState::Running),
            KeyCode::Other => (sel, LoopState::Running),
        }
    }
}

/// Applies one key event to the list model and reports the resulting loop
/// state, exactly as [`interpret`] describes.
pub fn interpret_key<T>(list: &mut StatefulList<T>, ev: KeyEvent) -> (st: LoopState)
    requires
        old(list).wf(),
    ensures
        final(list).wf(),
        final(list).items@ == old(list).items@,
        (final(list).cursor(), st) == interpret(old(list).cursor(), old(list).spec_len(), ev),
{
    if !ev.press {
        return LoopState::Running;
    }
    match ev.code {
        KeyCode::Char(c) => {
            if c == 'q' {
                LoopState::Cancelled
            } else if c == 'c' && ev.ctrl {
                LoopState::Cancelled
            } else {
                LoopState::Running
            }
        },
        KeyCode::Enter => {
            match list.selected {
                Some(_) => LoopState::Selected,
                None => LoopState::Running,
            }
        },
        KeyCode::Left => {
            list.unselect();
            LoopState::Running
        },
        KeyCode::Down => {
            list.next();
            LoopState::Running
        },
        KeyCode::Up => {
            list.previous();
            LoopState::Running
        },
        KeyCode::Other => LoopState::Running,
    }
}

/// How long one poll waits for input, in milliseconds. The bound keeps the
/// loop from busy-waiting while limiting the worst-case latency before an
/// external termination signal is observed.
pub const POLL_TIMEOUT_MILLIS: u64 = 250;

/// What one poll of the terminal can yield.
#[derive(Clone, Copy, Debug)]
pub enum PollOutcome {
    /// The poll timed out with no input; the loop draws and polls again.
    Quiet,
    /// A key event arrived.
    Key(KeyEvent),
    /// The terminal could not be polled.
    Failed,
}

/// The minimal capability set the widget needs from a terminal: raw-mode
/// acquisition and release, drawing the candidate labels with one of them
/// highlighted, and a bounded poll for the next key event. A real terminal
/// and a scripted test double both fit behind it.
pub trait TerminalPort {
    /// Puts the terminal into raw, application-controlled input mode.
    /// Returns false if the mode cannot be set.
    fn enter_raw_mode(&mut self) -> bool;

    /// Restores the prior input mode and clears rendered output. Returns
    /// false if the restoration failed.
    fn leave_raw_mode(&mut self) -> bool;

    /// Draws the candidate list with the given index highlighted. Returns
    /// false if drawing failed.
    fn draw(&mut self, items: &Vec<Candidate>, highlighted: Option<usize>) -> bool;

    /// Waits a bounded time for input and reports what arrived, if anything.
    fn poll_event(&mut self) -> PollOutcome;
}

/// Acquires raw terminal input mode; fails with `TerminalUnavailable` if
/// the mode cannot be set.
pub fn setup_terminal<P: TerminalPort>(port: &mut P) -> (r: Result<(), WidgetError>)
    ensures
        match r {
            Ok(u) => true,
            Err(e) => e is TerminalUnavailable,
        },
{
    if port.enter_raw_mode() {
        Ok(())
    } else {
        Err(WidgetError::TerminalUnavailable)
    }
}

/// Restores the prior terminal mode and clears rendered output.
pub fn restore_terminal<P: TerminalPort>(port: &mut P) -> (r: Result<(), WidgetError>)
    ensures
        match r {
            Ok(u) => true,
            Err(e) => e is RenderFailure,
        },
{
    if port.leave_raw_mode() {
        Ok(())
    } else {
        Err(WidgetError::RenderFailure)
    }
}

/// One in-progress list selection: the list model, the loop state, and
/// whether this session still holds the terminal. Raw mode is held from a
/// successful [`SelectionSession::start`] until the single step that ends
/// the loop, which releases it on every ending path.
pub struct SelectionSession {
    list: StatefulList<Candidate>,
    state: LoopState,
    active: bool,
}

impl SelectionSession {
    /// The candidates being offered, in order.
    pub closed spec fn candidates(&self) -> Seq<Candidate> {
        self.list.items@
    }

    /// The current cursor position.
    pub closed spec fn cursor(&self) -> Option<int> {
        self.list.cursor()
    }

    /// The loop state.
    pub closed spec fn loop_state(&self) -> LoopState {
        self.state
    }

    /// Whether this session still holds raw terminal mode.
    pub closed spec fn session_held(&self) -> bool {
        self.active
    }

    /// The session invariant: the cursor is in bounds, a `Selected` state
    /// always has a cursor to point at, and the terminal is only held while
    /// the loop is still running.
    pub closed spec fn wf(&self) -> bool {
        &&& self.list.wf()
        &&& (self.state is Selected ==> self.list.selected is Some)
        &&& (self.active ==> self.state is Running)
    }

    /// The loop state, readable from outside.
    pub fn state(&self) -> (s: LoopState)
        ensures
            s == self.loop_state(),
    {
        self.state
    }

    /// The cursor position, readable from outside.
    pub fn selected_index(&self) -> (r: Option<usize>)
        ensures
            match r {
                Some(i) => self.cursor() == Some(i as int),
                None => self.cursor() is None,
            },
    {
        self.list.selected
    }

    /// Whether the session still holds the terminal.
    pub fn holds_terminal(&self) -> (b: bool)
        ensures
            b == self.session_held(),
    {
        self.active
    }

    /// Acquires the terminal and opens a selection over `items`. The cursor
    /// starts on index 0 when the list is non-empty and stays absent when it
    /// is empty.
    pub fn start<P: TerminalPort>(port: &mut P, items: Vec<Candidate>) -> (r: Result<
        SelectionSession,
        WidgetError,
    >)
        ensures
            match r {
                Ok(s) => {
                    &&& s.wf()
                    &&& s.session_held()
                    &&& s.loop_state() is Running
                    &&& s.candidates() == items@
                    &&& s.cursor() == (if items@.len() > 0 {
                        Some(0int)
                    } else {
                        None::<int>
                    })
                },
                Err(e) => e is TerminalUnavailable,
            },
    {
        match setup_terminal(port) {
            Ok(u) => {},
            Err(e) => {
                return Err(e);
            },
        }
        let mut list = StatefulList::with_items(items);
        if list.items.len() > 0 {
            list.selected = Some(0);
        }
        Ok(SelectionSession { list, state: LoopState::Running, active: true })
    }

    /// One loop iteration: draw the list, poll once, dispatch whatever
    /// arrived. Returns `Ok(true)` exactly when the loop has ended, in which
    /// case the terminal has been released; a draw or poll failure also
    /// releases the terminal before surfacing as `RenderFailure`. A
    /// `Selected` ending keeps the cursor exactly where it was.
    pub fn step<P: TerminalPort>(&mut self, port: &mut P) -> (r: Result<bool, WidgetError>)
        requires
            old(self).wf(),
            old(self).session_held(),
        ensures
            final(self).wf(),
            final(self).candidates() == old(self).candidates(),
            match r {
                Ok(done) => {
                    &&& (done <==> !final(self).session_held())
                    &&& (!done <==> final(self).loop_state() is Running)
                    &&& (final(self).loop_state() is Selected ==> final(self).cursor()
                        == old(self).cursor() && final(self).cursor() is Some)
                    &&& ((final(self).cursor(), final(self).loop_state()) == (
                        old(self).cursor(),
                        LoopState::Running,
                    ) || (exists|ev: KeyEvent|
                        (final(self).cursor(), final(self).loop_state()) == interpret(
                            old(self).cursor(),
                            old(self).candidates().len() as int,
                            ev,
                        )))
                },
                Err(e) => {
                    &&& !final(self).session_held()
                    &&& e is RenderFailure
                    &&& final(self).loop_state() is Running
                    &&& final(self).cursor() == old(self).cursor()
                },
            },
    {
        if !port.draw(&self.list.items, self.list.selected) {
            self.active = false;
            let released = port.leave_raw_mode();
            return Err(WidgetError::RenderFailure);
        }
        match port.poll_event() {
            PollOutcome::Failed => {
                self.active = false;
                let released = port.leave_raw_mode();
                Err(WidgetError::RenderFailure)
            },
            PollOutcome::Quiet => Ok(false),
            PollOutcome::Key(ev) => {
                let st = interpret_key(&mut self.list, ev);
                self.state = st;
                proof {
                    assert((self.list.cursor(), self.state) == interpret(
                        old(self).cursor(),
                        old(self).candidates().len() as int,
                        ev,
                    ));
                }
                match st {
                    LoopState::Running => Ok(false),
                    LoopState::Selected => {
                        self.active = false;
                        let released = port.leave_raw_mode();
                        Ok(true)
                    },
                    LoopState::Cancelled => {
                        self.active = false;
                        let released = port.leave_raw_mode();
                        Ok(true)
                    },
                }
            },
        }
    }

    /// The result of a finished selection: the candidate under the cursor
    /// for a `Selected` ending, `Cancelled` for a cancellation.
    pub fn outcome(self) -> (r: Result<Candidate, WidgetError>)
        requires
            self.wf(),
            !(self.loop_state() is Running),
        ensures
            match r {
                Ok(c) => self.loop_state() is Selected && self.cursor() is Some && c
                    == self.candidates()[self.cursor().unwrap()],
                Err(e) => self.loop_state() is Cancelled && e == WidgetError::Cancelled,
            },
    {
        match self.state {
            LoopState::Selected => {
                let mut items = self.list.items;
                match self.list.selected {
                    Some(i) => {
                        let c = items.remove(i);
                        Ok(c)
                    },
                    None => {
                        // A Selected state always carries a cursor.
                        proof {
                            assert(false);
                        }
                        Err(WidgetError::Cancelled)
                    },
                }
            },
            LoopState::Cancelled => Err(WidgetError::Cancelled),
            LoopState::Running => {
                // Callers may only take the outcome of a finished session.
                proof {
                    assert(false);
                }
                Err(WidgetError::Cancelled)
            },
        }
    }
}

/// Pressing Enter with an index selected accepts exactly that index, moving
/// nothing; with no selection it does nothing.
pub proof fn lemma_enter_accepts_current_selection(sel: Option<int>, len: int, ev: KeyEvent)
    requires
        ev.press,
        ev.code is Enter,
    ensures
        sel is Some ==> interpret(sel, len, ev) == (sel, LoopState::Selected),
        sel is None ==> interpret(sel, len, ev) == (sel, LoopState::Running),
{
}

/// Pressing 'q', with or without modifiers, cancels from any state, leaving
/// the cursor untouched.
pub proof fn lemma_q_always_cancels(sel: Option<int>, len: int, ev: KeyEvent)
    requires
        ev.press,
        ev.code == KeyCode::Char('q'),
    ensures
        interpret(sel, len, ev) == (sel, LoopState::Cancelled),
{
}

/// On an empty list, any key other than 'q' and Control-C leaves the loop
/// running with no selection; only those two keys end it.
pub proof fn lemma_empty_list_only_cancels(ev: KeyEvent)
    requires
        !(ev.press && (ev.code == KeyCode::Char('q') || (ev.code == KeyCode::Char('c')
            && ev.ctrl))),
    ensures
        interpret(None, 0, ev) == (None::<int>, LoopState::Running),
{
}

} // verus!
