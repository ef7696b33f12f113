use jwctl::{
    interpret_key, Candidate, KeyCode, KeyEvent, LoopState, PollOutcome, SelectionSession,
    StatefulList, TerminalPort, WidgetError,
};

/// A scripted terminal standing in for the real one: it hands out poll
/// outcomes from a fixed script and records every capability call.
struct FakePort {
    script: Vec<PollOutcome>,
    next_event: usize,
    acquires: usize,
    releases: usize,
    draws: usize,
    allow_acquire: bool,
    fail_draws_from: Option<usize>,
}

impl FakePort {
    fn scripted(script: Vec<PollOutcome>) -> FakePort {
        FakePort {
            script,
            next_event: 0,
            acquires: 0,
            releases: 0,
            draws: 0,
            allow_acquire: true,
            fail_draws_from: None,
        }
    }
}

impl TerminalPort for FakePort {
    fn enter_raw_mode(&mut self) -> bool {
        self.acquires += 1;
        self.allow_acquire
    }

    fn leave_raw_mode(&mut self) -> bool {
        self.releases += 1;
        true
    }

    fn draw(&mut self, _items: &Vec<Candidate>, _highlighted: Option<usize>) -> bool {
        self.draws += 1;
        match self.fail_draws_from {
            Some(n) => self.draws <= n,
            None => true,
        }
    }

    fn poll_event(&mut self) -> PollOutcome {
        if self.next_event < self.script.len() {
            let e = self.script[self.next_event];
            self.next_event += 1;
            e
        } else {
            PollOutcome::Quiet
        }
    }
}

fn press(code: KeyCode) -> PollOutcome {
    PollOutcome::Key(KeyEvent { code, ctrl: false, press: true })
}

fn ctrl_press(code: KeyCode) -> PollOutcome {
    PollOutcome::Key(KeyEvent { code, ctrl: true, press: true })
}

fn release(code: KeyCode) -> PollOutcome {
    PollOutcome::Key(KeyEvent { code, ctrl: false, press: false })
}

fn cand(key: &str, label: &str) -> Candidate {
    Candidate { key: key.to_string(), label: label.to_string() }
}

fn abc_list() -> Vec<Candidate> {
    vec![cand("a", "Alpha"), cand("b", "Beta"), cand("c", "Gamma")]
}

/// Runs a whole selection against the port, with a step budget so a stuck
/// loop fails the test instead of hanging it.
fn run_selection(port: &mut FakePort, items: Vec<Candidate>) -> Result<Candidate, WidgetError> {
    let mut session = match SelectionSession::start(port, items) {
        Ok(s) => s,
        Err(e) => return Err(e),
    };
    for _ in 0..1000 {
        match session.step(port) {
            Ok(true) => return session.outcome(),
            Ok(false) => {},
            Err(e) => return Err(e),
        }
    }
    panic!("selection loop did not finish within the step budget");
}

#[test]
fn interpreter_moves_clears_and_accepts() {
    let mut list = StatefulList::with_items(vec![1, 2, 3]);
    list.selected = Some(0);

    let ev = KeyEvent { code: KeyCode::Down, ctrl: false, press: true };
    assert_eq!(interpret_key(&mut list, ev), LoopState::Running);
    assert_eq!(list.selected, Some(1));

    let ev = KeyEvent { code: KeyCode::Up, ctrl: false, press: true };
    assert_eq!(interpret_key(&mut list, ev), LoopState::Running);
    assert_eq!(list.selected, Some(0));

    let ev = KeyEvent { code: KeyCode::Enter, ctrl: false, press: true };
    assert_eq!(interpret_key(&mut list, ev), LoopState::Selected);
    assert_eq!(list.selected, Some(0));

    let ev = KeyEvent { code: KeyCode::Left, ctrl: false, press: true };
    assert_eq!(interpret_key(&mut list, ev), LoopState::Running);
    assert_eq!(list.selected, None);

    let ev = KeyEvent { code: KeyCode::Enter, ctrl: false, press: true };
    assert_eq!(interpret_key(&mut list, ev), LoopState::Running);
    assert_eq!(list.selected, None);
}

#[test]
fn interpreter_cancels_on_q_and_ctrl_c_only() {
    let mut list = StatefulList::with_items(vec![1, 2, 3]);
    list.selected = Some(2);

    let q = KeyEvent { code: KeyCode::Char('q'), ctrl: false, press: true };
    assert_eq!(interpret_key(&mut list, q), LoopState::Cancelled);
    assert_eq!(list.selected, Some(2));

    let ctrl_c = KeyEvent { code: KeyCode::Char('c'), ctrl: true, press: true };
    assert_eq!(interpret_key(&mut list, ctrl_c), LoopState::Cancelled);

    let plain_c = KeyEvent { code: KeyCode::Char('c'), ctrl: false, press: true };
    assert_eq!(interpret_key(&mut list, plain_c), LoopState::Running);

    let other = KeyEvent { code: KeyCode::Other, ctrl: false, press: true };
    assert_eq!(interpret_key(&mut list, other), LoopState::Running);

    let released_q = KeyEvent { code: KeyCode::Char('q'), ctrl: false, press: false };
    assert_eq!(interpret_key(&mut list, released_q), LoopState::Running);
    assert_eq!(list.selected, Some(2));
}

#[test]
fn scenario_down_three_times_wraps_and_enter_returns_first() {
    let mut port = FakePort::scripted(vec![
        press(KeyCode::Down),
        press(KeyCode::Down),
        press(KeyCode::Down),
        press(KeyCode::Enter),
    ]);
    let picked = run_selection(&mut port, abc_list()).unwrap();
    assert_eq!(picked.key, "a");
    assert_eq!(picked.label, "Alpha");
}

#[test]
fn scenario_up_from_zero_wraps_to_last_and_enter_returns_it() {
    let mut port = FakePort::scripted(vec![press(KeyCode::Up), press(KeyCode::Enter)]);
    let picked = run_selection(&mut port, abc_list()).unwrap();
    assert_eq!(picked.key, "c");
    assert_eq!(picked.label, "Gamma");
}

#[test]
fn scenario_empty_list_ignores_keys_until_cancelled() {
    let mut port = FakePort::scripted(vec![
        press(KeyCode::Down),
        press(KeyCode::Up),
        press(KeyCode::Enter),
        press(KeyCode::Char('x')),
        PollOutcome::Quiet,
    ]);
    let mut session = SelectionSession::start(&mut port, Vec::new()).unwrap();
    for _ in 0..5 {
        let done = session.step(&mut port).unwrap();
        assert!(!done);
        assert_eq!(session.state(), LoopState::Running);
        assert_eq!(session.selected_index(), None);
    }
    // Only a cancellation key ends the loop on an empty list.
    port.script.push(press(KeyCode::Char('q')));
    let done = session.step(&mut port).unwrap();
    assert!(done);
    assert_eq!(session.state(), LoopState::Cancelled);
    assert_eq!(session.outcome().unwrap_err(), WidgetError::Cancelled);
}

#[test]
fn enter_returns_the_selected_pair_unmodified() {
    let mut port = FakePort::scripted(vec![press(KeyCode::Down), press(KeyCode::Enter)]);
    let picked = run_selection(&mut port, abc_list()).unwrap();
    assert_eq!(picked.key, "b");
    assert_eq!(picked.label, "Beta");
}

#[test]
fn enter_without_selection_is_a_no_op() {
    let mut port = FakePort::scripted(vec![
        press(KeyCode::Left),
        press(KeyCode::Enter),
        press(KeyCode::Enter),
    ]);
    let mut session = SelectionSession::start(&mut port, abc_list()).unwrap();
    for _ in 0..3 {
        let done = session.step(&mut port).unwrap();
        assert!(!done);
        assert_eq!(session.state(), LoopState::Running);
        assert_eq!(session.selected_index(), None);
    }
}

#[test]
fn q_cancels_with_exactly_one_acquire_and_release() {
    let mut port = FakePort::scripted(vec![
        PollOutcome::Quiet,
        press(KeyCode::Down),
        PollOutcome::Quiet,
        release(KeyCode::Char('q')),
        press(KeyCode::Char('q')),
    ]);
    let err = run_selection(&mut port, abc_list()).unwrap_err();
    assert_eq!(err, WidgetError::Cancelled);
    assert_eq!(port.acquires, 1);
    assert_eq!(port.releases, 1);
    assert!(port.draws >= 5);
}

#[test]
fn ctrl_c_cancels_like_q() {
    let mut port = FakePort::scripted(vec![ctrl_press(KeyCode::Char('c'))]);
    let err = run_selection(&mut port, abc_list()).unwrap_err();
    assert_eq!(err, WidgetError::Cancelled);
    assert_eq!(port.acquires, 1);
    assert_eq!(port.releases, 1);
}

#[test]
fn plain_c_does_not_cancel() {
    let mut port = FakePort::scripted(vec![press(KeyCode::Char('c')), press(KeyCode::Enter)]);
    let picked = run_selection(&mut port, abc_list()).unwrap();
    assert_eq!(picked.key, "a");
}

#[test]
fn key_releases_do_not_move_the_cursor() {
    let mut port = FakePort::scripted(vec![
        release(KeyCode::Down),
        release(KeyCode::Down),
        press(KeyCode::Enter),
    ]);
    let picked = run_selection(&mut port, abc_list()).unwrap();
    assert_eq!(picked.key, "a");
}

#[test]
fn selection_after_acquire_failure_reports_terminal_unavailable() {
    let mut port = FakePort::scripted(Vec::new());
    port.allow_acquire = false;
    let err = run_selection(&mut port, abc_list()).unwrap_err();
    assert_eq!(err, WidgetError::TerminalUnavailable);
    assert_eq!(port.releases, 0);
}

#[test]
fn draw_failure_releases_the_terminal_and_surfaces_render_failure() {
    let mut port = FakePort::scripted(vec![press(KeyCode::Down), press(KeyCode::Down)]);
    port.fail_draws_from = Some(2);
    let err = run_selection(&mut port, abc_list()).unwrap_err();
    assert_eq!(err, WidgetError::RenderFailure);
    assert_eq!(port.acquires, 1);
    assert_eq!(port.releases, 1);
}

#[test]
fn session_reports_terminal_held_only_while_running() {
    let mut port = FakePort::scripted(vec![press(KeyCode::Enter)]);
    let mut session = SelectionSession::start(&mut port, abc_list()).unwrap();
    assert!(session.holds_terminal());
    assert_eq!(session.selected_index(), Some(0));
    let done = session.step(&mut port).unwrap();
    assert!(done);
    assert!(!session.holds_terminal());
    assert_eq!(session.state(), LoopState::Selected);
    let picked = session.outcome().unwrap();
    assert_eq!(picked.key, "a");
}
