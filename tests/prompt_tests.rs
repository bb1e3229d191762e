use jadl::prompt::{key_mode, run_keys, Decision, PromptAction, PromptEvent, PromptSession};

const COOKED: u32 = 0o105073;

#[test]
fn key_mode_clears_canon_and_echo() {
    assert_eq!(key_mode(0xFFFF, 0o2, 0o10), 0xFFF5);
    assert_eq!(key_mode(0xFFFF, 0x100, 0o10), 0xFEF7);
    assert_eq!(key_mode(COOKED, 0o2, 0o10), COOKED & !0o12);
    assert_eq!(key_mode(0, 0o2, 0o10), 0);
}

#[test]
fn session_enters_key_mode_of_this_terminal() {
    let s = PromptSession::enter(COOKED);
    assert_eq!(s.terminal_mode(), COOKED & !(termios::ICANON | termios::ECHO));
    assert_ne!(s.terminal_mode(), COOKED);
}

#[test]
fn replay_replay_keep() {
    let r = run_keys(b"rry", COOKED);
    assert_eq!(r.decision, Decision::Keep);
    assert_eq!(r.seeks, 2);
    assert_eq!(r.final_mode, COOKED);
}

#[test]
fn other_key_discards() {
    let r = run_keys(b"n", COOKED);
    assert_eq!(r.decision, Decision::Discard);
    assert_eq!(r.seeks, 0);
    assert_eq!(r.final_mode, COOKED);
}

#[test]
fn no_input_fails_and_restores() {
    let r = run_keys(b"", COOKED);
    assert_eq!(r.decision, Decision::Failed);
    assert_eq!(r.seeks, 0);
    assert_eq!(r.final_mode, COOKED);
}

#[test]
fn input_ends_after_replays() {
    let r = run_keys(b"rR", COOKED);
    assert_eq!(r.decision, Decision::Failed);
    assert_eq!(r.seeks, 2);
    assert_eq!(r.final_mode, COOKED);
}

#[test]
fn keep_keys() {
    for k in [b'y', b'Y', b's', b'S'] {
        let r = run_keys(&[k], COOKED);
        assert_eq!(r.decision, Decision::Keep);
    }
}

#[test]
fn keys_after_decision_are_not_read() {
    let r = run_keys(b"Rqy", COOKED);
    assert_eq!(r.decision, Decision::Discard);
    assert_eq!(r.seeks, 1);
}

#[test]
fn session_steps() {
    let mut s = PromptSession::enter(COOKED);
    assert_eq!(s.terminal_mode(), key_mode(COOKED, termios::ICANON, termios::ECHO));
    assert!(!s.is_over());
    assert_eq!(s.handle(PromptEvent::Key(b'r')), PromptAction::SeekToStart);
    assert_eq!(s.seeks(), 1);
    assert_eq!(s.handle(PromptEvent::SeekFailed), PromptAction::Restore(COOKED));
    assert_eq!(s.decision(), Decision::Failed);
    assert_eq!(s.terminal_mode(), COOKED);
    assert_eq!(s.entry_mode(), COOKED);
    assert!(s.is_over());
}

#[test]
fn read_failure_restores() {
    let mut s = PromptSession::enter(COOKED);
    assert_eq!(s.handle(PromptEvent::ReadFailed), PromptAction::Restore(COOKED));
    assert_eq!(s.decision(), Decision::Failed);
}
