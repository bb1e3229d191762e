//! The save/replay prompt shown while a clip plays.
//!
//! The session is a state machine over single key presses. On entry the
//! terminal is put in key mode (no line buffering, no echo); on every way out,
//! a decision or a failure, the mode captured on entry is put back.
use vstd::prelude::*;

verus! {

/// Relies on `termios::ICANON`: the canonical-input bit of `c_lflag`, which
/// is `0o2` on Linux and Solaris and `0x100` on the BSDs.
#[verifier::external_body]
fn icanon_bit() -> (r: u32)
    ensures
        r == 2 || r == 0x100,
{
    termios::ICANON
}

/// Relies on `termios::ECHO`: the echo bit of `c_lflag`.
#[verifier::external_body]
fn echo_bit() -> (r: u32)
    ensures
        r == 8,
{
    termios::ECHO
}

/// The local-mode word with the canonical-input bit `icanon` and the echo
/// bit `echo` switched off.
pub open spec fn key_mode_spec(lflag: u32, icanon: u32, echo: u32) -> u32 {
    lflag & !(icanon | echo)
}

/// The local-mode word for key mode: keys arrive as typed, unechoed.
pub fn key_mode(lflag: u32, icanon: u32, echo: u32) -> (r: u32)
    ensures
        r == key_mode_spec(lflag, icanon, echo),
{
    lflag & !(icanon | echo)
}

pub open spec fn is_replay_key(k: u8) -> bool {
    k == 0x72 || k == 0x52
}

pub open spec fn is_keep_key(k: u8) -> bool {
    k == 0x79 || k == 0x59 || k == 0x73 || k == 0x53
}

/// Where the prompt stands.
#[derive(Clone, Copy, Debug, PartialEq, Eq, Structural)]
pub enum Decision {
    Undecided,
    Keep,
    Discard,
    /// Reading a key or replaying failed; the session ends in error.
    Failed,
}

/// What happened since the last step.
#[derive(Clone, Copy, Debug, PartialEq, Eq, Structural)]
pub enum PromptEvent {
    Key(u8),
    /// No key could be read (end of input or a read error).
    ReadFailed,
    /// The player could not seek back to the start.
    SeekFailed,
}

/// What the caller is to do next.
#[derive(Clone, Copy, Debug, PartialEq, Eq, Structural)]
pub enum PromptAction {
    /// Seek the player to the start, then read the next key.
    SeekToStart,
    /// Set the terminal's local mode to this word; the session is over.
    Restore(u32),
}

pub struct PromptSession {
    entry_mode: u32,
    icanon: u32,
    echo: u32,
    decision: Decision,
    seeks: u64,
}

impl PromptSession {
    /// The local mode captured on entry.
    pub closed spec fn entry_mode_spec(&self) -> u32 {
        self.entry_mode
    }

    /// The terminal's canonical-input and echo bits.
    pub closed spec fn icanon_spec(&self) -> u32 {
        self.icanon
    }

    pub closed spec fn echo_spec(&self) -> u32 {
        self.echo
    }

    pub closed spec fn decision_spec(&self) -> Decision {
        self.decision
    }

    /// How many replays were asked for.
    pub closed spec fn seeks_spec(&self) -> nat {
        self.seeks as nat
    }

    /// The local mode the terminal is in: key mode while undecided, the
    /// entry mode once the session is over.
    pub open spec fn terminal_mode_spec(&self) -> u32 {
        if self.decision_spec() == Decision::Undecided {
            key_mode_spec(self.entry_mode_spec(), self.icanon_spec(), self.echo_spec())
        } else {
            self.entry_mode_spec()
        }
    }

    /// Opens a session on a terminal whose local mode is `lflag`. The caller
    /// puts the terminal in `terminal_mode()`, which is key mode: the
    /// terminal's own canonical-input and echo bits switched off.
    pub fn enter(lflag: u32) -> (s: PromptSession)
        ensures
            s.entry_mode_spec() == lflag,
            s.icanon_spec() == 2 || s.icanon_spec() == 0x100,
            s.echo_spec() == 8,
            s.decision_spec() == Decision::Undecided,
            s.seeks_spec() == 0,
            s.terminal_mode_spec() == key_mode_spec(lflag, s.icanon_spec(), s.echo_spec()),
    {
        PromptSession {
            entry_mode: lflag,
            icanon: icanon_bit(),
            echo: echo_bit(),
            decision: Decision::Undecided,
            seeks: 0,
        }
    }

    pub fn entry_mode(&self) -> (r: u32)
        ensures
            r == self.entry_mode_spec(),
    {
        self.entry_mode
    }

    pub fn decision(&self) -> (r: Decision)
        ensures
            r == self.decision_spec(),
    {
        self.decision
    }

    pub fn seeks(&self) -> (r: u64)
        ensures
            r == self.seeks_spec(),
    {
        self.seeks
    }

    /// The local mode the terminal should be in now.
    pub fn terminal_mode(&self) -> (r: u32)
        ensures
            r == self.terminal_mode_spec(),
    {
        if self.decision == Decision::Undecided {
            key_mode(self.entry_mode, self.icanon, self.echo)
        } else {
            self.entry_mode
        }
    }

    /// Whether the session has ended.
    pub fn is_over(&self) -> (r: bool)
        ensures
            r == (self.decision_spec() != Decision::Undecided),
    {
        self.decision != Decision::Undecided
    }

    /// One step of the prompt. An `r` or `R` asks for a replay; `y`, `Y`,
    /// `s` or `S` keeps the clip; any other key discards it; a failed read
    /// or seek ends the session in error. Every way out restores the entry
    /// mode.
    pub fn handle(&mut self, ev: PromptEvent) -> (a: PromptAction)
        requires
            old(self).decision_spec() == Decision::Undecided,
            ev matches PromptEvent::Key(k) && is_replay_key(k) ==> old(self).seeks_spec() < u64::MAX,
        ensures
            final(self).entry_mode_spec() == old(self).entry_mode_spec(),
            final(self).icanon_spec() == old(self).icanon_spec(),
            final(self).echo_spec() == old(self).echo_spec(),
            match ev {
                PromptEvent::Key(k) => if is_replay_key(k) {
                    &&& a == PromptAction::SeekToStart
                    &&& final(self).decision_spec() == Decision::Undecided
                    &&& final(self).seeks_spec() == old(self).seeks_spec() + 1
                } else {
                    &&& a == PromptAction::Restore(old(self).entry_mode_spec())
                    &&& final(self).decision_spec() == if is_keep_key(k) {
                        Decision::Keep
                    } else {
                        Decision::Discard
                    }
                    &&& final(self).seeks_spec() == old(self).seeks_spec()
                },
                _ => {
                    &&& a == PromptAction::Restore(old(self).entry_mode_spec())
                    &&& final(self).decision_spec() == Decision::Failed
                    &&& final(self).seeks_spec() == old(self).seeks_spec()
                },
            },
            a is Restore ==> a->Restore_0 == final(self).terminal_mode_spec(),
    {
        match ev {
            PromptEvent::Key(k) => {
                if k == 0x72u8 || k == 0x52u8 {
                    self.seeks = self.seeks + 1;
                    PromptAction::SeekToStart
                } else {
                    if k == 0x79u8 || k == 0x59u8 || k == 0x73u8 || k == 0x53u8 {
                        self.decision = Decision::Keep;
                    } else {
                        self.decision = Decision::Discard;
                    }
                    PromptAction::Restore(self.entry_mode)
                }
            },
            _ => {
                self.decision = Decision::Failed;
                PromptAction::Restore(self.entry_mode)
            },
        }
    }
}

/// Once a session is over, by a decision or by a failure, the terminal is in
/// the mode it was in on entry.
pub proof fn lemma_over_means_restored(s: PromptSession)
    ensures
        s.decision_spec() != Decision::Undecided ==> s.terminal_mode_spec()
            == s.entry_mode_spec(),
{
}

/// The outcome of a prompt fed the keys `keys[i..]` in order, after seeks
/// already made: the decision and how many replays were asked for. Running
/// out of keys is a failed read.
pub open spec fn run_from(keys: Seq<u8>, i: int) -> (Decision, nat)
    decreases keys.len() - i,
{
    if i < 0 || i >= keys.len() {
        (Decision::Failed, 0)
    } else if is_replay_key(keys[i]) {
        let rest = run_from(keys, i + 1);
        (rest.0, rest.1 + 1)
    } else if is_keep_key(keys[i]) {
        (Decision::Keep, 0)
    } else {
        (Decision::Discard, 0)
    }
}

/// The outcome of a whole prompt fed `keys`.
pub open spec fn key_run(keys: Seq<u8>) -> (Decision, nat) {
    run_from(keys, 0)
}

/// What a prompt fed a fixed sequence of keys ends with.
#[derive(Clone, Copy, Debug, PartialEq, Eq, Structural)]
pub struct PromptRun {
    pub decision: Decision,
    /// Replays asked for, each one seek to the start.
    pub seeks: u64,
    /// The terminal's local mode once the prompt is over.
    pub final_mode: u32,
}

/// Runs a prompt on a terminal in local mode `lflag`, feeding it `keys` in
/// order while it is undecided; the keys after the deciding one are not read.
/// Whatever the keys, the terminal ends in the mode it started in.
pub fn run_keys(keys: &[u8], lflag: u32) -> (r: PromptRun)
    ensures
        r.decision == key_run(keys@).0,
        r.seeks == key_run(keys@).1,
        r.decision != Decision::Undecided,
        r.final_mode == lflag,
{
    let mut session = PromptSession::enter(lflag);
    let mut i: usize = 0;
    loop
        invariant_except_break
            i <= keys.len(),
            session.decision_spec() == Decision::Undecided,
            session.seeks_spec() == i as nat,
            key_run(keys@) == (run_from(keys@, i as int).0, (run_from(keys@, i as int).1 + i) as nat),
        invariant
            session.entry_mode_spec() == lflag,
        ensures
            session.decision_spec() == key_run(keys@).0,
            session.seeks_spec() == key_run(keys@).1,
            session.decision_spec() != Decision::Undecided,
        decreases keys.len() - i,
    {
        let ev = if i < keys.len() {
            PromptEvent::Key(keys[i])
        } else {
            PromptEvent::ReadFailed
        };
        let a = session.handle(ev);
        match a {
            PromptAction::SeekToStart => {
                i = i + 1;
            },
            PromptAction::Restore(_) => {
                break;
            },
        }
    }
    PromptRun {
        decision: session.decision(),
        seeks: session.seeks(),
        final_mode: session.terminal_mode(),
    }
}

} // verus!
