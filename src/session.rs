//! The capture session: which phase the background loop is in, how many
//! overlays it has open, and what the loop has to do next.
use vstd::prelude::*;

use crate::capture::CaptureThreadRequest;

verus! {

/// The phases of one capture pass; the loop cycles through them forever.
#[derive(Debug, Clone, Copy, PartialEq, Eq, Structural)]
pub enum SessionPhase {
    WaitingForStart,
    Capturing,
    OverlayActive,
    TearingDown,
}

/// What the loop observed.
#[derive(Debug, Clone, Copy, PartialEq, Eq, Structural)]
pub enum SessionEvent {
    /// A request read from the loop's own subscription.
    Request(CaptureThreadRequest),
    /// Every display was attempted; `displays` were enumerated.
    Captured { displays: usize },
    /// The grace period after `Quit` has passed.
    GraceElapsed,
}

/// What the loop has to do after an event.
#[derive(Debug, Clone, Copy, PartialEq, Eq, Structural)]
pub enum SessionAction {
    /// Nothing: go on reading requests.
    Idle,
    /// Hide the main window, wait the pre-capture delay, grab every display
    /// in ordinal order, then report `Captured`.
    HideAndCapture,
    /// Open one overlay per display, show the main window, then go on
    /// reading requests.
    OpenOverlays { count: usize },
    /// Wait the grace period, then report `GraceElapsed`.
    BeginGrace,
    /// Close and join every overlay that is still open, then go on reading
    /// requests.
    CloseOverlays { count: usize },
}

/// The state of the capture loop.
#[derive(Debug, Clone, Copy, PartialEq, Eq, Structural)]
pub struct CaptureSession {
    phase: SessionPhase,
    open_overlays: usize,
}

impl CaptureSession {
    pub closed spec fn spec_phase(self) -> SessionPhase {
        self.phase
    }

    pub closed spec fn spec_open_overlays(self) -> nat {
        self.open_overlays as nat
    }

    /// No overlay is open before the overlays of a pass have been requested.
    pub open spec fn wf(self) -> bool {
        (self.spec_phase() == SessionPhase::WaitingForStart || self.spec_phase()
            == SessionPhase::Capturing) ==> self.spec_open_overlays() == 0
    }

    /// The session that `phase` and `open` describe.
    pub closed spec fn spec_with(phase: SessionPhase, open: nat) -> CaptureSession {
        CaptureSession { phase, open_overlays: open as usize }
    }

    /// The state after `e`, and the action that the loop performs next.
    pub open spec fn transition(self, e: SessionEvent) -> (CaptureSession, SessionAction) {
        match (self.spec_phase(), e) {
            (SessionPhase::WaitingForStart, SessionEvent::Request(CaptureThreadRequest::Start)) => (
                CaptureSession::spec_with(SessionPhase::Capturing, 0),
                SessionAction::HideAndCapture,
            ),
            (SessionPhase::Capturing, SessionEvent::Captured { displays }) => (
                CaptureSession::spec_with(SessionPhase::OverlayActive, displays as nat),
                SessionAction::OpenOverlays { count: displays },
            ),
            (SessionPhase::OverlayActive, SessionEvent::Request(CaptureThreadRequest::Quit)) => (
                CaptureSession::spec_with(SessionPhase::TearingDown, self.spec_open_overlays()),
                SessionAction::BeginGrace,
            ),
            (SessionPhase::TearingDown, SessionEvent::GraceElapsed) => (
                CaptureSession::spec_with(SessionPhase::WaitingForStart, 0),
                SessionAction::CloseOverlays { count: self.spec_open_overlays() as usize },
            ),
            _ => (self, SessionAction::Idle),
        }
    }

    /// The state after every event of `events`, in order.
    pub open spec fn run(self, events: Seq<SessionEvent>) -> CaptureSession
        decreases events.len(),
    {
        if events.len() == 0 {
            self
        } else {
            self.transition(events[0]).0.run(events.drop_first())
        }
    }

    /// A session waiting for its first `Start`, with no overlay open.
    pub fn new() -> (s: CaptureSession)
        ensures
            s.wf(),
            s.spec_phase() == SessionPhase::WaitingForStart,
            s.spec_open_overlays() == 0,
    {
        CaptureSession { phase: SessionPhase::WaitingForStart, open_overlays: 0 }
    }

    pub fn phase(&self) -> (p: SessionPhase)
        ensures
            p == self.spec_phase(),
    {
        self.phase
    }

    pub fn open_overlays(&self) -> (n: usize)
        ensures
            n as nat == self.spec_open_overlays(),
    {
        self.open_overlays
    }

    /// Takes one event and says what the loop does next.
    pub fn step(&mut self, e: SessionEvent) -> (a: SessionAction)
        requires
            old(self).wf(),
        ensures
            (*final(self), a) == old(self).transition(e),
            final(self).wf(),
    {
        let prev = *self;
        match (self.phase, e) {
            (SessionPhase::WaitingForStart, SessionEvent::Request(CaptureThreadRequest::Start)) => {
                self.phase = SessionPhase::Capturing;
                self.open_overlays = 0;
                SessionAction::HideAndCapture
            },
            (SessionPhase::Capturing, SessionEvent::Captured { displays }) => {
                self.phase = SessionPhase::OverlayActive;
                self.open_overlays = displays;
                SessionAction::OpenOverlays { count: displays }
            },
            (SessionPhase::OverlayActive, SessionEvent::Request(CaptureThreadRequest::Quit)) => {
                self.phase = SessionPhase::TearingDown;
                SessionAction::BeginGrace
            },
            (SessionPhase::TearingDown, SessionEvent::GraceElapsed) => {
                let count = self.open_overlays;
                self.phase = SessionPhase::WaitingForStart;
                self.open_overlays = 0;
                SessionAction::CloseOverlays { count }
            },
            _ => {
                assert(prev.transition(e) == (prev, SessionAction::Idle));
                SessionAction::Idle
            },
        }
    }
}

/// While overlays are active, events other than `Quit` leave the session as
/// it is.
proof fn lemma_others_keep_overlays(s: CaptureSession, others: Seq<SessionEvent>)
    requires
        s.spec_phase() == SessionPhase::OverlayActive,
        forall|i: int|
            0 <= i < others.len() ==> others[i] != SessionEvent::Request(
                CaptureThreadRequest::Quit,
            ),
    ensures
        s.run(others) == s,
    decreases others.len(),
{
    if others.len() > 0 {
        assert(s.transition(others[0]).0 == s);
        lemma_others_keep_overlays(s, others.drop_first());
    }
}

proof fn lemma_run_append(s: CaptureSession, a: Seq<SessionEvent>, b: Seq<SessionEvent>)
    ensures
        s.run(a + b) == s.run(a).run(b),
    decreases a.len(),
{
    if a.len() > 0 {
        assert((a + b).drop_first() =~= a.drop_first() + b);
        lemma_run_append(s.transition(a[0]).0, a.drop_first(), b);
    }
}

/// A pass that others from an idle session, captures `displays` displays,
/// sees any events but `Quit` (further `Start` requests among them) and then
/// `Quit`, is back at waiting for `Start` as soon as the grace period has
/// passed, with every overlay of the pass closed.
pub proof fn law_start_then_quit_returns_to_idle(
    s: CaptureSession,
    displays: usize,
    others: Seq<SessionEvent>,
)
    requires
        s.wf(),
        s.spec_phase() == SessionPhase::WaitingForStart,
        forall|i: int|
            0 <= i < others.len() ==> others[i] != SessionEvent::Request(
                CaptureThreadRequest::Quit,
            ),
    ensures
        ({
            let events = seq![
                SessionEvent::Request(CaptureThreadRequest::Start),
                SessionEvent::Captured { displays },
            ] + others + seq![
                SessionEvent::Request(CaptureThreadRequest::Quit),
                SessionEvent::GraceElapsed,
            ];
            &&& s.run(events).spec_phase() == SessionPhase::WaitingForStart
            &&& s.run(events).spec_open_overlays() == 0
        }),
{
    let head = seq![
        SessionEvent::Request(CaptureThreadRequest::Start),
        SessionEvent::Captured { displays },
    ];
    let tail = seq![SessionEvent::Request(CaptureThreadRequest::Quit), SessionEvent::GraceElapsed];
    let s1 = s.transition(head[0]).0;
    let s2 = s1.transition(head[1]).0;
    assert(s2.spec_phase() == SessionPhase::OverlayActive);
    assert(head.drop_first()[0] == head[1]);
    assert(head.drop_first().drop_first() =~= Seq::<SessionEvent>::empty());
    assert(s2.run(head.drop_first().drop_first()) == s2);
    assert(s1.run(head.drop_first()) == s2);
    assert(s.run(head) == s2);
    lemma_others_keep_overlays(s2, others);
    lemma_run_append(s, head, others);
    lemma_run_append(s, head + others, tail);
    let s3 = s2.transition(tail[0]).0;
    let s4 = s3.transition(tail[1]).0;
    assert(tail.drop_first()[0] == tail[1]);
    assert(tail.drop_first().drop_first() =~= Seq::<SessionEvent>::empty());
    assert(s4.run(tail.drop_first().drop_first()) == s4);
    assert(s3.run(tail.drop_first()) == s4);
    assert(s2.run(tail) == s4);
}

/// Once the session is tearing down, the first `GraceElapsed` brings it back
/// to waiting for `Start` with no overlay open, and the action closes exactly
/// the overlays that were open.
pub proof fn law_grace_ends_teardown(s: CaptureSession)
    requires
        s.wf(),
        s.spec_phase() == SessionPhase::TearingDown,
    ensures
        s.transition(SessionEvent::GraceElapsed).0.spec_phase() == SessionPhase::WaitingForStart,
        s.transition(SessionEvent::GraceElapsed).0.spec_open_overlays() == 0,
        s.transition(SessionEvent::GraceElapsed).1 == (SessionAction::CloseOverlays {
            count: s.spec_open_overlays() as usize,
        }),
{
}

/// `Quit` on an idle session changes nothing and asks for nothing.
pub proof fn law_quit_when_idle_is_noop(s: CaptureSession)
    requires
        s.wf(),
        s.spec_phase() == SessionPhase::WaitingForStart,
    ensures
        s.transition(SessionEvent::Request(CaptureThreadRequest::Quit)) == (s, SessionAction::Idle),
{
}

} // verus!
