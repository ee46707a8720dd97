use vstd::prelude::*;
use crate::buttons::{ButtonKind, ScreenPoint};

verus! {

/// Coordinate capture: `active` false is `Idle`; `active` true is
/// `Watching(watched, previous)`.
#[derive(Clone, Copy, Debug, PartialEq, Eq, Structural)]
pub struct CaptureSession {
    pub active: bool,
    pub watched: ButtonKind,
    pub previous: bool,
}

/// The session after one poll that read `pressed`.
pub open spec fn tick_spec(s: CaptureSession, pressed: bool) -> CaptureSession {
    if !s.active {
        s
    } else if s.previous && !pressed {
        CaptureSession { active: false, watched: s.watched, previous: false }
    } else {
        CaptureSession { active: true, watched: s.watched, previous: pressed }
    }
}

/// Whether a poll that read `pressed` ends the session with a commit.
pub open spec fn commits(s: CaptureSession, pressed: bool) -> bool {
    s.active && s.previous && !pressed
}

/// The session after a run of polls, each a reading of the watched button
/// and the pointer's position at that poll.
pub open spec fn after_polls(s: CaptureSession, polls: Seq<(bool, ScreenPoint)>) -> CaptureSession
    decreases polls.len(),
{
    if polls.len() == 0 {
        s
    } else {
        after_polls(tick_spec(s, polls[0].0), polls.drop_first())
    }
}

/// The positions committed over a run of polls, in order.
pub open spec fn committed(s: CaptureSession, polls: Seq<(bool, ScreenPoint)>) -> Seq<ScreenPoint>
    decreases polls.len(),
{
    if polls.len() == 0 {
        Seq::empty()
    } else {
        (if commits(s, polls[0].0) {
            seq![polls[0].1]
        } else {
            Seq::empty()
        }) + committed(tick_spec(s, polls[0].0), polls.drop_first())
    }
}

/// A run of polls with no press read at one poll and a release at the next.
pub open spec fn no_falling_edge(polls: Seq<(bool, ScreenPoint)>) -> bool {
    forall|j: int| 0 <= j < polls.len() - 1 ==> !(#[trigger] polls[j].0 && !polls[j + 1].0)
}

impl CaptureSession {
    /// An idle session.
    pub fn new() -> (r: CaptureSession)
        ensures
            !r.active,
            !r.previous,
    {
        CaptureSession { active: false, watched: ButtonKind::Tertiary, previous: false }
    }

    pub fn is_active(&self) -> (r: bool)
        ensures
            r == self.active,
    {
        self.active
    }

    /// Starts watching `button`; does nothing while a session is active.
    /// Returns whether a session was started.
    pub fn start(&mut self, button: ButtonKind) -> (r: bool)
        ensures
            r == !old(self).active,
            old(self).active ==> *final(self) == *old(self),
            !old(self).active ==> *final(self) == (CaptureSession {
                active: true,
                watched: button,
                previous: false,
            }),
    {
        if self.active {
            false
        } else {
            self.active = true;
            self.watched = button;
            self.previous = false;
            true
        }
    }

    /// Ends the session, discarding any edge state.
    pub fn cancel(&mut self)
        ensures
            !final(self).active,
            !final(self).previous,
            final(self).watched == old(self).watched,
    {
        self.active = false;
        self.previous = false;
    }

    /// One poll: `pressed` is the watched button's state now and `position`
    /// the pointer's position now. On a falling edge the session ends and the
    /// position is committed.
    pub fn tick(&mut self, pressed: bool, position: ScreenPoint) -> (r: Option<ScreenPoint>)
        ensures
            *final(self) == tick_spec(*old(self), pressed),
            r == (if commits(*old(self), pressed) { Some(position) } else { None::<ScreenPoint> }),
    {
        if !self.active {
            return None;
        }
        if self.previous && !pressed {
            self.active = false;
            self.previous = false;
            Some(position)
        } else {
            self.previous = pressed;
            None
        }
    }

    /// Runs the polls in order and returns the positions committed.
    pub fn tick_all(&mut self, polls: &Vec<(bool, ScreenPoint)>) -> (r: Vec<ScreenPoint>)
        ensures
            *final(self) == after_polls(*old(self), polls@),
            r@ == committed(*old(self), polls@),
    {
        let mut out: Vec<ScreenPoint> = Vec::new();
        let mut i: usize = 0;
        assert(polls@.skip(0) =~= polls@);
        assert(out@ + committed(*self, polls@) =~= committed(*self, polls@));
        while i < polls.len()
            invariant
                i <= polls@.len(),
                after_polls(*old(self), polls@) == after_polls(*self, polls@.skip(i as int)),
                committed(*old(self), polls@) == out@ + committed(*self, polls@.skip(i as int)),
            decreases polls@.len() - i,
        {
            let ghost before = *self;
            let ghost tail = polls@.skip(i as int);
            assert(tail.drop_first() =~= polls@.skip(i as int + 1));
            assert(tail[0] == polls@[i as int]);
            let (pressed, p) = polls[i];
            let c = self.tick(pressed, p);
            match c {
                Some(q) => {
                    out.push(q);
                },
                None => {},
            }
            proof {
                let head: Seq<ScreenPoint> = if commits(before, pressed) {
                    seq![p]
                } else {
                    Seq::empty()
                };
                assert(committed(before, tail) == head + committed(*self, polls@.skip(i as int + 1)));
                assert(out@ =~= out@.subrange(0, out@.len() - head.len()) + head);
                let pre = out@.subrange(0, out@.len() - head.len());
                let post = committed(*self, polls@.skip(i as int + 1));
                assert(pre + head + post =~= pre + (head + post));
            }
            i = i + 1;
        }
        assert(polls@.skip(i as int) =~= Seq::<(bool, ScreenPoint)>::empty());
        assert(out@ + Seq::<ScreenPoint>::empty() =~= out@);
        out
    }

    /// A poll that could not read the backend: the session ends and the
    /// failure is reported if one was active.
    pub fn abort(&mut self) -> (r: Result<(), crate::buttons::EngineError>)
        ensures
            !final(self).active,
            !final(self).previous,
            final(self).watched == old(self).watched,
            r == (if old(self).active {
                Err(crate::buttons::EngineError::CaptureAborted)
            } else {
                Ok::<(), crate::buttons::EngineError>(())
            }),
    {
        let was = self.active;
        self.active = false;
        self.previous = false;
        if was {
            Err(crate::buttons::EngineError::CaptureAborted)
        } else {
            Ok(())
        }
    }
}

/// An idle session ignores every poll and commits nothing.
pub proof fn lemma_idle_ignores_polls(s: CaptureSession, polls: Seq<(bool, ScreenPoint)>)
    requires
        !s.active,
    ensures
        after_polls(s, polls) == s,
        committed(s, polls) == Seq::<ScreenPoint>::empty(),
    decreases polls.len(),
{
    if polls.len() > 0 {
        lemma_idle_ignores_polls(s, polls.drop_first());
        assert(committed(s, polls) =~= Seq::<ScreenPoint>::empty() + committed(s, polls.drop_first()));
    }
}

/// Polls that never read a press followed by a release keep a watching
/// session watching, commit nothing, and leave the last reading as the
/// edge state; this holds when the session has not yet seen a press, or has
/// and the first reading is still a press.
pub proof fn lemma_no_edge_keeps_watching(s: CaptureSession, polls: Seq<(bool, ScreenPoint)>)
    requires
        s.active,
        s.previous && polls.len() > 0 ==> polls[0].0,
        no_falling_edge(polls),
    ensures
        after_polls(s, polls).active,
        after_polls(s, polls).watched == s.watched,
        after_polls(s, polls).previous == if polls.len() == 0 {
            s.previous
        } else {
            polls.last().0
        },
        committed(s, polls) == Seq::<ScreenPoint>::empty(),
    decreases polls.len(),
{
    if polls.len() > 0 {
        let t = tick_spec(s, polls[0].0);
        let rest = polls.drop_first();
        assert(t.active && t.previous == polls[0].0);
        if rest.len() > 0 {
            assert(!(polls[0].0 && !polls[1].0));
            assert(rest[0] == polls[1]);
            assert(rest.last() == polls.last());
        }
        assert forall|j: int| 0 <= j < rest.len() - 1 implies !(#[trigger] rest[j].0 && !rest[j + 1].0) by {
            assert(!(polls[j + 1].0 && !polls[j + 2].0));
        }
        lemma_no_edge_keeps_watching(t, rest);
        assert(committed(s, polls) =~= Seq::<ScreenPoint>::empty() + committed(t, rest));
    }
}

/// Running two runs of polls one after the other is running their
/// concatenation.
pub proof fn lemma_polls_concat(s: CaptureSession, a: Seq<(bool, ScreenPoint)>, b: Seq<(bool, ScreenPoint)>)
    ensures
        after_polls(s, a + b) == after_polls(after_polls(s, a), b),
        committed(s, a + b) == committed(s, a) + committed(after_polls(s, a), b),
    decreases a.len(),
{
    if a.len() == 0 {
        assert(a + b =~= b);
        assert(committed(s, a) + committed(s, b) =~= committed(s, b));
    } else {
        let t = tick_spec(s, a[0].0);
        assert((a + b).drop_first() =~= a.drop_first() + b);
        assert((a + b)[0] == a[0]);
        lemma_polls_concat(t, a.drop_first(), b);
        let head: Seq<ScreenPoint> = if commits(s, a[0].0) {
            seq![a[0].1]
        } else {
            Seq::empty()
        };
        let x = committed(t, a.drop_first());
        let y = committed(after_polls(t, a.drop_first()), b);
        assert(head + x + y =~= head + (x + y));
    }
}

/// A press read at poll `k - 1` and a release at poll `k`, the first such
/// pair of a watching session's run, end the session at poll `k`: exactly
/// one position is committed, the one sampled at poll `k`, and later polls
/// change nothing.
pub proof fn lemma_first_edge_commits_once(s: CaptureSession, polls: Seq<(bool, ScreenPoint)>, k: int)
    requires
        s.active,
        1 <= k < polls.len(),
        s.previous ==> polls[0].0,
        no_falling_edge(polls.take(k)),
        polls[k - 1].0,
        !polls[k].0,
    ensures
        committed(s, polls) == seq![polls[k].1],
        !after_polls(s, polls.take(k + 1)).active,
        after_polls(s, polls) == after_polls(s, polls.take(k + 1)),
{
    let a = polls.take(k);
    let b = polls.skip(k);
    assert(a + b =~= polls);
    assert(a[0] == polls[0]);
    assert(a.last() == polls[k - 1]);
    lemma_no_edge_keeps_watching(s, a);
    let m = after_polls(s, a);
    assert(m.active && m.previous);
    lemma_polls_concat(s, a, b);
    assert(b[0] == polls[k]);
    let e = tick_spec(m, b[0].0);
    assert(!e.active);
    lemma_idle_ignores_polls(e, b.drop_first());
    assert(committed(m, b) =~= seq![polls[k].1] + committed(e, b.drop_first()));
    assert(committed(s, polls) =~= seq![polls[k].1]);
    let one = seq![b[0]];
    assert(polls.take(k + 1) =~= a + one);
    lemma_polls_concat(s, a, one);
    assert(one.drop_first() =~= Seq::<(bool, ScreenPoint)>::empty());
    assert(after_polls(m, one) == after_polls(e, one.drop_first()));
}

} // verus!
