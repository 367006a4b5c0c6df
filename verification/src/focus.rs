//! Acquiring the input focus for a window. The operating system may refuse
//! a request that comes from a background process, so a request is tried
//! several times, with a short pause in between. This module decides what
//! follows each try; the caller makes the tries and the pauses.

use vstd::prelude::*;

verus! {

/// How often focus is requested before giving up.
pub const MAX_FOCUS_ATTEMPTS: u32 = 5;

/// The pause between two attempts, in milliseconds.
pub const FOCUS_BACKOFF_MILLIS: u64 = 50;

/// What follows an attempt to focus the window.
#[derive(Clone, Copy, Debug, PartialEq, Eq, Structural)]
pub enum FocusVerdict {
    /// The window holds the focus: make no further attempt.
    Acquired,
    /// The attempt failed: pause for so many milliseconds and try again.
    Retry { backoff_millis: u64 },
    /// Every attempt failed: make no further one.
    Unobtainable,
}

/// Why the focus did not move.
#[derive(Clone, Copy, Debug, PartialEq, Eq, Structural)]
pub enum FocusError {
    /// The window did not take the focus in any of the attempts.
    Unobtainable,
}

/// What a [`FocusAcquirer`] stands for in specifications: the attempts
/// reported so far, and whether one of them succeeded.
pub struct FocusAcquirerView {
    pub attempts: nat,
    pub acquired: bool,
}

impl FocusAcquirerView {
    /// No further attempt is to be made.
    pub open spec fn finished(self) -> bool {
        self.acquired || self.attempts >= MAX_FOCUS_ATTEMPTS
    }

    /// The verdict that stands once no further attempt is to be made.
    pub open spec fn last_verdict(self) -> FocusVerdict {
        if self.acquired {
            FocusVerdict::Acquired
        } else {
            FocusVerdict::Unobtainable
        }
    }

    /// The acquirer after an attempt that ended as `focused` says. Once
    /// finished, it takes no further report.
    pub open spec fn recorded(self, focused: bool) -> FocusAcquirerView {
        if self.finished() {
            self
        } else {
            FocusAcquirerView { attempts: self.attempts + 1, acquired: focused }
        }
    }

    /// The verdict on an attempt that ended as `focused` says.
    pub open spec fn verdict(self, focused: bool) -> FocusVerdict {
        if self.finished() {
            self.last_verdict()
        } else if focused {
            FocusVerdict::Acquired
        } else if self.attempts + 1 < MAX_FOCUS_ATTEMPTS {
            FocusVerdict::Retry { backoff_millis: FOCUS_BACKOFF_MILLIS }
        } else {
            FocusVerdict::Unobtainable
        }
    }

    /// The acquirer after the attempts whose outcomes are `outcomes`, in
    /// that order.
    pub open spec fn recorded_all(self, outcomes: Seq<bool>) -> FocusAcquirerView
        decreases outcomes.len(),
    {
        if outcomes.len() == 0 {
            self
        } else {
            self.recorded_all(outcomes.drop_last()).recorded(outcomes.last())
        }
    }
}

/// The course of one acquisition of the focus.
#[derive(Debug)]
pub struct FocusAcquirer {
    attempts: u32,
    acquired: bool,
}

impl View for FocusAcquirer {
    type V = FocusAcquirerView;

    closed spec fn view(&self) -> FocusAcquirerView {
        FocusAcquirerView { attempts: self.attempts as nat, acquired: self.acquired }
    }
}

impl FocusAcquirer {
    #[verifier::type_invariant]
    spec fn within_limit(self) -> bool {
        self.attempts <= MAX_FOCUS_ATTEMPTS
    }

    /// An acquisition before its first attempt.
    pub fn new() -> (acquirer: Self)
        ensures
            acquirer@ == (FocusAcquirerView { attempts: 0, acquired: false }),
    {
        FocusAcquirer { attempts: 0, acquired: false }
    }

    /// The number of attempts reported so far.
    pub fn attempts(&self) -> (count: u32)
        ensures
            count == self@.attempts,
            count <= MAX_FOCUS_ATTEMPTS,
    {
        proof {
            use_type_invariant(self);
        }
        self.attempts
    }

    /// Whether no further attempt is to be made.
    pub fn is_finished(&self) -> (finished: bool)
        ensures
            finished == self@.finished(),
    {
        self.acquired || self.attempts >= MAX_FOCUS_ATTEMPTS
    }

    /// Takes the outcome of an attempt (`focused`: the window held the
    /// focus afterwards) and says what follows. A success ends the
    /// acquisition at once. A failure is followed by a pause and another
    /// attempt, unless it was the last of `MAX_FOCUS_ATTEMPTS`. Once the
    /// acquisition has ended, further reports change nothing and receive
    /// the verdict that ended it.
    pub fn record(&mut self, focused: bool) -> (verdict: FocusVerdict)
        ensures
            final(self)@ == old(self)@.recorded(focused),
            verdict == old(self)@.verdict(focused),
            verdict is Retry <==> !final(self)@.finished(),
    {
        proof {
            use_type_invariant(&*self);
        }
        if self.acquired {
            FocusVerdict::Acquired
        } else if self.attempts >= MAX_FOCUS_ATTEMPTS {
            FocusVerdict::Unobtainable
        } else {
            self.attempts = self.attempts + 1;
            self.acquired = focused;
            if focused {
                FocusVerdict::Acquired
            } else if self.attempts < MAX_FOCUS_ATTEMPTS {
                FocusVerdict::Retry { backoff_millis: FOCUS_BACKOFF_MILLIS }
            } else {
                FocusVerdict::Unobtainable
            }
        }
    }

    /// The result of an acquisition that has ended: success, or the error
    /// that every attempt failed. `None` while attempts remain.
    pub fn result(&self) -> (result: Option<Result<(), FocusError>>)
        ensures
            result == (if !self@.finished() {
                None
            } else if self@.acquired {
                Some(Ok::<(), FocusError>(()))
            } else {
                Some(Err::<(), FocusError>(FocusError::Unobtainable))
            }),
    {
        if self.acquired {
            Some(Ok(()))
        } else if self.attempts >= MAX_FOCUS_ATTEMPTS {
            Some(Err(FocusError::Unobtainable))
        } else {
            None
        }
    }
}

/// However the attempts turn out, an acquisition reports on at most
/// `MAX_FOCUS_ATTEMPTS` of them. Where it succeeded, the attempt counted
/// last is the first that succeeded, and none was made after it. Where it
/// has not succeeded, every attempt counted has failed; so it ends as
/// unobtainable only when `MAX_FOCUS_ATTEMPTS` attempts have all failed.
pub proof fn lemma_attempts_made(outcomes: Seq<bool>)
    ensures
        ({
            let end = (FocusAcquirerView { attempts: 0, acquired: false }).recorded_all(outcomes);
            &&& end.attempts <= MAX_FOCUS_ATTEMPTS
            &&& end.attempts <= outcomes.len()
            &&& forall|i: int| 0 <= i < end.attempts - 1 ==> !outcomes[i]
            &&& end.acquired ==> end.attempts > 0 && outcomes[end.attempts - 1]
            &&& !end.acquired ==> (forall|i: int| 0 <= i < end.attempts ==> !outcomes[i])
                && (end.attempts == outcomes.len() || end.attempts == MAX_FOCUS_ATTEMPTS)
        }),
    decreases outcomes.len(),
{
    if outcomes.len() > 0 {
        let start = FocusAcquirerView { attempts: 0, acquired: false };
        let earlier = outcomes.drop_last();
        let before = start.recorded_all(earlier);
        lemma_attempts_made(earlier);
        assert(start.recorded_all(outcomes) == before.recorded(outcomes.last()));
        assert forall|i: int| 0 <= i < earlier.len() implies earlier[i] == outcomes[i] by {}
        if !before.finished() {
            assert(before.attempts == earlier.len());
            assert(outcomes[before.attempts as int] == outcomes.last());
        }
    }
}

/// Once an acquisition has ended, whatever is reported to it changes
/// nothing, and it never asks for another attempt.
pub proof fn lemma_finished_stays(acquirer: FocusAcquirerView, focused: bool)
    requires
        acquirer.finished(),
    ensures
        acquirer.recorded(focused) == acquirer,
        !(acquirer.verdict(focused) is Retry),
        acquirer.verdict(focused) == acquirer.last_verdict(),
{
}

/// Whether a window other than `target` holds the foreground, so that its
/// thread has to be looked up before focus is requested. A handle of zero
/// means that no window holds it.
pub fn foreground_is_foreign(foreground: isize, target: isize) -> (foreign: bool)
    ensures
        foreign == (foreground != 0 && foreground != target),
{
    foreground != 0 && foreground != target
}

/// Whether the calling thread has to attach its input to that of the thread
/// that owns the foreground window: only when the two differ.
pub fn needs_input_attachment(foreground_thread: u32, current_thread: u32) -> (needed: bool)
    ensures
        needed == (foreground_thread != current_thread),
{
    foreground_thread != current_thread
}

/// Whether an attempt succeeded: the window read back as holding the
/// foreground is the one that was asked for.
pub fn focus_confirmed(foreground: isize, target: isize) -> (confirmed: bool)
    ensures
        confirmed == (foreground == target),
{
    foreground == target
}

} // verus!
