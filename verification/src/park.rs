//! The Park state machine: ready/wait coordination, timeout arming,
//! cancellation interplay and delayed-teardown fencing.
//!
//! One instance serves one blocking operation at a time. Exactly one coroutine
//! is ever the registered consumer of an instance; any number of producers may
//! call `unpark`. The state word packs two things: bit 0 ("ready") records a
//! pending, unconsumed wake; bit 1 ("fence") marks that a kernel-side
//! registration round is still open, so the instance may not be reused or torn
//! down yet. The fence is advanced by a fixed step of 2 once when a round's
//! registration completes and once more when the resumed coroutine has fully
//! left the running state, which toggles bit 1 open and then closed again.
//!
//! The scheduler, the timer service and the cancellation token are external
//! collaborators. Every operation here is a state transition that returns the
//! action the caller must perform on them: run or enqueue a continuation, arm
//! or delete a timer, link or deliver cancellation, or keep yielding until the
//! fence closes. Each executable transition is pinned to a spec-level
//! transition function (`spec_unpark`, `spec_subscribe_finish`, ...), and the
//! laws at the bottom of this module are proved over those functions.

use vstd::prelude::*;

verus! {

/// Recoverable outcomes of a wait: the deadline elapsed before any wake, or
/// cancellation was observed.
#[derive(Debug, Copy, Clone, Eq, PartialEq, Structural)]
pub enum ParkError {
    Canceled,
    Timeout,
}

/// A coroutine continuation, identified to this state machine by an opaque id;
/// running or scheduling it is the caller's job.
#[derive(Debug, Copy, Clone, Eq, PartialEq, Structural)]
pub struct Continuation {
    pub id: u64,
}

/// An owned handle to a timer registered with the external timer service.
/// `linked` records whether the entry is still linked into the service's
/// queue; an expired timer is already unlinked and safe to discard.
#[derive(Debug, Copy, Clone, Eq, PartialEq, Structural)]
pub struct TimerHandle {
    pub id: u64,
    pub linked: bool,
}

/// What a producer-side wake must do with the continuation it took out of the
/// wait slot: nothing was registered, run it inline on the current call stack,
/// or hand it to the scheduler's run queue.
#[derive(Debug, Copy, Clone, Eq, PartialEq, Structural)]
pub enum WakeAction {
    Nothing,
    Run(Continuation),
    Schedule(Continuation),
}

/// How a wait attempt begins: the pending wake was consumed and no suspension
/// happens; a previous round's fence is still open, so the caller must keep
/// yielding until [`Park::kernel_fence_open`] reports it closed before
/// suspending; or the caller may suspend right away.
#[derive(Debug, Copy, Clone, Eq, PartialEq, Structural)]
pub enum ParkBegin {
    Ready,
    WaitFence,
    Suspend,
}

/// What the scheduler must do after registering a continuation: a wake was
/// already pending, so the just-installed continuation must be woken inline at
/// once; or the cancellation token must be linked to the wait slot, delivering
/// cancellation immediately when the token was already canceled.
#[derive(Debug, Copy, Clone, Eq, PartialEq, Structural)]
pub enum SubscribeAction {
    WakeInline(Continuation),
    LinkCancel { deliver: bool },
}

/// The side-channel payload a resumed coroutine finds: the wake came from
/// timer expiry, or from a delivered cancellation. No payload means a genuine
/// producer wake. Any other payload would be a programming defect, which this
/// type leaves unrepresentable.
#[derive(Debug, Copy, Clone, Eq, PartialEq, Structural)]
pub enum ResumeKind {
    TimedOut,
    Canceled,
}

/// The classified outcome of a finished wait, plus the timer handle that the
/// caller must still delete from the timer service (present only when a timer
/// was armed and is still linked; an expired timer is already unlinked and was
/// discarded here).
#[derive(Debug, Copy, Clone, Eq, PartialEq)]
pub struct ParkFinish {
    pub result: Result<(), ParkError>,
    pub timer_to_delete: Option<TimerHandle>,
}

/// Bit 0 of the state word: a wake is pending and has not been consumed.
pub open spec fn ready_bit(s: u64) -> bool {
    s & 1 == 1
}

/// Bit 1 of the state word: a kernel-side registration round is open.
pub open spec fn fence_bit(s: u64) -> bool {
    s & 2 == 2
}

/// The state word after one fence step: an addition of 2 that wraps around at
/// the top of the 64-bit range. Wraparound takes on the order of 2^63
/// suspension rounds and is an accepted non-issue; the arithmetic simply wraps.
pub open spec fn fence_stepped(s: u64) -> u64 {
    if s <= 0xffff_ffff_ffff_fffd {
        (s + 2) as u64
    } else {
        (s - 0xffff_ffff_ffff_fffe) as u64
    }
}

/// A fence step never touches the ready bit and always toggles the fence bit.
proof fn lemma_fence_step_bits(s: u64)
    ensures
        ready_bit(fence_stepped(s)) == ready_bit(s),
        fence_bit(fence_stepped(s)) == !fence_bit(s),
{
    assert(ready_bit(fence_stepped(s)) == ready_bit(s) && fence_bit(fence_stepped(s))
        == !fence_bit(s)) by (bit_vector);
}

/// Setting the ready bit: an even word is below the maximum, so adding 1 is
/// safe; it sets bit 0 and leaves bit 1 alone.
proof fn lemma_set_ready(s: u64)
    requires
        !ready_bit(s),
    ensures
        s < 0xffff_ffff_ffff_ffff,
        ready_bit((s + 1) as u64),
        fence_bit((s + 1) as u64) == fence_bit(s),
{
    assert(s & 1 != 1 ==> s < 0xffff_ffff_ffff_ffff && (s + 1) as u64 & 1 == 1 && ((s
        + 1) as u64 & 2 == 2) == (s & 2 == 2)) by (bit_vector);
}

/// Consuming the ready bit: an odd word is at least 1, and subtracting 1
/// clears bit 0 and leaves bit 1 alone.
proof fn lemma_clear_ready(s: u64)
    requires
        ready_bit(s),
    ensures
        s >= 1,
        !ready_bit((s - 1) as u64),
        fence_bit((s - 1) as u64) == fence_bit(s),
{
    assert(s & 1 == 1 ==> s >= 1 && (s - 1) as u64 & 1 != 1 && ((s - 1) as u64 & 2 == 2) == (s & 2
        == 2)) by (bit_vector);
}

/// Masking bit 1 away clears the fence bit and leaves the ready bit alone.
proof fn lemma_clear_fence(s: u64)
    ensures
        ready_bit(s & 0xffff_ffff_ffff_fffd) == ready_bit(s),
        !fence_bit(s & 0xffff_ffff_ffff_fffd),
{
    assert((s & 0xffff_ffff_ffff_fffd & 1 == 1) == (s & 1 == 1) && s & 0xffff_ffff_ffff_fffd & 2
        != 2) by (bit_vector);
}

/// The Park suspend/wake state machine. One instance per blocking operation,
/// owned by the waiting coroutine but referenced by producers for the
/// duration of the wait.
#[derive(Debug)]
pub struct Park {
    /// Single-item hand-off cell: the continuation of the one waiting
    /// coroutine, taken by whichever producer wins the wake race.
    pub wait_co: Option<Continuation>,
    /// Packed state word; see [`ready_bit`] and [`fence_bit`].
    pub state: u64,
    /// Whether cancellation is auto-observed and turned into an error.
    pub check_cancel: bool,
    /// Last-observed cancellation outcome for this wait.
    pub is_canceled: bool,
    /// Configured wait duration in milliseconds; 0 means wait indefinitely.
    pub timeout_ms: u64,
    /// Handle of the timer currently armed with the timer service, if any.
    pub timeout_handle: Option<TimerHandle>,
    /// Whether a kernel-visible registration round is currently open.
    pub wait_kernel: bool,
}

/// Installing a new timeout: the stored duration after, and the previous one
/// (0 reads back as "none").
pub open spec fn spec_set_timeout(p: Park, dur: Option<u64>) -> (Park, Option<u64>) {
    let ms = match dur {
        None => 0u64,
        Some(d) => d,
    };
    (
        Park { timeout_ms: ms, ..p },
        if p.timeout_ms == 0 {
            None
        } else {
            Some(p.timeout_ms)
        },
    )
}

/// Consuming the ready bit: when it is clear the caller must really park
/// (result true); when it is set it is consumed and no suspension is needed.
pub open spec fn spec_check_park(p: Park) -> (Park, bool) {
    if !ready_bit(p.state) {
        (p, true)
    } else {
        (Park { state: (p.state - 1) as u64, ..p }, false)
    }
}

/// Taking the wait slot: whatever continuation is registered leaves the slot,
/// to be run inline (`sync`) or handed to the scheduler's run queue.
pub open spec fn spec_wake_up(p: Park, sync: bool) -> (Park, WakeAction) {
    match p.wait_co {
        None => (p, WakeAction::Nothing),
        Some(co) => (
            Park { wait_co: None, ..p },
            if sync {
                WakeAction::Run(co)
            } else {
                WakeAction::Schedule(co)
            },
        ),
    }
}

/// A producer wake: when the ready bit is already set this is a no-op (the
/// flag is boolean, not a counter); otherwise the bit is set and the
/// registered continuation, if any, goes to the scheduler's run queue.
pub open spec fn spec_unpark(p: Park) -> (Park, WakeAction) {
    if ready_bit(p.state) {
        (p, WakeAction::Nothing)
    } else {
        spec_wake_up(Park { state: (p.state + 1) as u64, ..p }, false)
    }
}

/// Beginning a wait: install the duration, consume a pending wake if there is
/// one, and otherwise clear or wait out the previous round's fence before the
/// suspension may start.
pub open spec fn spec_park_begin(p: Park, dur: Option<u64>) -> (Park, ParkBegin) {
    let (p1, _prev) = spec_set_timeout(p, dur);
    let (p2, need_park) = spec_check_park(p1);
    if !need_park {
        (p2, ParkBegin::Ready)
    } else {
        let p3 = Park { wait_kernel: false, ..p2 };
        if p2.wait_kernel {
            if fence_bit(p2.state) {
                (p3, ParkBegin::WaitFence)
            } else {
                (p3, ParkBegin::Suspend)
            }
        } else {
            (Park { state: p3.state & 0xffff_ffff_ffff_fffd, ..p3 }, ParkBegin::Suspend)
        }
    }
}

/// Start of registration: the configured duration is taken out, to be armed
/// with the external timer service, keyed on the wait slot.
pub open spec fn spec_subscribe_begin(p: Park) -> (Park, Option<u64>) {
    spec_set_timeout(p, None)
}

/// End of registration: the fresh timer handle replaces any stale one, the
/// round is marked open, the continuation is published, and the ready bit is
/// re-checked. A wake that arrived since the wait began takes the continuation
/// straight back out for an inline wake; otherwise the cancellation token is
/// linked, delivering at once when it was already canceled. The fence advances
/// on every path, exactly once.
pub open spec fn spec_subscribe_finish(
    p: Park,
    co: Continuation,
    timer: Option<TimerHandle>,
    token_canceled: bool,
) -> (Park, SubscribeAction) {
    let p1 = Park { timeout_handle: timer, wait_kernel: true, wait_co: Some(co), ..p };
    if ready_bit(p1.state) {
        (
            Park { wait_co: None, state: fence_stepped(p1.state), ..p1 },
            SubscribeAction::WakeInline(co),
        )
    } else {
        (
            Park { state: fence_stepped(p1.state), ..p1 },
            SubscribeAction::LinkCancel { deliver: token_canceled },
        )
    }
}

/// Return from the suspension: the fence advances to the next generation, the
/// token's cancellation status is snapshotted, and the result says whether the
/// cancellation outcome must be raised to the caller context (only when
/// auto-observation is on).
pub open spec fn spec_yield_back(p: Park, token_canceled: bool) -> (Park, bool) {
    (
        Park { state: fence_stepped(p.state), is_canceled: token_canceled, ..p },
        p.check_cancel && token_canceled,
    )
}

/// Uninstalling the armed timer: the slot empties; a handle still linked into
/// the timer service must be deleted there by the caller, while one already
/// unlinked by natural expiry is just discarded.
pub open spec fn spec_remove_timeout_handle(p: Park) -> (Park, Option<TimerHandle>) {
    (
        Park { timeout_handle: None, ..p },
        match p.timeout_handle {
            Some(h) => if h.linked {
                Some(h)
            } else {
                None
            },
            None => None,
        },
    )
}

/// Finishing a wait after resumption: the ready bit is re-consumed, the timer
/// is uninstalled, and the outcome is classified. An observed cancellation
/// (with auto-observation on) yields `Canceled`; otherwise the side-channel
/// payload decides: timer expiry yields `Timeout`, a delivered cancellation
/// yields `Canceled`, and no payload means success.
pub open spec fn spec_park_finish(p: Park, resume: Option<ResumeKind>) -> (Park, ParkFinish) {
    let (p1, _consumed) = spec_check_park(p);
    let (p2, timer) = spec_remove_timeout_handle(p1);
    let result = if p2.check_cancel && p2.is_canceled {
        Err(ParkError::Canceled)
    } else {
        match resume {
            Some(ResumeKind::TimedOut) => Err(ParkError::Timeout),
            Some(ResumeKind::Canceled) => Err(ParkError::Canceled),
            None => Ok(()),
        }
    };
    (p2, ParkFinish { result, timer_to_delete: timer })
}

/// Teardown must wait while a registration round is open: the round flag is up
/// and the fence has not closed yet.
pub open spec fn teardown_blocked(p: Park) -> bool {
    p.wait_kernel && fence_bit(p.state)
}

impl Park {
    /// A fresh instance: ready bit and fence cleared, no timer armed.
    pub fn new() -> (p: Park)
        ensures
            p.wait_co is None,
            p.state == 0,
            p.check_cancel,
            !p.is_canceled,
            p.timeout_ms == 0,
            p.timeout_handle is None,
            !p.wait_kernel,
    {
        Park {
            wait_co: None,
            state: 0,
            check_cancel: true,
            is_canceled: false,
            timeout_ms: 0,
            timeout_handle: None,
            wait_kernel: false,
        }
    }

    /// Toggles whether a wait auto-fails on cancellation; when suppressed, the
    /// caller is responsible for polling the status itself.
    pub fn ignore_cancel(&mut self, ignore: bool)
        ensures
            *final(self) == (Park { check_cancel: !ignore, ..*old(self) }),
    {
        self.check_cancel = !ignore;
    }

    /// Installs a new timeout and returns the previous one.
    fn set_timeout(&mut self, dur: Option<u64>) -> (prev: Option<u64>)
        ensures
            (*final(self), prev) == spec_set_timeout(*old(self), dur),
    {
        let ms: u64 = match dur {
            None => 0,
            Some(d) => d,
        };
        let before: u64 = self.timeout_ms;
        self.timeout_ms = ms;
        if before == 0 {
            None
        } else {
            Some(before)
        }
    }

    /// Swaps the stored timer handle, returning the one it replaces.
    fn set_timeout_handle(&mut self, handle: Option<TimerHandle>) -> (prev: Option<TimerHandle>)
        ensures
            final(self).timeout_handle == handle,
            prev == old(self).timeout_handle,
            *final(self) == (Park { timeout_handle: handle, ..*old(self) }),
    {
        let before = self.timeout_handle;
        self.timeout_handle = handle;
        before
    }

    /// Consumes the ready bit; true means a real park is needed.
    fn check_park(&mut self) -> (need_park: bool)
        ensures
            (*final(self), need_park) == spec_check_park(*old(self)),
    {
        if self.state & 1 == 0 {
            return true;
        }
        proof {
            let s = self.state;
            assert(s & 1 == 1) by (bit_vector)
                requires
                    s & 1 != 0,
            ;
            lemma_clear_ready(self.state);
        }
        self.state = self.state - 1;
        false
    }

    /// Takes whatever continuation occupies the wait slot, for an inline run
    /// (`sync`) or for the scheduler's run queue.
    fn wake_up(&mut self, sync: bool) -> (act: WakeAction)
        ensures
            (*final(self), act) == spec_wake_up(*old(self), sync),
    {
        let taken = self.wait_co;
        self.wait_co = None;
        match taken {
            None => WakeAction::Nothing,
            Some(co) => if sync {
                WakeAction::Run(co)
            } else {
                WakeAction::Schedule(co)
            },
        }
    }

    /// Signals this instance ready. Callable by any number of producers; the
    /// flag is boolean, so repeated calls before the next wait collapse into
    /// one pending wake. On the set transition the registered continuation, if
    /// any, is returned for the scheduler's run queue — producers never run it
    /// on their own stack.
    pub fn unpark(&mut self) -> (act: WakeAction)
        ensures
            (*final(self), act) == spec_unpark(*old(self)),
    {
        if self.state & 1 == 1 {
            return WakeAction::Nothing;
        }
        proof {
            lemma_set_ready(self.state);
        }
        self.state = self.state + 1;
        self.wake_up(false)
    }

    /// Uninstalls the armed timer; the returned handle, if any, is still
    /// linked in the timer service and must be deleted there by the caller.
    fn remove_timeout_handle(&mut self) -> (to_delete: Option<TimerHandle>)
        ensures
            (*final(self), to_delete) == spec_remove_timeout_handle(*old(self)),
    {
        match self.set_timeout_handle(None) {
            Some(h) => if h.linked {
                Some(h)
            } else {
                None
            },
            None => None,
        }
    }

    /// Advances the fence by its fixed step of 2, toggling bit 1; the
    /// generation counter wraps at the top of the range, an accepted non-issue.
    fn fence_advance(&mut self)
        ensures
            *final(self) == (Park { state: fence_stepped(old(self).state), ..*old(self) }),
    {
        if self.state <= 0xffff_ffff_ffff_fffd {
            self.state = self.state + 2;
        } else {
            self.state = self.state - 0xffff_ffff_ffff_fffe;
        }
    }

    /// Begins a wait with the given duration in milliseconds (`None` or 0:
    /// wait indefinitely). `Ready` means a pending wake was consumed and the
    /// wait is already over, successfully. Otherwise the caller must suspend
    /// through `subscribe_begin`/`subscribe_finish` — after first yielding
    /// until [`Self::kernel_fence_open`] clears, when `WaitFence` says a stale
    /// round from a previous wait is still in flight.
    pub fn park_timeout_begin(&mut self, dur: Option<u64>) -> (r: ParkBegin)
        ensures
            (*final(self), r) == spec_park_begin(*old(self), dur),
    {
        self.set_timeout(dur);
        if !self.check_park() {
            return ParkBegin::Ready;
        }
        let was_kernel = self.wait_kernel;
        self.wait_kernel = false;
        if was_kernel {
            if self.state & 2 == 2 {
                ParkBegin::WaitFence
            } else {
                ParkBegin::Suspend
            }
        } else {
            self.state = self.state & 0xffff_ffff_ffff_fffd;
            ParkBegin::Suspend
        }
    }

    /// Whether the fence bit reads open; polled (with yields in between) while
    /// `WaitFence` or [`Self::teardown_must_wait`] demand waiting.
    pub fn kernel_fence_open(&self) -> (b: bool)
        ensures
            b == fence_bit(self.state),
    {
        self.state & 2 == 2
    }

    /// Start of registration, invoked by the scheduler once per suspension
    /// attempt: takes out the configured duration, which the caller must arm
    /// with the external timer service, keyed on the wait slot.
    pub fn subscribe_begin(&mut self) -> (dur: Option<u64>)
        ensures
            (*final(self), dur) == spec_subscribe_begin(*old(self)),
    {
        self.set_timeout(None)
    }

    /// End of registration: records the freshly armed timer handle (replacing
    /// any stale one), opens the round, publishes the continuation, and
    /// re-checks the ready bit. A wake that arrived since the wait began must
    /// be honoured at once — the action says to wake the continuation inline —
    /// and otherwise the caller must link the cancellation token to the wait
    /// slot, delivering cancellation immediately when `token_canceled` says
    /// the token already is. The fence advances exactly once on every path.
    pub fn subscribe_finish(
        &mut self,
        co: Continuation,
        timer: Option<TimerHandle>,
        token_canceled: bool,
    ) -> (act: SubscribeAction)
        ensures
            (*final(self), act) == spec_subscribe_finish(*old(self), co, timer, token_canceled),
    {
        self.set_timeout_handle(timer);
        self.wait_kernel = true;
        self.wait_co = Some(co);
        if self.state & 1 == 1 {
            // the taken continuation is provably the one just published
            let _ = self.wake_up(true);
            self.fence_advance();
            SubscribeAction::WakeInline(co)
        } else {
            self.fence_advance();
            SubscribeAction::LinkCancel { deliver: token_canceled }
        }
    }

    /// Invoked by the scheduler once the coroutine has fully left the running
    /// state for this round: advances the fence to the next generation and
    /// snapshots the token's cancellation status. The result says whether the
    /// cancellation outcome must be raised to the caller context, which
    /// happens only while auto-observation is on.
    pub fn yield_back(&mut self, token_canceled: bool) -> (raise: bool)
        ensures
            (*final(self), raise) == spec_yield_back(*old(self), token_canceled),
    {
        self.fence_advance();
        self.is_canceled = token_canceled;
        self.check_cancel && token_canceled
    }

    /// Finishes a wait after resumption: re-consumes the ready bit, uninstalls
    /// the timer, and classifies the outcome from the observed cancellation
    /// flag and the side-channel payload. The returned handle, if any, must
    /// still be deleted from the timer service.
    pub fn park_timeout_finish(&mut self, resume: Option<ResumeKind>) -> (r: ParkFinish)
        ensures
            (*final(self), r) == spec_park_finish(*old(self), resume),
    {
        self.check_park();
        let timer = self.remove_timeout_handle();
        let result = if self.check_cancel && self.is_canceled {
            Err(ParkError::Canceled)
        } else {
            match resume {
                Some(ResumeKind::TimedOut) => Err(ParkError::Timeout),
                Some(ResumeKind::Canceled) => Err(ParkError::Canceled),
                None => Ok(()),
            }
        };
        ParkFinish { result, timer_to_delete: timer }
    }

    /// Whether teardown must keep yielding: a registration round is open and
    /// its fence has not closed, so an in-flight completion may still touch
    /// the wait slot.
    pub fn teardown_must_wait(&self) -> (b: bool)
        ensures
            b == teardown_blocked(*self),
    {
        self.wait_kernel && self.state & 2 == 2
    }

    /// Final teardown, permitted only once no round is open: uninstalls the
    /// timer, returning the handle the caller must still delete from the timer
    /// service, if one is linked there.
    pub fn teardown(&mut self) -> (to_delete: Option<TimerHandle>)
        requires
            !teardown_blocked(*old(self)),
        ensures
            (*final(self), to_delete) == spec_remove_timeout_handle(*old(self)),
    {
        self.remove_timeout_handle()
    }
}

/// Whether a producer-side wake action hands `co` out for execution.
pub open spec fn wake_delivers(a: WakeAction, co: Continuation) -> bool {
    a == WakeAction::Run(co) || a == WakeAction::Schedule(co)
}

/// Whether a registration-side action hands `co` out for execution.
pub open spec fn subscribe_delivers(a: SubscribeAction, co: Continuation) -> bool {
    a == SubscribeAction::WakeInline(co)
}

/// Single-flag coalescing: a second `unpark` with no wait in between changes
/// nothing and wakes nobody; the one pending wake lets the next wait finish
/// without suspending, and the wait after that must really suspend.
pub proof fn lemma_unpark_coalesces(p: Park)
    requires
        !ready_bit(p.state),
    ensures
        ({
            let (p1, _a1) = spec_unpark(p);
            let (p2, a2) = spec_unpark(p1);
            let (p3, consumed_no_park) = spec_check_park(p2);
            &&& p2 == p1
            &&& a2 == WakeAction::Nothing
            &&& !consumed_no_park
            &&& spec_check_park(p3).1
        }),
{
    lemma_set_ready(p.state);
    let (p1, _a1) = spec_unpark(p);
    let (p2, _a2) = spec_unpark(p1);
    lemma_clear_ready(p2.state);
}

/// No lost wakeup: with the wait slot initially empty, for either order of
/// one consumer's registration and one producer's `unpark`, the continuation
/// is handed out for execution by exactly one of the two calls.
pub proof fn lemma_no_lost_wakeup(
    p: Park,
    co: Continuation,
    timer: Option<TimerHandle>,
    token_canceled: bool,
    unpark_first: bool,
)
    requires
        p.wait_co is None,
    ensures
        ({
            if unpark_first {
                let (p1, a_u) = spec_unpark(p);
                let (_p2, a_s) = spec_subscribe_finish(p1, co, timer, token_canceled);
                wake_delivers(a_u, co) != subscribe_delivers(a_s, co)
            } else {
                let (p1, a_s) = spec_subscribe_finish(p, co, timer, token_canceled);
                let (_p2, a_u) = spec_unpark(p1);
                wake_delivers(a_u, co) != subscribe_delivers(a_s, co)
            }
        }),
{
    if unpark_first {
        if !ready_bit(p.state) {
            lemma_set_ready(p.state);
        }
    } else {
        let (p1, _a_s) = spec_subscribe_finish(p, co, timer, token_canceled);
        lemma_fence_step_bits(p.state);
        if !ready_bit(p1.state) {
            lemma_set_ready(p1.state);
        }
    }
}

/// Timeout arming: beginning a wait with a non-zero duration leaves exactly
/// that duration to be armed with the timer service at registration time.
pub proof fn lemma_timer_armed(p: Park, d: u64)
    requires
        d != 0,
    ensures
        ({
            let (p1, _r) = spec_park_begin(p, Some(d));
            spec_subscribe_begin(p1).1 == Some(d)
        }),
{
}

/// Timeout classification: when no cancellation was observed, resumption with
/// the timed-out payload finishes the wait with `Timeout`.
pub proof fn lemma_timeout_classification(p: Park)
    requires
        !(p.check_cancel && p.is_canceled),
    ensures
        spec_park_finish(p, Some(ResumeKind::TimedOut)).1.result == Err::<(), ParkError>(
            ParkError::Timeout,
        ),
{
}

/// Cancellation observed: with auto-observation on, a cancellation seen on
/// return from the suspension makes the wait finish with `Canceled`, whatever
/// the side-channel payload says; and a token already canceled at
/// registration time has cancellation delivered immediately.
pub proof fn lemma_cancellation_observed(
    p: Park,
    co: Continuation,
    timer: Option<TimerHandle>,
    resume: Option<ResumeKind>,
)
    requires
        p.check_cancel,
    ensures
        spec_park_finish(spec_yield_back(p, true).0, resume).1.result == Err::<(), ParkError>(
            ParkError::Canceled,
        ),
        !ready_bit(p.state) ==> spec_subscribe_finish(p, co, timer, true).1 == (
        SubscribeAction::LinkCancel { deliver: true }),
{
    if !ready_bit(p.state) {
        lemma_fence_step_bits(p.state);
    }
}

/// Cancellation suppression: with auto-observation disabled, a canceled token
/// neither raises on return nor makes the wait fail; the observed status
/// remains queryable on the instance.
pub proof fn lemma_cancellation_suppressed(p: Park)
    requires
        !p.check_cancel,
    ensures
        ({
            let (p1, raise) = spec_yield_back(p, true);
            &&& !raise
            &&& p1.is_canceled
            &&& spec_park_finish(p1, None).1.result == Ok::<(), ParkError>(())
        }),
{
}

/// A new round only starts clean: whenever beginning a wait says the caller
/// may suspend at once, the previous round's fence reads closed, so no stale
/// in-flight completion can still reference the wait slot.
pub proof fn lemma_suspend_starts_fence_closed(p: Park, dur: Option<u64>)
    ensures
        ({
            let (p1, r) = spec_park_begin(p, dur);
            r == ParkBegin::Suspend ==> !fence_bit(p1.state)
        }),
{
    let (p1, _prev) = spec_set_timeout(p, dur);
    let (p2, _need) = spec_check_park(p1);
    lemma_clear_fence(p2.state);
}

/// Safe teardown under in-flight completion: finishing a registration opens
/// the round and blocks teardown until the resumed side advances the fence;
/// once it has, teardown is permitted again.
pub proof fn lemma_teardown_fencing(
    p: Park,
    co: Continuation,
    timer: Option<TimerHandle>,
    token_canceled: bool,
    return_canceled: bool,
)
    requires
        !fence_bit(p.state),
    ensures
        ({
            let (p1, _a) = spec_subscribe_finish(p, co, timer, token_canceled);
            let (p2, _raise) = spec_yield_back(p1, return_canceled);
            &&& teardown_blocked(p1)
            &&& !teardown_blocked(p2)
        }),
{
    lemma_fence_step_bits(p.state);
    let (p1, _a) = spec_subscribe_finish(p, co, timer, token_canceled);
    lemma_fence_step_bits(p1.state);
}

} // verus!
