//! The capture controller: the lifecycle of one device, its viewer count, and
//! what the read loop does after each read.

use vstd::prelude::*;

verus! {

/// The two devices the system shares.
#[derive(Clone, Copy, Debug, PartialEq, Eq, Structural)]
pub enum ResourceKind {
    Video,
    Audio,
}

/// Where a capture resource stands.
#[derive(Clone, Copy, Debug, PartialEq, Eq, Structural)]
pub enum CaptureState {
    /// No viewer, no device.
    Idle,
    /// A first viewer arrived; the device is being opened.
    Opening,
    /// The device is open and the read loop runs.
    Streaming,
    /// The last viewer left; the device is being released.
    Closing,
}

/// What an `acquire` asks of the caller.
#[derive(Clone, Copy, Debug, PartialEq, Eq, Structural)]
pub enum Acquired {
    /// First viewer: open the device of this index, then report how it went.
    OpenDevice(i32),
    /// The device is held already, open or about to be: nothing to do.
    Joined,
}

/// What a `release` asks of the caller.
#[derive(Clone, Copy, Debug, PartialEq, Eq, Structural)]
pub enum Released {
    /// Other viewers remain.
    Remaining,
    /// Last viewer of a running stream: stop the loop and release the device.
    CloseDevice,
    /// Last viewer left while the device was still being opened.
    Abandoned,
    /// No viewer was counted: nothing changed.
    NotHeld,
}

/// How the report of an open attempt was taken.
#[derive(Clone, Copy, Debug, PartialEq, Eq, Structural)]
pub enum Opened {
    /// The stream runs: start the read loop.
    Started,
    /// The open failed: every viewer was uncounted and the resource is idle.
    RolledBack,
    /// Nobody waits for this device any more: release it.
    CloseNow,
    /// A failed open that nobody waited for: the resource is idle.
    Dropped,
    /// The report matches no open attempt: nothing changed.
    Ignored,
}

/// What the report that the device was released asks of the caller.
#[derive(Clone, Copy, Debug, PartialEq, Eq, Structural)]
pub enum AfterClose {
    /// Nothing: nobody views.
    Rest,
    /// Viewers came back while the device was released: open it again, then
    /// report how it went.
    Reopen(i32),
}

/// What the read loop does next.
#[derive(Clone, Copy, Debug, PartialEq, Eq, Structural)]
pub enum LoopDirective {
    /// A good read: publish it and go on.
    Publish,
    /// A failed read under the threshold: go on.
    Continue,
    /// The threshold is reached: close and reopen the device once.
    Reinitialize,
    /// The resource no longer streams: leave the loop and release the device.
    Stop,
    /// The reopen failed: leave the loop; the viewers were told and uncounted.
    Abort,
}

/// Consecutive failed reads after which the device is reopened.
pub const MAX_FAILURES: u32 = 3;

/// The controller as a plain value.
pub struct CaptureModel {
    pub kind: ResourceKind,
    pub state: CaptureState,
    pub refcount: nat,
    pub failures: nat,
    pub index: Option<i32>,
    /// Whether an open attempt is under way whose report has not come.
    pub open_pending: bool,
}

impl CaptureModel {
    /// A fresh resource: idle, with no viewer.
    pub open spec fn idle(kind: ResourceKind) -> CaptureModel {
        CaptureModel {
            kind,
            state: CaptureState::Idle,
            refcount: 0,
            failures: 0,
            index: None,
            open_pending: false,
        }
    }

    /// Whether the resource holds, or is about to hold, the device for viewers.
    pub open spec fn engaged(self) -> bool {
        self.state is Opening || self.state is Streaming
    }

    /// The invariant of a capture resource.
    pub open spec fn wf(self) -> bool {
        &&& self.refcount > 0 <==> self.engaged()
        &&& self.failures <= MAX_FAILURES
        &&& !(self.state is Streaming) ==> self.failures == 0
        &&& self.state is Idle <==> self.index is None
        &&& self.state is Opening ==> self.open_pending
        &&& self.state is Streaming || self.state is Idle ==> !self.open_pending
    }

    /// One more viewer. The first one has the device opened. One that comes
    /// while the device is being released takes the resource back: to the
    /// stream that ran, or to the open attempt that is under way.
    pub open spec fn acquire(self, index: i32) -> (CaptureModel, Acquired) {
        match self.state {
            CaptureState::Idle => (
                CaptureModel {
                    state: CaptureState::Opening,
                    refcount: 1,
                    failures: 0,
                    index: Some(index),
                    open_pending: true,
                    ..self
                },
                Acquired::OpenDevice(index),
            ),
            CaptureState::Opening | CaptureState::Streaming => (
                CaptureModel { refcount: self.refcount + 1, ..self },
                Acquired::Joined,
            ),
            CaptureState::Closing => (
                CaptureModel {
                    state: if self.open_pending {
                        CaptureState::Opening
                    } else {
                        CaptureState::Streaming
                    },
                    refcount: 1,
                    failures: 0,
                    ..self
                },
                Acquired::Joined,
            ),
        }
    }

    pub open spec fn release(self) -> (CaptureModel, Released) {
        if !self.engaged() || self.refcount == 0 {
            (self, Released::NotHeld)
        } else if self.refcount > 1 {
            (CaptureModel { refcount: (self.refcount - 1) as nat, ..self }, Released::Remaining)
        } else {
            (
                CaptureModel { state: CaptureState::Closing, refcount: 0, failures: 0, ..self },
                if self.state is Streaming {
                    Released::CloseDevice
                } else {
                    Released::Abandoned
                },
            )
        }
    }

    /// The report of an open attempt. It counts only while an attempt is under
    /// way; a device that comes unasked is to be released.
    pub open spec fn open_finished(self, ok: bool) -> (CaptureModel, Opened) {
        if !self.open_pending {
            (
                self,
                if ok {
                    Opened::CloseNow
                } else {
                    Opened::Ignored
                },
            )
        } else if self.state is Opening {
            if ok {
                (
                    CaptureModel {
                        state: CaptureState::Streaming,
                        failures: 0,
                        open_pending: false,
                        ..self
                    },
                    Opened::Started,
                )
            } else {
                (CaptureModel::idle(self.kind), Opened::RolledBack)
            }
        } else if ok {
            (CaptureModel { open_pending: false, ..self }, Opened::CloseNow)
        } else {
            (CaptureModel::idle(self.kind), Opened::Dropped)
        }
    }

    /// The report that the device was released. Where viewers came back in
    /// the meantime, the device is to be opened again.
    pub open spec fn closed(self) -> (CaptureModel, AfterClose) {
        match (self.state, self.index) {
            (CaptureState::Closing, _) if !self.open_pending => (
                CaptureModel::idle(self.kind),
                AfterClose::Rest,
            ),
            (CaptureState::Streaming, Some(index)) => (
                CaptureModel {
                    state: CaptureState::Opening,
                    failures: 0,
                    open_pending: true,
                    ..self
                },
                AfterClose::Reopen(index),
            ),
            _ => (self, AfterClose::Rest),
        }
    }

    /// After one read: `good` says that it gave a frame that is not empty.
    pub open spec fn read_finished(self, good: bool) -> (CaptureModel, LoopDirective) {
        if !(self.state is Streaming) {
            (self, LoopDirective::Stop)
        } else if good {
            (CaptureModel { failures: 0, ..self }, LoopDirective::Publish)
        } else if self.failures + 1 >= MAX_FAILURES {
            (CaptureModel { failures: MAX_FAILURES as nat, ..self }, LoopDirective::Reinitialize)
        } else {
            (CaptureModel { failures: self.failures + 1, ..self }, LoopDirective::Continue)
        }
    }

    /// After the one reopen that a `Reinitialize` asked for.
    pub open spec fn reinit_finished(self, ok: bool) -> (CaptureModel, LoopDirective) {
        if !(self.state is Streaming) {
            (self, LoopDirective::Stop)
        } else if ok {
            (CaptureModel { failures: 0, ..self }, LoopDirective::Continue)
        } else {
            (CaptureModel::idle(self.kind), LoopDirective::Abort)
        }
    }
}

impl CaptureModel {
    /// Every transition keeps the invariant.
    pub proof fn lemma_transitions_keep_wf(self, index: i32, flag: bool)
        requires
            self.wf(),
        ensures
            CaptureModel::idle(self.kind).wf(),
            self.acquire(index).0.wf(),
            self.release().0.wf(),
            self.open_finished(flag).0.wf(),
            self.closed().0.wf(),
            self.read_finished(flag).0.wf(),
            self.reinit_finished(flag).0.wf(),
    {
    }
}

/// The controller of one capture resource.
#[derive(Clone, Copy, Debug)]
pub struct CaptureController {
    kind: ResourceKind,
    state: CaptureState,
    refcount: usize,
    failures: u32,
    index: Option<i32>,
    open_pending: bool,
}

impl View for CaptureController {
    type V = CaptureModel;

    closed spec fn view(&self) -> CaptureModel {
        CaptureModel {
            kind: self.kind,
            state: self.state,
            refcount: self.refcount as nat,
            failures: self.failures as nat,
            index: self.index,
            open_pending: self.open_pending,
        }
    }
}

impl CaptureController {
    #[verifier::type_invariant]
    spec fn well_formed(self) -> bool {
        self@.wf()
    }

    /// An idle controller for a device kind.
    pub fn new(kind: ResourceKind) -> (controller: CaptureController)
        ensures
            controller@ == CaptureModel::idle(kind),
    {
        CaptureController {
            kind,
            state: CaptureState::Idle,
            refcount: 0,
            failures: 0,
            index: None,
            open_pending: false,
        }
    }

    pub fn kind(&self) -> (kind: ResourceKind)
        ensures
            kind == self@.kind,
    {
        self.kind
    }

    /// The state of the resource; the invariant holds of every controller.
    pub fn state(&self) -> (state: CaptureState)
        ensures
            state == self@.state,
            self@.wf(),
    {
        proof {
            use_type_invariant(self);
        }
        self.state
    }

    /// The number of viewers counted.
    pub fn refcount(&self) -> (count: usize)
        ensures
            count == self@.refcount,
            self@.wf(),
    {
        proof {
            use_type_invariant(self);
        }
        self.refcount
    }

    /// The failed reads in a row so far.
    pub fn failures(&self) -> (count: u32)
        ensures
            count == self@.failures,
    {
        self.failures
    }

    /// The index of the device that is held, if one is.
    pub fn index(&self) -> (index: Option<i32>)
        ensures
            index == self@.index,
    {
        self.index
    }

    /// Counts one more viewer. The first one has the device opened. One that
    /// comes while the device is being released takes the resource back, to
    /// the stream that ran or to the open attempt that is under way.
    pub fn acquire(&mut self, index: i32) -> (outcome: Acquired)
        requires
            old(self)@.refcount < usize::MAX,
        ensures
            final(self)@ == old(self)@.acquire(index).0,
            outcome == old(self)@.acquire(index).1,
    {
        proof {
            use_type_invariant(&*self);
        }
        match self.state {
            CaptureState::Idle => {
                *self = CaptureController {
                    state: CaptureState::Opening,
                    refcount: 1,
                    failures: 0,
                    index: Some(index),
                    open_pending: true,
                    ..*self
                };
                Acquired::OpenDevice(index)
            },
            CaptureState::Opening | CaptureState::Streaming => {
                *self = CaptureController { refcount: self.refcount + 1, ..*self };
                Acquired::Joined
            },
            CaptureState::Closing => {
                let state = if self.open_pending {
                    CaptureState::Opening
                } else {
                    CaptureState::Streaming
                };
                *self = CaptureController { state, refcount: 1, failures: 0, ..*self };
                Acquired::Joined
            },
        }
    }

    /// Uncounts one viewer. When the last one leaves, the resource goes to
    /// `Closing` and the caller is told whether a running device is to be released.
    pub fn release(&mut self) -> (outcome: Released)
        ensures
            final(self)@ == old(self)@.release().0,
            outcome == old(self)@.release().1,
    {
        proof {
            use_type_invariant(&*self);
        }
        let engaged = match self.state {
            CaptureState::Opening | CaptureState::Streaming => true,
            _ => false,
        };
        if !engaged || self.refcount == 0 {
            Released::NotHeld
        } else if self.refcount > 1 {
            *self = CaptureController { refcount: self.refcount - 1, ..*self };
            Released::Remaining
        } else {
            let outcome = match self.state {
                CaptureState::Streaming => Released::CloseDevice,
                _ => Released::Abandoned,
            };
            *self = CaptureController {
                state: CaptureState::Closing,
                refcount: 0,
                failures: 0,
                ..*self
            };
            outcome
        }
    }

    /// Takes the report of an open attempt.
    pub fn open_finished(&mut self, ok: bool) -> (outcome: Opened)
        ensures
            final(self)@ == old(self)@.open_finished(ok).0,
            outcome == old(self)@.open_finished(ok).1,
    {
        proof {
            use_type_invariant(&*self);
        }
        if !self.open_pending {
            return if ok {
                Opened::CloseNow
            } else {
                Opened::Ignored
            };
        }
        match self.state {
            CaptureState::Opening => {
                if ok {
                    *self = CaptureController {
                        state: CaptureState::Streaming,
                        failures: 0,
                        open_pending: false,
                        ..*self
                    };
                    Opened::Started
                } else {
                    *self = CaptureController::new(self.kind);
                    Opened::RolledBack
                }
            },
            _ => {
                if ok {
                    *self = CaptureController { open_pending: false, ..*self };
                    Opened::CloseNow
                } else {
                    *self = CaptureController::new(self.kind);
                    Opened::Dropped
                }
            },
        }
    }

    /// Takes the report that the device was released, and says whether it is
    /// to be opened again for viewers that came back in the meantime.
    pub fn closed(&mut self) -> (next: AfterClose)
        ensures
            final(self)@ == old(self)@.closed().0,
            next == old(self)@.closed().1,
    {
        proof {
            use_type_invariant(&*self);
        }
        match (self.state, self.index) {
            (CaptureState::Closing, _) => {
                if !self.open_pending {
                    *self = CaptureController::new(self.kind);
                }
                AfterClose::Rest
            },
            (CaptureState::Streaming, Some(index)) => {
                *self = CaptureController {
                    state: CaptureState::Opening,
                    failures: 0,
                    open_pending: true,
                    ..*self
                };
                AfterClose::Reopen(index)
            },
            _ => AfterClose::Rest,
        }
    }

    /// Takes the outcome of one read and says what the loop does next.
    pub fn read_finished(&mut self, good: bool) -> (directive: LoopDirective)
        ensures
            final(self)@ == old(self)@.read_finished(good).0,
            directive == old(self)@.read_finished(good).1,
    {
        proof {
            use_type_invariant(&*self);
        }
        match self.state {
            CaptureState::Streaming => {},
            _ => {
                return LoopDirective::Stop;
            },
        }
        if good {
            *self = CaptureController { failures: 0, ..*self };
            LoopDirective::Publish
        } else if self.failures + 1 >= MAX_FAILURES {
            *self = CaptureController { failures: MAX_FAILURES, ..*self };
            LoopDirective::Reinitialize
        } else {
            *self = CaptureController { failures: self.failures + 1, ..*self };
            LoopDirective::Continue
        }
    }

    /// Takes the outcome of the reopen that a `Reinitialize` asked for.
    pub fn reinit_finished(&mut self, ok: bool) -> (directive: LoopDirective)
        ensures
            final(self)@ == old(self)@.reinit_finished(ok).0,
            directive == old(self)@.reinit_finished(ok).1,
    {
        proof {
            use_type_invariant(&*self);
        }
        match self.state {
            CaptureState::Streaming => {},
            _ => {
                return LoopDirective::Stop;
            },
        }
        if ok {
            *self = CaptureController { failures: 0, ..*self };
            LoopDirective::Continue
        } else {
            *self = CaptureController::new(self.kind);
            LoopDirective::Abort
        }
    }
}

impl CaptureModel {
    /// The resource after `n` failed reads in a row.
    pub open spec fn after_failed_reads(self, n: nat) -> CaptureModel
        decreases n,
    {
        if n == 0 {
            self
        } else {
            self.after_failed_reads((n - 1) as nat).read_finished(false).0
        }
    }

    /// While a stream runs, failed reads in a row only move the counter, up to
    /// the threshold, and a failed read asks for a reopen exactly when it is the
    /// one that brings the counter there.
    pub proof fn law_failures_count_to_threshold(self, n: nat)
        requires
            self.wf(),
            self.state is Streaming,
        ensures
            self.after_failed_reads(n) == (CaptureModel {
                failures: if self.failures + n <= MAX_FAILURES {
                    self.failures + n
                } else {
                    MAX_FAILURES as nat
                },
                ..self
            }),
            self.after_failed_reads(n).read_finished(false).1 == (if self.failures + n + 1
                >= MAX_FAILURES {
                LoopDirective::Reinitialize
            } else {
                LoopDirective::Continue
            }),
        decreases n,
    {
        if n > 0 {
            self.law_failures_count_to_threshold((n - 1) as nat);
        }
    }

    /// Recovery: from a clean stream the first two failed reads are passed over,
    /// the third asks for one reopen, and when that reopen works and the read
    /// after it is good, the stream is where it was, with the counter at 0.
    pub proof fn law_recovery(self)
        requires
            self.wf(),
            self.state is Streaming,
            self.failures == 0,
        ensures
            ({
                let (s1, d1) = self.read_finished(false);
                let (s2, d2) = s1.read_finished(false);
                let (s3, d3) = s2.read_finished(false);
                let (s4, d4) = s3.reinit_finished(true);
                let (s5, d5) = s4.read_finished(true);
                &&& d1 == LoopDirective::Continue
                &&& d2 == LoopDirective::Continue
                &&& d3 == LoopDirective::Reinitialize
                &&& d4 == LoopDirective::Continue
                &&& s4 == self
                &&& d5 == LoopDirective::Publish
                &&& s5 == self
            }),
    {
    }

    /// A reopen that fails ends the stream: the resource is idle with no viewer
    /// counted, whatever the count was.
    pub proof fn law_failed_reopen_ends_stream(self)
        requires
            self.wf(),
            self.state is Streaming,
        ensures
            self.reinit_finished(false).1 == LoopDirective::Abort,
            self.reinit_finished(false).0 == CaptureModel::idle(self.kind),
    {
    }
}

} // verus!
