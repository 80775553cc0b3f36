//! The viewer registry: who views the resource. A change of the viewer set and
//! the matching step of the capture controller are one step here.

use vstd::prelude::*;
use std::collections::HashSet;
use crate::capture::Acquired;
use crate::capture::AfterClose;
use crate::capture::CaptureController;
use crate::capture::CaptureModel;
use crate::capture::CaptureState;
use crate::capture::LoopDirective;
use crate::capture::Opened;
use crate::capture::Released;
use crate::capture::ResourceKind;

verus! {

/// What adding a viewer came to.
#[derive(Clone, Copy, Debug, PartialEq, Eq, Structural)]
pub enum Added {
    /// First viewer: open the device of this index, then report how it went.
    OpenDevice(i32),
    /// Joined the stream that runs, is being opened, or was about to end.
    Joined,
    /// The viewer was in the set already: nothing changed.
    AlreadyViewing,
}

/// The registry as a plain value.
pub struct RegistryModel {
    pub viewers: Set<u128>,
    pub capture: CaptureModel,
}

impl RegistryModel {
    pub open spec fn idle(kind: ResourceKind) -> RegistryModel {
        RegistryModel { viewers: Set::empty(), capture: CaptureModel::idle(kind) }
    }

    /// The viewer count is the controller's count, and the controller is sound.
    pub open spec fn wf(self) -> bool {
        &&& self.viewers.finite()
        &&& self.viewers.len() == self.capture.refcount
        &&& self.capture.wf()
    }

    /// A viewer is added and counted; one that is in the set changes nothing.
    pub open spec fn add(self, id: u128, index: i32) -> (RegistryModel, Added) {
        if self.viewers.contains(id) {
            (self, Added::AlreadyViewing)
        } else {
            (
                RegistryModel {
                    viewers: self.viewers.insert(id),
                    capture: self.capture.acquire(index).0,
                },
                match self.capture.acquire(index).1 {
                    Acquired::Joined => Added::Joined,
                    Acquired::OpenDevice(n) => Added::OpenDevice(n),
                },
            )
        }
    }

    pub open spec fn remove(self, id: u128) -> (RegistryModel, Released) {
        if self.viewers.contains(id) {
            (
                RegistryModel {
                    viewers: self.viewers.remove(id),
                    capture: self.capture.release().0,
                },
                self.capture.release().1,
            )
        } else {
            (self, Released::NotHeld)
        }
    }

    /// The report of an open attempt. A failed open leaves no viewer.
    pub open spec fn open_finished(self, ok: bool) -> (RegistryModel, Opened) {
        let (capture, outcome) = self.capture.open_finished(ok);
        (
            RegistryModel {
                viewers: if outcome is RolledBack {
                    Set::empty()
                } else {
                    self.viewers
                },
                capture,
            },
            outcome,
        )
    }

    pub open spec fn closed(self) -> (RegistryModel, AfterClose) {
        (RegistryModel { capture: self.capture.closed().0, ..self }, self.capture.closed().1)
    }

    pub open spec fn read_finished(self, good: bool) -> (RegistryModel, LoopDirective) {
        (
            RegistryModel { capture: self.capture.read_finished(good).0, ..self },
            self.capture.read_finished(good).1,
        )
    }

    /// The report of a reopen. A failed reopen leaves no viewer.
    pub open spec fn reinit_finished(self, ok: bool) -> (RegistryModel, LoopDirective) {
        let (capture, directive) = self.capture.reinit_finished(ok);
        (
            RegistryModel {
                viewers: if directive is Abort {
                    Set::empty()
                } else {
                    self.viewers
                },
                capture,
            },
            directive,
        )
    }

    /// Every operation keeps the invariant.
    pub proof fn lemma_operations_keep_wf(self, id: u128, index: i32, flag: bool)
        requires
            self.wf(),
        ensures
            RegistryModel::idle(self.capture.kind).wf(),
            self.add(id, index).0.wf(),
            self.remove(id).0.wf(),
            self.open_finished(flag).0.wf(),
            self.closed().0.wf(),
            self.read_finished(flag).0.wf(),
            self.reinit_finished(flag).0.wf(),
    {
        self.capture.lemma_transitions_keep_wf(index, flag);
        if self.viewers.len() == 0 {
            assert(self.viewers =~= Set::<u128>::empty());
        }
    }

    /// The device is held for viewers exactly while there are viewers.
    pub proof fn law_engaged_iff_viewed(self)
        requires
            self.wf(),
        ensures
            self.capture.engaged() <==> self.viewers.len() > 0,
            self.capture.engaged() <==> exists|id: u128| self.viewers.contains(id),
    {
        if self.viewers.len() > 0 {
            assert(self.viewers.contains(self.viewers.choose()));
        } else {
            assert(self.viewers =~= Set::<u128>::empty());
        }
    }
}

/// The registry of one capture resource.
pub struct ViewerRegistry {
    viewers: HashSet<u128>,
    controller: CaptureController,
}

impl View for ViewerRegistry {
    type V = RegistryModel;

    closed spec fn view(&self) -> RegistryModel {
        RegistryModel { viewers: self.viewers@, capture: self.controller@ }
    }
}

impl ViewerRegistry {
    pub open spec fn wf(&self) -> bool {
        self@.wf()
    }

    /// A registry without viewers, over an idle resource.
    pub fn new(kind: ResourceKind) -> (registry: ViewerRegistry)
        ensures
            registry@ == RegistryModel::idle(kind),
            registry.wf(),
    {
        ViewerRegistry { viewers: HashSet::new(), controller: CaptureController::new(kind) }
    }

    /// The controller of the resource.
    pub fn controller(&self) -> (controller: &CaptureController)
        ensures
            controller@ == self@.capture,
    {
        &self.controller
    }

    pub fn state(&self) -> (state: CaptureState)
        ensures
            state == self@.capture.state,
    {
        self.controller.state()
    }

    pub fn viewer_count(&self) -> (count: usize)
        ensures
            count == self@.viewers.len(),
    {
        self.viewers.len()
    }

    pub fn is_viewer(&self, id: u128) -> (yes: bool)
        ensures
            yes == self@.viewers.contains(id),
    {
        self.viewers.contains(&id)
    }

    /// Adds a viewer and counts it, as one step.
    pub fn add(&mut self, id: u128, index: i32) -> (outcome: Added)
        requires
            old(self).wf(),
        ensures
            final(self).wf(),
            final(self)@ == old(self)@.add(id, index).0,
            outcome == old(self)@.add(id, index).1,
    {
        if self.viewers.contains(&id) {
            return Added::AlreadyViewing;
        }
        let _ = self.viewers.insert(id);
        let count = self.viewers.len();
        assert(old(self)@.viewers.len() + 1 == count);
        let acquired = self.controller.acquire(index);
        proof {
            old(self)@.lemma_operations_keep_wf(id, index, true);
        }
        match acquired {
            Acquired::OpenDevice(n) => Added::OpenDevice(n),
            Acquired::Joined => Added::Joined,
        }
    }

    /// Removes a viewer and uncounts it, as one step.
    pub fn remove(&mut self, id: u128) -> (outcome: Released)
        requires
            old(self).wf(),
        ensures
            final(self).wf(),
            final(self)@ == old(self)@.remove(id).0,
            outcome == old(self)@.remove(id).1,
    {
        if !self.viewers.contains(&id) {
            return Released::NotHeld;
        }
        let _ = self.viewers.remove(&id);
        proof {
            old(self)@.lemma_operations_keep_wf(id, 0, true);
        }
        self.controller.release()
    }

    /// Takes the report of an open attempt.
    pub fn open_finished(&mut self, ok: bool) -> (outcome: Opened)
        requires
            old(self).wf(),
        ensures
            final(self).wf(),
            final(self)@ == old(self)@.open_finished(ok).0,
            outcome == old(self)@.open_finished(ok).1,
    {
        let outcome = self.controller.open_finished(ok);
        match outcome {
            Opened::RolledBack => {
                self.viewers.clear();
            },
            _ => {},
        }
        proof {
            old(self)@.lemma_operations_keep_wf(0, 0, ok);
        }
        outcome
    }

    /// Takes the report that the device was released.
    pub fn closed(&mut self) -> (next: AfterClose)
        requires
            old(self).wf(),
        ensures
            final(self).wf(),
            final(self)@ == old(self)@.closed().0,
            next == old(self)@.closed().1,
    {
        let next = self.controller.closed();
        proof {
            old(self)@.lemma_operations_keep_wf(0, 0, true);
        }
        next
    }

    /// Takes the outcome of one read.
    pub fn read_finished(&mut self, good: bool) -> (directive: LoopDirective)
        requires
            old(self).wf(),
        ensures
            final(self).wf(),
            final(self)@ == old(self)@.read_finished(good).0,
            directive == old(self)@.read_finished(good).1,
    {
        let directive = self.controller.read_finished(good);
        proof {
            old(self)@.lemma_operations_keep_wf(0, 0, good);
        }
        directive
    }

    /// Takes the outcome of a reopen.
    pub fn reinit_finished(&mut self, ok: bool) -> (directive: LoopDirective)
        requires
            old(self).wf(),
        ensures
            final(self).wf(),
            final(self)@ == old(self)@.reinit_finished(ok).0,
            directive == old(self)@.reinit_finished(ok).1,
    {
        let directive = self.controller.reinit_finished(ok);
        match directive {
            LoopDirective::Abort => {
                self.viewers.clear();
            },
            _ => {},
        }
        proof {
            old(self)@.lemma_operations_keep_wf(0, 0, ok);
        }
        directive
    }
}

} // verus!
