//! The engine as a plain value: what each step does to it, the invariant that
//! every step keeps, and what holds of every run of events.

use vstd::prelude::*;
use crate::capture::AfterClose;
use crate::capture::LoopDirective;
use crate::capture::Opened;
use crate::capture::Released;
use crate::capture::ResourceKind;
use crate::engine::Directive;
use crate::engine::Outcome;
use crate::engine::Reply;
use crate::hub::HubModel;
use crate::media::MediaUnit;
use crate::protocol::ControlCommand;
use crate::protocol::ProtocolError;
use crate::registry::Added;
use crate::registry::RegistryModel;

verus! {

/// What one read of the device gave.
pub enum ReadModel {
    /// A frame, encoded; an empty one counts as a failed read.
    Frame(Seq<u8>),
    /// A good read whose frame could not be encoded: nothing to publish.
    Unencodable,
    /// The read failed.
    Failed,
}

impl ReadModel {
    /// Whether the read counts as good: it resets the failure counter.
    pub open spec fn good(self) -> bool {
        match self {
            ReadModel::Frame(bytes) => bytes.len() > 0,
            ReadModel::Unencodable => true,
            ReadModel::Failed => false,
        }
    }
}

/// The message of the unit that tells viewers that the device did not open.
/// That of the microphone ends with the reason that the device layer gave.
pub open spec fn open_failure_text(kind: ResourceKind, reason: Seq<char>) -> Seq<char> {
    match kind {
        ResourceKind::Video => "Failed to open camera"@,
        ResourceKind::Audio => "Failed to start audio: "@ + reason,
    }
}

/// The message of the unit that tells viewers that the reopen failed.
pub open spec fn reinit_failure_text(kind: ResourceKind) -> Seq<char> {
    match kind {
        ResourceKind::Video => "Failed to reinitialize camera"@,
        ResourceKind::Audio => "Failed to reinitialize audio"@,
    }
}

/// Anything that can happen to an engine.
pub enum Event {
    Connect(u128),
    Credential(u128, bool),
    Command(u128, Result<ControlCommand, ProtocolError>),
    Disconnect(u128),
    /// The open attempt ended: well, or with the reason of its failure.
    OpenFinished(Option<Seq<char>>),
    Closed,
    ReadFinished(ReadModel),
    ReinitFinished(bool),
    Take(u128),
}

/// Whether `event` is a start command of the session `id`.
pub open spec fn is_start_of(event: Event, id: u128) -> bool {
    event matches Event::Command(from, Ok(ControlCommand::Start(_))) && from == id
}

/// Whether `event` reports that the device handle is gone, or was never had.
pub open spec fn reports_device_gone(event: Event) -> bool {
    ||| event matches Event::OpenFinished(Some(_))
    ||| event == Event::Closed
    ||| event == Event::ReinitFinished(false)
}

/// Whether `later` is what is left of `earlier` after units were taken from
/// its front.
pub open spec fn is_rest_of(later: Seq<MediaUnit>, earlier: Seq<MediaUnit>) -> bool {
    later.len() <= earlier.len() && later == earlier.skip(earlier.len() - later.len())
}

/// The engine as a plain value.
pub struct EngineModel {
    pub hub: HubModel,
    pub registry: RegistryModel,
}

impl EngineModel {
    pub open spec fn idle(kind: ResourceKind, capacity: nat) -> EngineModel {
        EngineModel { hub: HubModel::empty(capacity), registry: RegistryModel::idle(kind) }
    }

    pub open spec fn kind(self) -> ResourceKind {
        self.registry.capture.kind
    }

    /// The invariant: hub and registry are sound, and the registry's viewers
    /// are the sessions whose viewing flag is set.
    pub open spec fn wf(self) -> bool {
        &&& self.hub.wf()
        &&& self.registry.wf()
        &&& self.registry.viewers == self.hub.viewers()
    }

    pub open spec fn silent(self) -> (EngineModel, Outcome) {
        (self, Outcome { reply: None, directive: Directive::Nothing, close: false })
    }

    pub open spec fn says(self, reply: Reply) -> (EngineModel, Outcome) {
        (self, Outcome { reply: Some(reply), directive: Directive::Nothing, close: false })
    }

    /// A connection was accepted under `id`.
    pub open spec fn connect(self, id: u128) -> EngineModel {
        EngineModel { hub: self.hub.subscribe(id), ..self }
    }

    /// The session of `id` sent a credential, which was accepted or not.
    /// A session that is unknown or authenticated already is left alone.
    pub open spec fn credential(self, id: u128, accepted: bool) -> (EngineModel, Outcome) {
        if !self.hub.contains(id) {
            (self, Outcome { reply: None, directive: Directive::Nothing, close: true })
        } else if self.hub.sessions[id].authenticated {
            self.silent()
        } else if accepted {
            EngineModel { hub: self.hub.authenticate(id), ..self }.says(Reply::Authenticated)
        } else {
            (
                EngineModel { hub: self.hub.unsubscribe(id), ..self },
                Outcome { reply: Some(Reply::Unauthorized), directive: Directive::Nothing, close: true },
            )
        }
    }

    pub open spec fn start(self, id: u128, index: i32) -> (EngineModel, Outcome) {
        if self.hub.sessions[id].viewing {
            self.says(Reply::AlreadyActive)
        } else {
            let (registry, added) = self.registry.add(id, index);
            let joined = EngineModel { hub: self.hub.set_viewing(id, true), registry };
            match added {
                Added::OpenDevice(n) => (
                    joined,
                    Outcome { reply: None, directive: Directive::OpenDevice(n), close: false },
                ),
                Added::Joined => joined.says(Reply::Joined),
                Added::AlreadyViewing => self.says(Reply::AlreadyActive),
            }
        }
    }

    pub open spec fn stop(self, id: u128) -> (EngineModel, Outcome) {
        if !self.hub.sessions[id].viewing {
            self.says(Reply::NotViewing)
        } else {
            let (registry, released) = self.registry.remove(id);
            let left = EngineModel { hub: self.hub.set_viewing(id, false), registry };
            match released {
                Released::Remaining => left.says(Reply::StoppedOthersRemain),
                Released::CloseDevice => (
                    left,
                    Outcome {
                        reply: Some(Reply::Stopped),
                        directive: Directive::CloseDevice,
                        close: false,
                    },
                ),
                Released::Abandoned => left.says(Reply::Stopped),
                Released::NotHeld => left.says(Reply::NotViewing),
            }
        }
    }

    /// The session of `id` sent a message that was read as a command, or as
    /// none. Only an authenticated session is heard.
    pub open spec fn command(
        self,
        id: u128,
        command: Result<ControlCommand, ProtocolError>,
    ) -> (EngineModel, Outcome) {
        if !self.hub.contains(id) || !self.hub.sessions[id].authenticated {
            self.silent()
        } else {
            match command {
                Err(error) => self.says(Reply::Invalid(error)),
                Ok(ControlCommand::Start(index)) => self.start(id, index),
                Ok(ControlCommand::Stop) => self.stop(id),
            }
        }
    }

    /// The connection of `id` is gone: a viewer leaves as by a stop, and the
    /// session ends.
    pub open spec fn disconnect(self, id: u128) -> (EngineModel, Directive) {
        if self.hub.contains(id) && self.hub.sessions[id].viewing {
            let (registry, released) = self.registry.remove(id);
            (
                EngineModel { hub: self.hub.unsubscribe(id), registry },
                if released is CloseDevice {
                    Directive::CloseDevice
                } else {
                    Directive::Nothing
                },
            )
        } else {
            (EngineModel { hub: self.hub.unsubscribe(id), ..self }, Directive::Nothing)
        }
    }

    /// The viewers are told of a failure and cease to be viewers.
    pub open spec fn fail_viewers(self, registry: RegistryModel, text: Seq<char>) -> EngineModel {
        EngineModel { hub: self.hub.publish(MediaUnit::Error(text)).orphan(), registry }
    }

    /// The report of the open attempt that an `OpenDevice` asked for: `None`
    /// where the device is open, else the reason of the failure.
    pub open spec fn open_finished(self, failure: Option<Seq<char>>) -> (EngineModel, Opened) {
        let (registry, outcome) = self.registry.open_finished(failure is None);
        match failure {
            Some(reason) if outcome is RolledBack => (
                self.fail_viewers(registry, open_failure_text(self.kind(), reason)),
                outcome,
            ),
            _ => (EngineModel { registry, ..self }, outcome),
        }
    }

    /// The report that the device was released. Where viewers came back in
    /// the meantime, the caller is asked to open the device again.
    pub open spec fn closed(self) -> (EngineModel, Directive) {
        (
            EngineModel { registry: self.registry.closed().0, ..self },
            match self.registry.closed().1 {
                AfterClose::Reopen(index) => Directive::OpenDevice(index),
                AfterClose::Rest => Directive::Nothing,
            },
        )
    }

    /// The outcome of one read of the loop.
    pub open spec fn read_finished(self, outcome: ReadModel) -> (EngineModel, LoopDirective) {
        let (registry, directive) = self.registry.read_finished(outcome.good());
        match (directive, outcome) {
            (LoopDirective::Publish, ReadModel::Frame(bytes)) => (
                EngineModel { hub: self.hub.publish(MediaUnit::Frame(bytes)), registry },
                LoopDirective::Publish,
            ),
            (LoopDirective::Publish, _) => (EngineModel { registry, ..self }, LoopDirective::Continue),
            _ => (EngineModel { registry, ..self }, directive),
        }
    }

    /// The outcome of the reopen that a `Reinitialize` asked for.
    pub open spec fn reinit_finished(self, ok: bool) -> (EngineModel, LoopDirective) {
        let (registry, directive) = self.registry.reinit_finished(ok);
        if directive is Abort {
            (self.fail_viewers(registry, reinit_failure_text(self.kind())), directive)
        } else {
            (EngineModel { registry, ..self }, directive)
        }
    }

    /// The transport took the oldest waiting unit of a session.
    pub open spec fn take(self, id: u128) -> (EngineModel, Option<MediaUnit>) {
        (EngineModel { hub: self.hub.take(id).0, ..self }, self.hub.take(id).1)
    }

    /// Whether the session of `id` is heard as a sender of commands: it is
    /// known and authenticated. Until then its messages are credentials.
    pub open spec fn hears(self, id: u128) -> bool {
        self.hub.contains(id) && self.hub.sessions[id].authenticated
    }

    /// The engine after one event.
    pub open spec fn step(self, event: Event) -> EngineModel {
        match event {
            Event::Connect(id) => self.connect(id),
            Event::Credential(id, accepted) => self.credential(id, accepted).0,
            Event::Command(id, command) => self.command(id, command).0,
            Event::Disconnect(id) => self.disconnect(id).0,
            Event::OpenFinished(failure) => self.open_finished(failure).0,
            Event::Closed => self.closed().0,
            Event::ReadFinished(outcome) => self.read_finished(outcome).0,
            Event::ReinitFinished(ok) => self.reinit_finished(ok).0,
            Event::Take(id) => self.take(id).0,
        }
    }

    /// The engine after a run of events, in their order.
    pub open spec fn run(self, events: Seq<Event>) -> EngineModel
        decreases events.len(),
    {
        if events.len() == 0 {
            self
        } else {
            self.run(events.drop_last()).step(events.last())
        }
    }

    /// Whether the step of `event` asks the caller to open the device.
    pub open spec fn asks_open(self, event: Event) -> bool {
        match event {
            Event::Command(id, command) => self.command(id, command).1.directive is OpenDevice,
            Event::Closed => self.closed().1 is OpenDevice,
            _ => false,
        }
    }

    /// Whether the step of `event` takes a report that the claim on the device
    /// is over: the device was released, or the attempt to open it failed.
    pub open spec fn ends_claim(self, event: Event) -> bool {
        match event {
            Event::Closed => self.registry.capture.state is Streaming || (
            self.registry.capture.state is Closing && !self.registry.capture.open_pending),
            Event::OpenFinished(Some(_)) => self.registry.capture.open_pending,
            Event::ReinitFinished(false) => self.registry.capture.state is Streaming,
            _ => false,
        }
    }

    /// Whether the device is claimed: open, being opened or being released.
    pub open spec fn claimed(self) -> bool {
        !(self.registry.capture.state is Idle)
    }

    /// The units that wait for the session of `id`; none for an unknown id.
    pub open spec fn backlog(self, id: u128) -> Seq<MediaUnit> {
        if self.hub.contains(id) {
            self.hub.sessions[id].outbound
        } else {
            Seq::empty()
        }
    }
}

impl EngineModel {
    proof fn lemma_fail_viewers_wf(self, registry: RegistryModel, text: Seq<char>)
        requires
            self.wf(),
            registry.wf(),
            registry.viewers == Set::<u128>::empty(),
        ensures
            self.fail_viewers(registry, text).wf(),
    {
        let unit = MediaUnit::Error(text);
        self.hub.lemma_operations_keep_wf(0, unit, true);
        self.hub.publish(unit).lemma_operations_keep_wf(0, unit, true);
        assert(self.fail_viewers(registry, text).hub.viewers() =~= Set::<u128>::empty());
    }

    /// Every step keeps the invariant.
    pub proof fn lemma_step_keeps_wf(self, event: Event)
        requires
            self.wf(),
        ensures
            self.step(event).wf(),
    {
        let next = self.step(event);
        match event {
            Event::Connect(id) => {
                self.hub.lemma_operations_keep_wf(id, MediaUnit::Frame(Seq::empty()), true);
                assert(next.hub.viewers() =~= self.hub.viewers());
            },
            Event::Credential(id, accepted) => {
                self.hub.lemma_operations_keep_wf(id, MediaUnit::Frame(Seq::empty()), true);
                assert(next.hub.viewers() =~= self.hub.viewers());
            },
            Event::Command(id, command) => {
                self.hub.lemma_operations_keep_wf(id, MediaUnit::Frame(Seq::empty()), true);
                self.hub.lemma_operations_keep_wf(id, MediaUnit::Frame(Seq::empty()), false);
                self.registry.lemma_operations_keep_wf(id, 0, true);
                if self.hub.contains(id) && self.hub.sessions[id].authenticated {
                    match command {
                        Err(_) => {},
                        Ok(ControlCommand::Start(index)) => {
                            self.registry.lemma_operations_keep_wf(id, index, true);
                            if !self.hub.sessions[id].viewing {
                                assert(!self.registry.viewers.contains(id));
                                assert(next.hub.viewers() =~= self.hub.viewers().insert(id));
                            }
                        },
                        Ok(ControlCommand::Stop) => {
                            if self.hub.sessions[id].viewing {
                                assert(self.registry.viewers.contains(id));
                                assert(next.hub.viewers() =~= self.hub.viewers().remove(id));
                            }
                        },
                    }
                }
            },
            Event::Disconnect(id) => {
                self.hub.lemma_operations_keep_wf(id, MediaUnit::Frame(Seq::empty()), true);
                self.registry.lemma_operations_keep_wf(id, 0, true);
                if self.hub.contains(id) && self.hub.sessions[id].viewing {
                    assert(self.registry.viewers.contains(id));
                }
                assert(next.hub.viewers() =~= self.hub.viewers().remove(id));
                assert(!self.registry.viewers.contains(id) ==> self.registry.viewers.remove(id)
                    =~= self.registry.viewers);
            },
            Event::OpenFinished(failure) => {
                self.registry.lemma_operations_keep_wf(0, 0, failure is None);
                let (registry, outcome) = self.registry.open_finished(failure is None);
                if let Some(reason) = failure {
                    if outcome is RolledBack {
                        self.lemma_fail_viewers_wf(
                            registry,
                            open_failure_text(self.kind(), reason),
                        );
                    }
                }
            },
            Event::Closed => {
                self.registry.lemma_operations_keep_wf(0, 0, true);
            },
            Event::ReadFinished(outcome) => {
                self.registry.lemma_operations_keep_wf(0, 0, outcome.good());
                if let ReadModel::Frame(bytes) = outcome {
                    self.hub.lemma_operations_keep_wf(0, MediaUnit::Frame(bytes), true);
                    assert(self.hub.publish(MediaUnit::Frame(bytes)).viewers()
                        =~= self.hub.viewers());
                }
            },
            Event::ReinitFinished(ok) => {
                self.registry.lemma_operations_keep_wf(0, 0, ok);
                let (registry, directive) = self.registry.reinit_finished(ok);
                if directive is Abort {
                    self.lemma_fail_viewers_wf(registry, reinit_failure_text(self.kind()));
                }
            },
            Event::Take(id) => {
                self.hub.lemma_operations_keep_wf(id, MediaUnit::Frame(Seq::empty()), true);
                assert(next.hub.viewers() =~= self.hub.viewers());
            },
        }
    }

    /// Every run keeps the invariant.
    pub proof fn lemma_run_keeps_wf(self, events: Seq<Event>)
        requires
            self.wf(),
        ensures
            self.run(events).wf(),
        decreases events.len(),
    {
        if events.len() > 0 {
            self.lemma_run_keeps_wf(events.drop_last());
            self.run(events.drop_last()).lemma_step_keeps_wf(events.last());
        }
    }

    /// Whatever happens, in whatever order: the device is held for viewers
    /// exactly while the resource has at least one viewer, and those viewers
    /// are the sessions that are viewing.
    pub proof fn law_device_held_iff_viewed(kind: ResourceKind, capacity: nat, events: Seq<Event>)
        ensures
            ({
                let engine = EngineModel::idle(kind, capacity).run(events);
                &&& engine.wf()
                &&& engine.registry.capture.engaged() <==> engine.hub.viewers().len() > 0
                &&& engine.registry.capture.refcount == engine.hub.viewers().len()
            }),
    {
        let start = EngineModel::idle(kind, capacity);
        assert(start.hub.viewers() =~= Set::<u128>::empty());
        start.lemma_run_keeps_wf(events);
        start.run(events).registry.law_engaged_iff_viewed();
    }

    /// At most one device at a time. A step asks for the device to be opened
    /// only while none is claimed, or as it takes the report that the one that
    /// was claimed is released; a claim ends only with such a report; and the
    /// device is claimed after a step exactly if it was and the claim did not
    /// end, or the step asked for it.
    pub proof fn law_one_device_at_a_time(self, event: Event)
        requires
            self.wf(),
        ensures
            self.asks_open(event) ==> self.step(event).registry.capture.state is Opening && (
            !self.claimed() || self.ends_claim(event)),
            self.ends_claim(event) ==> self.claimed() && reports_device_gone(event),
            self.step(event).claimed() <==> (self.claimed() && !self.ends_claim(event))
                || self.asks_open(event),
    {
    }

    /// The device claims that a run left open: one more for each step that
    /// asked for the device to be opened, one fewer for each step that took
    /// the report that a claim is over.
    pub open spec fn open_claims(self, events: Seq<Event>) -> int
        decreases events.len(),
    {
        if events.len() == 0 {
            0
        } else {
            let before = self.run(events.drop_last());
            let asked: int = if before.asks_open(events.last()) {
                1
            } else {
                0
            };
            let ended: int = if before.ends_claim(events.last()) {
                1
            } else {
                0
            };
            self.open_claims(events.drop_last()) + asked - ended
        }
    }

    /// Never more than one device: after any run from an idle engine, at most
    /// one claim on the device is open, and one is open exactly while the
    /// resource is not idle.
    pub proof fn law_at_most_one_device(kind: ResourceKind, capacity: nat, events: Seq<Event>)
        ensures
            ({
                let start = EngineModel::idle(kind, capacity);
                start.open_claims(events) == (if start.run(events).claimed() {
                    1int
                } else {
                    0int
                })
            }),
        decreases events.len(),
    {
        let start = EngineModel::idle(kind, capacity);
        assert(start.hub.viewers() =~= Set::<u128>::empty());
        if events.len() > 0 {
            Self::law_at_most_one_device(kind, capacity, events.drop_last());
            start.lemma_run_keeps_wf(events.drop_last());
            start.run(events.drop_last()).law_one_device_at_a_time(events.last());
        }
    }

    /// Every start is counted: whatever the state of the resource, a start of
    /// a session that is heard and does not view makes it a viewer, and the
    /// device is held for it or about to be.
    pub proof fn law_every_start_is_counted(self, id: u128, index: i32)
        requires
            self.wf(),
            self.hears(id),
        ensures
            ({
                let (next, outcome) = self.command(id, Ok(ControlCommand::Start(index)));
                &&& next.hub.viewers().contains(id)
                &&& next.registry.viewers.contains(id)
                &&& next.registry.capture.engaged()
                &&& !self.hub.viewers().contains(id) ==> (outcome.reply == Some(Reply::Joined)
                    || outcome.directive is OpenDevice)
            }),
    {
        self.lemma_step_keeps_wf(Event::Command(id, Ok(ControlCommand::Start(index))));
        self.command(id, Ok(ControlCommand::Start(index))).0.registry.law_engaged_iff_viewed();
    }

    /// A session that is not authenticated has received nothing, after any run:
    /// it does not view, nothing waits for it, and the transport finds nothing
    /// to take.
    pub proof fn law_unauthenticated_receive_nothing(
        kind: ResourceKind,
        capacity: nat,
        events: Seq<Event>,
        id: u128,
    )
        ensures
            ({
                let engine = EngineModel::idle(kind, capacity).run(events);
                engine.hub.contains(id) && !engine.hub.sessions[id].authenticated ==> {
                    &&& engine.hub.sessions[id].outbound.len() == 0
                    &&& !engine.hub.sessions[id].viewing
                    &&& engine.take(id).1 is None
                }
            }),
    {
        let start = EngineModel::idle(kind, capacity);
        assert(start.hub.viewers() =~= Set::<u128>::empty());
        start.lemma_run_keeps_wf(events);
    }

    /// One step on which the session `id` does not start: if it was not
    /// viewing, it is not viewing after, and nothing was added to its queue.
    pub proof fn lemma_quiet_step(self, event: Event, id: u128)
        requires
            self.wf(),
            !self.hub.viewers().contains(id),
            !is_start_of(event, id),
        ensures
            !self.step(event).hub.viewers().contains(id),
            is_rest_of(self.step(event).backlog(id), self.backlog(id)),
    {
        let before = self.backlog(id);
        let after = self.step(event).backlog(id);
        assert(before.skip(0) =~= before);
        assert(before.skip(before.len() as int) =~= Seq::<MediaUnit>::empty());
        if before.len() > 0 {
            assert(before.skip(1) =~= before.drop_first());
        }
        match event {
            Event::Command(from, command) => {
                if from != id && self.hub.contains(from) && self.hub.sessions[from].authenticated {
                    assert(after == before);
                }
            },
            _ => {},
        }
    }

    /// A session that stopped receives nothing until it starts again: over any
    /// run without a start of its own it stays out of the viewers, and its
    /// queue only loses what the transport takes, whoever else views.
    pub proof fn law_stopped_session_receives_nothing(self, events: Seq<Event>, id: u128)
        requires
            self.wf(),
            !self.hub.viewers().contains(id),
            forall|i: int| 0 <= i < events.len() ==> !is_start_of(#[trigger] events[i], id),
        ensures
            !self.run(events).hub.viewers().contains(id),
            is_rest_of(self.run(events).backlog(id), self.backlog(id)),
        decreases events.len(),
    {
        let before = self.backlog(id);
        if events.len() == 0 {
            assert(before.skip(0) =~= before);
        } else {
            let front = events.drop_last();
            assert forall|i: int| 0 <= i < front.len() implies !is_start_of(
                #[trigger] front[i],
                id,
            ) by {
                assert(front[i] == events[i]);
            }
            self.law_stopped_session_receives_nothing(front, id);
            self.lemma_run_keeps_wf(front);
            let middle = self.run(front);
            middle.lemma_quiet_step(events.last(), id);
            let end = self.run(events).backlog(id);
            assert(end =~= before.skip(before.len() - end.len()));
        }
    }

    /// A stop takes the session out of the viewers.
    pub proof fn law_stop_ends_viewing(self, id: u128)
        requires
            self.wf(),
        ensures
            !self.command(id, Ok(ControlCommand::Stop)).0.hub.viewers().contains(id),
            !self.disconnect(id).0.hub.contains(id),
    {
    }
}

} // verus!
