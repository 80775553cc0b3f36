//! The broadcast engine of one resource: hub, registry and controller behind
//! one set of steps. What each step does is said by the model of the engine,
//! [`EngineModel`]; the laws of the engine are proved there.

use vstd::prelude::*;
use vstd::string::StringExecFns;
use vstd::string::StringSliceAdditionalSpecFns;
use crate::auth::AuthGate;
use crate::auth::AuthOutcome;
use crate::capture::AfterClose;
use crate::capture::CaptureState;
use crate::capture::LoopDirective;
use crate::capture::Opened;
use crate::capture::Released;
use crate::capture::ResourceKind;
use crate::hub::BroadcastHub;
use crate::media::MediaUnit;
use crate::media::VideoCommand;
use crate::model::open_failure_text;
use crate::model::reinit_failure_text;
use crate::model::EngineModel;
use crate::model::Event;
use crate::model::ReadModel;
use crate::protocol::decode_command;
use crate::protocol::spec_decode_command;
use crate::protocol::ControlCommand;
use crate::protocol::ControlMessage;
use crate::protocol::ProtocolError;
use crate::registry::Added;
use crate::registry::ViewerRegistry;

verus! {

/// The status that a step reports to the peer that caused it.
#[derive(Clone, Copy, Debug, PartialEq, Eq, Structural)]
pub enum Reply {
    Authenticated,
    /// The credential was refused; the connection is to be closed.
    Unauthorized,
    /// The device was opened for this viewer and the stream runs.
    Started,
    /// The viewer joined a stream that others opened.
    Joined,
    /// A start from a session that views already.
    AlreadyActive,
    /// The last viewer stopped: the device is released.
    Stopped,
    /// The viewer stopped; others still view.
    StoppedOthersRemain,
    /// A stop from a session that does not view.
    NotViewing,
    /// The message was no command.
    Invalid(ProtocolError),
}

/// What a step asks the caller to do with the device.
#[derive(Clone, Copy, Debug, PartialEq, Eq, Structural)]
pub enum Directive {
    Nothing,
    /// Open the device of this index, then call `open_finished`.
    OpenDevice(i32),
    /// Stop the read loop and release the device, then call `closed`; where
    /// the read loop does that by itself at its next turn, nothing is to do.
    CloseDevice,
}

/// What handling one inbound message came to.
#[derive(Clone, Copy, Debug, PartialEq, Eq, Structural)]
pub struct Outcome {
    pub reply: Option<Reply>,
    pub directive: Directive,
    /// Whether the connection is to be closed.
    pub close: bool,
}

/// What one read of the device gave, as the read loop hands it over.
#[derive(Debug, PartialEq, Eq)]
pub enum ReadOutcome {
    /// A frame, encoded; an empty one counts as a failed read.
    Frame(Vec<u8>),
    /// A good read whose frame could not be encoded.
    Unencodable,
    /// The read failed.
    Failed,
}

impl View for ReadOutcome {
    type V = ReadModel;

    open spec fn view(&self) -> ReadModel {
        match self {
            ReadOutcome::Frame(bytes) => ReadModel::Frame(bytes@),
            ReadOutcome::Unencodable => ReadModel::Unencodable,
            ReadOutcome::Failed => ReadModel::Failed,
        }
    }
}

impl Reply {
    /// The text of a reply on a connection of the given kind.
    pub open spec fn spec_text(self, kind: ResourceKind) -> Seq<char> {
        match self {
            Reply::Authenticated => "Authenticated"@,
            Reply::Unauthorized => "Unauthorized"@,
            Reply::Started => match kind {
                ResourceKind::Video => "Video stream started"@,
                ResourceKind::Audio => "Audio started"@,
            },
            Reply::Joined => "Joined existing stream"@,
            Reply::AlreadyActive => "Stream already active"@,
            Reply::Stopped => match kind {
                ResourceKind::Video => "Eyes turned off"@,
                ResourceKind::Audio => "Audio stopped"@,
            },
            Reply::StoppedOthersRemain => "Stopped viewing. Other clients are still viewing."@,
            Reply::NotViewing => "Not viewing"@,
            Reply::Invalid(error) => error.spec_message(),
        }
    }

    pub fn text(&self, kind: ResourceKind) -> (text: String)
        ensures
            text@ == self.spec_text(kind),
    {
        match self {
            Reply::Authenticated => "Authenticated".to_owned(),
            Reply::Unauthorized => "Unauthorized".to_owned(),
            Reply::Started => match kind {
                ResourceKind::Video => "Video stream started".to_owned(),
                ResourceKind::Audio => "Audio started".to_owned(),
            },
            Reply::Joined => "Joined existing stream".to_owned(),
            Reply::AlreadyActive => "Stream already active".to_owned(),
            Reply::Stopped => match kind {
                ResourceKind::Video => "Eyes turned off".to_owned(),
                ResourceKind::Audio => "Audio stopped".to_owned(),
            },
            Reply::StoppedOthersRemain => "Stopped viewing. Other clients are still viewing.".to_owned(),
            Reply::NotViewing => "Not viewing".to_owned(),
            Reply::Invalid(error) => error.message(),
        }
    }
}

/// The message that tells viewers that the device did not open; that of the
/// microphone ends with the reason.
pub fn open_failure_message(kind: ResourceKind, reason: &str) -> (text: String)
    ensures
        text@ == open_failure_text(kind, reason@),
{
    match kind {
        ResourceKind::Video => "Failed to open camera".to_owned(),
        ResourceKind::Audio => {
            let mut text = "Failed to start audio: ".to_owned();
            text.append(reason);
            text
        },
    }
}

/// What a report of an open attempt says of its failure: nothing where the
/// device is open, else the reason.
pub open spec fn failure_of(result: Result<(), String>) -> Option<Seq<char>> {
    match result {
        Ok(_) => None,
        Err(reason) => Some(reason@),
    }
}

impl Opened {
    /// The reply that the viewer whose start had the device opened gets once
    /// the report of the open attempt was taken: that the stream runs, where
    /// it does. A failure reaches the viewers as a unit, not as a reply.
    pub open spec fn spec_reply(self) -> Option<Reply> {
        match self {
            Opened::Started => Some(Reply::Started),
            _ => None,
        }
    }

    pub fn reply(self) -> (reply: Option<Reply>)
        ensures
            reply == self.spec_reply(),
    {
        match self {
            Opened::Started => Some(Reply::Started),
            _ => None,
        }
    }
}

/// The message that tells viewers that the reopen failed.
pub fn reinit_failure_message(kind: ResourceKind) -> (text: String)
    ensures
        text@ == reinit_failure_text(kind),
{
    match kind {
        ResourceKind::Video => "Failed to reinitialize camera".to_owned(),
        ResourceKind::Audio => "Failed to reinitialize audio".to_owned(),
    }
}

fn silent() -> (outcome: Outcome)
    ensures
        outcome == (Outcome { reply: None, directive: Directive::Nothing, close: false }),
{
    Outcome { reply: None, directive: Directive::Nothing, close: false }
}

fn says(reply: Reply) -> (outcome: Outcome)
    ensures
        outcome == (Outcome { reply: Some(reply), directive: Directive::Nothing, close: false }),
{
    Outcome { reply: Some(reply), directive: Directive::Nothing, close: false }
}

/// Whether the bits of `id` that carry version and variant are those of a
/// random (version 4) identifier.
pub open spec fn is_random_id(id: u128) -> bool {
    id & 0xF000_C000_0000_0000_0000u128 == 0x4000_8000_0000_0000_0000u128
}

/// Calls `Uuid::new_v4` of the `uuid` crate and hands its 128 bits out as they
/// are (`Uuid::as_u128`). The bits come from the operating system's random
/// source, so nothing is claimed of them but what the crate sets itself: the
/// version and variant bits. The crate aborts where the system has no random
/// bytes to give.
#[verifier::external_body]
fn fresh_session_id() -> (id: u128)
    ensures
        is_random_id(id),
{
    uuid::Uuid::new_v4().as_u128()
}

/// The engine of one resource: its gate, its hub and its registry.
pub struct BroadcastEngine {
    gate: AuthGate,
    hub: BroadcastHub,
    registry: ViewerRegistry,
}

impl View for BroadcastEngine {
    type V = EngineModel;

    closed spec fn view(&self) -> EngineModel {
        EngineModel { hub: self.hub@, registry: self.registry@ }
    }
}

impl BroadcastEngine {
    /// The check that credentials are held against.
    pub closed spec fn gate(&self) -> AuthGate {
        self.gate
    }

    /// The invariant of an engine; its model's invariant is part of it.
    pub closed spec fn wf(&self) -> bool {
        &&& self.hub.wf()
        &&& self.registry.wf()
        &&& self@.wf()
    }

    /// A well-formed engine has a well-formed model.
    pub proof fn lemma_model_wf(&self)
        requires
            self.wf(),
        ensures
            self@.wf(),
    {
    }

    /// An engine without sessions over an idle resource. Each session's queue
    /// will hold `capacity` units.
    pub fn new(gate: AuthGate, kind: ResourceKind, capacity: usize) -> (engine: BroadcastEngine)
        ensures
            engine.wf(),
            engine@ == EngineModel::idle(kind, capacity as nat),
            engine.gate() == gate,
    {
        let engine = BroadcastEngine {
            gate,
            hub: BroadcastHub::new(capacity),
            registry: ViewerRegistry::new(kind),
        };
        proof {
            assert(engine@.hub.viewers() =~= Set::<u128>::empty());
        }
        engine
    }

    pub fn hub(&self) -> (hub: &BroadcastHub)
        ensures
            hub@ == self@.hub,
            self.wf() ==> hub.wf(),
    {
        &self.hub
    }

    pub fn registry(&self) -> (registry: &ViewerRegistry)
        ensures
            registry@ == self@.registry,
            self.wf() ==> registry.wf(),
    {
        &self.registry
    }

    pub fn kind(&self) -> (kind: ResourceKind)
        ensures
            kind == self@.kind(),
    {
        self.registry.controller().kind()
    }

    pub fn state(&self) -> (state: CaptureState)
        ensures
            state == self@.registry.capture.state,
    {
        self.registry.state()
    }

    /// Whether the read loop is to go on: only while the resource streams.
    pub fn keeps_streaming(&self) -> (yes: bool)
        ensures
            yes == (self@.registry.capture.state is Streaming),
    {
        match self.registry.state() {
            CaptureState::Streaming => true,
            _ => false,
        }
    }

    pub fn viewer_count(&self) -> (count: usize)
        ensures
            count == self@.registry.viewers.len(),
    {
        self.registry.viewer_count()
    }

    /// Subscribes the connection that was accepted under `id`. Says whether
    /// the id was free; a taken id changes nothing.
    pub fn connect(&mut self, id: u128) -> (added: bool)
        requires
            old(self).wf(),
        ensures
            final(self).wf(),
            final(self).gate() == old(self).gate(),
            final(self)@ == old(self)@.connect(id),
            added == !old(self)@.hub.contains(id),
    {
        let added = self.hub.subscribe(id);
        proof {
            old(self)@.lemma_step_keeps_wf(Event::Connect(id));
        }
        added
    }

    /// Whether a session is subscribed under an id of the random form: only
    /// then can a fresh id be one that is taken.
    pub open spec fn holds_random_id(&self) -> bool {
        exists|taken: u128| is_random_id(taken) && #[trigger] self@.hub.contains(taken)
    }

    /// Subscribes a new connection under a fresh random id, which it returns.
    /// It fails, with nothing changed, only where the fresh id is taken; so it
    /// succeeds on every engine that holds no session under a random id, an
    /// engine without sessions among them.
    pub fn subscribe(&mut self) -> (id: Option<u128>)
        requires
            old(self).wf(),
        ensures
            final(self).wf(),
            final(self).gate() == old(self).gate(),
            match id {
                Some(id) => is_random_id(id) && !old(self)@.hub.contains(id) && final(self)@ == old(
                    self,
                )@.connect(id),
                None => final(self)@ == old(self)@ && old(self).holds_random_id(),
            },
            !old(self).holds_random_id() ==> id is Some,
    {
        let id = fresh_session_id();
        if self.connect(id) {
            Some(id)
        } else {
            assert(old(self)@.hub.contains(id));
            None
        }
    }

    /// Takes the verdict on the credential that the session of `id`
    /// sent. A refused session is dropped, and its connection is to be closed.
    pub fn credential(&mut self, id: u128, verdict: AuthOutcome) -> (outcome: Outcome)
        requires
            old(self).wf(),
        ensures
            final(self).wf(),
            final(self).gate() == old(self).gate(),
            final(self)@ == old(self)@.credential(id, verdict is Authenticated).0,
            outcome == old(self)@.credential(id, verdict is Authenticated).1,
    {
        proof {
            old(self)@.lemma_step_keeps_wf(Event::Credential(id, verdict is Authenticated));
        }
        if !self.hub.contains(id) {
            return Outcome { reply: None, directive: Directive::Nothing, close: true };
        }
        if self.hub.is_authenticated(id) {
            return silent();
        }
        match verdict {
            AuthOutcome::Authenticated => {
                self.hub.authenticate(id);
                says(Reply::Authenticated)
            },
            AuthOutcome::Unauthorized => {
                self.hub.unsubscribe(id);
                Outcome { reply: Some(Reply::Unauthorized), directive: Directive::Nothing, close: true }
            },
        }
    }

    /// Takes a message of the session of `id` that was read as a command, or
    /// as none. A session that is unknown or not authenticated is not heard.
    pub fn command(&mut self, id: u128, command: Result<ControlCommand, ProtocolError>) -> (outcome:
        Outcome)
        requires
            old(self).wf(),
        ensures
            final(self).wf(),
            final(self).gate() == old(self).gate(),
            final(self)@ == old(self)@.command(id, command).0,
            outcome == old(self)@.command(id, command).1,
    {
        proof {
            old(self)@.lemma_step_keeps_wf(Event::Command(id, command));
        }
        if !self.hub.is_authenticated(id) {
            return silent();
        }
        match command {
            Err(error) => says(Reply::Invalid(error)),
            Ok(ControlCommand::Start(index)) => {
                if self.hub.is_viewing(id) {
                    return says(Reply::AlreadyActive);
                }
                match self.registry.add(id, index) {
                    Added::OpenDevice(n) => {
                        self.hub.set_viewing(id, true);
                        Outcome { reply: None, directive: Directive::OpenDevice(n), close: false }
                    },
                    Added::Joined => {
                        self.hub.set_viewing(id, true);
                        says(Reply::Joined)
                    },
                    Added::AlreadyViewing => says(Reply::AlreadyActive),
                }
            },
            Ok(ControlCommand::Stop) => {
                if !self.hub.is_viewing(id) {
                    return says(Reply::NotViewing);
                }
                let released = self.registry.remove(id);
                self.hub.set_viewing(id, false);
                match released {
                    Released::Remaining => says(Reply::StoppedOthersRemain),
                    Released::CloseDevice => Outcome {
                        reply: Some(Reply::Stopped),
                        directive: Directive::CloseDevice,
                        close: false,
                    },
                    Released::Abandoned => says(Reply::Stopped),
                    Released::NotHeld => says(Reply::NotViewing),
                }
            },
        }
    }

    /// Handles one inbound text of the session of `id`. `parsed` is the body
    /// as a control message, or `None` where it is none. Until the session is
    /// authenticated the text is a credential and nothing else; after that it
    /// is a command and nothing else.
    pub fn on_text(&mut self, id: u128, text: &str, parsed: &Option<ControlMessage>) -> (outcome:
        Outcome)
        requires
            old(self).wf(),
        ensures
            final(self).wf(),
            final(self).gate() == old(self).gate(),
            old(self)@.hears(id) ==> {
                let command = spec_decode_command(old(self)@.kind(), text@, *parsed);
                &&& final(self)@ == old(self)@.command(id, command).0
                &&& outcome == old(self)@.command(id, command).1
            },
            !old(self)@.hears(id) ==> {
                let accepted = old(self).gate().accepts(text.spec_bytes());
                &&& final(self)@ == old(self)@.credential(id, accepted).0
                &&& outcome == old(self)@.credential(id, accepted).1
            },
    {
        if self.hub.is_authenticated(id) {
            let command = decode_command(self.kind(), text, parsed);
            self.command(id, command)
        } else {
            let verdict = self.gate.check(text);
            self.credential(id, verdict)
        }
    }

    /// Handles the end of the connection of `id`, however it ended: a viewer
    /// leaves as by a stop, and the session is dropped with its queue.
    pub fn disconnect(&mut self, id: u128) -> (directive: Directive)
        requires
            old(self).wf(),
        ensures
            final(self).wf(),
            final(self).gate() == old(self).gate(),
            final(self)@ == old(self)@.disconnect(id).0,
            directive == old(self)@.disconnect(id).1,
    {
        proof {
            old(self)@.lemma_step_keeps_wf(Event::Disconnect(id));
        }
        if self.hub.is_viewing(id) {
            let released = self.registry.remove(id);
            self.hub.unsubscribe(id);
            match released {
                Released::CloseDevice => Directive::CloseDevice,
                _ => Directive::Nothing,
            }
        } else {
            self.hub.unsubscribe(id);
            Directive::Nothing
        }
    }

    fn fail_viewers(&mut self, text: String)
        requires
            old(self).hub.wf(),
        ensures
            final(self).hub.wf(),
            final(self).hub@ == old(self).hub@.publish(MediaUnit::Error(text@)).orphan(),
            final(self).registry == old(self).registry,
            final(self).gate == old(self).gate,
    {
        let unit = VideoCommand::Error(text);
        self.hub.publish(&unit);
        self.hub.orphan();
    }

    /// Takes the report of the open attempt that an `OpenDevice` asked for:
    /// `Ok` where the device is open, else the reason of the failure. Where
    /// the open failed, every viewer gets the failure as a unit and is a
    /// viewer no more.
    pub fn open_finished(&mut self, result: Result<(), String>) -> (outcome: Opened)
        requires
            old(self).wf(),
        ensures
            final(self).wf(),
            final(self).gate() == old(self).gate(),
            final(self)@ == old(self)@.open_finished(failure_of(result)).0,
            outcome == old(self)@.open_finished(failure_of(result)).1,
    {
        proof {
            old(self)@.lemma_step_keeps_wf(Event::OpenFinished(failure_of(result)));
        }
        let kind = self.kind();
        match result {
            Ok(_) => self.registry.open_finished(true),
            Err(reason) => {
                let outcome = self.registry.open_finished(false);
                match outcome {
                    Opened::RolledBack => {
                        self.fail_viewers(open_failure_message(kind, reason.as_str()));
                    },
                    _ => {},
                }
                outcome
            },
        }
    }

    /// Takes the report that the device was released. Where viewers came back
    /// in the meantime, the caller is asked to open the device again.
    pub fn closed(&mut self) -> (directive: Directive)
        requires
            old(self).wf(),
        ensures
            final(self).wf(),
            final(self).gate() == old(self).gate(),
            final(self)@ == old(self)@.closed().0,
            directive == old(self)@.closed().1,
    {
        proof {
            old(self)@.lemma_step_keeps_wf(Event::Closed);
        }
        match self.registry.closed() {
            AfterClose::Reopen(index) => Directive::OpenDevice(index),
            AfterClose::Rest => Directive::Nothing,
        }
    }

    /// Takes the outcome of one read of the loop, publishes a good frame, and
    /// says what the loop does next.
    pub fn read_finished(&mut self, outcome: ReadOutcome) -> (directive: LoopDirective)
        requires
            old(self).wf(),
        ensures
            final(self).wf(),
            final(self).gate() == old(self).gate(),
            final(self)@ == old(self)@.read_finished(outcome@).0,
            directive == old(self)@.read_finished(outcome@).1,
    {
        proof {
            old(self)@.lemma_step_keeps_wf(Event::ReadFinished(outcome@));
        }
        let good = match &outcome {
            ReadOutcome::Frame(bytes) => bytes.len() > 0,
            ReadOutcome::Unencodable => true,
            ReadOutcome::Failed => false,
        };
        let directive = self.registry.read_finished(good);
        match directive {
            LoopDirective::Publish => match outcome {
                ReadOutcome::Frame(bytes) => {
                    let unit = VideoCommand::Frame(bytes);
                    self.hub.publish(&unit);
                    LoopDirective::Publish
                },
                _ => LoopDirective::Continue,
            },
            _ => directive,
        }
    }

    /// Takes the outcome of the reopen that a `Reinitialize` asked for. Where
    /// it failed, every viewer gets the failure as a unit and is a viewer no
    /// more, and the resource is idle.
    pub fn reinit_finished(&mut self, ok: bool) -> (directive: LoopDirective)
        requires
            old(self).wf(),
        ensures
            final(self).wf(),
            final(self).gate() == old(self).gate(),
            final(self)@ == old(self)@.reinit_finished(ok).0,
            directive == old(self)@.reinit_finished(ok).1,
    {
        proof {
            old(self)@.lemma_step_keeps_wf(Event::ReinitFinished(ok));
        }
        let kind = self.kind();
        let directive = self.registry.reinit_finished(ok);
        match directive {
            LoopDirective::Abort => {
                self.fail_viewers(reinit_failure_message(kind));
            },
            _ => {},
        }
        directive
    }

    /// Takes the oldest waiting unit of a session out, for the transport.
    pub fn take(&mut self, id: u128) -> (unit: Option<VideoCommand>)
        requires
            old(self).wf(),
        ensures
            final(self).wf(),
            final(self).gate() == old(self).gate(),
            final(self)@ == old(self)@.take(id).0,
            unit is Some == old(self)@.take(id).1 is Some,
            unit matches Some(u) ==> old(self)@.take(id).1 == Some(u@),
    {
        proof {
            old(self)@.lemma_step_keeps_wf(Event::Take(id));
        }
        self.hub.take(id)
    }
}

} // verus!
