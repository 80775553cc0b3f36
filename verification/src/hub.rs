//! The broadcast hub: the sessions that subscribed, and the fan-out of each
//! unit to those of them that are authenticated and viewing.

use vstd::prelude::*;
use crate::media::MediaUnit;
use crate::media::VideoCommand;
use crate::queue::BoundedQueue;

verus! {

/// One connection as the hub sees it.
pub struct SessionModel {
    pub authenticated: bool,
    pub viewing: bool,
    /// The units that wait for the transport, oldest first.
    pub outbound: Seq<MediaUnit>,
}

impl SessionModel {
    /// A session as it is right after the connection was accepted.
    pub open spec fn fresh() -> SessionModel {
        SessionModel { authenticated: false, viewing: false, outbound: Seq::empty() }
    }

    /// The delivery rule: units reach a session only while it is authenticated
    /// and viewing.
    pub open spec fn receives(self) -> bool {
        self.authenticated && self.viewing
    }

    /// The session after a unit was published: queued where the session
    /// receives and its queue has room, dropped for this session otherwise.
    pub open spec fn deliver(self, unit: MediaUnit, capacity: nat) -> SessionModel {
        if self.receives() && self.outbound.len() < capacity {
            SessionModel { outbound: self.outbound.push(unit), ..self }
        } else {
            self
        }
    }

    pub open spec fn wf(self, capacity: nat) -> bool {
        &&& self.outbound.len() <= capacity
        &&& self.viewing ==> self.authenticated
        &&& !self.authenticated ==> self.outbound.len() == 0
    }
}

/// The hub as a plain value: its sessions by id, and the bound of each queue.
pub struct HubModel {
    pub sessions: Map<u128, SessionModel>,
    pub capacity: nat,
}

impl HubModel {
    pub open spec fn empty(capacity: nat) -> HubModel {
        HubModel { sessions: Map::empty(), capacity }
    }

    pub open spec fn wf(self) -> bool {
        &&& self.sessions.dom().finite()
        &&& forall|id: u128| #[trigger]
            self.sessions.contains_key(id) ==> self.sessions[id].wf(self.capacity)
    }

    pub open spec fn contains(self, id: u128) -> bool {
        self.sessions.contains_key(id)
    }

    /// The ids of the sessions that are viewing.
    pub open spec fn viewers(self) -> Set<u128> {
        Set::new(|id: u128| self.sessions.contains_key(id) && self.sessions[id].viewing)
    }

    /// A new session under `id`; an id that is taken changes nothing.
    pub open spec fn subscribe(self, id: u128) -> HubModel {
        if self.contains(id) {
            self
        } else {
            HubModel { sessions: self.sessions.insert(id, SessionModel::fresh()), ..self }
        }
    }

    pub open spec fn unsubscribe(self, id: u128) -> HubModel {
        HubModel { sessions: self.sessions.remove(id), ..self }
    }

    pub open spec fn authenticate(self, id: u128) -> HubModel {
        if self.contains(id) {
            HubModel {
                sessions: self.sessions.insert(
                    id,
                    SessionModel { authenticated: true, ..self.sessions[id] },
                ),
                ..self
            }
        } else {
            self
        }
    }

    /// Sets the viewing flag of an authenticated session; any other id changes
    /// nothing.
    pub open spec fn set_viewing(self, id: u128, viewing: bool) -> HubModel {
        if self.contains(id) && self.sessions[id].authenticated {
            HubModel {
                sessions: self.sessions.insert(id, SessionModel { viewing, ..self.sessions[id] }),
                ..self
            }
        } else {
            self
        }
    }

    /// The fan-out of one unit.
    pub open spec fn publish(self, unit: MediaUnit) -> HubModel {
        HubModel {
            sessions: Map::new(
                |id: u128| self.sessions.contains_key(id),
                |id: u128| self.sessions[id].deliver(unit, self.capacity),
            ),
            ..self
        }
    }

    /// Every session stops viewing.
    pub open spec fn orphan(self) -> HubModel {
        HubModel {
            sessions: Map::new(
                |id: u128| self.sessions.contains_key(id),
                |id: u128| SessionModel { viewing: false, ..self.sessions[id] },
            ),
            ..self
        }
    }

    /// The hub after the transport took the oldest unit of a session, and that unit.
    pub open spec fn take(self, id: u128) -> (HubModel, Option<MediaUnit>) {
        if self.contains(id) && self.sessions[id].outbound.len() > 0 {
            (
                HubModel {
                    sessions: self.sessions.insert(
                        id,
                        SessionModel {
                            outbound: self.sessions[id].outbound.drop_first(),
                            ..self.sessions[id]
                        },
                    ),
                    ..self
                },
                Some(self.sessions[id].outbound[0]),
            )
        } else {
            (self, None)
        }
    }

    /// Every operation keeps the invariant.
    pub proof fn lemma_operations_keep_wf(self, id: u128, unit: MediaUnit, flag: bool)
        requires
            self.wf(),
        ensures
            HubModel::empty(self.capacity).wf(),
            self.subscribe(id).wf(),
            self.unsubscribe(id).wf(),
            self.authenticate(id).wf(),
            self.set_viewing(id, flag).wf(),
            self.publish(unit).wf(),
            self.orphan().wf(),
            self.take(id).0.wf(),
    {
        assert(self.publish(unit).sessions.dom() =~= self.sessions.dom());
        assert(self.orphan().sessions.dom() =~= self.sessions.dom());
    }
}

/// One subscribed connection: its flags and its outbound queue.
pub struct ClientSession {
    id: u128,
    authenticated: bool,
    viewing: bool,
    outbound: BoundedQueue,
}

impl ClientSession {
    spec fn model(&self) -> SessionModel {
        SessionModel {
            authenticated: self.authenticated,
            viewing: self.viewing,
            outbound: self.outbound@,
        }
    }
}

spec fn holds(sessions: Seq<ClientSession>, id: u128) -> bool {
    exists|i: int| 0 <= i < sessions.len() && (#[trigger] sessions[i]).id == id
}

spec fn slot(sessions: Seq<ClientSession>, id: u128) -> int {
    choose|i: int| 0 <= i < sessions.len() && (#[trigger] sessions[i]).id == id
}

spec fn distinct(sessions: Seq<ClientSession>) -> bool {
    forall|i: int, j: int|
        0 <= i < j < sessions.len() ==> (#[trigger] sessions[i]).id != (#[trigger] sessions[j]).id
}

spec fn model_of(sessions: Seq<ClientSession>) -> Map<u128, SessionModel> {
    Map::new(|id: u128| holds(sessions, id), |id: u128| sessions[slot(sessions, id)].model())
}

proof fn lemma_slot(sessions: Seq<ClientSession>, i: int)
    requires
        distinct(sessions),
        0 <= i < sessions.len(),
    ensures
        holds(sessions, sessions[i].id),
        slot(sessions, sessions[i].id) == i,
        model_of(sessions).contains_key(sessions[i].id),
        model_of(sessions)[sessions[i].id] == sessions[i].model(),
{
    let id = sessions[i].id;
    assert(holds(sessions, id));
    let j = slot(sessions, id);
    assert(0 <= j < sessions.len() && sessions[j].id == id);
    if j < i {
        assert(sessions[j].id != sessions[i].id);
    } else if i < j {
        assert(sessions[i].id != sessions[j].id);
    }
}

proof fn lemma_held(sessions: Seq<ClientSession>, id: u128)
    requires
        holds(sessions, id),
    ensures
        0 <= slot(sessions, id) < sessions.len(),
        sessions[slot(sessions, id)].id == id,
{
}

/// The hub: every subscribed session, each with a queue of the same bound.
pub struct BroadcastHub {
    sessions: Vec<ClientSession>,
    capacity: usize,
}

impl View for BroadcastHub {
    type V = HubModel;

    closed spec fn view(&self) -> HubModel {
        HubModel { sessions: model_of(self.sessions@), capacity: self.capacity as nat }
    }
}

impl BroadcastHub {
    /// The invariant of a hub: that of its model, and ids that occur once.
    pub closed spec fn wf(&self) -> bool {
        &&& distinct(self.sessions@)
        &&& forall|i: int|
            0 <= i < self.sessions@.len() ==> {
                &&& (#[trigger] self.sessions@[i]).outbound.bound() == self.capacity
                &&& self.sessions@[i].model().wf(self.capacity as nat)
            }
    }

    /// A hub that is well formed has a well-formed model.
    pub proof fn lemma_model_wf(&self)
        requires
            self.wf(),
        ensures
            self@.wf(),
    {
        let sessions = self.sessions@;
        let ids = Set::new(|id: u128| holds(sessions, id));
        assert(self@.sessions.dom() =~= ids);
        Self::lemma_ids_finite(sessions);
        assert forall|id: u128| #[trigger]
            self@.sessions.contains_key(id) implies self@.sessions[id].wf(self@.capacity) by {
            lemma_held(sessions, id);
        }
    }

    proof fn lemma_ids_finite(sessions: Seq<ClientSession>)
        ensures
            Set::new(|id: u128| holds(sessions, id)).finite(),
        decreases sessions.len(),
    {
        let ids = Set::new(|id: u128| holds(sessions, id));
        if sessions.len() == 0 {
            assert(ids =~= Set::<u128>::empty());
        } else {
            let front = sessions.drop_last();
            let last = sessions.last();
            Self::lemma_ids_finite(front);
            let rest = Set::new(|id: u128| holds(front, id));
            assert forall|id: u128| ids.contains(id) <==> rest.insert(last.id).contains(id) by {
                if holds(sessions, id) {
                    let i = slot(sessions, id);
                    if i < front.len() {
                        assert(front[i].id == id);
                    }
                }
                if holds(front, id) {
                    let i = slot(front, id);
                    assert(sessions[i].id == id);
                }
                if id == last.id {
                    assert(sessions[sessions.len() - 1].id == id);
                }
            }
            assert(ids =~= rest.insert(last.id));
        }
    }

    /// A hub without sessions, whose queues will hold `capacity` units each.
    pub fn new(capacity: usize) -> (hub: BroadcastHub)
        ensures
            hub@ == HubModel::empty(capacity as nat),
            hub.wf(),
    {
        let hub = BroadcastHub { sessions: Vec::new(), capacity };
        assert(hub@.sessions =~= Map::<u128, SessionModel>::empty());
        hub
    }

    fn find(&self, id: u128) -> (at: Option<usize>)
        requires
            self.wf(),
        ensures
            at is Some <==> self@.contains(id),
            at matches Some(i) ==> i < self.sessions@.len() && self.sessions@[i as int].id == id
                && self@.sessions[id] == self.sessions@[i as int].model(),
    {
        let mut i: usize = 0;
        while i < self.sessions.len()
            invariant
                i <= self.sessions@.len(),
                self.wf(),
                forall|k: int| 0 <= k < i ==> (#[trigger] self.sessions@[k]).id != id,
            decreases self.sessions@.len() - i,
        {
            if self.sessions[i].id == id {
                proof {
                    lemma_slot(self.sessions@, i as int);
                }
                return Some(i);
            }
            i = i + 1;
        }
        None
    }
}

spec fn same_ids(before: Seq<ClientSession>, after: Seq<ClientSession>) -> bool {
    &&& after.len() == before.len()
    &&& forall|k: int| 0 <= k < before.len() ==> (#[trigger] after[k]).id == before[k].id
}

proof fn lemma_same_ids(before: Seq<ClientSession>, after: Seq<ClientSession>)
    requires
        distinct(before),
        same_ids(before, after),
    ensures
        distinct(after),
        forall|id: u128| holds(before, id) == holds(after, id),
        forall|id: u128| holds(before, id) ==> slot(before, id) == slot(after, id),
{
    assert forall|i: int, j: int| 0 <= i < j < after.len() implies (#[trigger] after[i]).id != (
    #[trigger] after[j]).id by {
        assert(before[i].id != before[j].id);
    }
    assert forall|id: u128| holds(before, id) == holds(after, id) by {
        if holds(before, id) {
            let i = slot(before, id);
            assert(after[i].id == id);
        }
        if holds(after, id) {
            let i = slot(after, id);
            assert(before[i].id == id);
        }
    }
    assert forall|id: u128| holds(before, id) implies slot(before, id) == slot(after, id) by {
        let i = slot(before, id);
        assert(after[i].id == id);
        lemma_slot(after, i);
    }
}

proof fn lemma_updated(before: Seq<ClientSession>, after: Seq<ClientSession>, i: int)
    requires
        distinct(before),
        same_ids(before, after),
        0 <= i < before.len(),
        forall|k: int|
            0 <= k < before.len() && k != i ==> (#[trigger] after[k]).model() == before[k].model(),
    ensures
        distinct(after),
        model_of(after) == model_of(before).insert(before[i].id, after[i].model()),
{
    lemma_same_ids(before, after);
    lemma_slot(before, i);
    lemma_slot(after, i);
    assert forall|id: u128| holds(after, id) implies #[trigger] model_of(after)[id] == model_of(
        before,
    ).insert(before[i].id, after[i].model())[id] by {
        lemma_held(after, id);
    }
    assert(model_of(after) =~= model_of(before).insert(before[i].id, after[i].model()));
}

proof fn lemma_mapped(
    before: Seq<ClientSession>,
    after: Seq<ClientSession>,
    change: spec_fn(SessionModel) -> SessionModel,
)
    requires
        distinct(before),
        same_ids(before, after),
        forall|k: int|
            0 <= k < before.len() ==> (#[trigger] after[k]).model() == change(before[k].model()),
    ensures
        distinct(after),
        model_of(after) == Map::new(
            |id: u128| model_of(before).contains_key(id),
            |id: u128| change(model_of(before)[id]),
        ),
{
    lemma_same_ids(before, after);
    let expected = Map::new(
        |id: u128| model_of(before).contains_key(id),
        |id: u128| change(model_of(before)[id]),
    );
    assert forall|id: u128| holds(after, id) implies #[trigger] model_of(after)[id] == expected[id] by {
        lemma_held(after, id);
    }
    assert(model_of(after) =~= expected);
}

proof fn lemma_pushed(before: Seq<ClientSession>, session: ClientSession)
    requires
        distinct(before),
        !holds(before, session.id),
    ensures
        distinct(before.push(session)),
        model_of(before.push(session)) == model_of(before).insert(session.id, session.model()),
{
    let after = before.push(session);
    assert forall|i: int, j: int| 0 <= i < j < after.len() implies (#[trigger] after[i]).id != (
    #[trigger] after[j]).id by {
        if j < before.len() {
            assert(before[i].id != before[j].id);
        } else {
            assert(before[i].id != session.id);
        }
    }
    lemma_slot(after, before.len() as int);
    assert forall|id: u128| holds(after, id) <==> (holds(before, id) || id == session.id) by {
        if holds(after, id) {
            let i = slot(after, id);
            if i < before.len() {
                assert(before[i].id == id);
            }
        }
        if holds(before, id) {
            let i = slot(before, id);
            assert(after[i].id == id);
        }
    }
    assert forall|id: u128| holds(before, id) implies #[trigger] model_of(after)[id] == model_of(
        before,
    )[id] by {
        let i = slot(before, id);
        assert(after[i] == before[i]);
        lemma_slot(after, i);
    }
    assert(model_of(after) =~= model_of(before).insert(session.id, session.model()));
}

proof fn lemma_removed(before: Seq<ClientSession>, i: int)
    requires
        distinct(before),
        0 <= i < before.len(),
    ensures
        distinct(before.remove(i)),
        model_of(before.remove(i)) == model_of(before).remove(before[i].id),
{
    let after = before.remove(i);
    let gone = before[i].id;
    assert forall|a: int, b: int| 0 <= a < b < after.len() implies (#[trigger] after[a]).id != (
    #[trigger] after[b]).id by {
        let x = if a < i { a } else { a + 1 };
        let y = if b < i { b } else { b + 1 };
        assert(before[x].id != before[y].id);
    }
    lemma_slot(before, i);
    assert forall|id: u128| holds(after, id) <==> (holds(before, id) && id != gone) by {
        if holds(after, id) {
            let a = slot(after, id);
            let x = if a < i { a } else { a + 1 };
            assert(before[x].id == id);
            if x < i {
                assert(before[x].id != before[i].id);
            } else {
                assert(before[i].id != before[x].id);
            }
        }
        if holds(before, id) && id != gone {
            let x = slot(before, id);
            let a = if x < i { x } else { x - 1 };
            assert(after[a].id == id);
        }
    }
    assert forall|id: u128| holds(after, id) implies #[trigger] model_of(after)[id] == model_of(
        before,
    )[id] by {
        let a = slot(after, id);
        let x = if a < i { a } else { a + 1 };
        assert(before[x] == after[a]);
        lemma_slot(before, x);
    }
    assert(model_of(after) =~= model_of(before).remove(gone));
}

impl BroadcastHub {
    /// The bound of every session's queue.
    pub fn capacity(&self) -> (capacity: usize)
        ensures
            capacity == self@.capacity,
    {
        self.capacity
    }

    /// Whether a session is subscribed under `id`.
    pub fn contains(&self, id: u128) -> (known: bool)
        requires
            self.wf(),
        ensures
            known == self@.contains(id),
    {
        self.find(id).is_some()
    }

    /// Whether the session of `id` is subscribed and authenticated.
    pub fn is_authenticated(&self, id: u128) -> (yes: bool)
        requires
            self.wf(),
        ensures
            yes == (self@.contains(id) && self@.sessions[id].authenticated),
    {
        match self.find(id) {
            Some(i) => self.sessions[i].authenticated,
            None => false,
        }
    }

    /// Whether the session of `id` is subscribed and viewing.
    pub fn is_viewing(&self, id: u128) -> (yes: bool)
        requires
            self.wf(),
        ensures
            yes == self@.viewers().contains(id),
    {
        match self.find(id) {
            Some(i) => self.sessions[i].viewing,
            None => false,
        }
    }

    /// The number of units that wait in the queue of `id`; 0 for an unknown id.
    pub fn pending(&self, id: u128) -> (count: usize)
        requires
            self.wf(),
        ensures
            count == (if self@.contains(id) {
                self@.sessions[id].outbound.len()
            } else {
                0
            }),
    {
        match self.find(id) {
            Some(i) => self.sessions[i].outbound.len(),
            None => 0,
        }
    }

    /// Subscribes a new session under `id`: unauthenticated, not viewing, with
    /// an empty queue. Says whether the id was free; a taken id changes nothing.
    pub fn subscribe(&mut self, id: u128) -> (added: bool)
        requires
            old(self).wf(),
        ensures
            final(self).wf(),
            final(self)@ == old(self)@.subscribe(id),
            added == !old(self)@.contains(id),
    {
        if self.find(id).is_some() {
            return false;
        }
        let session = ClientSession {
            id,
            authenticated: false,
            viewing: false,
            outbound: BoundedQueue::new(self.capacity),
        };
        proof {
            lemma_pushed(self.sessions@, session);
        }
        self.sessions.push(session);
        true
    }

    /// Drops the session of `id`, with whatever waits in its queue.
    pub fn unsubscribe(&mut self, id: u128)
        requires
            old(self).wf(),
        ensures
            final(self).wf(),
            final(self)@ == old(self)@.unsubscribe(id),
    {
        match self.find(id) {
            Some(i) => {
                proof {
                    lemma_removed(self.sessions@, i as int);
                }
                let _ = self.sessions.remove(i);
            },
            None => {
                assert(self@.sessions.remove(id) =~= self@.sessions);
            },
        }
    }

    /// Marks the session of `id` as authenticated.
    pub fn authenticate(&mut self, id: u128)
        requires
            old(self).wf(),
        ensures
            final(self).wf(),
            final(self)@ == old(self)@.authenticate(id),
    {
        match self.find(id) {
            Some(i) => {
                self.sessions[i].authenticated = true;
                proof {
                    lemma_updated(old(self).sessions@, self.sessions@, i as int);
                }
            },
            None => {},
        }
    }

    /// Sets the viewing flag of an authenticated session.
    pub fn set_viewing(&mut self, id: u128, viewing: bool)
        requires
            old(self).wf(),
        ensures
            final(self).wf(),
            final(self)@ == old(self)@.set_viewing(id, viewing),
    {
        match self.find(id) {
            Some(i) => {
                if self.sessions[i].authenticated {
                    self.sessions[i].viewing = viewing;
                    proof {
                        lemma_updated(old(self).sessions@, self.sessions@, i as int);
                    }
                }
            },
            None => {},
        }
    }

    /// Takes the oldest waiting unit of a session for the transport.
    pub fn take(&mut self, id: u128) -> (unit: Option<VideoCommand>)
        requires
            old(self).wf(),
        ensures
            final(self).wf(),
            final(self)@ == old(self)@.take(id).0,
            unit is Some == old(self)@.take(id).1 is Some,
            unit matches Some(u) ==> old(self)@.take(id).1 == Some(u@),
    {
        match self.find(id) {
            Some(i) => {
                let unit = self.sessions[i].outbound.take();
                proof {
                    if unit is Some {
                        lemma_updated(old(self).sessions@, self.sessions@, i as int);
                    } else {
                        assert(self.sessions@[i as int].model() == old(self).sessions@[i as int].model());
                        lemma_updated(old(self).sessions@, self.sessions@, i as int);
                        assert(self@.sessions =~= old(self)@.sessions);
                    }
                }
                unit
            },
            None => None,
        }
    }
}

impl BroadcastHub {
    /// Fans a unit out: every session that is authenticated and viewing gets a
    /// copy behind what already waits, unless its queue is full; then the unit
    /// is dropped for that session alone. No other session changes.
    pub fn publish(&mut self, unit: &VideoCommand)
        requires
            old(self).wf(),
        ensures
            final(self).wf(),
            final(self)@ == old(self)@.publish(unit@),
    {
        let ghost capacity = self.capacity as nat;
        let ghost change = |s: SessionModel| s.deliver(unit@, capacity);
        let mut i: usize = 0;
        while i < self.sessions.len()
            invariant
                i <= self.sessions@.len(),
                self.capacity == old(self).capacity,
                capacity == self.capacity,
                change == (|s: SessionModel| s.deliver(unit@, capacity)),
                old(self).wf(),
                same_ids(old(self).sessions@, self.sessions@),
                forall|k: int|
                    0 <= k < self.sessions@.len() ==> (#[trigger] self.sessions@[k]).outbound.bound()
                        == self.capacity,
                forall|k: int|
                    0 <= k < i ==> (#[trigger] self.sessions@[k]).model() == change(
                        old(self).sessions@[k].model(),
                    ),
                forall|k: int|
                    i <= k < self.sessions@.len() ==> (#[trigger] self.sessions@[k]).model() == old(
                        self,
                    ).sessions@[k].model(),
            decreases self.sessions@.len() - i,
        {
            if self.sessions[i].authenticated && self.sessions[i].viewing
                && self.sessions[i].outbound.len() < self.capacity {
                let copy = unit.clone();
                let _ = self.sessions[i].outbound.offer(copy);
            }
            i = i + 1;
        }
        proof {
            lemma_mapped(old(self).sessions@, self.sessions@, change);
            assert(self@.sessions =~= old(self)@.publish(unit@).sessions);
            assert forall|k: int| 0 <= k < self.sessions@.len() implies (
            #[trigger] self.sessions@[k]).model().wf(capacity) by {
                assert(old(self).sessions@[k].model().wf(capacity));
            }
        }
    }

    /// Makes every session stop viewing; nothing else of a session changes.
    pub fn orphan(&mut self)
        requires
            old(self).wf(),
        ensures
            final(self).wf(),
            final(self)@ == old(self)@.orphan(),
    {
        let ghost change = |s: SessionModel| SessionModel { viewing: false, ..s };
        let mut i: usize = 0;
        while i < self.sessions.len()
            invariant
                i <= self.sessions@.len(),
                self.capacity == old(self).capacity,
                change == (|s: SessionModel| SessionModel { viewing: false, ..s }),
                old(self).wf(),
                same_ids(old(self).sessions@, self.sessions@),
                forall|k: int|
                    0 <= k < self.sessions@.len() ==> (#[trigger] self.sessions@[k]).outbound.bound()
                        == self.capacity,
                forall|k: int|
                    0 <= k < i ==> (#[trigger] self.sessions@[k]).model() == change(
                        old(self).sessions@[k].model(),
                    ),
                forall|k: int|
                    i <= k < self.sessions@.len() ==> (#[trigger] self.sessions@[k]).model() == old(
                        self,
                    ).sessions@[k].model(),
            decreases self.sessions@.len() - i,
        {
            self.sessions[i].viewing = false;
            i = i + 1;
        }
        proof {
            lemma_mapped(old(self).sessions@, self.sessions@, change);
            assert(self@.sessions =~= old(self)@.orphan().sessions);
            assert forall|k: int| 0 <= k < self.sessions@.len() implies (
            #[trigger] self.sessions@[k]).model().wf(self.capacity as nat) by {
                assert(old(self).sessions@[k].model().wf(self.capacity as nat));
            }
        }
    }
}

} // verus!
