//! The relay hub: the registry of viewer connections and the fan-out of every
//! frame to all of them.

use vstd::prelude::*;
use crate::frame::TelemetryData;
use crate::protocol::PayloadKind;

verus! {

/// The session description: track, roster and session configuration, kept as
/// the JSON text the producer sent. The relay never looks inside it.
#[derive(Clone, Debug, PartialEq)]
pub struct SessionSnapshot {
    pub json: String,
}

/// What the hub sends to each viewer.
#[derive(Clone, Debug, PartialEq)]
pub enum Message {
    Telemetry(TelemetryData),
    Session(SessionSnapshot),
}

impl Message {
    /// The kind of payload the message carries.
    pub fn kind(&self) -> (k: PayloadKind)
        ensures
            k == (match self {
                Message::Telemetry(_) => PayloadKind::Telemetry,
                Message::Session(_) => PayloadKind::Session,
            }),
    {
        match self {
            Message::Telemetry(_) => PayloadKind::Telemetry,
            Message::Session(_) => PayloadKind::Session,
        }
    }
}

/// A handle that accepts messages for one viewer.
///
/// `deliver` must not block: a viewer that cannot take the message now drops
/// it and answers `false`.
pub trait Outlet {
    fn deliver(&self, msg: &Message) -> bool;
}

/// A registered viewer: its id and its handle.
pub struct ConnectionRecord<H> {
    pub id: usize,
    pub handle: H,
}

/// The outcome of one delivery attempt during a broadcast.
#[derive(Clone, Copy, Debug, PartialEq, Eq, Structural)]
pub struct Delivery {
    pub id: usize,
    pub accepted: bool,
}

/// The hub's state: the registered viewers in order of registration, the
/// number of ids handed out so far, and the last session snapshot received.
pub struct TelemetryServer<H> {
    connections: Vec<ConnectionRecord<H>>,
    cnt: usize,
    session_data: Option<SessionSnapshot>,
    /// Every id handed out, in order.
    issued: Ghost<Seq<usize>>,
}

impl<H> TelemetryServer<H> {
    /// The registered viewers, oldest first.
    pub closed spec fn records(&self) -> Seq<ConnectionRecord<H>> {
        self.connections@
    }

    /// The number of ids handed out so far; the last one, if any.
    pub closed spec fn count(&self) -> usize {
        self.cnt
    }

    /// Every id handed out so far, in order.
    pub closed spec fn issued_ids(&self) -> Seq<usize> {
        self.issued@
    }

    /// The last session snapshot received, if any.
    pub closed spec fn cached_session(&self) -> Option<SessionSnapshot> {
        self.session_data
    }

    /// The ids of the registered viewers, oldest first.
    pub open spec fn ids(&self) -> Seq<usize> {
        self.records().map_values(|r: ConnectionRecord<H>| r.id)
    }

    /// Ids are handed out as 1, 2, 3, ...; the registered ones are among them,
    /// in increasing order.
    pub open spec fn wf(&self) -> bool {
        &&& self.issued_ids().len() == self.count()
        &&& forall|i: int| 0 <= i < self.issued_ids().len() ==> self.issued_ids()[i] == i + 1
        &&& forall|i: int| 0 <= i < self.ids().len() ==> 1 <= #[trigger] self.ids()[i] <= self.count()
        &&& forall|i: int, j: int| 0 <= i < j < self.ids().len() ==> self.ids()[i] < self.ids()[j]
    }

    /// An empty hub: no viewers, no id handed out, no snapshot.
    pub fn new() -> (r: Self)
        ensures
            r.wf(),
            r.records().len() == 0,
            r.count() == 0,
            r.issued_ids().len() == 0,
            r.cached_session() is None,
    {
        TelemetryServer {
            connections: Vec::new(),
            cnt: 0,
            session_data: None,
            issued: Ghost(Seq::empty()),
        }
    }

    /// The number of ids handed out so far.
    pub fn cnt(&self) -> (n: usize)
        ensures
            n == self.count(),
    {
        self.cnt
    }

    /// The last session snapshot received, if any.
    pub fn session_data(&self) -> (r: &Option<SessionSnapshot>)
        ensures
            *r == self.cached_session(),
    {
        &self.session_data
    }

    /// The number of registered viewers.
    pub fn len(&self) -> (n: usize)
        ensures
            n == self.records().len(),
    {
        self.connections.len()
    }

    /// The ids of the registered viewers, oldest first.
    pub fn connection_ids(&self) -> (r: Vec<usize>)
        ensures
            r@ == self.ids(),
    {
        let mut r: Vec<usize> = Vec::new();
        let mut i: usize = 0;
        while i < self.connections.len()
            invariant
                i <= self.records().len(),
                r@ =~= self.ids().subrange(0, i as int),
            decreases self.records().len() - i,
        {
            r.push(self.connections[i].id);
            i = i + 1;
            assert(r@ =~= self.ids().subrange(0, i as int));
        }
        assert(self.ids().subrange(0, i as int) =~= self.ids());
        r
    }

    /// Registers a viewer's handle under a fresh id and returns the id.
    pub fn register(&mut self, handle: H) -> (id: usize)
        requires
            old(self).wf(),
            old(self).count() < usize::MAX,
        ensures
            final(self).wf(),
            id == old(self).count() + 1,
            final(self).count() == id,
            final(self).issued_ids() == old(self).issued_ids().push(id),
            final(self).records() == old(self).records().push(ConnectionRecord { id, handle }),
            final(self).cached_session() == old(self).cached_session(),
    {
        self.cnt = self.cnt + 1;
        let id = self.cnt;
        self.connections.push(ConnectionRecord { id, handle });
        self.issued = Ghost(self.issued@.push(id));
        proof {
            let ids = self.ids();
            assert(ids =~= old(self).ids().push(id));
            assert forall|i: int| 0 <= i < ids.len() implies 1 <= #[trigger] ids[i] <= self.cnt by {
                if i < ids.len() - 1 {
                    assert(ids[i] == old(self).ids()[i]);
                }
            }
        }
        id
    }

    /// Removes the viewer registered under `id`; an id that is not registered
    /// leaves the hub as it is.
    pub fn deregister(&mut self, id: usize)
        requires
            old(self).wf(),
        ensures
            final(self).wf(),
            final(self).count() == old(self).count(),
            final(self).issued_ids() == old(self).issued_ids(),
            final(self).cached_session() == old(self).cached_session(),
            !final(self).ids().contains(id),
            forall|k: usize| k != id ==> (final(self).ids().contains(k) <==> old(self).ids().contains(k)),
            old(self).ids().contains(id) ==> exists|i: int|
                0 <= i < old(self).records().len() && old(self).records()[i].id == id
                    && final(self).records() == old(self).records().remove(i),
            !old(self).ids().contains(id) ==> final(self).records() == old(self).records(),
    {
        let mut i: usize = 0;
        while i < self.connections.len()
            invariant
                self == old(self),
                old(self).wf(),
                i <= self.records().len(),
                forall|j: int| 0 <= j < i ==> self.ids()[j] != id,
            decreases self.records().len() - i,
        {
            if self.connections[i].id == id {
                let ghost before = self.ids();
                self.connections.remove(i);
                proof {
                    let ids = self.ids();
                    assert(ids =~= before.remove(i as int));
                    assert(before[i as int] == id);
                    assert forall|k: int| 0 <= k < ids.len() implies ids[k] != id by {
                        if k < i {
                            assert(ids[k] == before[k]);
                        } else {
                            assert(ids[k] == before[k + 1]);
                            assert(old(self).ids()[k + 1] == before[k + 1]);
                            assert(old(self).ids()[i as int] < old(self).ids()[k + 1]);
                        }
                    }
                    assert forall|k: int| 0 <= k < ids.len() implies 1 <= #[trigger] ids[k] <= self.cnt by {
                        if k >= i {
                            assert(ids[k] == before[k + 1]);
                            assert(old(self).ids()[k + 1] == before[k + 1]);
                        } else {
                            assert(old(self).ids()[k] == before[k]);
                        }
                    }
                    assert forall|k: usize| k != id implies (ids.contains(k) <==> before.contains(k)) by {
                        if ids.contains(k) {
                            let m = choose|m: int| 0 <= m < ids.len() && ids[m] == k;
                            if m < i {
                                assert(before[m] == k);
                            } else {
                                assert(before[m + 1] == k);
                            }
                        }
                        if before.contains(k) {
                            let m = choose|m: int| 0 <= m < before.len() && before[m] == k;
                            if m < i {
                                assert(ids[m] == k);
                            } else if m > i {
                                assert(ids[m - 1] == k);
                            }
                        }
                    }
                    assert forall|a: int, b: int| 0 <= a < b < ids.len() implies ids[a] < ids[b] by {
                        let a2 = if a < i { a } else { a + 1 };
                        let b2 = if b < i { b } else { b + 1 };
                        assert(ids[a] == before[a2]);
                        assert(ids[b] == before[b2]);
                    }
                }
                return;
            }
            i = i + 1;
        }
        proof {
            assert forall|k: int| 0 <= k < self.ids().len() implies self.ids()[k] != id by {}
        }
    }
}

impl<H> Default for TelemetryServer<H> {
    /// An empty hub.
    fn default() -> (r: Self)
        ensures
            r.wf(),
            r.records().len() == 0,
            r.count() == 0,
            r.issued_ids().len() == 0,
            r.cached_session() is None,
    {
        Self::new()
    }
}

impl<H: Outlet> TelemetryServer<H> {
    /// Offers `msg` once to every registered viewer, oldest first. A viewer that
    /// refuses it is passed over; the others still get it.
    pub fn broadcast(&self, msg: &Message) -> (r: Vec<Delivery>)
        ensures
            r@.len() == self.ids().len(),
            forall|i: int| 0 <= i < r@.len() ==> (#[trigger] r@[i]).id == self.ids()[i],
    {
        let mut r: Vec<Delivery> = Vec::new();
        let mut i: usize = 0;
        while i < self.connections.len()
            invariant
                i <= self.records().len(),
                r@.len() == i,
                forall|j: int| 0 <= j < i ==> (#[trigger] r@[j]).id == self.ids()[j],
            decreases self.records().len() - i,
        {
            let rec = &self.connections[i];
            let accepted = rec.handle.deliver(msg);
            r.push(Delivery { id: rec.id, accepted });
            assert(self.ids()[i as int] == rec.id);
            i = i + 1;
        }
        r
    }

    /// Relays a telemetry frame to every registered viewer.
    pub fn handle_telemetry(&self, frame: TelemetryData) -> (r: Vec<Delivery>)
        ensures
            r@.len() == self.ids().len(),
            forall|i: int| 0 <= i < r@.len() ==> (#[trigger] r@[i]).id == self.ids()[i],
    {
        self.broadcast(&Message::Telemetry(frame))
    }

    /// Keeps `snapshot` as the latest session and relays it to every registered
    /// viewer.
    pub fn handle_session(&mut self, snapshot: SessionSnapshot) -> (r: Vec<Delivery>)
        requires
            old(self).wf(),
        ensures
            final(self).wf(),
            r@.len() == old(self).ids().len(),
            forall|i: int| 0 <= i < r@.len() ==> (#[trigger] r@[i]).id == old(self).ids()[i],
            final(self).records() == old(self).records(),
            final(self).count() == old(self).count(),
            final(self).issued_ids() == old(self).issued_ids(),
            final(self).cached_session() == Some(snapshot),
    {
        let msg = Message::Session(snapshot);
        let r = self.broadcast(&msg);
        match msg {
            Message::Session(s) => {
                self.session_data = Some(s);
            },
            Message::Telemetry(_) => {},
        }
        r
    }
}

/// Every id the hub hands out is larger than all ids handed out before it, so
/// no id is handed out twice, whatever registrations and deregistrations came
/// in between: every hub is well formed, and the next id is `count() + 1`.
pub proof fn lemma_ids_increase<H>(h: TelemetryServer<H>)
    requires
        h.wf(),
    ensures
        forall|i: int, j: int|
            0 <= i < j < h.issued_ids().len() ==> h.issued_ids()[i] < h.issued_ids()[j],
        forall|i: int| 0 <= i < h.issued_ids().len() ==> h.issued_ids()[i] < h.count() + 1,
        forall|i: int| 0 <= i < h.ids().len() ==> h.issued_ids().contains(#[trigger] h.ids()[i]),
{
    assert forall|i: int| 0 <= i < h.ids().len() implies h.issued_ids().contains(#[trigger] h.ids()[i]) by {
        let k = h.ids()[i] - 1;
        assert(h.issued_ids()[k] == h.ids()[i]);
    }
}

/// A broadcast reaches each registered viewer exactly once: each registered id
/// stands in the report once, and no other id does.
pub proof fn lemma_fan_out_once<H>(h: TelemetryServer<H>, report: Seq<Delivery>)
    requires
        h.wf(),
        report.len() == h.ids().len(),
        forall|i: int| 0 <= i < report.len() ==> (#[trigger] report[i]).id == h.ids()[i],
    ensures
        report.len() == h.records().len(),
        forall|id: usize| h.ids().contains(id) <==> exists|i: int| 0 <= i < report.len() && report[i].id == id,
        forall|i: int, j: int| 0 <= i < report.len() && 0 <= j < report.len() && report[i].id == report[j].id ==> i == j,
{
    let ids = h.ids();
    assert forall|id: usize| h.ids().contains(id) <==> exists|i: int| 0 <= i < report.len() && report[i].id == id by {
        if h.ids().contains(id) {
            let k = choose|k: int| 0 <= k < h.ids().len() && h.ids()[k] == id;
            assert(ids[k] == report[k].id);
        }
        if exists|i: int| 0 <= i < report.len() && report[i].id == id {
            let i = choose|i: int| 0 <= i < report.len() && report[i].id == id;
            assert(ids[i] == id);
        }
    }
    assert forall|i: int, j: int| 0 <= i < report.len() && 0 <= j < report.len() && report[i].id == report[j].id implies i == j by {
        assert(ids[i] == report[i].id);
        assert(ids[j] == report[j].id);
        if i < j {
            assert(h.ids()[i] < h.ids()[j]);
        } else if j < i {
            assert(h.ids()[j] < h.ids()[i]);
        }
    }
}

} // verus!
