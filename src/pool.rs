//! The registry of client sessions: admission under a bound, strictly
//! increasing ids, termination requests and removal of ended sessions.
use vstd::prelude::*;

verus! {

/// The id that no client ever gets: a termination notice for it stops the
/// pool's termination listener.
pub const CLIENT_POOL_RESERVED_ID: usize = 0;

/// The largest TCP port.
pub const MAX_PORT: usize = 65535;

/// What the front-end learns of a client.
#[derive(Debug, Clone, PartialEq, Eq)]
pub struct ClientInfo {
    pub id: usize,
    pub address: String,
    pub port: usize,
}

/// The mathematical value of a `ClientInfo`.
pub struct ClientInfoModel {
    pub id: nat,
    pub address: Seq<char>,
    pub port: nat,
}

impl View for ClientInfo {
    type V = ClientInfoModel;

    open spec fn view(&self) -> ClientInfoModel {
        ClientInfoModel { id: self.id as nat, address: self.address@, port: self.port as nat }
    }
}

/// A client of the pool and whether the server asked its session to end.
pub struct RecordModel {
    pub info: ClientInfoModel,
    pub exit_requested: bool,
}

/// The mathematical value of a pool.
pub struct PoolModel {
    /// The id that the next admitted client gets.
    pub next_id: nat,
    pub max_clients: nat,
    /// Client `id` listens on `base_port + id`.
    pub base_port: nat,
    /// The clients, by increasing id.
    pub records: Seq<RecordModel>,
}

/// Why the pool refused a request.
#[derive(Debug, Clone, Copy, PartialEq, Eq, Structural)]
pub enum PoolError {
    /// As many clients as allowed are connected.
    PoolFull,
    /// The next client's port would be past the largest TCP port.
    PortsExhausted,
    /// No client has this id.
    NotFound(usize),
}

/// What a termination notice did to the pool.
#[derive(Debug, Clone, PartialEq, Eq)]
pub enum TerminationOutcome {
    /// The reserved id: the termination listener stops.
    Stop,
    /// The client was removed; its removal is published once, here.
    Removed(ClientInfo),
    /// No client has this id any more: the notice is ignored.
    Ignored(usize),
}

impl PoolModel {
    pub open spec fn wf(self) -> bool {
        &&& self.next_id >= 1
        &&& self.records.len() <= self.max_clients
        &&& forall|i: int|
            0 <= i < self.records.len() ==> {
                &&& 1 <= #[trigger] self.records[i].info.id < self.next_id
                &&& self.records[i].info.port == self.base_port + self.records[i].info.id
            }
        &&& forall|i: int, j: int|
            0 <= i < j < self.records.len() ==> #[trigger] self.records[i].info.id
                < #[trigger] self.records[j].info.id
    }

    /// Whether a client with this id is in the pool.
    pub open spec fn has(self, id: nat) -> bool {
        exists|i: int| 0 <= i < self.records.len() && #[trigger] self.records[i].info.id == id
    }

    /// Where the client with this id stands.
    pub open spec fn position(self, id: nat) -> int {
        choose|i: int| 0 <= i < self.records.len() && #[trigger] self.records[i].info.id == id
    }

    /// Whether the session of client `id` must end: it was asked to, or it
    /// is no longer in the pool.
    pub open spec fn should_exit(self, id: nat) -> bool {
        !self.has(id) || self.records[self.position(id)].exit_requested
    }

    /// Admission of a client from `address`.
    pub open spec fn add(self, address: Seq<char>) -> (PoolModel, Result<ClientInfoModel, PoolError>) {
        if self.records.len() >= self.max_clients {
            (self, Err(PoolError::PoolFull))
        } else if self.base_port + self.next_id > MAX_PORT {
            (self, Err(PoolError::PortsExhausted))
        } else {
            let info = ClientInfoModel {
                id: self.next_id,
                address,
                port: self.base_port + self.next_id,
            };
            (
                PoolModel {
                    next_id: self.next_id + 1,
                    records: self.records.push(RecordModel { info, exit_requested: false }),
                    ..self
                },
                Ok(info),
            )
        }
    }

    /// A request from the server that client `id` ends.
    pub open spec fn terminate(self, id: nat) -> (PoolModel, Result<(), PoolError>) {
        if self.has(id) {
            let i = self.position(id);
            (
                PoolModel {
                    records: self.records.update(
                        i,
                        RecordModel { exit_requested: true, ..self.records[i] },
                    ),
                    ..self
                },
                Ok(()),
            )
        } else {
            (self, Err(PoolError::NotFound(id as usize)))
        }
    }

    /// Every client is dropped; ids are not handed out again.
    pub open spec fn clear(self) -> PoolModel {
        PoolModel { records: Seq::empty(), ..self }
    }

    /// A termination notice for `id`: the pool after it, and the client that
    /// left, if one did.
    pub open spec fn notice(self, id: nat) -> (PoolModel, Option<ClientInfoModel>) {
        if id != CLIENT_POOL_RESERVED_ID && self.has(id) {
            let i = self.position(id);
            (PoolModel { records: self.records.remove(i), ..self }, Some(self.records[i].info))
        } else {
            (self, None)
        }
    }
}

/// One operation on a pool.
pub enum PoolOp {
    Add(Seq<char>),
    Terminate(nat),
    Clear,
    Notice(nat),
}

/// The pool after one operation.
pub open spec fn apply_op(p: PoolModel, op: PoolOp) -> PoolModel {
    match op {
        PoolOp::Add(a) => p.add(a).0,
        PoolOp::Terminate(id) => p.terminate(id).0,
        PoolOp::Clear => p.clear(),
        PoolOp::Notice(id) => p.notice(id).0,
    }
}

/// The pool after a sequence of operations.
pub open spec fn run_ops(p: PoolModel, ops: Seq<PoolOp>) -> PoolModel
    decreases ops.len(),
{
    if ops.len() == 0 {
        p
    } else {
        run_ops(apply_op(p, ops[0]), ops.drop_first())
    }
}

/// Every operation keeps a pool well formed and never lowers the next id.
pub proof fn lemma_op_preserves(p: PoolModel, op: PoolOp)
    requires
        p.wf(),
    ensures
        apply_op(p, op).wf(),
        apply_op(p, op).next_id >= p.next_id,
        apply_op(p, op).max_clients == p.max_clients,
        apply_op(p, op).base_port == p.base_port,
{
    match op {
        PoolOp::Add(a) => {
            let q = p.add(a).0;
            if p.records.len() < p.max_clients && p.base_port + p.next_id <= MAX_PORT {
                assert forall|i: int, j: int|
                    0 <= i < j < q.records.len() implies #[trigger] q.records[i].info.id
                    < #[trigger] q.records[j].info.id by {
                    if j == p.records.len() {
                        assert(q.records[i] == p.records[i]);
                    } else {
                        assert(q.records[i] == p.records[i]);
                        assert(q.records[j] == p.records[j]);
                    }
                }
                assert forall|i: int| 0 <= i < q.records.len() implies {
                    &&& 1 <= #[trigger] q.records[i].info.id < q.next_id
                    &&& q.records[i].info.port == q.base_port + q.records[i].info.id
                } by {
                    if i < p.records.len() {
                        assert(q.records[i] == p.records[i]);
                    }
                }
            }
        },
        PoolOp::Terminate(id) => {
            let q = p.terminate(id).0;
            if p.has(id) {
                let k = p.position(id);
                assert forall|i: int| 0 <= i < q.records.len() implies #[trigger] q.records[i].info
                    == p.records[i].info by {
                    if i == k {
                    }
                }
                assert forall|i: int, j: int|
                    0 <= i < j < q.records.len() implies #[trigger] q.records[i].info.id
                    < #[trigger] q.records[j].info.id by {
                    assert(q.records[i].info == p.records[i].info);
                    assert(q.records[j].info == p.records[j].info);
                }
                assert forall|i: int| 0 <= i < q.records.len() implies {
                    &&& 1 <= #[trigger] q.records[i].info.id < q.next_id
                    &&& q.records[i].info.port == q.base_port + q.records[i].info.id
                } by {
                    assert(q.records[i].info == p.records[i].info);
                }
            }
        },
        PoolOp::Clear => {},
        PoolOp::Notice(id) => {
            let q = p.notice(id).0;
            if id != CLIENT_POOL_RESERVED_ID && p.has(id) {
                let k = p.position(id);
                assert forall|i: int| 0 <= i < q.records.len() implies #[trigger] q.records[i]
                    == p.records[if i < k { i } else { i + 1 }] by {}
                assert forall|i: int, j: int|
                    0 <= i < j < q.records.len() implies #[trigger] q.records[i].info.id
                    < #[trigger] q.records[j].info.id by {
                    let a = if i < k { i } else { i + 1 };
                    let b = if j < k { j } else { j + 1 };
                    assert(q.records[i] == p.records[a]);
                    assert(q.records[j] == p.records[b]);
                }
                assert forall|i: int| 0 <= i < q.records.len() implies {
                    &&& 1 <= #[trigger] q.records[i].info.id < q.next_id
                    &&& q.records[i].info.port == q.base_port + q.records[i].info.id
                } by {
                    let a = if i < k { i } else { i + 1 };
                    assert(q.records[i] == p.records[a]);
                }
            }
        },
    }
}

/// Runs of operations keep a pool well formed and never lower the next id.
pub proof fn lemma_run_preserves(p: PoolModel, ops: Seq<PoolOp>)
    requires
        p.wf(),
    ensures
        run_ops(p, ops).wf(),
        run_ops(p, ops).next_id >= p.next_id,
    decreases ops.len(),
{
    if ops.len() > 0 {
        lemma_op_preserves(p, ops[0]);
        lemma_run_preserves(apply_op(p, ops[0]), ops.drop_first());
    }
}

/// Ids are never 0 and never handed out twice: a client admitted after any
/// operations that follow the admission of another, terminations and clears
/// included, gets a strictly larger id.
pub proof fn lemma_ids_increase(p: PoolModel, first: Seq<char>, ops: Seq<PoolOp>, second: Seq<char>)
    requires
        p.wf(),
    ensures
        ({
            let (q, r1) = p.add(first);
            let (_, r2) = run_ops(q, ops).add(second);
            &&& r1 matches Ok(a) ==> a.id != CLIENT_POOL_RESERVED_ID
            &&& (r1 is Ok && r2 is Ok) ==> r1->Ok_0.id < r2->Ok_0.id
        }),
{
    let (q, r1) = p.add(first);
    lemma_op_preserves(p, PoolOp::Add(first));
    assert(q == apply_op(p, PoolOp::Add(first)));
    lemma_run_preserves(q, ops);
}

/// The pool never holds more clients than allowed, and an admission while it
/// is full is refused and changes nothing.
pub proof fn lemma_admission_bound(p: PoolModel, ops: Seq<PoolOp>, address: Seq<char>)
    requires
        p.wf(),
    ensures
        run_ops(p, ops).records.len() <= p.max_clients,
        run_ops(p, ops).records.len() == p.max_clients ==> run_ops(p, ops).add(address) == (
        run_ops(p, ops), Err::<ClientInfoModel, PoolError>(PoolError::PoolFull)),
    decreases ops.len(),
{
    if ops.len() > 0 {
        lemma_op_preserves(p, ops[0]);
        lemma_admission_bound(apply_op(p, ops[0]), ops.drop_first(), address);
    }
}

/// The model of an admission's result.
pub open spec fn admission_model(r: Result<ClientInfo, PoolError>) -> Result<ClientInfoModel, PoolError> {
    match r {
        Ok(info) => Ok(info@),
        Err(e) => Err(e),
    }
}

/// The model of a termination notice's outcome.
pub open spec fn outcome_model(r: TerminationOutcome) -> Option<ClientInfoModel> {
    match r {
        TerminationOutcome::Removed(info) => Some(info@),
        _ => None,
    }
}

/// Registry of the connected clients.
pub struct ClientPool {
    client_id_counter: usize,
    max_concurrent_clients_allowed: usize,
    base_port: usize,
    /// The clients, by increasing id.
    clients: Vec<ClientInfo>,
    /// `exit_flags[i]` says whether the session of `clients[i]` was asked to end.
    exit_flags: Vec<bool>,
}

impl View for ClientPool {
    type V = PoolModel;

    closed spec fn view(&self) -> PoolModel {
        PoolModel {
            next_id: self.client_id_counter as nat,
            max_clients: self.max_concurrent_clients_allowed as nat,
            base_port: self.base_port as nat,
            records: Seq::new(
                self.clients@.len(),
                |i: int| RecordModel { info: self.clients@[i]@, exit_requested: self.exit_flags@[i] },
            ),
        }
    }
}

fn copy_info(info: &ClientInfo) -> (r: ClientInfo)
    ensures
        r == *info,
{
    ClientInfo { id: info.id, address: info.address.clone(), port: info.port }
}

/// In a well-formed pool a client's id tells where it stands.
proof fn lemma_position_unique(p: PoolModel, i: int)
    requires
        p.wf(),
        0 <= i < p.records.len(),
    ensures
        p.has(p.records[i].info.id),
        p.position(p.records[i].info.id) == i,
{
    let id = p.records[i].info.id;
    assert(p.records[i].info.id == id);
    let k = p.position(id);
    if k < i {
        assert(p.records[k].info.id < p.records[i].info.id);
    } else if k > i {
        assert(p.records[i].info.id < p.records[k].info.id);
    }
}

impl ClientPool {
    pub closed spec fn wf(&self) -> bool {
        &&& self@.wf()
        &&& self.clients@.len() == self.exit_flags@.len()
    }

    /// An empty pool that admits up to `max_clients` clients, client `id`
    /// listening on `base_port + id`.
    pub fn new(base_port: usize, max_clients: usize) -> (r: Self)
        ensures
            r.wf(),
            r@.wf(),
            r@ == (PoolModel {
                next_id: 1,
                max_clients: max_clients as nat,
                base_port: base_port as nat,
                records: Seq::empty(),
            }),
    {
        let r = ClientPool {
            client_id_counter: 1,
            max_concurrent_clients_allowed: max_clients,
            base_port,
            clients: Vec::new(),
            exit_flags: Vec::new(),
        };
        assert(r@.records =~= Seq::<RecordModel>::empty());
        r
    }

    /// Where the client with this id stands, if it is in the pool.
    fn find(&self, id: usize) -> (r: Option<usize>)
        requires
            self.wf(),
        ensures
            self@.wf(),
            r matches Some(i) ==> i < self.clients@.len() && self@.has(id as nat) && self@.position(
                id as nat,
            ) == i,
            r is None ==> !self@.has(id as nat),
    {
        let mut i: usize = 0;
        while i < self.clients.len()
            invariant
                self.wf(),
                i <= self.clients@.len(),
                forall|j: int| 0 <= j < i ==> #[trigger] self@.records[j].info.id != id as nat,
            decreases self.clients@.len() - i,
        {
            assert(self@.records[i as int].info == self.clients@[i as int]@);
            if self.clients[i].id == id {
                proof {
                    lemma_position_unique(self@, i as int);
                }
                return Some(i);
            }
            i += 1;
        }
        None
    }

    /// Admits a client from `address`: it gets the next id and the port
    /// `base_port + id`. Refused when the pool is full or the port would be
    /// past the largest TCP port.
    pub fn add(&mut self, address: String) -> (r: Result<ClientInfo, PoolError>)
        requires
            old(self).wf(),
        ensures
            final(self).wf(),
            final(self)@.wf(),
            final(self)@ == old(self)@.add(address@).0,
            admission_model(r) == old(self)@.add(address@).1,
    {
        if self.clients.len() >= self.max_concurrent_clients_allowed {
            return Err(PoolError::PoolFull);
        }
        if self.base_port > MAX_PORT || self.client_id_counter > MAX_PORT - self.base_port {
            return Err(PoolError::PortsExhausted);
        }
        let id = self.client_id_counter;
        let info = ClientInfo { id, address, port: self.base_port + id };
        let ghost before = self@;
        self.clients.push(copy_info(&info));
        self.exit_flags.push(false);
        self.client_id_counter = id + 1;
        proof {
            let rec = RecordModel { info: info@, exit_requested: false };
            assert(self@.records =~= before.records.push(rec));
            lemma_op_preserves(before, PoolOp::Add(info.address@));
        }
        Ok(info)
    }

    /// Asks the session of client `id` to end. The caller posts a
    /// termination notice for `id` once it has answered the request.
    pub fn terminate_client(&mut self, client_id: usize) -> (r: Result<(), PoolError>)
        requires
            old(self).wf(),
        ensures
            final(self).wf(),
            final(self)@.wf(),
            final(self)@ == old(self)@.terminate(client_id as nat).0,
            r == old(self)@.terminate(client_id as nat).1,
    {
        let ghost before = self@;
        match self.find(client_id) {
            Some(i) => {
                self.exit_flags.set(i, true);
                proof {
                    let q = before.terminate(client_id as nat).0;
                    assert(self@.records =~= q.records);
                    lemma_op_preserves(before, PoolOp::Terminate(client_id as nat));
                }
                Ok(())
            },
            None => Err(PoolError::NotFound(client_id)),
        }
    }

    /// Drops every client. Their sessions find themselves gone from the pool
    /// and end; ids are not handed out again.
    pub fn clear(&mut self)
        requires
            old(self).wf(),
        ensures
            final(self).wf(),
            final(self)@.wf(),
            final(self)@ == old(self)@.clear(),
    {
        self.clients = Vec::new();
        self.exit_flags = Vec::new();
        assert(self@.records =~= Seq::<RecordModel>::empty());
    }

    /// Drops every client, as `clear` does, and gives the reserved id, whose
    /// notice stops the termination listener.
    pub fn shutdown(&mut self) -> (r: usize)
        requires
            old(self).wf(),
        ensures
            final(self).wf(),
            final(self)@.wf(),
            final(self)@ == old(self)@.clear(),
            r == CLIENT_POOL_RESERVED_ID,
    {
        self.clear();
        CLIENT_POOL_RESERVED_ID
    }

    /// Handles a termination notice: the reserved id stops the listener, a
    /// client in the pool is removed and returned, any other id is ignored.
    pub fn handle_termination(&mut self, client_id: usize) -> (r: TerminationOutcome)
        requires
            old(self).wf(),
        ensures
            final(self).wf(),
            final(self)@.wf(),
            final(self)@ == old(self)@.notice(client_id as nat).0,
            outcome_model(r) == old(self)@.notice(client_id as nat).1,
            r is Stop <==> client_id == CLIENT_POOL_RESERVED_ID,
            r is Ignored ==> r == TerminationOutcome::Ignored(client_id),
    {
        if client_id == CLIENT_POOL_RESERVED_ID {
            return TerminationOutcome::Stop;
        }
        let ghost before = self@;
        match self.find(client_id) {
            Some(i) => {
                let info = self.clients.remove(i);
                self.exit_flags.remove(i);
                proof {
                    let q = before.notice(client_id as nat).0;
                    assert(self@.records =~= q.records);
                    lemma_op_preserves(before, PoolOp::Notice(client_id as nat));
                }
                TerminationOutcome::Removed(info)
            },
            None => TerminationOutcome::Ignored(client_id),
        }
    }

    /// Whether the session of client `id` must end.
    pub fn exit_requested(&self, client_id: usize) -> (r: bool)
        requires
            self.wf(),
        ensures
            self@.wf(),
            r == self@.should_exit(client_id as nat),
    {
        match self.find(client_id) {
            Some(i) => self.exit_flags[i],
            None => true,
        }
    }

    /// The number of clients in the pool.
    pub fn len(&self) -> (r: usize)
        requires
            self.wf(),
        ensures
            self@.wf(),
            r == self@.records.len(),
    {
        self.clients.len()
    }

    /// The clients in the pool, by increasing id.
    pub fn client_list(&self) -> (r: Vec<ClientInfo>)
        requires
            self.wf(),
        ensures
            self@.wf(),
            r@.len() == self@.records.len(),
            forall|i: int| 0 <= i < r@.len() ==> #[trigger] r@[i]@ == self@.records[i].info,
    {
        let mut out: Vec<ClientInfo> = Vec::new();
        let mut i: usize = 0;
        while i < self.clients.len()
            invariant
                self.wf(),
                i <= self.clients@.len(),
                out@.len() == i,
                forall|j: int| 0 <= j < i ==> #[trigger] out@[j]@ == self@.records[j].info,
            decreases self.clients@.len() - i,
        {
            out.push(copy_info(&self.clients[i]));
            i += 1;
        }
        out
    }
}

} // verus!
