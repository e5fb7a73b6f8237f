//! An in-memory `ReaderContext` with deterministic fixture proofs: the
//! light client accepts a membership proof exactly when the client is
//! registered with a consensus record at the proof height and the proof
//! bytes are non-empty.  Handlers are exercised against it in tests.

use vstd::prelude::*;
use crate::context::ReaderContext;
use crate::error::Error;
use crate::types::ClientId;
use crate::types::ClientState;
use crate::types::ClientStateV;
use crate::types::CommitmentPrefix;
use crate::types::ConnectionEnd;
use crate::types::ConnectionEndV;
use crate::types::ConnectionId;
use crate::types::CounterpartyV;
use crate::types::Height;
use crate::types::State;
use crate::types::height_lte;

verus! {

/// The connection end stored first under `id`, scanning from the front;
/// `with_connection` prepends, so a later registration shadows an earlier
/// one.
pub open spec fn find_conn(s: Seq<(ConnectionId, ConnectionEnd)>, id: Seq<char>) -> Option<
    ConnectionEndV,
>
    decreases s.len(),
{
    if s.len() == 0 {
        None
    } else if s[0].0@ == id {
        Some(s[0].1@)
    } else {
        find_conn(s.drop_first(), id)
    }
}

/// A placeholder view for identifiers no connection is stored under.
pub open spec fn empty_connection_view() -> ConnectionEndV {
    ConnectionEndV {
        state: State::Uninitialized,
        client_id: Seq::empty(),
        counterparty: CounterpartyV {
            client_id: Seq::empty(),
            connection_id: None,
            prefix: Seq::empty(),
        },
        versions: Seq::empty(),
        delay_period: 0,
    }
}

/// An in-memory context snapshot: host parameters, the client records
/// (identifier and the height a consensus state is held at), and the
/// connection store.
#[derive(Clone, Debug)]
pub struct MockContext {
    pub chain_id: String,
    pub host_height: Height,
    pub prefix: CommitmentPrefix,
    pub next_connection_id: ConnectionId,
    pub clients: Vec<(ClientId, Height)>,
    pub connections: Vec<(ConnectionId, ConnectionEnd)>,
}

impl MockContext {
    /// A context with the given chain identifier and host height, and
    /// otherwise empty stores.
    pub fn new(chain_id: &str, host_height: Height) -> (ctx: MockContext)
        ensures
            ctx.chain_id@ == chain_id@,
            ctx.host_height == host_height,
            ctx.prefix@ == Seq::<u8>::empty(),
            ctx.next_connection_id@ == "connection-0"@,
            ctx.clients@ == Seq::<(ClientId, Height)>::empty(),
            ctx.connections@ == Seq::<(ConnectionId, ConnectionEnd)>::empty(),
    {
        let ctx = MockContext {
            chain_id: chain_id.to_owned(),
            host_height,
            prefix: CommitmentPrefix(Vec::new()),
            next_connection_id: ConnectionId::from_str("connection-0"),
            clients: Vec::new(),
            connections: Vec::new(),
        };
        proof {
            assert(ctx.clients@ =~= Seq::<(ClientId, Height)>::empty());
            assert(ctx.connections@ =~= Seq::<(ConnectionId, ConnectionEnd)>::empty());
            assert(ctx.prefix@ =~= Seq::<u8>::empty());
        }
        ctx
    }

    /// Register a client with a consensus record at `height`.
    pub fn with_client(self, client_id: ClientId, height: Height) -> (ctx: MockContext)
        ensures
            ctx.clients@ == self.clients@.push((client_id, height)),
            ctx.chain_id == self.chain_id,
            ctx.host_height == self.host_height,
            ctx.prefix == self.prefix,
            ctx.next_connection_id == self.next_connection_id,
            ctx.connections == self.connections,
    {
        let mut ctx = self;
        ctx.clients.push((client_id, height));
        ctx
    }

    /// Store a connection end under `id`; it shadows any earlier one.
    pub fn with_connection(self, id: ConnectionId, end: ConnectionEnd) -> (ctx: MockContext)
        ensures
            ctx.connections@ == self.connections@.insert(0, (id, end)),
            ctx.chain_id == self.chain_id,
            ctx.host_height == self.host_height,
            ctx.prefix == self.prefix,
            ctx.next_connection_id == self.next_connection_id,
            ctx.clients == self.clients,
    {
        let mut ctx = self;
        ctx.connections.insert(0, (id, end));
        ctx
    }

    /// Whether a client is registered under `id` with a consensus record at
    /// exactly `height`.
    pub open spec fn client_at(&self, id: Seq<char>, height: Height) -> bool {
        exists|i: int|
            0 <= i < self.clients@.len() && self.clients@[i].0@ == id && self.clients@[i].1
                == height
    }

    /// Scan the client records for `id` at exactly `height`.
    pub fn client_registered_at(&self, id: &ClientId, height: Height) -> (b: bool)
        ensures
            b == self.client_at(id@, height),
    {
        let mut i: usize = 0;
        while i < self.clients.len()
            invariant
                0 <= i <= self.clients@.len(),
                forall|k: int|
                    0 <= k < i ==> !(self.clients@[k].0@ == id@ && self.clients@[k].1 == height),
            decreases self.clients@.len() - i,
        {
            if self.clients[i].0.eq_id(id) && self.clients[i].1 == height {
                return true;
            }
            i += 1;
        }
        false
    }
}

impl ReaderContext for MockContext {
    open spec fn has_connection(&self, id: Seq<char>) -> bool {
        find_conn(self.connections@, id) is Some
    }

    open spec fn connection_view(&self, id: Seq<char>) -> ConnectionEndV {
        match find_conn(self.connections@, id) {
            Some(v) => v,
            None => empty_connection_view(),
        }
    }

    open spec fn has_client(&self, id: Seq<char>) -> bool {
        exists|i: int| 0 <= i < self.clients@.len() && self.clients@[i].0@ == id
    }

    open spec fn self_client_ok(&self, cs: ClientStateV) -> bool {
        cs.chain_id == self.chain_id@ && height_lte(cs.latest_height, self.host_height)
    }

    open spec fn host_height_spec(&self) -> Height {
        self.host_height
    }

    open spec fn prefix_spec(&self) -> Seq<u8> {
        self.prefix@
    }

    open spec fn fresh_connection_id(&self) -> Seq<char> {
        self.next_connection_id@
    }

    open spec fn connection_membership_ok(
        &self,
        client_id: Seq<char>,
        proof_height: Height,
        proof: Seq<u8>,
        counterparty_conn_id: Seq<char>,
        expected: ConnectionEndV,
    ) -> bool {
        self.client_at(client_id, proof_height) && proof.len() > 0
    }

    open spec fn client_membership_ok(
        &self,
        client_id: Seq<char>,
        proof_height: Height,
        proof: Seq<u8>,
        expected: ClientStateV,
    ) -> bool {
        self.client_at(client_id, proof_height) && proof.len() > 0
    }

    open spec fn consensus_membership_ok(
        &self,
        client_id: Seq<char>,
        proof_height: Height,
        proof: Seq<u8>,
        consensus_height: Height,
    ) -> bool {
        self.client_at(client_id, proof_height) && proof.len() > 0
    }

    fn connection_end(&self, id: &ConnectionId) -> (r: Result<ConnectionEnd, Error>) {
        let ghost s = self.connections@;
        let mut i: usize = 0;
        proof {
            assert(s.skip(0) =~= s);
        }
        while i < self.connections.len()
            invariant
                0 <= i <= s.len(),
                s == self.connections@,
                find_conn(s, id@) == find_conn(s.skip(i as int), id@),
            decreases s.len() - i,
        {
            if self.connections[i].0.eq_id(id) {
                proof {
                    assert(s.skip(i as int)[0] == s[i as int]);
                }
                return Ok(self.connections[i].1.dup());
            }
            proof {
                assert(s.skip(i as int)[0] == s[i as int]);
                assert(s.skip(i as int).drop_first() =~= s.skip(i as int + 1));
            }
            i += 1;
        }
        proof {
            assert(s.skip(i as int) =~= Seq::<(ConnectionId, ConnectionEnd)>::empty());
        }
        Err(Error::connection_not_found(id.dup()))
    }

    fn client_exists(&self, id: &ClientId) -> (b: bool) {
        let mut i: usize = 0;
        while i < self.clients.len()
            invariant
                0 <= i <= self.clients@.len(),
                forall|k: int| 0 <= k < i ==> self.clients@[k].0@ != id@,
            decreases self.clients@.len() - i,
        {
            if self.clients[i].0.eq_id(id) {
                return true;
            }
            i += 1;
        }
        false
    }

    fn validate_self_client(&self, cs: &ClientState) -> (r: Result<(), Error>) {
        if self.chain_id == cs.chain_id && cs.latest_height.lte(&self.host_height) {
            Ok(())
        } else {
            Err(Error::ClientValidationFailed)
        }
    }

    fn host_height(&self) -> (h: Height) {
        self.host_height
    }

    fn commitment_prefix(&self) -> (p: CommitmentPrefix) {
        self.prefix.dup()
    }

    fn new_connection_id(&self) -> (id: ConnectionId) {
        self.next_connection_id.dup()
    }

    fn check_connection_membership(
        &self,
        client_id: &ClientId,
        proof_height: Height,
        proof: &crate::types::CommitmentProofBytes,
        counterparty_conn_id: &ConnectionId,
        expected: &ConnectionEnd,
    ) -> (b: bool) {
        self.client_registered_at(client_id, proof_height) && proof.0.len() > 0
    }

    fn check_client_membership(
        &self,
        client_id: &ClientId,
        proof_height: Height,
        proof: &crate::types::CommitmentProofBytes,
        expected: &ClientState,
    ) -> (b: bool) {
        self.client_registered_at(client_id, proof_height) && proof.0.len() > 0
    }

    fn check_consensus_membership(
        &self,
        client_id: &ClientId,
        proof_height: Height,
        proof: &crate::types::CommitmentProofBytes,
        consensus_height: Height,
    ) -> (b: bool) {
        self.client_registered_at(client_id, proof_height) && proof.0.len() > 0
    }
}

} // verus!
