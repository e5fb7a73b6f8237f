//! Core data model of the connection handshake: heights, identifiers,
//! versions, commitment material, counterparty description and the
//! `ConnectionEnd` itself, together with the mathematical views the
//! contracts are stated over.

use vstd::prelude::*;

verus! {

/// A point in a chain's history: a revision number and a height within
/// that revision, identifying where a proof was generated.
#[derive(Clone, Copy, Debug, PartialEq, Eq, Structural)]
pub struct Height {
    pub revision_number: u64,
    pub revision_height: u64,
}

/// Order on heights: first by revision number, then by revision height.
pub open spec fn height_lte(a: Height, b: Height) -> bool {
    a.revision_number < b.revision_number
        || (a.revision_number == b.revision_number && a.revision_height <= b.revision_height)
}

impl Height {
    pub fn new(revision_number: u64, revision_height: u64) -> (h: Height)
        ensures
            h == (Height { revision_number, revision_height }),
    {
        Height { revision_number, revision_height }
    }

    /// True when `self` is no later than `other`.
    pub fn lte(&self, other: &Height) -> (b: bool)
        ensures
            b == height_lte(*self, *other),
    {
        self.revision_number < other.revision_number
            || (self.revision_number == other.revision_number
                && self.revision_height <= other.revision_height)
    }

    pub fn increment(&self) -> (h: Height)
        requires
            self.revision_height < u64::MAX,
        ensures
            h.revision_number == self.revision_number,
            h.revision_height == self.revision_height + 1,
    {
        Height { revision_number: self.revision_number, revision_height: self.revision_height + 1 }
    }
}

/// Identifier of a light client in the local client store.
#[derive(Clone, Debug, PartialEq, Eq)]
pub struct ClientId(pub String);

impl View for ClientId {
    type V = Seq<char>;

    open spec fn view(&self) -> Seq<char> {
        self.0@
    }
}

impl ClientId {
    pub fn from_str(s: &str) -> (id: ClientId)
        ensures
            id@ == s@,
    {
        ClientId(s.to_owned())
    }

    pub fn dup(&self) -> (id: ClientId)
        ensures
            id@ == self@,
    {
        ClientId(self.0.clone())
    }

    pub fn eq_id(&self, other: &ClientId) -> (b: bool)
        ensures
            b == (self@ == other@),
    {
        self.0 == other.0
    }
}

/// Identifier of a connection in a chain's connection store.
#[derive(Clone, Debug, PartialEq, Eq)]
pub struct ConnectionId(pub String);

impl View for ConnectionId {
    type V = Seq<char>;

    open spec fn view(&self) -> Seq<char> {
        self.0@
    }
}

impl ConnectionId {
    pub fn from_str(s: &str) -> (id: ConnectionId)
        ensures
            id@ == s@,
    {
        ConnectionId(s.to_owned())
    }

    pub fn dup(&self) -> (id: ConnectionId)
        ensures
            id@ == self@,
    {
        ConnectionId(self.0.clone())
    }

    pub fn eq_id(&self, other: &ConnectionId) -> (b: bool)
        ensures
            b == (self@ == other@),
    {
        self.0 == other.0
    }
}

/// A protocol version proposed or agreed during the handshake.
#[derive(Clone, Debug, PartialEq, Eq)]
pub struct Version(pub String);

impl View for Version {
    type V = Seq<char>;

    open spec fn view(&self) -> Seq<char> {
        self.0@
    }
}

impl Version {
    pub fn from_str(s: &str) -> (v: Version)
        ensures
            v@ == s@,
    {
        Version(s.to_owned())
    }

    pub fn dup(&self) -> (v: Version)
        ensures
            v@ == self@,
    {
        Version(self.0.clone())
    }

    pub fn eq_version(&self, other: &Version) -> (b: bool)
        ensures
            b == (self@ == other@),
    {
        self.0 == other.0
    }
}

/// The views of a sequence of versions.
pub open spec fn version_views(s: Seq<Version>) -> Seq<Seq<char>> {
    s.map_values(|v: Version| v@)
}

/// Whether `vs` holds a version whose view is `v`.
pub fn versions_contain(vs: &Vec<Version>, v: &Version) -> (b: bool)
    ensures
        b == version_views(vs@).contains(v@),
{
    let mut i: usize = 0;
    while i < vs.len()
        invariant
            0 <= i <= vs@.len(),
            forall|k: int| 0 <= k < i ==> version_views(vs@)[k] != v@,
        decreases vs@.len() - i,
    {
        if vs[i].eq_version(v) {
            assert(version_views(vs@)[i as int] == v@);
            return true;
        }
        i += 1;
    }
    assert(forall|k: int| 0 <= k < version_views(vs@).len() ==> version_views(vs@)[k] != v@);
    false
}

/// Duplicate a list of versions, preserving its view.
pub fn dup_versions(vs: &Vec<Version>) -> (r: Vec<Version>)
    ensures
        version_views(r@) == version_views(vs@),
{
    let mut r: Vec<Version> = Vec::new();
    let mut i: usize = 0;
    while i < vs.len()
        invariant
            0 <= i <= vs@.len(),
            r@.len() == i,
            forall|k: int| 0 <= k < i ==> r@[k]@ == vs@[k]@,
        decreases vs@.len() - i,
    {
        r.push(vs[i].dup());
        i += 1;
    }
    proof {
        assert(version_views(r@) =~= version_views(vs@));
    }
    r
}

/// Namespace prefix under which a chain stores its handshake state; proof
/// paths are constructed under it.
#[derive(Clone, Debug, PartialEq, Eq)]
pub struct CommitmentPrefix(pub Vec<u8>);

impl View for CommitmentPrefix {
    type V = Seq<u8>;

    open spec fn view(&self) -> Seq<u8> {
        self.0@
    }
}

impl CommitmentPrefix {
    pub fn from_bytes(bytes: Vec<u8>) -> (p: CommitmentPrefix)
        ensures
            p@ == bytes@,
    {
        CommitmentPrefix(bytes)
    }

    pub fn dup(&self) -> (p: CommitmentPrefix)
        ensures
            p@ == self@,
    {
        CommitmentPrefix(dup_bytes(&self.0))
    }
}

/// Opaque bytes of a membership proof, produced by the counterparty and
/// checked by the light-client capability.
#[derive(Clone, Debug, PartialEq, Eq)]
pub struct CommitmentProofBytes(pub Vec<u8>);

impl View for CommitmentProofBytes {
    type V = Seq<u8>;

    open spec fn view(&self) -> Seq<u8> {
        self.0@
    }
}

impl CommitmentProofBytes {
    pub fn from_bytes(bytes: Vec<u8>) -> (p: CommitmentProofBytes)
        ensures
            p@ == bytes@,
    {
        CommitmentProofBytes(bytes)
    }
}

/// Duplicate a byte vector, preserving its view.
pub fn dup_bytes(bytes: &Vec<u8>) -> (r: Vec<u8>)
    ensures
        r@ == bytes@,
{
    let mut r: Vec<u8> = Vec::new();
    let mut i: usize = 0;
    while i < bytes.len()
        invariant
            0 <= i <= bytes@.len(),
            r@ == bytes@.subrange(0, i as int),
        decreases bytes@.len() - i,
    {
        r.push(bytes[i]);
        proof {
            assert(r@ =~= bytes@.subrange(0, i + 1));
        }
        i += 1;
    }
    proof {
        assert(r@ =~= bytes@);
    }
    r
}

/// Parameters describing how to verify a counterparty chain's consensus;
/// here, what the logic reads of it: the chain it describes and its latest
/// height.
#[derive(Clone, Debug, PartialEq, Eq)]
pub struct ClientState {
    pub chain_id: String,
    pub latest_height: Height,
}

/// Mathematical view of a `ClientState`.
#[verifier::ext_equal]
pub struct ClientStateV {
    pub chain_id: Seq<char>,
    pub latest_height: Height,
}

impl View for ClientState {
    type V = ClientStateV;

    open spec fn view(&self) -> ClientStateV {
        ClientStateV { chain_id: self.chain_id@, latest_height: self.latest_height }
    }
}

impl ClientState {
    pub fn new(chain_id: &str, latest_height: Height) -> (cs: ClientState)
        ensures
            cs@ == (ClientStateV { chain_id: chain_id@, latest_height }),
    {
        ClientState { chain_id: chain_id.to_owned(), latest_height }
    }
}

/// Progress of one side of the handshake.  Strictly monotonic per
/// connection: Uninitialized to Init or TryOpen, then Open, which is
/// terminal here.
#[derive(Clone, Copy, Debug, PartialEq, Eq, Structural)]
pub enum State {
    Uninitialized,
    Init,
    TryOpen,
    Open,
}

/// The remote chain's side of the connection, as held locally.  The
/// connection identifier is `None` until the Try or Ack step learns it.
#[derive(Clone, Debug, PartialEq, Eq)]
pub struct Counterparty {
    pub client_id: ClientId,
    pub connection_id: Option<ConnectionId>,
    pub prefix: CommitmentPrefix,
}

/// Mathematical view of a `Counterparty`.
#[verifier::ext_equal]
pub struct CounterpartyV {
    pub client_id: Seq<char>,
    pub connection_id: Option<Seq<char>>,
    pub prefix: Seq<u8>,
}

impl View for Counterparty {
    type V = CounterpartyV;

    open spec fn view(&self) -> CounterpartyV {
        CounterpartyV {
            client_id: self.client_id@,
            connection_id: match self.connection_id {
                Some(id) => Some(id@),
                None => None,
            },
            prefix: self.prefix@,
        }
    }
}

impl Counterparty {
    pub fn new(client_id: ClientId, connection_id: Option<ConnectionId>, prefix: CommitmentPrefix) -> (c:
        Counterparty)
        ensures
            c.client_id == client_id,
            c.connection_id == connection_id,
            c.prefix == prefix,
    {
        Counterparty { client_id, connection_id, prefix }
    }

    pub fn client_id(&self) -> (id: &ClientId)
        ensures
            id == &self.client_id,
    {
        &self.client_id
    }

    pub fn prefix(&self) -> (p: &CommitmentPrefix)
        ensures
            p == &self.prefix,
    {
        &self.prefix
    }

    pub fn dup(&self) -> (c: Counterparty)
        ensures
            c@ == self@,
    {
        Counterparty {
            client_id: self.client_id.dup(),
            connection_id: match &self.connection_id {
                Some(id) => Some(id.dup()),
                None => None,
            },
            prefix: self.prefix.dup(),
        }
    }
}

/// One side's record of a connection: its state, the local client that
/// tracks the counterparty, the counterparty description, the proposed or
/// agreed versions, and the delay period.
#[derive(Clone, Debug, PartialEq, Eq)]
pub struct ConnectionEnd {
    pub state: State,
    pub client_id: ClientId,
    pub counterparty: Counterparty,
    pub versions: Vec<Version>,
    pub delay_period: u64,
}

/// Mathematical view of a `ConnectionEnd`.
#[verifier::ext_equal]
pub struct ConnectionEndV {
    pub state: State,
    pub client_id: Seq<char>,
    pub counterparty: CounterpartyV,
    pub versions: Seq<Seq<char>>,
    pub delay_period: u64,
}

impl View for ConnectionEnd {
    type V = ConnectionEndV;

    open spec fn view(&self) -> ConnectionEndV {
        ConnectionEndV {
            state: self.state,
            client_id: self.client_id@,
            counterparty: self.counterparty@,
            versions: version_views(self.versions@),
            delay_period: self.delay_period,
        }
    }
}

impl ConnectionEnd {
    pub fn new(
        state: State,
        client_id: ClientId,
        counterparty: Counterparty,
        versions: Vec<Version>,
        delay_period: u64,
    ) -> (c: ConnectionEnd)
        ensures
            c@ == (ConnectionEndV {
                state,
                client_id: client_id@,
                counterparty: counterparty@,
                versions: version_views(versions@),
                delay_period,
            }),
    {
        ConnectionEnd { state, client_id, counterparty, versions, delay_period }
    }

    pub fn state(&self) -> (s: &State)
        ensures
            s == &self.state,
    {
        &self.state
    }

    pub fn state_matches(&self, other: &State) -> (b: bool)
        ensures
            b == (self.state == *other),
    {
        self.state == *other
    }

    pub fn client_id(&self) -> (id: &ClientId)
        ensures
            id == &self.client_id,
    {
        &self.client_id
    }

    pub fn counterparty(&self) -> (c: &Counterparty)
        ensures
            c == &self.counterparty,
    {
        &self.counterparty
    }

    pub fn versions(&self) -> (vs: &Vec<Version>)
        ensures
            vs == &self.versions,
    {
        &self.versions
    }

    pub fn delay_period(&self) -> (d: u64)
        ensures
            d == self.delay_period,
    {
        self.delay_period
    }

    pub fn set_state(&mut self, state: State)
        ensures
            final(self)@ == (ConnectionEndV { state, ..old(self)@ }),
    {
        self.state = state;
    }

    /// Replace the version list with the single negotiated version.
    pub fn set_version(&mut self, version: Version)
        ensures
            final(self)@ == (ConnectionEndV { versions: seq![version@], ..old(self)@ }),
    {
        let mut vs: Vec<Version> = Vec::new();
        vs.push(version);
        self.versions = vs;
        proof {
            assert(final(self)@ =~= (ConnectionEndV { versions: seq![self.versions@[0]@], ..old(self)@ }));
        }
    }

    pub fn set_counterparty(&mut self, counterparty: Counterparty)
        ensures
            final(self)@ == (ConnectionEndV { counterparty: counterparty@, ..old(self)@ }),
    {
        self.counterparty = counterparty;
    }

    pub fn dup(&self) -> (c: ConnectionEnd)
        ensures
            c@ == self@,
    {
        let c = ConnectionEnd {
            state: self.state,
            client_id: self.client_id.dup(),
            counterparty: self.counterparty.dup(),
            versions: dup_versions(&self.versions),
            delay_period: self.delay_period,
        };
        proof {
            assert(c@ =~= self@);
        }
        c
    }
}

} // verus!
