//! The session hub: the table of peer endpoints by peer identifier, and the
//! decisions taken on a request to create a peer or to connect to one.

use vstd::prelude::*;

use std::collections::HashMap;

use crate::options::{Id, PeerAddr};
use crate::packet::PacketType;
use crate::text::{decimal, push_decimal};

verus! {

broadcast use vstd::std_specs::hash::group_hash_axioms;

/// The endpoints under which a peer can be reached.
#[derive(Debug, Clone, Copy, PartialEq, Eq)]
pub struct PeerEndpoints {
    pub main_peer_one: Option<PeerAddr>,
    pub main_peer_two: Option<PeerAddr>,
}

impl PeerEndpoints {
    /// Pairs two optional endpoints.
    pub fn new(one: Option<PeerAddr>, two: Option<PeerAddr>) -> (e: Self)
        ensures
            e == (PeerEndpoints { main_peer_one: one, main_peer_two: two }),
    {
        PeerEndpoints { main_peer_one: one, main_peer_two: two }
    }
}

impl PacketType for PeerEndpoints {
    open spec fn spec_wire_name() -> Seq<char> {
        "aether_void_net::hub::PeerEndpoints"@
    }

    fn wire_name() -> (name: &'static str) {
        "aether_void_net::hub::PeerEndpoints"
    }
}

/// What a session table holds for `id`.
pub open spec fn lookup(sessions: Map<u32, PeerEndpoints>, id: Id) -> Option<PeerEndpoints> {
    if sessions.contains_key(id.0) {
        Some(sessions[id.0])
    } else {
        None
    }
}

/// The table after the first `n` pairs of `ids` and `endpoints` have been
/// inserted in order, each pair replacing what its identifier held.
pub open spec fn insert_first(
    sessions: Map<u32, PeerEndpoints>,
    ids: Seq<Id>,
    endpoints: Seq<PeerEndpoints>,
    n: nat,
) -> Map<u32, PeerEndpoints>
    decreases n,
{
    if n == 0 {
        sessions
    } else {
        insert_first(sessions, ids, endpoints, (n - 1) as nat).insert(
            ids[n - 1].0,
            endpoints[n - 1],
        )
    }
}

/// The number of pairs that `ids` and `endpoints` form: the shorter length.
pub open spec fn pair_count(ids: Seq<Id>, endpoints: Seq<PeerEndpoints>) -> nat {
    if ids.len() <= endpoints.len() {
        ids.len()
    } else {
        endpoints.len()
    }
}

/// The table after every pair of `ids` and `endpoints` has been inserted in
/// order; pairs beyond the shorter sequence are ignored.
pub open spec fn insert_pairs(
    sessions: Map<u32, PeerEndpoints>,
    ids: Seq<Id>,
    endpoints: Seq<PeerEndpoints>,
) -> Map<u32, PeerEndpoints> {
    insert_first(sessions, ids, endpoints, pair_count(ids, endpoints))
}

/// The text of an identifier as its debug form prints it: `Id(<decimal>)`.
pub open spec fn id_text(id: Id) -> Seq<char> {
    "Id("@ + decimal(id.0 as nat) + ")"@
}

/// The message of a peer that was created.
pub open spec fn created_text(id: Id) -> Seq<char> {
    "Peer "@ + id_text(id) + " successfully created"@
}

/// The message of a peer that was connected to.
pub open spec fn connected_text(id: Id) -> Seq<char> {
    "Successful connection to the peer "@ + id_text(id)
}

/// The table after a request to create the peer `id`, reachable at `addr`:
/// the peer is added when it does not exist, and the table is unchanged when
/// it does.
pub open spec fn create_table(sessions: Map<u32, PeerEndpoints>, id: Id, addr: PeerAddr) -> Map<
    u32,
    PeerEndpoints,
> {
    if sessions.contains_key(id.0) {
        sessions
    } else {
        sessions.insert(id.0, PeerEndpoints { main_peer_one: Some(addr), main_peer_two: None })
    }
}

/// The reply to a request to create the peer `id`: the message of success
/// when it does not exist yet, the refusal when it does.
pub open spec fn create_reply(sessions: Map<u32, PeerEndpoints>, id: Id) -> Result<Seq<char>, HubError> {
    if sessions.contains_key(id.0) {
        Err(HubError::PeerExists(id))
    } else {
        Ok(created_text(id))
    }
}

/// A reply with its message taken as text.
pub open spec fn reply_text(r: Result<String, HubError>) -> Result<Seq<char>, HubError> {
    match r {
        Ok(s) => Ok(s@),
        Err(e) => Err(e),
    }
}

/// The table after requests to create the peer `id` at each address of
/// `addrs`, taken one after the other.
pub open spec fn create_run(sessions: Map<u32, PeerEndpoints>, id: Id, addrs: Seq<PeerAddr>) -> Map<
    u32,
    PeerEndpoints,
>
    decreases addrs.len(),
{
    if addrs.len() == 0 {
        sessions
    } else {
        create_table(create_run(sessions, id, addrs.drop_last()), id, addrs.last())
    }
}

/// The replies to requests to create the peer `id` at each address of
/// `addrs`, taken one after the other.
pub open spec fn create_run_replies(
    sessions: Map<u32, PeerEndpoints>,
    id: Id,
    addrs: Seq<PeerAddr>,
) -> Seq<Result<Seq<char>, HubError>>
    decreases addrs.len(),
{
    if addrs.len() == 0 {
        Seq::empty()
    } else {
        create_run_replies(sessions, id, addrs.drop_last()).push(
            create_reply(create_run(sessions, id, addrs.drop_last()), id),
        )
    }
}

/// Why a request to the hub was refused.
#[derive(Debug, Clone, Copy, PartialEq, Eq, Structural)]
pub enum HubError {
    /// A peer with this identifier already exists.
    PeerExists(Id),
    /// No peer with this identifier exists.
    PeerNotFound(Id),
}

/// The message of a refused request.
pub open spec fn error_text(e: HubError) -> Seq<char> {
    match e {
        HubError::PeerExists(id) => "The peer "@ + id_text(id) + " already exists."@,
        HubError::PeerNotFound(id) => "Peer "@ + id_text(id) + " not found"@,
    }
}

/// Appends `Id(<decimal>)` to `out`.
fn push_id(out: &mut String, id: Id)
    ensures
        final(out)@ == old(out)@ + id_text(id),
{
    proof {
        reveal_strlit("Id(");
        reveal_strlit(")");
    }
    out.append("Id(");
    push_decimal(out, id.0);
    out.append(")");
    proof {
        assert(final(out)@ =~= old(out)@ + id_text(id));
    }
}

impl HubError {
    /// The message of the refusal.
    pub fn message(&self) -> (s: String)
        ensures
            s@ == error_text(*self),
    {
        match self {
            HubError::PeerExists(id) => {
                let mut s = "The peer ".to_owned();
                push_id(&mut s, *id);
                s.append(" already exists.");
                proof {
                    reveal_strlit("The peer ");
                    reveal_strlit(" already exists.");
                    assert(s@ =~= error_text(*self));
                }
                s
            },
            HubError::PeerNotFound(id) => {
                let mut s = "Peer ".to_owned();
                push_id(&mut s, *id);
                s.append(" not found");
                proof {
                    reveal_strlit("Peer ");
                    reveal_strlit(" not found");
                    assert(s@ =~= error_text(*self));
                }
                s
            },
        }
    }
}

/// The message of a peer that was created.
fn created_message(id: Id) -> (s: String)
    ensures
        s@ == created_text(id),
{
    let mut s = "Peer ".to_owned();
    push_id(&mut s, id);
    s.append(" successfully created");
    proof {
        reveal_strlit("Peer ");
        reveal_strlit(" successfully created");
        assert(s@ =~= created_text(id));
    }
    s
}

/// The message of a peer that was connected to.
fn connected_message(id: Id) -> (s: String)
    ensures
        s@ == connected_text(id),
{
    let mut s = "Successful connection to the peer ".to_owned();
    push_id(&mut s, id);
    proof {
        reveal_strlit("Successful connection to the peer ");
        assert(s@ =~= connected_text(id));
    }
    s
}

/// The table of peer endpoints, by peer identifier.
pub struct SessionHub {
    sessions: HashMap<u32, PeerEndpoints>,
}

impl View for SessionHub {
    type V = Map<u32, PeerEndpoints>;

    closed spec fn view(&self) -> Map<u32, PeerEndpoints> {
        self.sessions@
    }
}

impl Default for SessionHub {
    /// An empty table.
    fn default() -> (hub: Self)
        ensures
            hub@ == Map::<u32, PeerEndpoints>::empty(),
    {
        Self::new(HashMap::new())
    }
}

impl SessionHub {
    /// A hub over the given table, keyed by the number of each identifier.
    pub fn new(sessions: HashMap<u32, PeerEndpoints>) -> (hub: Self)
        ensures
            hub@ == sessions@,
    {
        SessionHub { sessions }
    }

    /// Records `endpoints` for `id`, replacing what `id` held.
    pub fn add_peer(&mut self, id: Id, endpoints: PeerEndpoints)
        ensures
            final(self)@ == old(self)@.insert(id.0, endpoints),
    {
        self.sessions.insert(id.0, endpoints);
    }

    /// Records the pairs of `id` and `endpoints` in order; the longer slice's
    /// surplus is ignored, and a later pair for an identifier replaces an
    /// earlier one.
    pub fn add_peer_group(&mut self, id: &[Id], endpoints: &[PeerEndpoints])
        ensures
            final(self)@ == insert_pairs(old(self)@, id@, endpoints@),
    {
        let n = if id.len() <= endpoints.len() {
            id.len()
        } else {
            endpoints.len()
        };
        let mut i: usize = 0;
        while i < n
            invariant
                n == pair_count(id@, endpoints@),
                i <= n,
                self@ == insert_first(old(self)@, id@, endpoints@, i as nat),
            decreases n - i,
        {
            self.add_peer(id[i], endpoints[i]);
            i = i + 1;
        }
    }

    /// What the table holds for `id`.
    pub fn get_peer(&self, id: Id) -> (r: Option<PeerEndpoints>)
        ensures
            r == lookup(self@, id),
    {
        match self.sessions.get(&id.0) {
            Some(endpoints) => Some(*endpoints),
            None => None,
        }
    }

    /// Appends to `buffer` what the table holds for each identifier of `id`, in order.
    pub fn get_peer_group(&self, id: &[Id], buffer: &mut Vec<Option<PeerEndpoints>>)
        ensures
            final(buffer)@ == old(buffer)@ + id@.map_values(|i: Id| lookup(self@, i)),
    {
        let mut k: usize = 0;
        while k < id.len()
            invariant
                k <= id@.len(),
                buffer@ == old(buffer)@ + id@.take(k as int).map_values(|i: Id| lookup(self@, i)),
            decreases id@.len() - k,
        {
            let r = self.get_peer(id[k]);
            buffer.push(r);
            k = k + 1;
            proof {
                assert(id@.take(k as int).map_values(|i: Id| lookup(self@, i)) =~= id@.take(
                    k - 1,
                ).map_values(|i: Id| lookup(self@, i)).push(r));
            }
        }
        proof {
            assert(id@.take(id@.len() as int) =~= id@);
        }
    }

    /// Creates the peer `id`, reachable at `addr`, unless it already exists.
    pub fn create_peer(&mut self, id: Id, addr: PeerAddr) -> (r: Result<String, HubError>)
        ensures
            final(self)@ == create_table(old(self)@, id, addr),
            reply_text(r) == create_reply(old(self)@, id),
    {
        let endpoints = PeerEndpoints::new(Some(addr), None);
        if self.get_peer(id).is_none() {
            self.add_peer(id, endpoints);
            Ok(created_message(id))
        } else {
            Err(HubError::PeerExists(id))
        }
    }

    /// Decides a request to connect to the peer `id`: the endpoints to send
    /// to the requester and the message of success, or the refusal when no
    /// such peer exists.
    pub fn connect_peer(&self, id: Id) -> (r: Result<(PeerEndpoints, String), HubError>)
        ensures
            self@.contains_key(id.0) ==> (r matches Ok((endpoints, s)) && endpoints == self@[id.0]
                && s@ == connected_text(id)),
            !self@.contains_key(id.0) ==> r == Err::<(PeerEndpoints, String), HubError>(
                HubError::PeerNotFound(id),
            ),
    {
        match self.get_peer(id) {
            Some(peer) => Ok((peer, connected_message(id))),
            None => Err(HubError::PeerNotFound(id)),
        }
    }
}

/// What is recorded for an identifier is what a later lookup gives back, and
/// recording for one identifier leaves every other identifier as it was.
pub proof fn law_lookup_after_record(
    sessions: Map<u32, PeerEndpoints>,
    id: Id,
    endpoints: PeerEndpoints,
    other: Id,
)
    ensures
        lookup(sessions.insert(id.0, endpoints), id) == Some(endpoints),
        other != id ==> lookup(sessions.insert(id.0, endpoints), other) == lookup(sessions, other),
{
}

/// Once a peer is created it is found under its identifier, with the
/// creator's address as its first endpoint and no second one; a second
/// request to create it, from any address, is refused and leaves the table
/// as it is.
pub proof fn law_created_peer_is_found(
    sessions: Map<u32, PeerEndpoints>,
    id: Id,
    addr: PeerAddr,
    other_addr: PeerAddr,
)
    requires
        !sessions.contains_key(id.0),
    ensures
        ({
            let created = create_table(sessions, id, addr);
            &&& create_reply(sessions, id) == Ok::<Seq<char>, HubError>(created_text(id))
            &&& created.contains_key(id.0)
            &&& lookup(created, id) == Some(
                PeerEndpoints { main_peer_one: Some(addr), main_peer_two: None },
            )
            &&& create_reply(created, id) == Err::<Seq<char>, HubError>(HubError::PeerExists(id))
            &&& create_table(created, id, other_addr) == created
        }),
{
}

/// Of requests to create the same absent peer, taken one after the other
/// (as the lock around the hub serializes concurrent ones), exactly the
/// first succeeds; every later one is refused, and the peer keeps the first
/// requester's address.
#[verifier::spinoff_prover]
pub proof fn law_one_create_wins(sessions: Map<u32, PeerEndpoints>, id: Id, addrs: Seq<PeerAddr>)
    requires
        !sessions.contains_key(id.0),
        addrs.len() > 0,
    ensures
        create_run(sessions, id, addrs) == sessions.insert(
            id.0,
            PeerEndpoints { main_peer_one: Some(addrs[0]), main_peer_two: None },
        ),
        create_run_replies(sessions, id, addrs).len() == addrs.len(),
        create_run_replies(sessions, id, addrs)[0] == Ok::<Seq<char>, HubError>(created_text(id)),
        forall|i: int|
            0 < i < addrs.len() ==> #[trigger] create_run_replies(sessions, id, addrs)[i] == Err::<
                Seq<char>,
                HubError,
            >(HubError::PeerExists(id)),
    decreases addrs.len(),
{
    if addrs.len() == 1 {
        assert(addrs.drop_last() =~= Seq::<PeerAddr>::empty());
    } else {
        let prefix = addrs.drop_last();
        law_one_create_wins(sessions, id, prefix);
        assert(prefix[0] == addrs[0]);
        let before = create_run(sessions, id, prefix);
        assert(before.contains_key(id.0));
        let replies = create_run_replies(sessions, id, addrs);
        assert forall|i: int| 0 < i < addrs.len() implies #[trigger] replies[i] == Err::<
            Seq<char>,
            HubError,
        >(HubError::PeerExists(id)) by {
            if i < addrs.len() - 1 {
                assert(replies[i] == create_run_replies(sessions, id, prefix)[i]);
            }
        }
    }
}

/// After `n` pairs are inserted, an identifier holds the endpoints of the
/// last of those pairs that names it, or what it held before when none does.
proof fn lemma_insert_first_lookup(
    sessions: Map<u32, PeerEndpoints>,
    ids: Seq<Id>,
    endpoints: Seq<PeerEndpoints>,
    n: nat,
    id: Id,
)
    requires
        n <= ids.len(),
        n <= endpoints.len(),
    ensures
        forall|j: int|
            #![trigger ids[j]]
            0 <= j < n && ids[j] == id && (forall|k: int| j < k < n ==> ids[k] != id) ==> lookup(
                insert_first(sessions, ids, endpoints, n),
                id,
            ) == Some(endpoints[j]),
        (forall|j: int| 0 <= j < n ==> ids[j] != id) ==> lookup(
            insert_first(sessions, ids, endpoints, n),
            id,
        ) == lookup(sessions, id),
    decreases n,
{
    if n > 0 {
        lemma_insert_first_lookup(sessions, ids, endpoints, (n - 1) as nat, id);
        let last = n - 1;
        assert forall|j: int|
            #![trigger ids[j]]
            0 <= j < n && ids[j] == id && (forall|k: int| j < k < n ==> ids[k] != id) implies lookup(
                insert_first(sessions, ids, endpoints, n),
                id,
            ) == Some(endpoints[j]) by {
            if j < last {
                assert(ids[last] != id);
            }
        }
        if forall|j: int| 0 <= j < n ==> ids[j] != id {
            assert(ids[last] != id);
        }
    }
}

/// Inserting pairs in order, as `zip` pairs two slices, takes every index
/// that both sequences have: each identifier ends up holding the endpoints
/// of the last such pair that names it, and every identifier that no such
/// pair names keeps what it held before.
pub proof fn law_group_last_pair_wins(
    sessions: Map<u32, PeerEndpoints>,
    ids: Seq<Id>,
    endpoints: Seq<PeerEndpoints>,
    id: Id,
)
    ensures
        forall|j: int|
            #![trigger ids[j]]
            0 <= j < ids.len() && j < endpoints.len() && ids[j] == id && (forall|k: int|
                j < k < ids.len() && k < endpoints.len() ==> ids[k] != id) ==> {
                &&& insert_pairs(sessions, ids, endpoints).contains_key(id.0)
                &&& insert_pairs(sessions, ids, endpoints)[id.0] == endpoints[j]
            },
        (forall|j: int| 0 <= j < ids.len() && j < endpoints.len() ==> ids[j] != id) ==> {
            &&& insert_pairs(sessions, ids, endpoints).contains_key(id.0) == sessions.contains_key(
                id.0,
            )
            &&& sessions.contains_key(id.0) ==> insert_pairs(sessions, ids, endpoints)[id.0]
                == sessions[id.0]
        },
{
    let n = pair_count(ids, endpoints);
    assert(n == ids.len() || n == endpoints.len());
    assert(n <= ids.len() && n <= endpoints.len());
    lemma_insert_first_lookup(sessions, ids, endpoints, n, id);
    assert forall|j: int|
        #![trigger ids[j]]
        0 <= j < ids.len() && j < endpoints.len() && ids[j] == id && (forall|k: int|
            j < k < ids.len() && k < endpoints.len() ==> ids[k] != id) implies {
            &&& insert_pairs(sessions, ids, endpoints).contains_key(id.0)
            &&& insert_pairs(sessions, ids, endpoints)[id.0] == endpoints[j]
        } by {
        assert(j < n);
        assert(lookup(insert_pairs(sessions, ids, endpoints), id) == Some(endpoints[j]));
    }
    if forall|j: int| 0 <= j < ids.len() && j < endpoints.len() ==> ids[j] != id {
        assert(lookup(insert_pairs(sessions, ids, endpoints), id) == lookup(sessions, id));
    }
}

/// A request to create a peer that already exists, whatever endpoints it
/// holds, is refused with `PeerExists` and leaves the table as it is; a
/// request to create an absent peer succeeds with the message
/// `Peer Id(<n>) successfully created` and adds exactly that peer, with the
/// requester's address as its only endpoint.
pub proof fn law_create_refuses_existing(sessions: Map<u32, PeerEndpoints>, id: Id, addr: PeerAddr)
    ensures
        sessions.contains_key(id.0) ==> {
            &&& create_table(sessions, id, addr) == sessions
            &&& create_reply(sessions, id) == Err::<Seq<char>, HubError>(HubError::PeerExists(id))
        },
        !sessions.contains_key(id.0) ==> {
            &&& create_table(sessions, id, addr).dom() == sessions.dom().insert(id.0)
            &&& create_table(sessions, id, addr)[id.0] == (PeerEndpoints {
                main_peer_one: Some(addr),
                main_peer_two: None,
            })
            &&& forall|k: u32| #[trigger]
                sessions.contains_key(k) ==> create_table(sessions, id, addr)[k] == sessions[k]
            &&& create_reply(sessions, id) == Ok::<Seq<char>, HubError>(
                "Peer Id("@ + decimal(id.0 as nat) + ") successfully created"@,
            )
        },
{
    if !sessions.contains_key(id.0) {
        assert(create_table(sessions, id, addr).dom() =~= sessions.dom().insert(id.0));
        reveal_strlit("Peer ");
        reveal_strlit("Id(");
        reveal_strlit(")");
        reveal_strlit(" successfully created");
        reveal_strlit(") successfully created");
        reveal_strlit("Peer Id(");
        assert(created_text(id) =~= "Peer Id("@ + decimal(id.0 as nat) + ") successfully created"@);
    }
}

/// The refusals and the message of a connection read as the identifier's
/// debug form, `Id(<n>)` with `n` in decimal, set into fixed text.
pub proof fn law_message_texts(id: Id)
    ensures
        error_text(HubError::PeerExists(id)) == "The peer Id("@ + decimal(id.0 as nat)
            + ") already exists."@,
        error_text(HubError::PeerNotFound(id)) == "Peer Id("@ + decimal(id.0 as nat)
            + ") not found"@,
        connected_text(id) == "Successful connection to the peer Id("@ + decimal(id.0 as nat)
            + ")"@,
{
    reveal_strlit("The peer ");
    reveal_strlit("Id(");
    reveal_strlit(")");
    reveal_strlit(" already exists.");
    reveal_strlit("The peer Id(");
    reveal_strlit(") already exists.");
    reveal_strlit("Peer ");
    reveal_strlit("Peer Id(");
    reveal_strlit(" not found");
    reveal_strlit(") not found");
    reveal_strlit("Successful connection to the peer ");
    reveal_strlit("Successful connection to the peer Id(");
    assert(error_text(HubError::PeerExists(id)) =~= "The peer Id("@ + decimal(id.0 as nat)
        + ") already exists."@);
    assert(error_text(HubError::PeerNotFound(id)) =~= "Peer Id("@ + decimal(id.0 as nat)
        + ") not found"@);
    assert(connected_text(id) =~= "Successful connection to the peer Id("@ + decimal(id.0 as nat)
        + ")"@);
}

} // verus!
