//! The registry of live connections: which sessions are connected, and the
//! outbound handle of each.
//!
//! The registry is an ordinary value that its owner constructs and hands to
//! whoever needs it; it is changed only by `register` and `unregister` and
//! read for a broadcast only through `snapshot`. Its model is a finite map
//! from session id to outbound handle. Every session in it has a handle.

use crate::trusted::channel::clone_sender;
pub use crate::trusted::channel::Outbound;
use vstd::prelude::*;

verus! {

/// One live connection: its session id and the send-only handle of the
/// channel that its writer drains.
#[derive(Debug)]
pub struct Client {
    pub client_id: String,
    pub sender: Option<Outbound>,
}

impl Clone for Client {
    /// A copy with the same id and a handle to the same channel.
    fn clone(&self) -> (copy: Self)
        ensures
            copy == *self,
    {
        let sender = match &self.sender {
            Some(s) => Some(clone_sender(s)),
            None => None,
        };
        Client { client_id: self.client_id.clone(), sender }
    }
}

/// The ids of `entries`, in their order.
pub open spec fn ids_of(entries: Seq<Client>) -> Seq<Seq<char>> {
    Seq::new(entries.len(), |i: int| entries[i].client_id@)
}

/// The map from id to handle that `entries` stands for, where no id occurs
/// twice and every entry has a handle.
pub open spec fn handles_of(entries: Seq<Client>) -> Map<Seq<char>, Outbound> {
    Map::new(
        |id: Seq<char>| ids_of(entries).contains(id),
        |id: Seq<char>| entries[ids_of(entries).index_of(id)].sender->0,
    )
}

/// No id occurs twice in `entries`, and every entry has a handle.
pub open spec fn well_formed(entries: Seq<Client>) -> bool {
    &&& ids_of(entries).no_duplicates()
    &&& forall|i: int| 0 <= i < entries.len() ==> (#[trigger] entries[i]).sender is Some
}

/// The connection registry.
pub struct Clients {
    entries: Vec<Client>,
}

impl View for Clients {
    type V = Map<Seq<char>, Outbound>;

    closed spec fn view(&self) -> Map<Seq<char>, Outbound> {
        handles_of(self.entries@)
    }
}

/// Where `id` stands in well-formed `entries`, its handle is what the map
/// holds for it.
proof fn lemma_entry_in_map(entries: Seq<Client>, i: int)
    requires
        well_formed(entries),
        0 <= i < entries.len(),
    ensures
        ids_of(entries).contains(entries[i].client_id@),
        ids_of(entries).index_of(entries[i].client_id@) == i,
        handles_of(entries).dom().contains(entries[i].client_id@),
        handles_of(entries)[entries[i].client_id@] == entries[i].sender->0,
{
    let ids = ids_of(entries);
    assert(ids[i] == entries[i].client_id@);
    let k = ids.index_of(entries[i].client_id@);
    assert(0 <= k < ids.len() && ids[k] == entries[i].client_id@);
}

/// The map of well-formed `entries` has one key for each entry.
proof fn lemma_domain_size(entries: Seq<Client>)
    requires
        well_formed(entries),
    ensures
        handles_of(entries).dom().finite(),
        handles_of(entries).dom().len() == entries.len(),
        handles_of(entries).dom() == ids_of(entries).to_set(),
{
    let ids = ids_of(entries);
    assert(handles_of(entries).dom() =~= ids.to_set());
    ids.unique_seq_to_set();
    vstd::seq_lib::seq_to_set_is_finite(ids);
}

/// The position of `id` among `entries`, if it occurs there.
fn position(entries: &Vec<Client>, id: &String) -> (found: Option<usize>)
    ensures
        match found {
            Some(i) => i < entries@.len() && entries@[i as int].client_id@ == id@,
            None => !ids_of(entries@).contains(id@),
        },
{
    let mut i: usize = 0;
    while i < entries.len()
        invariant
            i <= entries@.len(),
            forall|k: int| 0 <= k < i ==> entries@[k].client_id@ != id@,
        decreases entries@.len() - i,
    {
        if entries[i].client_id == *id {
            return Some(i);
        }
        i += 1;
    }
    proof {
        let ids = ids_of(entries@);
        assert forall|k: int| 0 <= k < ids.len() implies ids[k] != id@ by {
            assert(ids[k] == entries@[k].client_id@);
        }
    }
    None
}

/// Puts `id` with `sender` into `entries`, in place of an entry of the same
/// id if there is one and at the end otherwise.
fn put(entries: &mut Vec<Client>, id: String, sender: Outbound)
    requires
        well_formed(old(entries)@),
    ensures
        well_formed(final(entries)@),
        handles_of(final(entries)@) == handles_of(old(entries)@).insert(id@, sender),
{
    let ghost before = entries@;
    let ghost key = id@;
    let found = position(entries, &id);
    let client = Client { client_id: id, sender: Some(sender) };
    match found {
        Some(i) => {
            entries.set(i, client);
            proof {
                let after = entries@;
                assert(ids_of(after) =~= ids_of(before));
                assert(ids_of(before)[i as int] == key);
                assert forall|k: int| 0 <= k < after.len() implies (#[trigger] after[k]).sender
                    is Some by {
                    if k != i {
                        assert(after[k] == before[k]);
                    }
                }
                assert forall|q: Seq<char>| ids_of(after).contains(q) implies handles_of(after)[q]
                    == handles_of(before).insert(key, sender)[q] by {
                    let j = ids_of(after).index_of(q);
                    if q == key {
                        lemma_entry_in_map(after, i as int);
                    } else {
                        assert(ids_of(after)[j] == q);
                        assert(j != i);
                        assert(after[j] == before[j]);
                    }
                }
                assert(handles_of(after) =~= handles_of(before).insert(key, sender));
            }
        },
        None => {
            entries.push(client);
            proof {
                let after = entries@;
                let n = before.len() as int;
                assert(ids_of(after) =~= ids_of(before).push(key));
                assert forall|a: int, b: int|
                    0 <= a < ids_of(after).len() && 0 <= b < ids_of(after).len() && a
                        != b implies ids_of(after)[a] != ids_of(after)[b] by {
                    if a < n && b < n {
                        assert(ids_of(before)[a] != ids_of(before)[b]);
                    } else if a < n {
                        assert(ids_of(before)[a] == ids_of(after)[a]);
                    } else {
                        assert(ids_of(before)[b] == ids_of(after)[b]);
                    }
                }
                assert forall|k: int| 0 <= k < after.len() implies (#[trigger] after[k]).sender
                    is Some by {
                    if k < n {
                        assert(after[k] == before[k]);
                    }
                }
                assert forall|q: Seq<char>|
                    ids_of(after).contains(q) <==> (q == key || ids_of(before).contains(q)) by {
                    if ids_of(after).contains(q) {
                        let j = ids_of(after).index_of(q);
                        assert(ids_of(after)[j] == q);
                        if j < n {
                            assert(ids_of(before)[j] == q);
                        }
                    }
                    if q == key {
                        assert(ids_of(after)[n] == q);
                    }
                    if ids_of(before).contains(q) {
                        let j = ids_of(before).index_of(q);
                        assert(ids_of(after)[j] == q);
                    }
                }
                assert forall|q: Seq<char>| ids_of(after).contains(q) implies handles_of(after)[q]
                    == handles_of(before).insert(key, sender)[q] by {
                    if q == key {
                        lemma_entry_in_map(after, n);
                    } else {
                        let j = ids_of(before).index_of(q);
                        assert(ids_of(before)[j] == q);
                        lemma_entry_in_map(before, j);
                        assert(after[j] == before[j]);
                        lemma_entry_in_map(after, j);
                    }
                }
                assert(handles_of(after) =~= handles_of(before).insert(key, sender));
            }
        },
    }
}

/// Takes the entry of `id` out of `entries`, if there is one, and says
/// whether there was.
fn take_out(entries: &mut Vec<Client>, id: &String) -> (removed: bool)
    requires
        well_formed(old(entries)@),
    ensures
        well_formed(final(entries)@),
        removed == ids_of(old(entries)@).contains(id@),
        handles_of(final(entries)@) == handles_of(old(entries)@).remove(id@),
        !removed ==> final(entries)@ == old(entries)@,
{
    let ghost before = entries@;
    match position(entries, id) {
        Some(i) => {
            entries.remove(i);
            proof {
                let after = entries@;
                let key = id@;
                assert(ids_of(after) =~= ids_of(before).remove(i as int));
                assert(ids_of(before)[i as int] == key);
                assert forall|a: int, b: int|
                    0 <= a < ids_of(after).len() && 0 <= b < ids_of(after).len() && a
                        != b implies ids_of(after)[a] != ids_of(after)[b] by {
                    let a0 = if a < i { a } else { a + 1 };
                    let b0 = if b < i { b } else { b + 1 };
                    assert(ids_of(after)[a] == ids_of(before)[a0]);
                    assert(ids_of(after)[b] == ids_of(before)[b0]);
                }
                assert forall|k: int| 0 <= k < after.len() implies (#[trigger] after[k]).sender
                    is Some by {
                    let k0 = if k < i { k } else { k + 1 };
                    assert(after[k] == before[k0]);
                }
                assert forall|q: Seq<char>|
                    ids_of(after).contains(q) <==> (q != key && ids_of(before).contains(q)) by {
                    if ids_of(after).contains(q) {
                        let j = ids_of(after).index_of(q);
                        let j0 = if j < i { j } else { j + 1 };
                        assert(ids_of(after)[j] == q);
                        assert(ids_of(before)[j0] == q);
                        assert(j0 != i);
                    }
                    if q != key && ids_of(before).contains(q) {
                        let j = ids_of(before).index_of(q);
                        assert(ids_of(before)[j] == q);
                        let j1 = if j < i { j } else { j - 1 };
                        assert(ids_of(after)[j1] == q);
                    }
                }
                assert forall|q: Seq<char>| ids_of(after).contains(q) implies handles_of(after)[q]
                    == handles_of(before)[q] by {
                    let j = ids_of(after).index_of(q);
                    let j0 = if j < i { j } else { j + 1 };
                    assert(ids_of(after)[j] == q);
                    assert(after[j] == before[j0]);
                    lemma_entry_in_map(before, j0);
                    lemma_entry_in_map(after, j);
                }
                lemma_entry_in_map(before, i as int);
                assert(handles_of(after) =~= handles_of(before).remove(key));
            }
            true
        },
        None => {
            proof {
                assert(handles_of(before).remove(id@) =~= handles_of(before));
            }
            false
        },
    }
}

impl Clients {
    #[verifier::type_invariant]
    spec fn inv(&self) -> bool {
        well_formed(self.entries@)
    }

    /// The session ids in the order in which `snapshot` lists them. The
    /// order carries no meaning; each registered id occurs in it once.
    pub closed spec fn order(&self) -> Seq<Seq<char>> {
        ids_of(self.entries@)
    }

    /// An empty registry.
    pub fn new() -> (clients: Self)
        ensures
            clients@ == Map::<Seq<char>, Outbound>::empty(),
            clients.order() == Seq::<Seq<char>>::empty(),
    {
        let clients = Clients { entries: Vec::new() };
        proof {
            assert(ids_of(clients.entries@) =~= Seq::<Seq<char>>::empty());
            assert(clients@ =~= Map::<Seq<char>, Outbound>::empty());
        }
        clients
    }

    /// Adds the session `id` with its outbound handle. A session already
    /// registered under `id` is replaced.
    pub fn register(&mut self, id: String, sender: Outbound)
        ensures
            final(self)@ == old(self)@.insert(id@, sender),
    {
        proof {
            use_type_invariant(&*self);
        }
        let mut entries: Vec<Client> = Vec::new();
        core::mem::swap(&mut self.entries, &mut entries);
        put(&mut entries, id, sender);
        self.entries = entries;
    }

    /// Removes the session `id` and says whether it was registered. An id
    /// that is absent leaves the registry as it was.
    pub fn unregister(&mut self, id: &String) -> (removed: bool)
        ensures
            removed == old(self)@.dom().contains(id@),
            final(self)@ == old(self)@.remove(id@),
            !removed ==> final(self)@ == old(self)@ && final(self).order() == old(self).order(),
    {
        proof {
            use_type_invariant(&*self);
        }
        let mut entries: Vec<Client> = Vec::new();
        core::mem::swap(&mut self.entries, &mut entries);
        let removed = take_out(&mut entries, id);
        self.entries = entries;
        removed
    }

    /// Whether the session `id` is registered.
    pub fn contains(&self, id: &String) -> (present: bool)
        ensures
            present == self@.dom().contains(id@),
    {
        proof {
            use_type_invariant(self);
        }
        match position(&self.entries, id) {
            Some(i) => {
                proof {
                    lemma_entry_in_map(self.entries@, i as int);
                }
                true
            },
            None => false,
        }
    }

    /// The number of registered sessions.
    pub fn len(&self) -> (count: usize)
        ensures
            self@.dom().finite(),
            count == self@.dom().len(),
            count == self.order().len(),
    {
        proof {
            use_type_invariant(self);
            lemma_domain_size(self.entries@);
        }
        self.entries.len()
    }

    /// A point-in-time copy of every registered session, for a broadcast.
    ///
    /// The copy lists each registered id once, with a handle to that
    /// session's channel, and later changes to the registry do not reach it.
    pub fn snapshot(&self) -> (sessions: Vec<Client>)
        ensures
            self.order().no_duplicates(),
            self.order().to_set() == self@.dom(),
            self@.dom().finite(),
            sessions@.len() == self@.dom().len(),
            ids_of(sessions@) == self.order(),
            forall|i: int|
                0 <= i < sessions@.len() ==> (#[trigger] sessions@[i]).sender == Some(
                    self@[self.order()[i]],
                ),
    {
        proof {
            use_type_invariant(self);
            lemma_domain_size(self.entries@);
        }
        let mut sessions: Vec<Client> = Vec::new();
        let mut i: usize = 0;
        while i < self.entries.len()
            invariant
                i <= self.entries@.len(),
                well_formed(self.entries@),
                sessions@.len() == i,
                forall|k: int|
                    0 <= k < i ==> (#[trigger] sessions@[k]).client_id@
                        == self.entries@[k].client_id@,
                forall|k: int|
                    0 <= k < i ==> (#[trigger] sessions@[k]).sender == self.entries@[k].sender,
            decreases self.entries@.len() - i,
        {
            sessions.push(self.entries[i].clone());
            i += 1;
        }
        proof {
            assert(ids_of(sessions@) =~= ids_of(self.entries@));
            assert forall|k: int| 0 <= k < sessions@.len() implies (#[trigger] sessions@[k]).sender
                == Some(self@[self.order()[k]]) by {
                lemma_entry_in_map(self.entries@, k);
            }
        }
        sessions
    }
}

/// The registry map after the sessions of `sessions`, each an id with its
/// handle, have been registered in order on top of `start`.
pub open spec fn after_registering(
    start: Map<Seq<char>, Outbound>,
    sessions: Seq<(Seq<char>, Outbound)>,
) -> Map<Seq<char>, Outbound>
    decreases sessions.len(),
{
    if sessions.len() == 0 {
        start
    } else {
        after_registering(start, sessions.drop_last()).insert(
            sessions.last().0,
            sessions.last().1,
        )
    }
}

/// No two of `sessions` have the same id.
pub open spec fn distinct_ids(sessions: Seq<(Seq<char>, Outbound)>) -> bool {
    forall|i: int, j: int| 0 <= i < j < sessions.len() ==> sessions[i].0 != sessions[j].0
}

/// What registering sessions of distinct ids comes to: each of them is in
/// the map with its own handle, and every other id is as it was.
proof fn lemma_after_registering(
    start: Map<Seq<char>, Outbound>,
    sessions: Seq<(Seq<char>, Outbound)>,
)
    requires
        distinct_ids(sessions),
    ensures
        forall|i: int|
            0 <= i < sessions.len() ==> after_registering(start, sessions).dom().contains(
                #[trigger] sessions[i].0,
            ) && after_registering(start, sessions)[sessions[i].0] == sessions[i].1,
        forall|id: Seq<char>|
            (forall|i: int| 0 <= i < sessions.len() ==> sessions[i].0 != id) ==> (
            #[trigger] after_registering(start, sessions).dom().contains(id)
                <==> start.dom().contains(id)) && after_registering(start, sessions)[id]
                == start[id],
        forall|id: Seq<char>| #[trigger]
            after_registering(start, sessions).dom().contains(id) ==> start.dom().contains(id) || (
            exists|i: int| 0 <= i < sessions.len() && sessions[i].0 == id),
    decreases sessions.len(),
{
    if sessions.len() > 0 {
        let front = sessions.drop_last();
        let n = sessions.len() - 1;
        assert forall|i: int, j: int| 0 <= i < j < front.len() implies front[i].0
            != front[j].0 by {
            assert(front[i] == sessions[i] && front[j] == sessions[j]);
        }
        lemma_after_registering(start, front);
        let before = after_registering(start, front);
        let after = after_registering(start, sessions);
        assert(after == before.insert(sessions[n].0, sessions[n].1));
        assert forall|i: int| 0 <= i < sessions.len() implies after.dom().contains(
            #[trigger] sessions[i].0,
        ) && after[sessions[i].0] == sessions[i].1 by {
            if i < n {
                assert(front[i] == sessions[i]);
                assert(sessions[i].0 != sessions[n].0);
            }
        }
        assert forall|id: Seq<char>|
            (forall|i: int| 0 <= i < sessions.len() ==> sessions[i].0 != id) implies (
        #[trigger] after.dom().contains(id) <==> start.dom().contains(id)) && after[id]
            == start[id] by {
            assert(sessions[n].0 != id);
            assert forall|i: int| 0 <= i < front.len() implies front[i].0 != id by {
                assert(front[i] == sessions[i]);
            }
        }
        assert forall|id: Seq<char>| #[trigger] after.dom().contains(id) implies start.dom().contains(
            id,
        ) || (exists|i: int| 0 <= i < sessions.len() && sessions[i].0 == id) by {
            if id == sessions[n].0 {
            } else if !start.dom().contains(id) {
                assert(before.dom().contains(id));
                let i = choose|i: int| 0 <= i < front.len() && front[i].0 == id;
                assert(front[i] == sessions[i]);
            }
        }
    }
}

/// Sessions of distinct ids may be registered in any order: the registry
/// ends up the same.
pub proof fn registration_order_is_irrelevant(
    start: Map<Seq<char>, Outbound>,
    first: Seq<(Seq<char>, Outbound)>,
    second: Seq<(Seq<char>, Outbound)>,
)
    requires
        distinct_ids(first),
        distinct_ids(second),
        first.to_set() == second.to_set(),
    ensures
        after_registering(start, first) == after_registering(start, second),
{
    lemma_after_registering(start, first);
    lemma_after_registering(start, second);
    let a = after_registering(start, first);
    let b = after_registering(start, second);
    assert forall|id: Seq<char>| a.dom().contains(id) == b.dom().contains(id) && (a.dom().contains(
        id,
    ) ==> a[id] == b[id]) by {
        if exists|i: int| 0 <= i < first.len() && first[i].0 == id {
            let i = choose|i: int| 0 <= i < first.len() && first[i].0 == id;
            assert(first.to_set().contains(first[i]));
            assert(second.contains(first[i]));
            let j = choose|j: int| 0 <= j < second.len() && second[j] == first[i];
            assert(second[j].0 == id);
        } else if exists|j: int| 0 <= j < second.len() && second[j].0 == id {
            let j = choose|j: int| 0 <= j < second.len() && second[j].0 == id;
            assert(second.to_set().contains(second[j]));
            assert(first.contains(second[j]));
            let i = choose|i: int| 0 <= i < first.len() && first[i] == second[j];
            assert(first[i].0 == id);
        }
    }
    assert(a =~= b);
}

/// Registering sessions with ids that are new and distinct adds exactly
/// one entry for each, so a broadcast that follows makes one attempt more
/// for each of them.
pub proof fn registrations_add_up(
    start: Map<Seq<char>, Outbound>,
    sessions: Seq<(Seq<char>, Outbound)>,
)
    requires
        start.dom().finite(),
        distinct_ids(sessions),
        forall|i: int| 0 <= i < sessions.len() ==> !start.dom().contains(#[trigger] sessions[i].0),
    ensures
        after_registering(start, sessions).dom().finite(),
        after_registering(start, sessions).dom().len() == start.dom().len() + sessions.len(),
    decreases sessions.len(),
{
    if sessions.len() > 0 {
        let front = sessions.drop_last();
        let n = sessions.len() - 1;
        assert forall|i: int, j: int| 0 <= i < j < front.len() implies front[i].0
            != front[j].0 by {
            assert(front[i] == sessions[i] && front[j] == sessions[j]);
        }
        assert forall|i: int| 0 <= i < front.len() implies !start.dom().contains(
            #[trigger] front[i].0,
        ) by {
            assert(front[i] == sessions[i]);
        }
        registrations_add_up(start, front);
        lemma_after_registering(start, front);
        let before = after_registering(start, front);
        assert(!before.dom().contains(sessions[n].0)) by {
            assert forall|i: int| 0 <= i < front.len() implies front[i].0 != sessions[n].0 by {
                assert(front[i] == sessions[i]);
            }
        }
    }
}

/// Unregistering an id that is not registered changes nothing, so it is
/// safe to unregister twice.
pub proof fn unregister_is_idempotent(registry: Map<Seq<char>, Outbound>, id: Seq<char>)
    ensures
        !registry.dom().contains(id) ==> registry.remove(id) == registry,
        registry.remove(id).remove(id) == registry.remove(id),
{
    assert(registry.remove(id).remove(id) =~= registry.remove(id));
    if !registry.dom().contains(id) {
        assert(registry.remove(id) =~= registry);
    }
}

/// Builds the empty registry that the server starts with.
pub fn create_clients() -> (clients: Clients)
    ensures
        clients@ == Map::<Seq<char>, Outbound>::empty(),
        clients.order() == Seq::<Seq<char>>::empty(),
{
    Clients::new()
}

} // verus!
