//! The registry: the records of all registered servers, each found by its
//! identifier.
//!
//! A registry is modelled by the sequence of its records in the order of their
//! registration. No two records share an identifier.

use vstd::prelude::*;
use crate::state::{valid_record, Server, ServerView, GRACE_PERIOD, MAX_SERVER_ID_LEN};
use vstd::string::*;

verus! {

/// The records that a sequence of servers stands for.
pub open spec fn records_of(servers: Seq<Server>) -> Seq<ServerView> {
    servers.map_values(|s: Server| s@)
}

/// Whether some record carries the identifier `id`.
pub open spec fn has_id(records: Seq<ServerView>, id: Seq<char>) -> bool {
    exists|i: int| 0 <= i < records.len() && (#[trigger] records[i]).id == id
}

/// The position of the record with the identifier `id`, where there is one.
pub open spec fn index_of(records: Seq<ServerView>, id: Seq<char>) -> int {
    choose|i: int| 0 <= i < records.len() && (#[trigger] records[i]).id == id
}

/// The record with the identifier `id`, where there is one.
pub open spec fn record_of(records: Seq<ServerView>, id: Seq<char>) -> ServerView {
    records[index_of(records, id)]
}

/// The records with the one that carries the identifier `id` replaced by `r`.
pub open spec fn with_record(records: Seq<ServerView>, id: Seq<char>, r: ServerView) -> Seq<
    ServerView,
> {
    records.update(index_of(records, id), r)
}

/// No two records share an identifier.
pub open spec fn distinct_ids(records: Seq<ServerView>) -> bool {
    forall|i: int, j: int|
        0 <= i < j < records.len() ==> (#[trigger] records[i]).id != (#[trigger] records[j]).id
}

/// What holds of the records of every registry.
pub open spec fn well_formed(records: Seq<ServerView>) -> bool {
    &&& distinct_ids(records)
    &&& forall|i: int| 0 <= i < records.len() ==> valid_record(#[trigger] records[i])
}

/// The sum of the pending rewards of all records.
pub open spec fn total_pending(records: Seq<ServerView>) -> nat
    decreases records.len(),
{
    if records.len() == 0 {
        0
    } else {
        total_pending(records.drop_last()) + records.last().pending_rewards as nat
    }
}

/// Among distinct identifiers, a record is found at its own position.
pub proof fn lemma_index_of(records: Seq<ServerView>, i: int)
    requires
        distinct_ids(records),
        0 <= i < records.len(),
    ensures
        has_id(records, records[i].id),
        index_of(records, records[i].id) == i,
        record_of(records, records[i].id) == records[i],
{
    let k = index_of(records, records[i].id);
    assert(0 <= k < records.len() && records[k].id == records[i].id);
}

/// A record that is present has a position, and sits there.
pub proof fn lemma_has_id(records: Seq<ServerView>, id: Seq<char>)
    requires
        has_id(records, id),
    ensures
        0 <= index_of(records, id) < records.len(),
        record_of(records, id).id == id,
{
}

/// Appending a record adds its pending rewards to the total.
pub proof fn lemma_total_pending_push(records: Seq<ServerView>, r: ServerView)
    ensures
        total_pending(records.push(r)) == total_pending(records) + r.pending_rewards,
{
    assert(records.push(r).drop_last() =~= records);
}

/// Replacing a record changes the total by the difference of the pending
/// rewards of the two.
pub proof fn lemma_total_pending_update(records: Seq<ServerView>, i: int, r: ServerView)
    requires
        0 <= i < records.len(),
    ensures
        total_pending(records.update(i, r)) + records[i].pending_rewards == total_pending(records)
            + r.pending_rewards,
    decreases records.len(),
{
    let updated = records.update(i, r);
    if i == records.len() - 1 {
        assert(updated.drop_last() =~= records.drop_last());
    } else {
        lemma_total_pending_update(records.drop_last(), i, r);
        assert(updated.drop_last() =~= records.drop_last().update(i, r));
    }
}

/// The total is no greater than the number of records times the greatest
/// balance.
pub proof fn lemma_total_pending_bound(records: Seq<ServerView>)
    ensures
        total_pending(records) <= records.len() * u64::MAX,
    decreases records.len(),
{
    if records.len() > 0 {
        lemma_total_pending_bound(records.drop_last());
        assert(total_pending(records) <= (records.len() - 1) * u64::MAX + u64::MAX);
        assert((records.len() - 1) * u64::MAX + u64::MAX == records.len() * u64::MAX)
            by (nonlinear_arith);
    }
}

/// Replacing a record by one with the same identifier keeps the identifiers
/// distinct, and keeps every other record where it was.
pub proof fn lemma_update_keeps_ids(records: Seq<ServerView>, i: int, r: ServerView)
    requires
        well_formed(records),
        0 <= i < records.len(),
        r.id == records[i].id,
        valid_record(r),
    ensures
        well_formed(records.update(i, r)),
        forall|id: Seq<char>| has_id(records.update(i, r), id) == has_id(records, id),
        forall|id: Seq<char>|
            has_id(records, id) ==> index_of(records.update(i, r), id) == index_of(records, id),
{
    let updated = records.update(i, r);
    assert forall|a: int, b: int| 0 <= a < b < updated.len() implies (#[trigger] updated[a]).id != (
    #[trigger] updated[b]).id by {
        assert(updated[a].id == records[a].id);
        assert(updated[b].id == records[b].id);
    }
    assert forall|id: Seq<char>| has_id(updated, id) == has_id(records, id) by {
        if has_id(records, id) {
            let k = index_of(records, id);
            assert(updated[k].id == id);
        }
        if has_id(updated, id) {
            let k = index_of(updated, id);
            assert(records[k].id == id);
        }
    }
    assert forall|id: Seq<char>| has_id(records, id) implies index_of(updated, id) == index_of(
        records,
        id,
    ) by {
        let k = index_of(records, id);
        assert(updated[k].id == id);
        lemma_index_of(updated, k);
    }
}

/// Appending a record with a new identifier keeps the identifiers distinct,
/// and keeps every other record where it was.
pub proof fn lemma_push_keeps_ids(records: Seq<ServerView>, r: ServerView)
    requires
        well_formed(records),
        !has_id(records, r.id),
        valid_record(r),
    ensures
        well_formed(records.push(r)),
        has_id(records.push(r), r.id),
        index_of(records.push(r), r.id) == records.len(),
        record_of(records.push(r), r.id) == r,
        forall|id: Seq<char>| has_id(records.push(r), id) == (has_id(records, id) || id == r.id),
        forall|id: Seq<char>|
            has_id(records, id) ==> record_of(records.push(r), id) == record_of(records, id),
{
    let pushed = records.push(r);
    assert forall|a: int, b: int| 0 <= a < b < pushed.len() implies (#[trigger] pushed[a]).id != (
    #[trigger] pushed[b]).id by {
        assert(pushed[a] == records[a]);
        if b < records.len() {
            assert(pushed[b] == records[b]);
        }
    }
    assert(pushed[records.len() as int] == r);
    lemma_index_of(pushed, records.len() as int);
    assert forall|id: Seq<char>| has_id(pushed, id) == (has_id(records, id) || id == r.id) by {
        if has_id(records, id) {
            let k = index_of(records, id);
            assert(pushed[k].id == id);
        }
        if has_id(pushed, id) && id != r.id {
            let k = index_of(pushed, id);
            assert(records[k].id == id);
        }
    }
    assert forall|id: Seq<char>| has_id(records, id) implies record_of(pushed, id) == record_of(
        records,
        id,
    ) by {
        let k = index_of(records, id);
        assert(pushed[k] == records[k]);
        lemma_index_of(pushed, k);
    }
}

/// The records of all registered servers.
pub struct Registry {
    servers: Vec<Server>,
}

impl View for Registry {
    type V = Seq<ServerView>;

    closed spec fn view(&self) -> Seq<ServerView> {
        records_of(self.servers@)
    }
}

impl Registry {
    #[verifier::type_invariant]
    spec fn inv(&self) -> bool {
        well_formed(self@)
    }

    /// A registry without records.
    pub fn new() -> (registry: Registry)
        ensures
            registry@ == Seq::<ServerView>::empty(),
    {
        let registry = Registry { servers: Vec::new() };
        assert(registry@ =~= Seq::<ServerView>::empty());
        registry
    }

    /// The registry that holds `servers`, as they were taken from a registry
    /// before. There is none if two of them share an identifier, or if one of
    /// them could not have come from a registration.
    pub fn restore(servers: Vec<Server>) -> (restored: Option<Registry>)
        ensures
            restored is Some <==> well_formed(records_of(servers@)),
            restored matches Some(registry) ==> registry@ == records_of(servers@),
    {
        let ghost records = records_of(servers@);
        let mut i: usize = 0;
        while i < servers.len()
            invariant
                i <= servers.len(),
                records == records_of(servers@),
                well_formed(records.take(i as int)),
            decreases servers.len() - i,
        {
            let server = &servers[i];
            assert(records[i as int] == server@);
            if server.id.as_str().unicode_len() > MAX_SERVER_ID_LEN {
                assert(!valid_record(records[i as int]));
                return None;
            }
            if server.grace_period_end as i128 != server.registered_at as i128
                + GRACE_PERIOD as i128 {
                assert(!valid_record(records[i as int]));
                return None;
            }
            let mut j: usize = 0;
            while j < i
                invariant
                    j <= i < servers.len(),
                    records == records_of(servers@),
                    server == servers[i as int],
                    forall|k: int| 0 <= k < j ==> (#[trigger] records[k]).id != records[i as int].id,
                decreases i - j,
            {
                if servers[j].id == server.id {
                    assert(records[j as int].id == records[i as int].id);
                    return None;
                }
                j += 1;
            }
            proof {
                let next = records.take(i + 1);
                assert forall|a: int, b: int| 0 <= a < b < next.len() implies (
                #[trigger] next[a]).id != (#[trigger] next[b]).id by {
                    assert(next[a] == records.take(i as int)[a]);
                    if b < i {
                        assert(next[b] == records.take(i as int)[b]);
                    }
                }
                assert forall|a: int| 0 <= a < next.len() implies valid_record(
                    #[trigger] next[a],
                ) by {
                    if a < i {
                        assert(next[a] == records.take(i as int)[a]);
                    }
                }
            }
            i += 1;
        }
        assert(records.take(i as int) =~= records);
        Some(Registry { servers })
    }

    /// The servers in the order of their registration.
    pub fn servers(&self) -> (servers: &Vec<Server>)
        ensures
            records_of(servers@) == self@,
            well_formed(self@),
    {
        proof {
            use_type_invariant(self);
        }
        &self.servers
    }

    /// The number of records.
    pub fn len(&self) -> (n: usize)
        ensures
            n == self@.len(),
            well_formed(self@),
    {
        proof {
            use_type_invariant(self);
        }
        self.servers.len()
    }

    /// The position of the record with the identifier `id`.
    pub(crate) fn position(&self, id: &str) -> (found: Option<usize>)
        ensures
            well_formed(self@),
            found is Some <==> has_id(self@, id@),
            found matches Some(i) ==> i == index_of(self@, id@) && i < self@.len(),
    {
        proof {
            use_type_invariant(self);
        }
        let key: String = id.to_owned();
        let mut i: usize = 0;
        while i < self.servers.len()
            invariant
                i <= self.servers.len(),
                key@ == id@,
                self@.len() == self.servers.len(),
                forall|j: int| 0 <= j < i ==> (#[trigger] self@[j]).id != id@,
                forall|j: int| 0 <= j < self@.len() ==> (#[trigger] self@[j]) == self.servers[j]@,
                well_formed(self@),
            decreases self.servers.len() - i,
        {
            if self.servers[i].id == key {
                proof {
                    lemma_index_of(self@, i as int);
                }
                return Some(i);
            }
            i += 1;
        }
        None
    }

    /// The record at position `i`.
    pub(crate) fn at(&self, i: usize) -> (server: &Server)
        requires
            i < self@.len(),
        ensures
            server@ == self@[i as int],
            valid_record(server@),
    {
        proof {
            use_type_invariant(self);
            assert(valid_record(self@[i as int]));
        }
        &self.servers[i]
    }

    /// Puts `server` in the place of the record at position `i`, whose
    /// identifier it carries.
    pub(crate) fn replace(&mut self, i: usize, server: Server)
        requires
            i < old(self)@.len(),
            server@.id == old(self)@[i as int].id,
            valid_record(server@),
        ensures
            final(self)@ == old(self)@.update(i as int, server@),
    {
        proof {
            use_type_invariant(&*self);
            lemma_update_keeps_ids(self@, i as int, server@);
        }
        let ghost before = self@;
        let mut servers: Vec<Server> = Vec::new();
        std::mem::swap(&mut servers, &mut self.servers);
        servers.set(i, server);
        assert(records_of(servers@) =~= before.update(i as int, server@));
        self.servers = servers;
    }

    /// Appends `server`, whose identifier no record carries yet.
    pub(crate) fn append(&mut self, server: Server)
        requires
            !has_id(old(self)@, server@.id),
            valid_record(server@),
        ensures
            final(self)@ == old(self)@.push(server@),
    {
        proof {
            use_type_invariant(&*self);
            lemma_push_keeps_ids(self@, server@);
        }
        let ghost before = self@;
        let mut servers: Vec<Server> = Vec::new();
        std::mem::swap(&mut servers, &mut self.servers);
        servers.push(server);
        assert(records_of(servers@) =~= before.push(server@));
        self.servers = servers;
    }

    /// Whether a server with the identifier `id` is registered.
    pub fn contains(&self, id: &str) -> (present: bool)
        ensures
            present == has_id(self@, id@),
            well_formed(self@),
    {
        self.position(id).is_some()
    }

    /// The record of the server with the identifier `id`, if one is
    /// registered.
    pub fn get(&self, id: &str) -> (found: Option<&Server>)
        ensures
            found is Some <==> has_id(self@, id@),
            found matches Some(server) ==> server@ == record_of(self@, id@),
            well_formed(self@),
    {
        match self.position(id) {
            Some(i) => Some(self.at(i)),
            None => None,
        }
    }

    /// The sum of the pending rewards of all records.
    pub fn total_pending(&self) -> (total: u128)
        ensures
            total == total_pending(self@),
    {
        let mut total: u128 = 0;
        let mut i: usize = 0;
        while i < self.servers.len()
            invariant
                i <= self.servers.len(),
                self@.len() == self.servers.len(),
                forall|j: int| 0 <= j < self@.len() ==> (#[trigger] self@[j]) == self.servers[j]@,
                total == total_pending(self@.take(i as int)),
            decreases self.servers.len() - i,
        {
            proof {
                let next = self@.take(i + 1);
                assert(next.drop_last() =~= self@.take(i as int));
                lemma_total_pending_bound(next);
                assert(next.len() * u64::MAX <= usize::MAX * u64::MAX) by (nonlinear_arith)
                    requires
                        next.len() <= usize::MAX,
                ;
            }
            total = total + self.servers[i].pending_rewards as u128;
            i += 1;
        }
        assert(self@.take(i as int) =~= self@);
        total
    }
}

} // verus!
