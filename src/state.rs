use vstd::prelude::*;

use crate::error::BootError;

verus! {

/// The map that a list of writes denotes: a later write of a key overrides
/// an earlier one.
pub open spec fn written<V>(s: Seq<(String, V)>) -> Map<Seq<char>, V>
    decreases s.len(),
{
    if s.len() == 0 {
        Map::empty()
    } else {
        written(s.drop_last()).insert(s.last().0@, s.last().1)
    }
}

proof fn lemma_written_prefix<V>(s: Seq<(String, V)>, j: int, id: Seq<char>)
    requires
        0 <= j <= s.len(),
        forall|k: int| j <= k < s.len() ==> s[k].0@ != id,
    ensures
        written(s).contains_key(id) == written(s.subrange(0, j)).contains_key(id),
        written(s).contains_key(id) ==> written(s)[id] == written(s.subrange(0, j))[id],
    decreases s.len() - j,
{
    if j < s.len() {
        assert(s.drop_last() =~= s.subrange(0, s.len() - 1));
        lemma_written_prefix(s.drop_last(), j, id);
        assert(s.drop_last().subrange(0, j) =~= s.subrange(0, j));
    } else {
        assert(s.subrange(0, j) =~= s);
    }
}

/// Index of the last write of `id`, if any.
fn find_last<V>(entries: &Vec<(String, V)>, id: &String) -> (r: Option<usize>)
    ensures
        match r {
            Some(i) => i < entries@.len() && entries@[i as int].0@ == id@
                && written(entries@).contains_key(id@)
                && written(entries@)[id@] == entries@[i as int].1,
            None => !written(entries@).contains_key(id@),
        },
{
    let mut j: usize = entries.len();
    while j > 0
        invariant
            j <= entries@.len(),
            forall|k: int| j <= k < entries@.len() ==> entries@[k].0@ != id@,
        decreases j,
    {
        if entries[j - 1].0 == *id {
            proof {
                let s = entries@;
                lemma_written_prefix(s, j as int, id@);
                assert(s.subrange(0, j as int).drop_last() =~= s.subrange(0, j - 1));
            }
            return Some(j - 1);
        }
        j = j - 1;
    }
    proof {
        lemma_written_prefix(entries@, 0, id@);
    }
    None
}

/// Indices of the last write of each key, one per key.
fn last_writes<V>(entries: &Vec<(String, V)>) -> (r: Vec<usize>)
    ensures
        forall|k: int| 0 <= k < r@.len() ==> #[trigger] r@[k] < entries@.len()
            && written(entries@).contains_key(entries@[r@[k] as int].0@)
            && written(entries@)[entries@[r@[k] as int].0@] == entries@[r@[k] as int].1,
        forall|k: int, l: int| 0 <= k < l < r@.len() ==>
            entries@[#[trigger] r@[k] as int].0@ != entries@[#[trigger] r@[l] as int].0@,
        forall|id: Seq<char>| #[trigger] written(entries@).contains_key(id) ==>
            exists|k: int| 0 <= k < r@.len() && entries@[#[trigger] r@[k] as int].0@ == id,
{
    let mut r: Vec<usize> = Vec::new();
    let mut j: usize = entries.len();
    while j > 0
        invariant
            j <= entries@.len(),
            forall|k: int| 0 <= k < r@.len() ==> j <= #[trigger] r@[k] < entries@.len()
                && written(entries@).contains_key(entries@[r@[k] as int].0@)
                && written(entries@)[entries@[r@[k] as int].0@] == entries@[r@[k] as int].1,
            forall|k: int, l: int| 0 <= k < l < r@.len() ==>
                entries@[#[trigger] r@[k] as int].0@ != entries@[#[trigger] r@[l] as int].0@,
            forall|m: int| j <= m < entries@.len() ==>
                exists|k: int| 0 <= k < r@.len() && entries@[#[trigger] r@[k] as int].0@ == #[trigger] entries@[m].0@,
        decreases j,
    {
        let key = &entries[j - 1].0;
        let mut seen = false;
        let mut k: usize = 0;
        while k < r.len() && !seen
            invariant
                0 < j <= entries@.len(),
                key == entries@[j - 1].0,
                k <= r@.len(),
                forall|q: int| 0 <= q < r@.len() ==> #[trigger] r@[q] < entries@.len(),
                seen ==> exists|q: int| 0 <= q < r@.len() && entries@[#[trigger] r@[q] as int].0@ == key@,
                !seen ==> forall|q: int| 0 <= q < k ==> entries@[#[trigger] r@[q] as int].0@ != key@,
            decreases r@.len() - k + (if seen { 0int } else { 1int }),
        {
            if entries[r[k]].0 == *key {
                seen = true;
            } else {
                k = k + 1;
            }
        }
        if !seen {
            proof {
                assert forall|m: int| j - 1 < m < entries@.len() implies entries@[m].0@ != key@ by {
                    if entries@[m].0@ == key@ {
                        let q = choose|q: int| 0 <= q < r@.len() && entries@[#[trigger] r@[q] as int].0@ == entries@[m].0@;
                        assert(entries@[r@[q] as int].0@ == key@);
                    }
                }
                lemma_written_prefix(entries@, j as int, key@);
                assert(entries@.subrange(0, j as int).drop_last() =~= entries@.subrange(0, j - 1));
            }
            let ghost r0 = r@;
            r.push(j - 1);
            proof {
                assert(r@ == r0.push((j - 1) as usize));
                assert forall|m: int| j - 1 <= m < entries@.len() implies
                    exists|k: int| 0 <= k < r@.len() && entries@[#[trigger] r@[k] as int].0@ == #[trigger] entries@[m].0@ by {
                    if m == j - 1 {
                        assert(r@[r@.len() - 1] == j - 1);
                    } else {
                        let q = choose|q: int| 0 <= q < r0.len() && entries@[#[trigger] r0[q] as int].0@ == entries@[m].0@;
                        assert(r@[q] == r0[q]);
                    }
                }
            }
        }
        j = j - 1;
    }
    proof {
        assert forall|id: Seq<char>| #[trigger] written(entries@).contains_key(id) implies
            exists|k: int| 0 <= k < r@.len() && entries@[#[trigger] r@[k] as int].0@ == id by {
            lemma_written_key(entries@, id);
            let m = choose|m: int| 0 <= m < entries@.len() && entries@[m].0@ == id;
            assert(entries@[m].0@ == id);
        }
    }
    r
}

proof fn lemma_written_key<V>(s: Seq<(String, V)>, id: Seq<char>)
    requires
        written(s).contains_key(id),
    ensures
        exists|m: int| 0 <= m < s.len() && s[m].0@ == id,
    decreases s.len(),
{
    if s.len() > 0 && s.last().0@ != id {
        lemma_written_key(s.drop_last(), id);
        let m = choose|m: int| 0 <= m < s.drop_last().len() && s.drop_last()[m].0@ == id;
        assert(s[m].0@ == id);
    } else if s.len() > 0 {
        assert(s[s.len() - 1].0@ == id);
    }
}

/// `after` holds the records of `before`, but for the address of `id`, which is `a`.
pub open spec fn address_written<S: StateInterface>(before: S, after: S, id: Seq<char>, a: Seq<char>) -> bool {
    &&& after.address_of(id) == Some(a)
    &&& forall|x: Seq<char>| x != id ==> after.address_of(x) == before.address_of(x)
    &&& forall|x: Seq<char>| after.code_id_of(x) == before.code_id_of(x)
}

/// `after` holds the records of `before`, but for the code identifier of `id`, which is `c`.
pub open spec fn code_id_written<S: StateInterface>(before: S, after: S, id: Seq<char>, c: u64) -> bool {
    &&& after.code_id_of(id) == Some(c)
    &&& forall|x: Seq<char>| x != id ==> after.code_id_of(x) == before.code_id_of(x)
    &&& forall|x: Seq<char>| after.address_of(x) == before.address_of(x)
}

/// `after` holds the same records as `before`.
pub open spec fn same_records<S: StateInterface>(before: S, after: S) -> bool {
    &&& forall|x: Seq<char>| after.address_of(x) == before.address_of(x)
    &&& forall|x: Seq<char>| after.code_id_of(x) == before.code_id_of(x)
}

/// A store of the address and the code identifier last recorded for each
/// artifact identifier. Reads of an absent identifier fail; writes overwrite.
pub trait StateInterface: Sized {
    /// The address recorded for `id`.
    spec fn address_of(&self, id: Seq<char>) -> Option<Seq<char>>;

    /// The code identifier recorded for `id`.
    spec fn code_id_of(&self, id: Seq<char>) -> Option<u64>;

    /// The address recorded for `contract_id`.
    fn get_address(&self, contract_id: &String) -> (r: Result<String, BootError>)
        ensures
            match self.address_of(contract_id@) {
                Some(a) => r is Ok && r->Ok_0@ == a,
                None => r is Err && r->Err_0.is_not_found(contract_id@),
            },
    ;

    /// Records `address` for `contract_id`, replacing any earlier one.
    fn set_address(&mut self, contract_id: &String, address: &String)
        ensures
            final(self).address_of(contract_id@) == Some(address@),
            forall|x: Seq<char>| x != contract_id@ ==> final(self).address_of(x) == old(self).address_of(x),
            forall|x: Seq<char>| final(self).code_id_of(x) == old(self).code_id_of(x),
    ;

    /// The code identifier recorded for `contract_id`.
    fn get_code_id(&self, contract_id: &String) -> (r: Result<u64, BootError>)
        ensures
            match self.code_id_of(contract_id@) {
                Some(c) => r == Ok::<u64, BootError>(c),
                None => r is Err && r->Err_0.is_not_found(contract_id@),
            },
    ;

    /// Records `code_id` for `contract_id`, replacing any earlier one.
    fn set_code_id(&mut self, contract_id: &String, code_id: u64)
        ensures
            final(self).code_id_of(contract_id@) == Some(code_id),
            forall|x: Seq<char>| x != contract_id@ ==> final(self).code_id_of(x) == old(self).code_id_of(x),
            forall|x: Seq<char>| final(self).address_of(x) == old(self).address_of(x),
    ;

    /// Every identifier that has an address, once each, with its address.
    fn get_all_addresses(&self) -> (r: Vec<(String, String)>)
        ensures
            forall|k: int| 0 <= k < r@.len() ==> self.address_of((#[trigger] r@[k]).0@) == Some(r@[k].1@),
            forall|k: int, l: int| 0 <= k < l < r@.len() ==> (#[trigger] r@[k]).0@ != (#[trigger] r@[l]).0@,
            forall|id: Seq<char>| #[trigger] self.address_of(id) is Some ==>
                exists|k: int| 0 <= k < r@.len() && (#[trigger] r@[k]).0@ == id,
    ;

    /// Every identifier that has a code identifier, once each, with it.
    fn get_all_code_ids(&self) -> (r: Vec<(String, u64)>)
        ensures
            forall|k: int| 0 <= k < r@.len() ==> self.code_id_of((#[trigger] r@[k]).0@) == Some(r@[k].1),
            forall|k: int, l: int| 0 <= k < l < r@.len() ==> (#[trigger] r@[k]).0@ != (#[trigger] r@[l]).0@,
            forall|id: Seq<char>| #[trigger] self.code_id_of(id) is Some ==>
                exists|k: int| 0 <= k < r@.len() && (#[trigger] r@[k]).0@ == id,
    ;
}

/// The store kept in memory for one session.
pub struct MockState {
    addresses: Vec<(String, String)>,
    code_ids: Vec<(String, u64)>,
}

impl MockState {
    /// An empty store.
    pub fn new() -> (r: Self)
        ensures
            forall|id: Seq<char>| r.address_of(id) is None && r.code_id_of(id) is None,
    {
        MockState { addresses: Vec::new(), code_ids: Vec::new() }
    }
}

impl StateInterface for MockState {
    closed spec fn address_of(&self, id: Seq<char>) -> Option<Seq<char>> {
        if written(self.addresses@).contains_key(id) {
            Some(written(self.addresses@)[id]@)
        } else {
            None
        }
    }

    closed spec fn code_id_of(&self, id: Seq<char>) -> Option<u64> {
        if written(self.code_ids@).contains_key(id) {
            Some(written(self.code_ids@)[id])
        } else {
            None
        }
    }

    fn get_address(&self, contract_id: &String) -> (r: Result<String, BootError>) {
        match find_last(&self.addresses, contract_id) {
            Some(i) => Ok(self.addresses[i].1.clone()),
            None => Err(BootError::NotFound(contract_id.clone())),
        }
    }

    fn set_address(&mut self, contract_id: &String, address: &String) {
        self.addresses.push((contract_id.clone(), address.clone()));
        proof {
            assert(self.addresses@.drop_last() =~= old(self).addresses@);
        }
    }

    fn get_code_id(&self, contract_id: &String) -> (r: Result<u64, BootError>) {
        match find_last(&self.code_ids, contract_id) {
            Some(i) => Ok(self.code_ids[i].1),
            None => Err(BootError::NotFound(contract_id.clone())),
        }
    }

    fn set_code_id(&mut self, contract_id: &String, code_id: u64) {
        self.code_ids.push((contract_id.clone(), code_id));
        proof {
            assert(self.code_ids@.drop_last() =~= old(self).code_ids@);
        }
    }

    fn get_all_addresses(&self) -> (r: Vec<(String, String)>) {
        let idx = last_writes(&self.addresses);
        let mut r: Vec<(String, String)> = Vec::new();
        let mut k: usize = 0;
        while k < idx.len()
            invariant
                k <= idx@.len(),
                r@.len() == k,
                forall|q: int| 0 <= q < k ==> (#[trigger] r@[q]).0@ == self.addresses@[idx@[q] as int].0@
                    && r@[q].1@ == self.addresses@[idx@[q] as int].1@,
                forall|q: int| 0 <= q < idx@.len() ==> #[trigger] idx@[q] < self.addresses@.len()
                    && written(self.addresses@).contains_key(self.addresses@[idx@[q] as int].0@)
                    && written(self.addresses@)[self.addresses@[idx@[q] as int].0@] == self.addresses@[idx@[q] as int].1,
            decreases idx@.len() - k,
        {
            let e = &self.addresses[idx[k]];
            r.push((e.0.clone(), e.1.clone()));
            k = k + 1;
        }
        proof {
            assert forall|q: int, l: int| 0 <= q < l < r@.len() implies (#[trigger] r@[q]).0@ != (#[trigger] r@[l]).0@ by {
                assert(self.addresses@[idx@[q] as int].0@ != self.addresses@[idx@[l] as int].0@);
            }
            assert forall|id: Seq<char>| #[trigger] self.address_of(id) is Some implies
                exists|q: int| 0 <= q < r@.len() && (#[trigger] r@[q]).0@ == id by {
                let q = choose|q: int| 0 <= q < idx@.len() && self.addresses@[#[trigger] idx@[q] as int].0@ == id;
                assert(r@[q].0@ == id);
            }
        }
        r
    }

    fn get_all_code_ids(&self) -> (r: Vec<(String, u64)>) {
        let idx = last_writes(&self.code_ids);
        let mut r: Vec<(String, u64)> = Vec::new();
        let mut k: usize = 0;
        while k < idx.len()
            invariant
                k <= idx@.len(),
                r@.len() == k,
                forall|q: int| 0 <= q < k ==> (#[trigger] r@[q]).0@ == self.code_ids@[idx@[q] as int].0@
                    && r@[q].1 == self.code_ids@[idx@[q] as int].1,
                forall|q: int| 0 <= q < idx@.len() ==> #[trigger] idx@[q] < self.code_ids@.len()
                    && written(self.code_ids@).contains_key(self.code_ids@[idx@[q] as int].0@)
                    && written(self.code_ids@)[self.code_ids@[idx@[q] as int].0@] == self.code_ids@[idx@[q] as int].1,
            decreases idx@.len() - k,
        {
            let e = &self.code_ids[idx[k]];
            r.push((e.0.clone(), e.1));
            k = k + 1;
        }
        proof {
            assert forall|q: int, l: int| 0 <= q < l < r@.len() implies (#[trigger] r@[q]).0@ != (#[trigger] r@[l]).0@ by {
                assert(self.code_ids@[idx@[q] as int].0@ != self.code_ids@[idx@[l] as int].0@);
            }
            assert forall|id: Seq<char>| #[trigger] self.code_id_of(id) is Some implies
                exists|q: int| 0 <= q < r@.len() && (#[trigger] r@[q]).0@ == id by {
                let q = choose|q: int| 0 <= q < idx@.len() && self.code_ids@[#[trigger] idx@[q] as int].0@ == id;
                assert(r@[q].0@ == id);
            }
        }
        r
    }
}

} // verus!
