//! A namespaced keyed collection: each owner holds its records in the order
//! in which their ids were first saved.
use vstd::prelude::*;
use crate::state::Record;

verus! {

/// The records of one owner.
pub struct Namespace<T> {
    pub owner: String,
    pub items: Vec<(u64, T)>,
}

pub struct Ledger<T> {
    pub spaces: Vec<Namespace<T>>,
}

/// No id occurs twice in `s`.
pub open spec fn ids_distinct<T>(s: Seq<(u64, T)>) -> bool {
    forall|a: int, b: int| 0 <= a < b < s.len() ==> s[a].0 != s[b].0
}

pub open spec fn holds_id<T>(s: Seq<(u64, T)>, id: u64) -> bool {
    exists|k: int| 0 <= k < s.len() && s[k].0 == id
}

/// The position of `id` in `s` (meaningful when `holds_id(s, id)`).
pub open spec fn slot_of<T>(s: Seq<(u64, T)>, id: u64) -> int {
    choose|k: int| 0 <= k < s.len() && s[k].0 == id
}

/// The record stored under `id`, if any.
pub open spec fn lookup<T>(s: Seq<(u64, T)>, id: u64) -> Option<T> {
    if holds_id(s, id) {
        Some(s[slot_of(s, id)].1)
    } else {
        None
    }
}

/// `s` after saving `rec` under `id`: replaced in place, or appended.
pub open spec fn put<T>(s: Seq<(u64, T)>, id: u64, rec: T) -> Seq<(u64, T)> {
    if holds_id(s, id) {
        s.update(slot_of(s, id), (id, rec))
    } else {
        s.push((id, rec))
    }
}

/// Page `page` of `s` with `size` records per page, counted from zero.
pub open spec fn page_of<T>(s: Seq<(u64, T)>, page: int, size: int) -> Seq<(u64, T)> {
    let start = page * size;
    if start >= s.len() {
        Seq::empty()
    } else if start + size >= s.len() {
        s.subrange(start, s.len() as int)
    } else {
        s.subrange(start, start + size)
    }
}

/// `post` is `pre` after saving `rec` under `owner` and `id`.
pub open spec fn saved<T>(pre: Ledger<T>, post: Ledger<T>, owner: Seq<char>, id: u64, rec: T) -> bool {
    &&& post.entries(owner) == put(pre.entries(owner), id, rec)
    &&& forall|o: Seq<char>| o != owner ==> #[trigger] post.entries(o) == pre.entries(o)
}

/// A count as the ledger reports it.
pub open spec fn clamp_count(n: nat) -> u32 {
    if n > u32::MAX { u32::MAX } else { n as u32 }
}

/// Saving under an id and then looking it up gives the record saved.
pub proof fn lemma_lookup_put<T>(s: Seq<(u64, T)>, id: u64, rec: T)
    requires
        ids_distinct(s),
    ensures
        lookup(put(s, id, rec), id) == Some(rec),
{
    let t = put(s, id, rec);
    if holds_id(s, id) {
        let c = slot_of(s, id);
        assert(t[c].0 == id);
        let k = slot_of(t, id);
        if k != c {
            assert(t[k] == s[k]);
            if k < c {
                assert(s[k].0 != s[c].0);
            } else {
                assert(s[c].0 != s[k].0);
            }
        }
    } else {
        assert(t[s.len() as int].0 == id);
        let k = slot_of(t, id);
        if k < s.len() {
            assert(t[k] == s[k]);
        }
    }
}

impl<T> Ledger<T> {
    pub open spec fn has_space(self, owner: Seq<char>) -> bool {
        exists|i: int| 0 <= i < self.spaces@.len() && self.spaces@[i].owner@ == owner
    }

    /// The records of `owner`, in order.
    pub open spec fn entries(self, owner: Seq<char>) -> Seq<(u64, T)> {
        if self.has_space(owner) {
            self.spaces@[choose|i: int| 0 <= i < self.spaces@.len() && self.spaces@[i].owner@ == owner].items@
        } else {
            Seq::empty()
        }
    }

    pub open spec fn wf(self) -> bool {
        &&& forall|i: int, j: int|
            0 <= i < j < self.spaces@.len() ==> self.spaces@[i].owner@ != self.spaces@[j].owner@
        &&& forall|i: int| 0 <= i < self.spaces@.len() ==> ids_distinct(#[trigger] self.spaces@[i].items@)
    }

    /// Every id held, under any owner, is at most `bound`.
    pub open spec fn ids_at_most(self, bound: u64) -> bool {
        forall|i: int, k: int|
            0 <= i < self.spaces@.len() && 0 <= k < self.spaces@[i].items@.len()
                ==> self.spaces@[i].items@[k].0 <= bound
    }

    proof fn lemma_entries_at(self, i: int)
        requires
            self.wf(),
            0 <= i < self.spaces@.len(),
        ensures
            self.entries(self.spaces@[i].owner@) == self.spaces@[i].items@,
    {
        let o = self.spaces@[i].owner@;
        assert(self.has_space(o));
        let j = choose|j: int| 0 <= j < self.spaces@.len() && self.spaces@[j].owner@ == o;
        if j < i {
            assert(self.spaces@[j].owner@ != self.spaces@[i].owner@);
        } else if i < j {
            assert(self.spaces@[i].owner@ != self.spaces@[j].owner@);
        }
    }

    pub proof fn lemma_entries_wf(self, owner: Seq<char>)
        requires
            self.wf(),
        ensures
            ids_distinct(self.entries(owner)),
    {
        if self.has_space(owner) {
            let j = choose|i: int| 0 <= i < self.spaces@.len() && self.spaces@[i].owner@ == owner;
            assert(ids_distinct(self.spaces@[j].items@));
        }
    }

    pub proof fn lemma_entries_bounded(self, owner: Seq<char>, bound: u64)
        requires
            self.wf(),
            self.ids_at_most(bound),
        ensures
            forall|k: int| 0 <= k < self.entries(owner).len() ==> #[trigger] self.entries(owner)[k].0 <= bound,
    {
        if self.has_space(owner) {
            let j = choose|i: int| 0 <= i < self.spaces@.len() && self.spaces@[i].owner@ == owner;
            self.lemma_entries_at(j);
            assert forall|k: int| 0 <= k < self.entries(owner).len() implies #[trigger] self.entries(owner)[k].0 <= bound by {
                assert(0 <= k < self.spaces@[j].items@.len());
            }
        }
    }

    pub proof fn lemma_lookup_bounded(self, owner: Seq<char>, id: u64, bound: u64)
        requires
            self.wf(),
            self.ids_at_most(bound),
            lookup(self.entries(owner), id).is_some(),
        ensures
            id <= bound,
    {
        self.lemma_entries_bounded(owner, bound);
        let k = slot_of(self.entries(owner), id);
        assert(self.entries(owner)[k].0 <= bound);
    }

    pub fn new() -> (r: Ledger<T>)
        ensures
            r.wf(),
            forall|o: Seq<char>| #[trigger] r.entries(o) == Seq::<(u64, T)>::empty(),
            forall|b: u64| r.ids_at_most(b),
    {
        Ledger { spaces: Vec::new() }
    }

    fn find_space(&self, owner: &String) -> (r: Option<usize>)
        requires
            self.wf(),
        ensures
            match r {
                Some(i) => i < self.spaces@.len() && self.spaces@[i as int].owner@ == owner@,
                None => !self.has_space(owner@),
            },
    {
        let mut i: usize = 0;
        while i < self.spaces.len()
            invariant
                i <= self.spaces@.len(),
                forall|j: int| 0 <= j < i ==> self.spaces@[j].owner@ != owner@,
            decreases self.spaces@.len() - i,
        {
            if self.spaces[i].owner == *owner {
                return Some(i);
            }
            i = i + 1;
        }
        None
    }

    /// The number of records of `owner`, clamped to `u32`.
    pub fn count(&self, owner: &String) -> (r: u32)
        requires
            self.wf(),
        ensures
            r == clamp_count(self.entries(owner@).len()),
    {
        match self.find_space(owner) {
            None => 0,
            Some(i) => {
                proof { self.lemma_entries_at(i as int); }
                let n = self.spaces[i].items.len();
                if n > (u32::MAX as usize) { u32::MAX } else { n as u32 }
            }
        }
    }
}


impl<T: Record> Ledger<T> {
    /// Saves `rec` under `owner` and `id`: replaces the record of that id in
    /// place, or appends it to the owner's records.
    pub fn save(&mut self, owner: &String, id: u64, rec: T)
        requires
            old(self).wf(),
        ensures
            final(self).wf(),
            final(self).entries(owner@) == put(old(self).entries(owner@), id, rec),
            forall|o: Seq<char>| o != owner@ ==> #[trigger] final(self).entries(o) == old(self).entries(o),
            forall|b: u64| old(self).ids_at_most(b) && id <= b ==> #[trigger] final(self).ids_at_most(b),
    {
        let ghost pre = *self;
        match self.find_space(owner) {
            None => {
                let mut items: Vec<(u64, T)> = Vec::new();
                items.push((id, rec));
                self.spaces.push(Namespace { owner: owner.clone(), items });
                proof {
                    let n = self.spaces@.len() - 1;
                    assert(self.spaces@[n].owner@ == owner@);
                    assert forall|i: int| 0 <= i < self.spaces@.len() implies ids_distinct(#[trigger] self.spaces@[i].items@) by {
                        if i < n {
                            assert(self.spaces@[i] == pre.spaces@[i]);
                        }
                    }
                    assert(self.wf());
                    self.lemma_entries_at(n);
                    assert(put(pre.entries(owner@), id, rec) =~= seq![(id, rec)]);
                    assert forall|o: Seq<char>| o != owner@ implies #[trigger] self.entries(o) == pre.entries(o) by {
                        if pre.has_space(o) {
                            let j = choose|i: int| 0 <= i < pre.spaces@.len() && pre.spaces@[i].owner@ == o;
                            pre.lemma_entries_at(j);
                            assert(self.spaces@[j] == pre.spaces@[j]);
                            self.lemma_entries_at(j);
                        } else {
                            assert(!self.has_space(o));
                        }
                    }
                }
            }
            Some(i) => {
                proof { pre.lemma_entries_at(i as int); }
                let found = find_item(&self.spaces[i].items, id);
                match found {
                    Some(k) => {
                        let ghost s = pre.spaces@[i as int].items@;
                        proof {
                            let c = slot_of(s, id);
                            assert(ids_distinct(s));
                            if c < k as int {
                                assert(s[c].0 != s[k as int].0);
                            } else if (k as int) < c {
                                assert(s[k as int].0 != s[c].0);
                            }
                        }
                        self.spaces[i].items.set(k, (id, rec));
                    }
                    None => {
                        self.spaces[i].items.push((id, rec));
                    }
                }
                proof {
                    let s = pre.spaces@[i as int].items@;
                    let t = self.spaces@[i as int].items@;
                    assert(t == put(s, id, rec));
                    assert(ids_distinct(s));
                    assert forall|a: int, b: int| 0 <= a < b < t.len() implies t[a].0 != t[b].0 by {
                        if holds_id(s, id) {
                            let c = slot_of(s, id);
                            if a == c { assert(s[b].0 != s[c].0 || b == c); }
                            if b == c { assert(s[a].0 != s[c].0 || a == c); }
                        } else {
                            if b == s.len() { assert(s[a].0 != id); }
                        }
                    }
                    assert forall|j: int| 0 <= j < self.spaces@.len() implies ids_distinct(#[trigger] self.spaces@[j].items@) by {
                        if j != i {
                            assert(self.spaces@[j] == pre.spaces@[j]);
                        }
                    }
                    assert forall|j1: int, j2: int| 0 <= j1 < j2 < self.spaces@.len() implies
                        self.spaces@[j1].owner@ != self.spaces@[j2].owner@ by {
                        assert(pre.spaces@[j1].owner@ != pre.spaces@[j2].owner@);
                    }
                    assert(self.wf());
                    self.lemma_entries_at(i as int);
                    assert forall|o: Seq<char>| o != owner@ implies #[trigger] self.entries(o) == pre.entries(o) by {
                        if pre.has_space(o) {
                            let j = choose|i: int| 0 <= i < pre.spaces@.len() && pre.spaces@[i].owner@ == o;
                            pre.lemma_entries_at(j);
                            assert(self.spaces@[j] == pre.spaces@[j]);
                            self.lemma_entries_at(j);
                        } else {
                            assert forall|j: int| 0 <= j < self.spaces@.len() implies self.spaces@[j].owner@ != o by {
                                assert(self.spaces@[j].owner@ == pre.spaces@[j].owner@);
                            }
                        }
                    }
                    assert forall|b: u64| pre.ids_at_most(b) && id <= b implies #[trigger] self.ids_at_most(b) by {
                        assert forall|j: int, k: int|
                            0 <= j < self.spaces@.len() && 0 <= k < self.spaces@[j].items@.len()
                                implies self.spaces@[j].items@[k].0 <= b by {
                            if j != i {
                                assert(self.spaces@[j] == pre.spaces@[j]);
                            } else if k < s.len() && t[k] != (id, rec) {
                                assert(t[k] == s[k]);
                            }
                        }
                    }
                }
            }
        }
    }

    /// The record of `owner` under `id`, if any.
    pub fn get(&self, owner: &String, id: u64) -> (r: Option<T>)
        requires
            self.wf(),
        ensures
            r == lookup(self.entries(owner@), id),
    {
        match self.find_space(owner) {
            None => None,
            Some(i) => {
                proof { self.lemma_entries_at(i as int); }
                match find_item(&self.spaces[i].items, id) {
                    None => None,
                    Some(k) => {
                        proof {
                            let s = self.spaces@[i as int].items@;
                            let c = slot_of(s, id);
                            assert(ids_distinct(s));
                            if c < k as int {
                                assert(s[c].0 != s[k as int].0);
                            } else if (k as int) < c {
                                assert(s[k as int].0 != s[c].0);
                            }
                        }
                        Some(self.spaces[i].items[k].1.duplicate())
                    }
                }
            }
        }
    }

    /// Page `page` of the records of `owner`, `size` per page.
    pub fn page(&self, owner: &String, page: u32, size: u32) -> (r: Vec<(u64, T)>)
        requires
            self.wf(),
        ensures
            r@ == page_of(self.entries(owner@), page as int, size as int),
    {
        let mut out: Vec<(u64, T)> = Vec::new();
        match self.find_space(owner) {
            None => out,
            Some(i) => {
                proof { self.lemma_entries_at(i as int); }
                let items = &self.spaces[i].items;
                let n = items.len();
                assert((page as u128) * (size as u128) <= 0xffff_ffffu128 * 0xffff_ffffu128) by (nonlinear_arith)
                    requires page <= 0xffff_ffffu32, size <= 0xffff_ffffu32;
                let start: u128 = (page as u128) * (size as u128);
                if start >= n as u128 {
                    return out;
                }
                let first = start as usize;
                let last: usize = if start + (size as u128) >= n as u128 { n } else { (start + size as u128) as usize };
                let mut k: usize = first;
                while k < last
                    invariant
                        first <= k <= last <= n == items@.len(),
                        out@ =~= items@.subrange(first as int, k as int),
                    decreases last - k,
                {
                    out.push((items[k].0, items[k].1.duplicate()));
                    k = k + 1;
                }
                out
            }
        }
    }
}

fn find_item<T>(items: &Vec<(u64, T)>, id: u64) -> (r: Option<usize>)
    ensures
        match r {
            Some(k) => k < items@.len() && items@[k as int].0 == id,
            None => !holds_id(items@, id),
        },
{
    let mut k: usize = 0;
    while k < items.len()
        invariant
            k <= items@.len(),
            forall|j: int| 0 <= j < k ==> items@[j].0 != id,
        decreases items@.len() - k,
    {
        if items[k].0 == id {
            return Some(k);
        }
        k = k + 1;
    }
    None
}

} // verus!
