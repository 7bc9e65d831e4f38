//! Requests waiting for their response, with the streamed text chunks
//! gathered for each of them.
use crate::text::{concat_all, concat_strings, views};
use vstd::prelude::*;

verus! {

/// One waiting request.
pub struct PendingEntry {
    pub id: String,
    pub chunks: Vec<String>,
}

/// The requests that wait for a response, keyed by request id; each holds
/// the text chunks streamed to it so far, oldest first.
pub struct PendingTable {
    entries: Vec<PendingEntry>,
    map: Ghost<Map<Seq<char>, Seq<Seq<char>>>>,
}

impl View for PendingTable {
    type V = Map<Seq<char>, Seq<Seq<char>>>;

    closed spec fn view(&self) -> Map<Seq<char>, Seq<Seq<char>>> {
        self.map@
    }
}

impl PendingTable {
    /// The entries hold distinct ids and agree with the view.
    pub closed spec fn wf(&self) -> bool {
        &&& forall|i: int, j: int|
            0 <= i < self.entries@.len() && 0 <= j < self.entries@.len() && i != j
                ==> self.entries@[i].id@ != self.entries@[j].id@
        &&& forall|i: int|
            0 <= i < self.entries@.len() ==> self.map@.contains_key(#[trigger] self.entries@[i].id@)
                && self.map@[self.entries@[i].id@] == views(self.entries@[i].chunks@)
        &&& forall|k: Seq<char>|
            #[trigger] self.map@.contains_key(k) ==> exists|i: int|
                0 <= i < self.entries@.len() && self.entries@[i].id@ == k
    }

    /// No request is waiting.
    pub fn new() -> (r: PendingTable)
        ensures
            r.wf(),
            r@ == Map::<Seq<char>, Seq<Seq<char>>>::empty(),
    {
        PendingTable { entries: Vec::new(), map: Ghost(Map::empty()) }
    }

    /// Number of waiting requests.
    pub fn len(&self) -> (r: usize)
        requires
            self.wf(),
        ensures
            r == self@.len(),
    {
        proof {
            self.lemma_len();
        }
        self.entries.len()
    }

    proof fn lemma_len(&self)
        requires
            self.wf(),
        ensures
            self@.dom().finite(),
            self@.len() == self.entries@.len(),
    {
        let ids = Seq::new(self.entries@.len(), |i: int| self.entries@[i].id@);
        assert forall|k: Seq<char>| self@.dom().contains(k) implies ids.to_set().contains(k) by {
            let i = choose|i: int| 0 <= i < self.entries@.len() && self.entries@[i].id@ == k;
            assert(ids[i] == k);
        }
        assert forall|k: Seq<char>| ids.to_set().contains(k) implies self@.dom().contains(k) by {
            let i = choose|i: int| 0 <= i < ids.len() && ids[i] == k;
            assert(self.entries@[i].id@ == k);
        }
        assert(self@.dom() =~= ids.to_set());
        assert(ids.no_duplicates());
        ids.unique_seq_to_set();
    }

    fn find(&self, id: &str) -> (r: Option<usize>)
        requires
            self.wf(),
        ensures
            match r {
                Some(i) => i < self.entries@.len() && self.entries@[i as int].id@ == id@,
                None => !self@.contains_key(id@),
            },
    {
        let key = id.to_string();
        let mut i: usize = 0;
        while i < self.entries.len()
            invariant
                self.wf(),
                i <= self.entries@.len(),
                key@ == id@,
                forall|j: int| 0 <= j < i ==> self.entries@[j].id@ != id@,
            decreases self.entries.len() - i,
        {
            if self.entries[i].id == key {
                return Some(i);
            }
            i = i + 1;
        }
        None
    }

    /// Whether a request with this id is waiting.
    pub fn contains(&self, id: &str) -> (r: bool)
        requires
            self.wf(),
        ensures
            r == self@.contains_key(id@),
    {
        self.find(id).is_some()
    }

    /// Registers a request that waits for its response, with no chunk yet;
    /// an entry with the same id is replaced.
    pub fn register(&mut self, id: String)
        requires
            old(self).wf(),
        ensures
            final(self).wf(),
            final(self)@ == old(self)@.insert(id@, Seq::empty()),
    {
        let ghost key = id@;
        match self.find(id.as_str()) {
            Some(i) => {
                let _old = self.entries.remove(i);
                proof {
                    self.map@ = self.map@.remove(key);
                    assert forall|k: Seq<char>| #[trigger] self.map@.contains_key(k) implies exists|
                        j: int,
                    | 0 <= j < self.entries@.len() && self.entries@[j].id@ == k by {
                        let j0 = choose|j: int|
                            0 <= j < old(self).entries@.len() && old(self).entries@[j].id@ == k;
                        if j0 < i {
                            assert(self.entries@[j0].id@ == k);
                        } else {
                            assert(self.entries@[j0 - 1].id@ == k);
                        }
                    }
                    assert forall|a: int|
                        0 <= a < self.entries@.len() implies self.map@.contains_key(
                        #[trigger] self.entries@[a].id@,
                    ) && self.map@[self.entries@[a].id@] == views(self.entries@[a].chunks@) by {
                        if a < i {
                            assert(self.entries@[a] == old(self).entries@[a]);
                        } else {
                            assert(self.entries@[a] == old(self).entries@[a + 1]);
                        }
                    }
                }
            },
            None => {},
        }
        let ghost mid = self.entries@;
        self.entries.push(PendingEntry { id, chunks: Vec::new() });
        proof {
            self.map@ = self.map@.insert(key, Seq::empty());
            assert(views(self.entries@.last().chunks@) =~= Seq::<Seq<char>>::empty());
            assert forall|k: Seq<char>| #[trigger] self.map@.contains_key(k) implies exists|j: int|
                0 <= j < self.entries@.len() && self.entries@[j].id@ == k by {
                if k == key {
                    assert(self.entries@[mid.len() as int].id@ == k);
                } else {
                    let j0 = choose|j: int| 0 <= j < mid.len() && mid[j].id@ == k;
                    assert(self.entries@[j0].id@ == k);
                }
            }
            assert(self.map@ =~= old(self).map@.insert(key, Seq::empty()));
        }
    }

    /// Adds a streamed text chunk to every waiting request.
    #[verifier::spinoff_prover]
    pub fn append_chunk(&mut self, text: &str)
        requires
            old(self).wf(),
        ensures
            final(self).wf(),
            final(self)@.dom() == old(self)@.dom(),
            forall|k: Seq<char>|
                #[trigger] final(self)@.contains_key(k) ==> final(self)@[k] == old(self)@[k].push(
                    text@,
                ),
    {
        let mut rest: Vec<PendingEntry> = Vec::new();
        std::mem::swap(&mut rest, &mut self.entries);
        let ghost all = rest@;
        let ghost m0 = self.map@;
        let ghost m1 = Map::new(|k: Seq<char>| m0.contains_key(k), |k: Seq<char>| m0[k].push(text@));
        while rest.len() > 0
            invariant
                rest@ == all.take(rest@.len() as int),
                rest@.len() <= all.len(),
                self.entries@.len() + rest@.len() == all.len(),
                forall|a: int|
                    0 <= a < self.entries@.len() ==> #[trigger] self.entries@[a].id@ == all[all.len()
                        - 1 - a].id@ && views(self.entries@[a].chunks@) == views(
                        all[all.len() - 1 - a].chunks@,
                    ).push(text@),
            decreases rest@.len(),
        {
            let ghost before = self.entries@;
            let e = rest.pop();
            match e {
                Some(mut e) => {
                    let ghost c0 = e.chunks@;
                    e.chunks.push(text.to_string());
                    assert(views(e.chunks@) =~= views(c0).push(text@));
                    self.entries.push(e);
                    assert forall|a: int| 0 <= a < self.entries@.len() implies #[trigger] self.entries@[a].id@
                        == all[all.len() - 1 - a].id@ && views(self.entries@[a].chunks@) == views(
                        all[all.len() - 1 - a].chunks@,
                    ).push(text@) by {
                        if a < before.len() {
                            assert(self.entries@[a] == before[a]);
                        }
                    }
                },
                None => {},
            }
        }
        proof {
            let n = all.len();
            assert(all == old(self).entries@);
            assert(m0 == old(self).map@);
            assert(self.entries@.len() == n);
            self.map@ = m1;
            assert forall|a: int, b: int|
                0 <= a < self.entries@.len() && 0 <= b < self.entries@.len() && a != b implies self.entries@[a].id@
                != self.entries@[b].id@ by {
                assert(self.entries@[a].id@ == all[n - 1 - a].id@);
                assert(self.entries@[b].id@ == all[n - 1 - b].id@);
                assert(old(self).entries@[n - 1 - a].id@ != old(self).entries@[n - 1 - b].id@);
            }
            assert forall|a: int|
                0 <= a < self.entries@.len() implies self.map@.contains_key(
                #[trigger] self.entries@[a].id@,
            ) && self.map@[self.entries@[a].id@] == views(self.entries@[a].chunks@) by {
                assert(self.entries@[a].id@ == all[n - 1 - a].id@);
                let oe = old(self).entries@[n - 1 - a];
                assert(old(self).map@.contains_key(oe.id@) && old(self).map@[oe.id@] == views(
                    oe.chunks@,
                ));
            }
            assert forall|k: Seq<char>| #[trigger] self.map@.contains_key(k) implies exists|j: int|
                0 <= j < self.entries@.len() && self.entries@[j].id@ == k by {
                assert(old(self).map@.contains_key(k));
                let j0 = choose|j: int|
                    0 <= j < old(self).entries@.len() && old(self).entries@[j].id@ == k;
                assert(self.entries@[n - 1 - j0].id@ == k);
            }
            assert(m1.dom() =~= m0.dom());
        }
    }

    /// Completes the request with this id: removes it and returns its
    /// chunks joined in order. An unknown id changes nothing.
    pub fn complete(&mut self, id: &str) -> (r: Option<String>)
        requires
            old(self).wf(),
        ensures
            final(self).wf(),
            match r {
                Some(text) => old(self)@.contains_key(id@) && text@ == concat_all(
                    old(self)@[id@],
                ) && final(self)@ == old(self)@.remove(id@),
                None => !old(self)@.contains_key(id@) && final(self)@ == old(self)@,
            },
    {
        match self.find(id) {
            Some(i) => {
                let e = self.entries.remove(i);
                let text = concat_strings(&e.chunks);
                proof {
                    self.map@ = self.map@.remove(id@);
                    assert forall|k: Seq<char>| #[trigger] self.map@.contains_key(k) implies exists|
                        j: int,
                    | 0 <= j < self.entries@.len() && self.entries@[j].id@ == k by {
                        let j0 = choose|j: int|
                            0 <= j < old(self).entries@.len() && old(self).entries@[j].id@ == k;
                        if j0 < i {
                            assert(self.entries@[j0].id@ == k);
                        } else {
                            assert(self.entries@[j0 - 1].id@ == k);
                        }
                    }
                    assert forall|a: int|
                        0 <= a < self.entries@.len() implies self.map@.contains_key(
                        #[trigger] self.entries@[a].id@,
                    ) && self.map@[self.entries@[a].id@] == views(self.entries@[a].chunks@) by {
                        if a < i {
                            assert(self.entries@[a] == old(self).entries@[a]);
                        } else {
                            assert(self.entries@[a] == old(self).entries@[a + 1]);
                        }
                    }
                }
                Some(text)
            },
            None => None,
        }
    }
}

} // verus!
