use vstd::prelude::*;

verus! {

/// A finite set of transport addresses, kept as a list without repeats.
/// Order carries no meaning: two sets are the same when their views agree.
#[derive(Debug)]
pub struct AddrSet {
    items: Vec<String>,
}

/// The characters of each string in a list.
pub open spec fn text_seq(v: Seq<String>) -> Seq<Seq<char>> {
    v.map_values(|s: String| s@)
}

/// No two positions of the list hold the same text.
pub open spec fn distinct_texts(v: Seq<String>) -> bool {
    forall|i: int, j: int| 0 <= i < v.len() && 0 <= j < v.len() && i != j ==> v[i]@ != v[j]@
}

impl View for AddrSet {
    type V = Set<Seq<char>>;

    closed spec fn view(&self) -> Set<Seq<char>> {
        text_seq(self.items@).to_set()
    }
}

impl AddrSet {
    pub closed spec fn wf(&self) -> bool {
        distinct_texts(self.items@)
    }

    proof fn lemma_size(&self)
        requires
            self.wf(),
        ensures
            self.items@.len() == self@.len(),
    {
        let t = text_seq(self.items@);
        assert forall|i: int, j: int| 0 <= i < t.len() && 0 <= j < t.len() && i != j implies t[i] != t[j] by {
        }
        t.unique_seq_to_set();
    }

    pub fn new() -> (r: AddrSet)
        ensures
            r.wf(),
            r@ == Set::<Seq<char>>::empty(),
    {
        let r = AddrSet { items: Vec::new() };
        assert(text_seq(r.items@) =~= Seq::<Seq<char>>::empty());
        r
    }

    pub fn len(&self) -> (r: usize)
        requires
            self.wf(),
        ensures
            r == self@.len(),
    {
        proof { self.lemma_size(); }
        self.items.len()
    }

    pub fn contains(&self, a: &String) -> (r: bool)
        requires
            self.wf(),
        ensures
            r == self@.contains(a@),
    {
        let mut i: usize = 0;
        while i < self.items.len()
            invariant
                i <= self.items@.len(),
                forall|k: int| 0 <= k < i ==> self.items@[k]@ != a@,
            decreases self.items@.len() - i,
        {
            if self.items[i] == *a {
                assert(text_seq(self.items@)[i as int] == a@);
                return true;
            }
            i = i + 1;
        }
        assert(!text_seq(self.items@).contains(a@));
        false
    }

    /// Adds an address; the set is unchanged if it was already there.
    pub fn insert(&mut self, a: String)
        requires
            old(self).wf(),
        ensures
            final(self).wf(),
            final(self)@ == old(self)@.insert(a@),
    {
        if !self.contains(&a) {
            let ghost before = self.items@;
            self.items.push(a);
            proof {
                assert(text_seq(self.items@) =~= text_seq(before).push(a@));
                text_seq(before).lemma_push_to_set_commute(a@);
                assert forall|k: int| 0 <= k < before.len() implies #[trigger] before[k]@ != a@ by {
                    assert(text_seq(before)[k] == before[k]@);
                }
            }
        }
    }

    /// Takes an address out; the set is unchanged if it was not there.
    pub fn remove(&mut self, a: &String)
        requires
            old(self).wf(),
        ensures
            final(self).wf(),
            final(self)@ == old(self)@.remove(a@),
    {
        let ghost before = self.items@;
        let mut kept: Vec<String> = Vec::new();
        let mut i: usize = 0;
        while i < self.items.len()
            invariant
                before == self.items@,
                distinct_texts(before),
                i <= before.len(),
                distinct_texts(kept@),
                forall|k: int| 0 <= k < kept@.len() ==> kept@[k]@ != a@,
                text_seq(kept@).to_set() =~= text_seq(before.subrange(0, i as int)).to_set().remove(a@),
                forall|k: int| 0 <= k < kept@.len() ==> exists|m: int| 0 <= m < i && before[m]@ == #[trigger] kept@[k]@,
            decreases before.len() - i,
        {
            let s = self.items[i].clone();
            let ghost pre = kept@;
            proof {
                assert(before.subrange(0, i as int + 1) =~= before.subrange(0, i as int).push(before[i as int]));
                assert(text_seq(before.subrange(0, i as int + 1)) =~= text_seq(before.subrange(0, i as int)).push(before[i as int]@));
                text_seq(before.subrange(0, i as int)).lemma_push_to_set_commute(before[i as int]@);
            }
            if !(s == *a) {
                kept.push(s);
                proof {
                    assert(text_seq(kept@) =~= text_seq(pre).push(before[i as int]@));
                    text_seq(pre).lemma_push_to_set_commute(before[i as int]@);
                    assert forall|k: int| 0 <= k < pre.len() implies #[trigger] kept@[k]@ != kept@[pre.len() as int]@ by {
                        let m = choose|m: int| 0 <= m < i && before[m]@ == #[trigger] pre[k]@;
                        assert(m != i as int);
                    }
                    assert forall|k: int| 0 <= k < kept@.len() implies exists|m: int| 0 <= m < i + 1 && before[m]@ == #[trigger] kept@[k]@ by {
                        if k == pre.len() {
                            assert(before[i as int]@ == kept@[k]@);
                        } else {
                            assert(kept@[k] == pre[k]);
                            let m = choose|m: int| 0 <= m < i && before[m]@ == #[trigger] pre[k]@;
                            assert(before[m]@ == kept@[k]@);
                        }
                    }
                }
            } else {
                proof {
                    assert forall|k: int| 0 <= k < kept@.len() implies exists|m: int| 0 <= m < i + 1 && before[m]@ == #[trigger] kept@[k]@ by {
                        let m = choose|m: int| 0 <= m < i && before[m]@ == #[trigger] kept@[k]@;
                    }
                }
            }
            i = i + 1;
        }
        proof {
            assert(before.subrange(0, before.len() as int) =~= before);
        }
        self.items = kept;
    }

    /// A copy holding the same addresses.
    pub fn clone_set(&self) -> (r: AddrSet)
        requires
            self.wf(),
        ensures
            r.wf(),
            r@ == self@,
    {
        AddrSet { items: self.to_vec() }
    }

    /// The addresses, each once, in no particular order.
    pub fn to_vec(&self) -> (r: Vec<String>)
        requires
            self.wf(),
        ensures
            text_seq(r@).to_set() == self@,
            distinct_texts(r@),
    {
        let mut r: Vec<String> = Vec::new();
        let mut i: usize = 0;
        while i < self.items.len()
            invariant
                i <= self.items@.len(),
                r@.len() == i,
                forall|k: int| 0 <= k < i ==> r@[k]@ == self.items@[k]@,
            decreases self.items@.len() - i,
        {
            r.push(self.items[i].clone());
            i = i + 1;
        }
        assert(text_seq(r@) =~= text_seq(self.items@));
        r
    }
}

} // verus!
