//! The identifiers of the messages that were already shown in this run.

use vstd::prelude::*;

verus! {

/// Identifiers in the order in which they were first recorded, each at most
/// once. The ledger only grows, and it is not kept across runs.
#[derive(Debug)]
pub struct DedupLedger {
    ids: Vec<String>,
}

impl View for DedupLedger {
    type V = Seq<Seq<char>>;

    closed spec fn view(&self) -> Seq<Seq<char>> {
        self.ids.deep_view()
    }
}

impl DedupLedger {
    #[verifier::type_invariant]
    spec fn distinct(self) -> bool {
        self.ids.deep_view().no_duplicates()
    }

    pub fn new() -> (r: DedupLedger)
        ensures
            r@ == Seq::<Seq<char>>::empty(),
    {
        let ids: Vec<String> = Vec::new();
        assert(ids.deep_view() =~= Seq::<Seq<char>>::empty());
        DedupLedger { ids }
    }

    /// How many identifiers were recorded.
    pub fn len(&self) -> (n: usize)
        ensures
            n == self@.len(),
    {
        self.ids.len()
    }

    /// Whether `id` was recorded before.
    pub fn seen(&self, id: &str) -> (r: bool)
        ensures
            r == self@.contains(id@),
            self@.no_duplicates(),
    {
        proof {
            use_type_invariant(self);
        }
        let wanted = id.to_owned();
        let n = self.ids.len();
        let mut i: usize = 0;
        while i < n
            invariant
                i <= n,
                n == self.ids@.len(),
                wanted@ == id@,
                self.ids.deep_view().no_duplicates(),
                forall|k: int| 0 <= k < i ==> self.ids.deep_view()[k] != id@,
            decreases n - i,
        {
            if self.ids[i] == wanted {
                assert(self.ids.deep_view()[i as int] == id@);
                return true;
            }
            i += 1;
        }
        false
    }

    /// Records `id` unless it is there already, and says whether it was
    /// added.
    pub fn record(&mut self, id: String) -> (added: bool)
        ensures
            added == !old(self)@.contains(id@),
            added ==> final(self)@ == old(self)@.push(id@),
            !added ==> final(self)@ == old(self)@,
            final(self)@.no_duplicates(),
    {
        if self.seen(id.as_str()) {
            return false;
        }
        let ghost before = self.ids.deep_view();
        let mut ids: Vec<String> = Vec::new();
        assert(ids.deep_view() =~= Seq::<Seq<char>>::empty());
        std::mem::swap(&mut self.ids, &mut ids);
        ids.push(id);
        assert(ids.deep_view() =~= before.push(id@));
        assert(before.push(id@).no_duplicates()) by {
            assert forall|a: int, b: int|
                0 <= a < before.len() + 1 && 0 <= b < before.len() + 1 && a != b implies before.push(
                id@,
            )[a] != before.push(id@)[b] by {
                if a < before.len() && b < before.len() {
                    assert(before[a] != before[b]);
                } else if a < before.len() {
                    assert(before.contains(before[a]));
                } else {
                    assert(before.contains(before[b]));
                }
            }
        }
        std::mem::swap(&mut self.ids, &mut ids);
        true
    }
}

} // verus!
