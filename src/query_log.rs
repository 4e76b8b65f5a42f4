//! The service's append-only record of the queries that unary calls saw.
use vstd::prelude::*;

verus! {

/// The text values of a sequence of strings.
pub open spec fn texts(v: Seq<String>) -> Seq<Seq<char>> {
    v.map_values(|s: String| s@)
}

/// An ordered, append-only sequence of queries. Exclusive access (`&mut`) is
/// the discipline that every append goes through; a snapshot is taken under
/// shared access, so no append can interleave with it.
pub struct QueryLog {
    entries: Vec<String>,
}

impl View for QueryLog {
    type V = Seq<Seq<char>>;

    closed spec fn view(&self) -> Seq<Seq<char>> {
        texts(self.entries@)
    }
}

impl QueryLog {
    pub fn new() -> (r: QueryLog)
        ensures
            r@ == Seq::<Seq<char>>::empty(),
    {
        let r = QueryLog { entries: Vec::new() };
        assert(r@ =~= Seq::<Seq<char>>::empty());
        r
    }

    /// Adds one entry at the end; nothing already present moves.
    pub fn append(&mut self, query: String)
        ensures
            final(self)@ == old(self)@.push(query@),
    {
        self.entries.push(query);
        assert(self@ =~= old(self)@.push(query@));
    }

    pub fn len(&self) -> (r: usize)
        ensures
            r == self@.len(),
    {
        self.entries.len()
    }

    /// A copy of every entry, in log order, taken at one instant.
    pub fn snapshot(&self) -> (r: Vec<String>)
        ensures
            texts(r@) == self@,
    {
        let mut r: Vec<String> = Vec::new();
        let mut i: usize = 0;
        while i < self.entries.len()
            invariant
                i <= self.entries@.len(),
                texts(r@) == texts(self.entries@).take(i as int),
            decreases self.entries@.len() - i,
        {
            let s = self.entries[i].clone();
            let ghost before = r@;
            r.push(s);
            assert(texts(r@) =~= texts(before).push(self.entries@[i as int]@));
            i = i + 1;
            assert(texts(r@) =~= texts(self.entries@).take(i as int));
        }
        assert(texts(self.entries@).take(i as int) =~= texts(self.entries@));
        r
    }
}

} // verus!
