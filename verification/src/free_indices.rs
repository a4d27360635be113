//! Sets of free window indices kept as sorted, disjoint and non-adjacent ranges.
use vstd::prelude::*;

verus! {

/// A closed range of free window indices: `min..=max`.
#[derive(Copy, Clone, Debug, PartialEq, Eq, Structural)]
pub struct IndexRange {
    pub min: usize,
    pub max: usize,
}

impl IndexRange {
    pub fn new(min: usize, max: usize) -> (r: IndexRange)
        ensures
            r.min == min,
            r.max == max,
    {
        IndexRange { min, max }
    }
}

/// Whether `k` lies in the range.
pub open spec fn in_range(r: IndexRange, k: int) -> bool {
    r.min <= k && k <= r.max
}

/// Whether `k` lies in one of the ranges.
pub open spec fn ranges_have(s: Seq<IndexRange>, k: int) -> bool {
    exists|i: int| 0 <= i < s.len() && #[trigger] in_range(s[i], k)
}

/// The ranges are non-empty, sorted, pairwise disjoint and no two of them touch.
pub open spec fn ranges_wf(s: Seq<IndexRange>) -> bool {
    &&& forall|i: int| 0 <= i < s.len() ==> #[trigger] s[i].min <= s[i].max
    &&& forall|i: int, j: int| 0 <= i < j < s.len() ==> #[trigger] s[i].max + 1 < #[trigger] s[j].min
}

/// Removing a range keeps the ranges well formed and takes out exactly its indices.
proof fn lemma_remove(s: Seq<IndexRange>, i: int)
    requires
        ranges_wf(s),
        0 <= i < s.len(),
    ensures
        ranges_wf(s.remove(i)),
        forall|j: int| ranges_have(s.remove(i), j) <==> (ranges_have(s, j) && !in_range(s[i], j)),
{
    let t = s.remove(i);
    assert forall|a: int, b: int| 0 <= a < b < t.len() implies #[trigger] t[a].max + 1 < #[trigger] t[b].min by {
        let a2 = if a < i { a } else { a + 1 };
        let b2 = if b < i { b } else { b + 1 };
        assert(s[a2].max + 1 < s[b2].min);
    }
    assert forall|j: int| ranges_have(t, j) <==> (ranges_have(s, j) && !in_range(s[i], j)) by {
        if ranges_have(t, j) {
            let c = choose|c: int| 0 <= c < t.len() && #[trigger] in_range(t[c], j);
            let c2 = if c < i { c } else { c + 1 };
            assert(in_range(s[c2], j));
            if c2 < i {
                assert(s[c2].max + 1 < s[i].min);
            } else {
                assert(s[i].max + 1 < s[c2].min);
            }
        }
        if ranges_have(s, j) && !in_range(s[i], j) {
            let c = choose|c: int| 0 <= c < s.len() && #[trigger] in_range(s[c], j);
            let c2 = if c < i { c } else { c - 1 };
            assert(in_range(t[c2], j));
        }
    }
}

/// An index outside all ranges lies between the ranges that end below it and the ranges that
/// start above it.
proof fn lemma_gap(s: Seq<IndexRange>, p: int, k: int)
    requires
        ranges_wf(s),
        0 <= p <= s.len(),
        forall|j: int| 0 <= j < p ==> #[trigger] s[j].max < k,
        p < s.len() ==> s[p].max >= k,
        !ranges_have(s, k),
    ensures
        p < s.len() ==> k < s[p].min,
        forall|j: int| p <= j < s.len() ==> k < #[trigger] s[j].min,
{
    if p < s.len() {
        if s[p].min <= k {
            assert(in_range(s[p], k));
        }
        assert forall|j: int| p <= j < s.len() implies k < #[trigger] s[j].min by {
            if j > p {
                assert(s[p].max + 1 < s[j].min);
            }
        }
    }
}

/// A set of free indices.
///
/// The indices are held as a sequence of ranges that are sorted by their bounds, disjoint and
/// separated by at least one index that is not free.
pub struct FreeIndices {
    ranges: Vec<IndexRange>,
}

impl FreeIndices {
    /// The ranges in increasing order.
    pub closed spec fn view(&self) -> Seq<IndexRange> {
        self.ranges@
    }

    pub closed spec fn wf(&self) -> bool {
        ranges_wf(self.ranges@)
    }

    /// Whether the index is free.
    pub open spec fn has(&self, k: int) -> bool {
        ranges_have(self@, k)
    }

    pub fn new() -> (f: FreeIndices)
        ensures
            f.wf(),
            f@ == Seq::<IndexRange>::empty(),
            forall|k: int| !f.has(k),
    {
        FreeIndices { ranges: Vec::new() }
    }

    /// Returns the number of ranges.
    pub fn len(&self) -> (n: usize)
        ensures
            n == self@.len(),
    {
        self.ranges.len()
    }

    pub fn is_empty(&self) -> (b: bool)
        requires
            self.wf(),
        ensures
            b == (self@.len() == 0),
            b <==> forall|k: int| !self.has(k),
    {
        proof {
            if self@.len() > 0 {
                assert(in_range(self@[0], self@[0].min as int));
                assert(self.has(self@[0].min as int));
            }
        }
        self.ranges.len() == 0
    }

    /// Returns the ranges as a vector.
    pub fn ranges(&self) -> (v: Vec<IndexRange>)
        ensures
            v@ == self@,
    {
        let mut v: Vec<IndexRange> = Vec::new();
        let mut i: usize = 0;
        while i < self.ranges.len()
            invariant
                i <= self.ranges@.len(),
                v@ == self.ranges@.subrange(0, i as int),
            decreases self.ranges@.len() - i,
        {
            v.push(self.ranges[i]);
            i = i + 1;
        }
        v
    }

    /// Returns the position of the range that holds the index or `None`.
    fn position(&self, k: usize) -> (r: Option<usize>)
        ensures
            match r {
                Some(i) => i < self@.len() && in_range(self@[i as int], k as int),
                None => !self.has(k as int),
            },
    {
        let mut i: usize = 0;
        while i < self.ranges.len()
            invariant
                i <= self.ranges@.len(),
                forall|j: int| 0 <= j < i ==> !#[trigger] in_range(self.ranges@[j], k as int),
            decreases self.ranges@.len() - i,
        {
            let range = self.ranges[i];
            if range.min <= k && k <= range.max {
                return Some(i);
            }
            i = i + 1;
        }
        None
    }

    /// Returns the range that holds the index or `None`.
    pub fn get(&self, k: usize) -> (r: Option<IndexRange>)
        ensures
            match r {
                Some(range) => in_range(range, k as int) && self@.contains(range),
                None => !self.has(k as int),
            },
    {
        match self.position(k) {
            Some(i) => {
                let range = self.ranges[i];
                assert(self@[i as int] == range);
                Some(range)
            },
            None => None,
        }
    }

    /// Returns the first range, which holds the least free index, or `None`.
    pub fn first(&self) -> (r: Option<IndexRange>)
        requires
            self.wf(),
        ensures
            self@.len() == 0 ==> r is None,
            self@.len() > 0 ==> r == Some(self@[0]),
            self@.len() > 0 ==> self.has(self@[0].min as int),
            self@.len() > 0 ==> forall|k: int| #[trigger] self.has(k) ==> self@[0].min <= k,
    {
        if self.ranges.len() > 0 {
            proof {
                assert(in_range(self@[0], self@[0].min as int));
                assert forall|k: int| self.has(k) implies self@[0].min <= k by {
                    let i = choose|i: int| 0 <= i < self@.len() && #[trigger] in_range(self@[i], k);
                    if i > 0 {
                        assert(self@[0].max + 1 < self@[i].min);
                    }
                }
            }
            Some(self.ranges[0])
        } else {
            None
        }
    }

    /// Takes the least free index out of the set.
    pub fn take_first(&mut self) -> (r: Option<usize>)
        requires
            old(self).wf(),
        ensures
            final(self).wf(),
            old(self)@.len() == 0 ==> r is None && final(self)@ == old(self)@,
            old(self)@.len() > 0 ==> r == Some(old(self)@[0].min),
            match r {
                Some(k) => {
                    &&& old(self).has(k as int)
                    &&& forall|j: int| #[trigger] old(self).has(j) ==> k <= j
                    &&& forall|j: int| #[trigger] final(self).has(j) <==> (old(self).has(j) && j != k)
                },
                None => forall|j: int| !old(self).has(j),
            },
    {
        let first = self.first();
        match first {
            Some(range) => {
                let ghost old_s = self.ranges@;
                if range.min < range.max {
                    self.ranges.set(0, IndexRange::new(range.min + 1, range.max));
                    proof {
                        let s = self.ranges@;
                        assert forall|a: int, b: int| 0 <= a < b < s.len() implies #[trigger] s[a].max + 1 < #[trigger] s[b].min by {
                            assert(old_s[a].max + 1 < old_s[b].min);
                        }
                        assert forall|j: int| ranges_have(s, j) <==> (ranges_have(old_s, j) && j != range.min) by {
                            if ranges_have(s, j) {
                                let i = choose|i: int| 0 <= i < s.len() && #[trigger] in_range(s[i], j);
                                assert(in_range(old_s[i], j));
                                if i > 0 {
                                    assert(old_s[0].max + 1 < old_s[i].min);
                                }
                            }
                            if ranges_have(old_s, j) && j != range.min {
                                let i = choose|i: int| 0 <= i < old_s.len() && #[trigger] in_range(old_s[i], j);
                                assert(in_range(s[i], j));
                            }
                        }
                    }
                } else {
                    self.ranges.remove(0);
                    proof {
                        lemma_remove(old_s, 0);
                        assert forall|j: int| in_range(old_s[0], j) <==> j == range.min by {}
                    }
                }
                Some(range.min)
            },
            None => None,
        }
    }

    /// Removes the range that holds the index and returns it, or returns `None`.
    pub fn remove_range_with(&mut self, k: usize) -> (r: Option<IndexRange>)
        requires
            old(self).wf(),
        ensures
            final(self).wf(),
            match r {
                Some(range) => {
                    &&& in_range(range, k as int)
                    &&& forall|j: int| #[trigger] in_range(range, j) ==> old(self).has(j)
                    &&& forall|j: int| #[trigger] final(self).has(j) <==> (old(self).has(j) && !in_range(range, j))
                    &&& range.min > 0 ==> !old(self).has(range.min - 1)
                },
                None => !old(self).has(k as int) && final(self)@ == old(self)@,
            },
    {
        match self.position(k) {
            Some(i) => {
                let ghost old_s = self.ranges@;
                let range = self.ranges.remove(i);
                proof {
                    lemma_remove(old_s, i as int);
                    assert forall|j: int| in_range(range, j) implies ranges_have(old_s, j) by {
                        assert(in_range(old_s[i as int], j));
                    }
                    if range.min > 0 && ranges_have(old_s, range.min - 1) {
                        let c = choose|c: int| 0 <= c < old_s.len() && #[trigger] in_range(old_s[c], range.min - 1);
                        if c < i {
                            assert(old_s[c].max + 1 < old_s[i as int].min);
                        } else if c > i {
                            assert(old_s[i as int].max + 1 < old_s[c].min);
                        }
                    }
                }
                Some(range)
            },
            None => None,
        }
    }

    /// Adds an index to the set, merging it with the neighbouring ranges.
    pub fn insert(&mut self, k: usize)
        requires
            old(self).wf(),
            !old(self).has(k as int),
        ensures
            final(self).wf(),
            forall|j: int| #[trigger] final(self).has(j) <==> (old(self).has(j) || j == k),
    {
        let ghost old_s = self.ranges@;
        let mut p: usize = 0;
        while p < self.ranges.len() && self.ranges[p].max < k
            invariant
                p <= self.ranges@.len(),
                self.ranges@ == old_s,
                forall|j: int| 0 <= j < p ==> #[trigger] old_s[j].max < k,
            decreases self.ranges@.len() - p,
        {
            p = p + 1;
        }
        proof {
            lemma_gap(old_s, p as int, k as int);
        }
        let joins_prev = p > 0 && self.ranges[p - 1].max == k - 1;
        let joins_next = p < self.ranges.len() && k < usize::MAX && self.ranges[p].min == k + 1;
        if joins_prev && joins_next {
            let prev = self.ranges[p - 1];
            let next = self.ranges[p];
            self.ranges.set(p - 1, IndexRange::new(prev.min, next.max));
            self.ranges.remove(p);
            proof {
                lemma_insert_join_both(old_s, p as int, k as int);
                assert(self.ranges@ =~= join_both(old_s, p as int));
            }
        } else if joins_prev {
            let prev = self.ranges[p - 1];
            self.ranges.set(p - 1, IndexRange::new(prev.min, k));
            proof {
                lemma_insert_join_prev(old_s, p as int, k as int);
            }
        } else if joins_next {
            let next = self.ranges[p];
            self.ranges.set(p, IndexRange::new(k, next.max));
            proof {
                lemma_insert_join_next(old_s, p as int, k as int);
            }
        } else {
            self.ranges.insert(p, IndexRange::new(k, k));
            proof {
                lemma_insert_alone(old_s, p as int, k as int);
            }
        }
    }
}

spec fn join_both(s: Seq<IndexRange>, p: int) -> Seq<IndexRange> {
    s.update(p - 1, IndexRange { min: s[p - 1].min, max: s[p].max }).remove(p)
}

proof fn lemma_insert_join_both(s: Seq<IndexRange>, p: int, k: int)
    requires
        ranges_wf(s),
        0 < p < s.len(),
        s[p - 1].max == k - 1,
        s[p].min == k + 1,
    ensures
        ranges_wf(join_both(s, p)),
        forall|j: int| ranges_have(join_both(s, p), j) <==> (ranges_have(s, j) || j == k),
{
    let t = join_both(s, p);
    assert forall|a: int, b: int| 0 <= a < b < t.len() implies #[trigger] t[a].max + 1 < #[trigger] t[b].min by {
        let a2 = if a < p { a } else { a + 1 };
        let b2 = if b < p { b } else { b + 1 };
        if a == p - 1 {
            assert(s[p].max + 1 < s[b2].min);
        } else {
            assert(s[a2].max + 1 < s[b2].min);
            if b == p - 1 {
                assert(s[a2].max + 1 < s[p - 1].min);
            }
        }
    }
    assert forall|j: int| ranges_have(t, j) <==> (ranges_have(s, j) || j == k) by {
        if ranges_have(t, j) {
            let c = choose|c: int| 0 <= c < t.len() && #[trigger] in_range(t[c], j);
            if c < p - 1 {
                assert(in_range(s[c], j));
            } else if c == p - 1 {
                if j < k {
                    assert(in_range(s[c], j));
                } else if j > k {
                    assert(in_range(s[p], j));
                }
            } else {
                assert(in_range(s[c + 1], j));
            }
        }
        if ranges_have(s, j) {
            let c = choose|c: int| 0 <= c < s.len() && #[trigger] in_range(s[c], j);
            if c < p - 1 {
                assert(in_range(t[c], j));
            } else if c == p - 1 || c == p {
                assert(in_range(t[p - 1], j));
            } else {
                assert(in_range(t[c - 1], j));
            }
        }
        if j == k {
            assert(in_range(t[p - 1], j));
        }
    }
}

proof fn lemma_insert_join_prev(s: Seq<IndexRange>, p: int, k: int)
    requires
        ranges_wf(s),
        0 < p <= s.len(),
        s[p - 1].max == k - 1,
        0 <= k <= usize::MAX,
        p < s.len() ==> k + 1 < s[p].min,
    ensures
        ranges_wf(s.update(p - 1, IndexRange { min: s[p - 1].min, max: k as usize })),
        forall|j: int| #![auto] ranges_have(s.update(p - 1, IndexRange { min: s[p - 1].min, max: k as usize }), j) <==> (ranges_have(s, j) || j == k),
{
    let t = s.update(p - 1, IndexRange { min: s[p - 1].min, max: k as usize });
    assert forall|a: int, b: int| 0 <= a < b < t.len() implies #[trigger] t[a].max + 1 < #[trigger] t[b].min by {
        if a == p - 1 {
            assert(b >= p);
            if b > p {
                assert(s[p].max + 1 < s[b].min);
                assert(s[p].min <= s[p].max);
            }
        } else {
            assert(s[a].max + 1 < s[b].min);
        }
    }
    assert forall|j: int| ranges_have(t, j) <==> (ranges_have(s, j) || j == k) by {
        if ranges_have(t, j) {
            let c = choose|c: int| 0 <= c < t.len() && #[trigger] in_range(t[c], j);
            if c != p - 1 || j != k {
                assert(in_range(s[c], j));
            }
        }
        if ranges_have(s, j) {
            let c = choose|c: int| 0 <= c < s.len() && #[trigger] in_range(s[c], j);
            assert(in_range(t[c], j));
        }
        if j == k {
            assert(in_range(t[p - 1], j));
        }
    }
}

proof fn lemma_insert_join_next(s: Seq<IndexRange>, p: int, k: int)
    requires
        ranges_wf(s),
        0 <= p < s.len(),
        s[p].min == k + 1,
        0 <= k,
        p > 0 ==> s[p - 1].max + 1 < k,
    ensures
        ranges_wf(s.update(p, IndexRange { min: k as usize, max: s[p].max })),
        forall|j: int| #![auto] ranges_have(s.update(p, IndexRange { min: k as usize, max: s[p].max }), j) <==> (ranges_have(s, j) || j == k),
{
    let t = s.update(p, IndexRange { min: k as usize, max: s[p].max });
    assert forall|a: int, b: int| 0 <= a < b < t.len() implies #[trigger] t[a].max + 1 < #[trigger] t[b].min by {
        if b == p {
            if a < p - 1 {
                assert(s[a].max + 1 < s[p - 1].min);
            }
        } else {
            assert(s[a].max + 1 < s[b].min);
        }
    }
    assert forall|j: int| ranges_have(t, j) <==> (ranges_have(s, j) || j == k) by {
        if ranges_have(t, j) {
            let c = choose|c: int| 0 <= c < t.len() && #[trigger] in_range(t[c], j);
            if c != p || j != k {
                assert(in_range(s[c], j));
            }
        }
        if ranges_have(s, j) {
            let c = choose|c: int| 0 <= c < s.len() && #[trigger] in_range(s[c], j);
            assert(in_range(t[c], j));
        }
        if j == k {
            assert(in_range(t[p], j));
        }
    }
}

proof fn lemma_insert_alone(s: Seq<IndexRange>, p: int, k: int)
    requires
        ranges_wf(s),
        0 <= p <= s.len(),
        0 <= k <= usize::MAX,
        p > 0 ==> s[p - 1].max + 1 < k,
        p < s.len() ==> k + 1 < s[p].min,
    ensures
        ranges_wf(s.insert(p, IndexRange { min: k as usize, max: k as usize })),
        forall|j: int| #![auto] ranges_have(s.insert(p, IndexRange { min: k as usize, max: k as usize }), j) <==> (ranges_have(s, j) || j == k),
{
    let t = s.insert(p, IndexRange { min: k as usize, max: k as usize });
    assert forall|a: int, b: int| 0 <= a < b < t.len() implies #[trigger] t[a].max + 1 < #[trigger] t[b].min by {
        if b < p {
            assert(s[a].max + 1 < s[b].min);
        } else if b == p {
            if a < p - 1 {
                assert(s[a].max + 1 < s[p - 1].min);
            }
        } else if a < p {
            assert(s[a].max + 1 < s[b - 1].min);
            if a < p - 1 {
                assert(s[a].max + 1 < s[p - 1].min);
            }
        } else if a == p {
            if b - 1 > p {
                assert(s[p].max + 1 < s[b - 1].min);
            }
        } else {
            assert(s[a - 1].max + 1 < s[b - 1].min);
        }
    }
    assert forall|j: int| ranges_have(t, j) <==> (ranges_have(s, j) || j == k) by {
        if ranges_have(t, j) {
            let c = choose|c: int| 0 <= c < t.len() && #[trigger] in_range(t[c], j);
            if c < p {
                assert(in_range(s[c], j));
            } else if c > p {
                assert(in_range(s[c - 1], j));
            }
        }
        if ranges_have(s, j) {
            let c = choose|c: int| 0 <= c < s.len() && #[trigger] in_range(s[c], j);
            if c < p {
                assert(in_range(t[c], j));
            } else {
                assert(in_range(t[c + 1], j));
            }
        }
        if j == k {
            assert(in_range(t[p], j));
        }
    }
}

} // verus!
