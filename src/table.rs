use vstd::prelude::*;
use crate::pagination::{page_of, PaginationFields};

verus! {

/// A stored row: an identifier, a timestamp that orders listings, and an
/// exact copy operation.
pub trait Row: Sized {
    spec fn key(&self) -> u128;

    spec fn stamp(&self) -> i64;

    fn row_id(&self) -> (r: u128)
        ensures
            r == self.key(),
    ;

    fn row_stamp(&self) -> (r: i64)
        ensures
            r == self.stamp(),
    ;

    fn duplicate(&self) -> (r: Self)
        ensures
            r == *self,
    ;
}

/// A condition on rows, as listings and deletions use it.
pub trait Selector<R> {
    spec fn admits(&self, r: R) -> bool;

    fn test(&self, r: &R) -> (b: bool)
        ensures
            b == self.admits(*r),
    ;
}

/// No two rows share an identifier.
pub open spec fn ids_unique<R: Row>(s: Seq<R>) -> bool {
    forall|i: int, j: int| 0 <= i < s.len() && 0 <= j < s.len() && i != j ==> #[trigger] s[i].key() != #[trigger] s[j].key()
}

/// Rows are ordered by timestamp, newest first.
pub open spec fn newest_first<R: Row>(s: Seq<R>) -> bool {
    forall|i: int, j: int| 0 <= i < j < s.len() ==> #[trigger] s[i].stamp() >= #[trigger] s[j].stamp()
}

pub open spec fn holds_id<R: Row>(s: Seq<R>, id: u128) -> bool {
    exists|i: int| 0 <= i < s.len() && #[trigger] s[i].key() == id
}

/// The rows that a selector admits, in their order.
pub open spec fn select<R, S: Selector<R>>(s: Seq<R>, sel: S) -> Seq<R> {
    s.filter(|r: R| sel.admits(r))
}

/// Some row admitted by the selector.
pub open spec fn holds_match<R, S: Selector<R>>(s: Seq<R>, sel: S) -> bool {
    exists|i: int| 0 <= i < s.len() && sel.admits(#[trigger] s[i])
}

/// `new` is `old` with `row` placed after every row at least as new as it
/// and before every older one.
pub open spec fn inserted_in_order<R: Row>(old: Seq<R>, new: Seq<R>, row: R) -> bool {
    exists|i: int|
        0 <= i <= old.len() && new == old.insert(i, row) && (forall|j: int|
            0 <= j < i ==> #[trigger] old[j].stamp() >= row.stamp()) && (forall|j: int|
            i <= j < old.len() ==> #[trigger] old[j].stamp() < row.stamp())
}

/// `new` is `old` without its first row that the selector admits.
pub open spec fn removed_first<R, S: Selector<R>>(old: Seq<R>, new: Seq<R>, sel: S) -> bool {
    exists|i: int|
        0 <= i < old.len() && sel.admits(old[i]) && (forall|j: int|
            0 <= j < i ==> !sel.admits(#[trigger] old[j])) && new == old.remove(i)
}

/// Rows kept newest first, with unique identifiers.
pub struct Table<R> {
    rows: Vec<R>,
}

impl<R: Row> Table<R> {
    pub closed spec fn rows(&self) -> Seq<R> {
        self.rows@
    }

    pub open spec fn wf(&self) -> bool {
        ids_unique(self.rows()) && newest_first(self.rows())
    }

    pub fn new() -> (r: Self)
        ensures
            r.wf(),
            r.rows() == Seq::<R>::empty(),
    {
        Table { rows: Vec::new() }
    }

    /// The position of the row with this identifier.
    pub fn find(&self, id: u128) -> (r: Option<usize>)
        ensures
            r matches Some(i) ==> i < self.rows().len() && self.rows()[i as int].key() == id,
            r is None ==> !holds_id(self.rows(), id),
    {
        let mut i: usize = 0;
        while i < self.rows.len()
            invariant
                i <= self.rows@.len(),
                forall|j: int| 0 <= j < i ==> #[trigger] self.rows@[j].key() != id,
            decreases self.rows@.len() - i,
        {
            if self.rows[i].row_id() == id {
                return Some(i);
            }
            i = i + 1;
        }
        None
    }

    /// The position of the first row that the selector admits.
    pub fn find_first<S: Selector<R>>(&self, sel: &S) -> (r: Option<usize>)
        ensures
            r matches Some(i) ==> i < self.rows().len() && sel.admits(self.rows()[i as int]) && (
            forall|j: int| 0 <= j < i ==> !sel.admits(#[trigger] self.rows()[j])),
            r is None ==> !holds_match(self.rows(), *sel),
    {
        let mut i: usize = 0;
        while i < self.rows.len()
            invariant
                i <= self.rows@.len(),
                forall|j: int| 0 <= j < i ==> !sel.admits(#[trigger] self.rows@[j]),
            decreases self.rows@.len() - i,
        {
            if sel.test(&self.rows[i]) {
                return Some(i);
            }
            i = i + 1;
        }
        None
    }

    /// A copy of the row at a position.
    pub fn get(&self, i: usize) -> (r: R)
        requires
            i < self.rows().len(),
        ensures
            r == self.rows()[i as int],
    {
        self.rows[i].duplicate()
    }

    /// A copy of the first row that the selector admits.
    pub fn first_match<S: Selector<R>>(&self, sel: &S) -> (r: Option<R>)
        ensures
            r matches Some(x) ==> exists|i: int|
                0 <= i < self.rows().len() && self.rows()[i] == x && sel.admits(x) && (forall|j: int|
                    0 <= j < i ==> !sel.admits(#[trigger] self.rows()[j])),
            r is None <==> !holds_match(self.rows(), *sel),
    {
        match self.find_first(sel) {
            Some(i) => Some(self.get(i)),
            None => None,
        }
    }

    /// Adds a row unless its identifier is taken; returns whether it was added.
    pub fn insert(&mut self, row: R) -> (r: bool)
        requires
            old(self).wf(),
        ensures
            final(self).wf(),
            r == !holds_id(old(self).rows(), row.key()),
            r ==> inserted_in_order(old(self).rows(), final(self).rows(), row),
            !r ==> final(self).rows() == old(self).rows(),
    {
        if self.find(row.row_id()).is_some() {
            return false;
        }
        let t = row.row_stamp();
        let mut i: usize = 0;
        while i < self.rows.len() && self.rows[i].row_stamp() >= t
            invariant
                i <= self.rows@.len(),
                forall|j: int| 0 <= j < i ==> #[trigger] self.rows@[j].stamp() >= t,
            decreases self.rows@.len() - i,
        {
            i = i + 1;
        }
        let ghost before = self.rows@;
        proof {
            assert forall|j: int| i <= j < before.len() implies #[trigger] before[j].stamp() < t by {
                if j > i {
                    assert(before[i as int].stamp() >= before[j].stamp());
                }
            }
        }
        self.rows.insert(i, row);
        proof {
            let after = self.rows@;
            assert(after == before.insert(i as int, row));
            assert forall|a: int, b: int| 0 <= a < b < after.len() implies #[trigger] after[a].stamp()
                >= #[trigger] after[b].stamp() by {
                if a < i && b < i {
                } else if a < i && b == i {
                } else if a < i {
                    assert(after[b] == before[b - 1]);
                } else if a == i {
                    assert(after[b] == before[b - 1]);
                } else {
                    assert(after[a] == before[a - 1]);
                    assert(after[b] == before[b - 1]);
                }
            }
            assert forall|a: int, b: int| 0 <= a < after.len() && 0 <= b < after.len() && a
                != b implies #[trigger] after[a].key() != #[trigger] after[b].key() by {
                if a != i && b != i {
                    let a0 = if a < i { a } else { a - 1 };
                    let b0 = if b < i { b } else { b - 1 };
                    assert(after[a] == before[a0]);
                    assert(after[b] == before[b0]);
                } else if a == i {
                    let b0 = if b < i { b } else { b - 1 };
                    assert(after[b] == before[b0]);
                } else {
                    let a0 = if a < i { a } else { a - 1 };
                    assert(after[a] == before[a0]);
                }
            }
        }
        true
    }

    /// Removes the row at a position.
    pub fn remove_at(&mut self, i: usize) -> (r: R)
        requires
            old(self).wf(),
            i < old(self).rows().len(),
        ensures
            final(self).wf(),
            r == old(self).rows()[i as int],
            final(self).rows() == old(self).rows().remove(i as int),
    {
        let ghost before = self.rows@;
        let r = self.rows.remove(i);
        proof {
            let after = self.rows@;
            assert forall|a: int, b: int| 0 <= a < b < after.len() implies #[trigger] after[a].stamp()
                >= #[trigger] after[b].stamp() by {
                let a0 = if a < i { a } else { a + 1 };
                let b0 = if b < i { b } else { b + 1 };
                assert(after[a] == before[a0]);
                assert(after[b] == before[b0]);
            }
            assert forall|a: int, b: int| 0 <= a < after.len() && 0 <= b < after.len() && a
                != b implies #[trigger] after[a].key() != #[trigger] after[b].key() by {
                let a0 = if a < i { a } else { a + 1 };
                let b0 = if b < i { b } else { b + 1 };
                assert(after[a] == before[a0]);
                assert(after[b] == before[b0]);
            }
        }
        r
    }

    /// Replaces the row at a position by one with the same identifier and
    /// timestamp.
    pub fn replace_at(&mut self, i: usize, row: R)
        requires
            old(self).wf(),
            i < old(self).rows().len(),
            row.key() == old(self).rows()[i as int].key(),
            row.stamp() == old(self).rows()[i as int].stamp(),
        ensures
            final(self).wf(),
            final(self).rows() == old(self).rows().update(i as int, row),
    {
        let ghost before = self.rows@;
        self.rows.set(i, row);
        proof {
            let after = self.rows@;
            assert forall|a: int, b: int| 0 <= a < b < after.len() implies #[trigger] after[a].stamp()
                >= #[trigger] after[b].stamp() by {
                assert(before[a].stamp() >= before[b].stamp());
            }
            assert forall|a: int, b: int| 0 <= a < after.len() && 0 <= b < after.len() && a
                != b implies #[trigger] after[a].key() != #[trigger] after[b].key() by {
                assert(before[a].key() != before[b].key());
            }
        }
    }

    /// Removes the first row that the selector admits; returns how many rows
    /// were removed.
    pub fn remove_first<S: Selector<R>>(&mut self, sel: &S) -> (r: u64)
        requires
            old(self).wf(),
        ensures
            final(self).wf(),
            r == (if holds_match(old(self).rows(), *sel) { 1u64 } else { 0u64 }),
            holds_match(old(self).rows(), *sel) ==> removed_first(old(self).rows(), final(self).rows(), *sel),
            !holds_match(old(self).rows(), *sel) ==> final(self).rows() == old(self).rows(),
    {
        match self.find_first(sel) {
            Some(i) => {
                self.remove_at(i);
                1
            },
            None => 0,
        }
    }

    /// The rows that the selector admits, newest first, one page of them.
    pub fn list<S: Selector<R>>(&self, sel: &S, p: PaginationFields) -> (r: Vec<R>)
        requires
            self.wf(),
        ensures
            r@ == page_of(select(self.rows(), *sel), p),
            newest_first(r@),
    {
        let mut matches: Vec<R> = Vec::new();
        let mut i: usize = 0;
        while i < self.rows.len()
            invariant
                i <= self.rows@.len(),
                matches@ == select(self.rows@.take(i as int), *sel),
            decreases self.rows@.len() - i,
        {
            proof {
                assert(self.rows@.take(i + 1).drop_last() =~= self.rows@.take(i as int));
                reveal(Seq::filter);
            }
            if sel.test(&self.rows[i]) {
                matches.push(self.rows[i].duplicate());
            }
            i = i + 1;
        }
        proof {
            assert(self.rows@.take(self.rows@.len() as int) =~= self.rows@);
            lemma_select_newest_first(self.rows@, *sel);
        }
        let r = page_window(&matches, p);
        r
    }
}

/// Selecting rows keeps them newest first.
pub proof fn lemma_select_newest_first<R: Row, S: Selector<R>>(s: Seq<R>, sel: S)
    requires
        newest_first(s),
    ensures
        newest_first(select(s, sel)),
        forall|k: int| 0 <= k < select(s, sel).len() ==> s.contains(#[trigger] select(s, sel)[k]),
    decreases s.len(),
{
    reveal(Seq::filter);
    if s.len() > 0 {
        let init = s.drop_last();
        assert(newest_first(init));
        lemma_select_newest_first(init, sel);
        let sub = select(init, sel);
        assert forall|k: int| 0 <= k < sub.len() implies #[trigger] sub[k].stamp() >= s.last().stamp() by {
            assert(init.contains(sub[k]));
            let m = choose|m: int| 0 <= m < init.len() && init[m] == sub[k];
            assert(s[m] == init[m]);
        }
        assert forall|k: int| 0 <= k < select(s, sel).len() implies s.contains(#[trigger] select(s, sel)[k]) by {
            if k < sub.len() {
                assert(init.contains(sub[k]));
                let m = choose|m: int| 0 <= m < init.len() && init[m] == sub[k];
                assert(s[m] == init[m]);
            } else {
                assert(s[s.len() - 1] == s.last());
            }
        }
    }
}

/// Copies out one page of a sequence of rows.
pub fn page_window<R: Row>(rows: &Vec<R>, p: PaginationFields) -> (r: Vec<R>)
    requires
        newest_first(rows@),
    ensures
        r@ == page_of(rows@, p),
        newest_first(r@),
{
    let n = rows.len();
    let off = p.skip();
    let start: usize = if off < n as u64 {
        off as usize
    } else {
        n
    };
    let end: usize = if (p.per_page as u64) < (n - start) as u64 {
        start + p.per_page as usize
    } else {
        n
    };
    let mut out: Vec<R> = Vec::new();
    let mut i: usize = start;
    while i < end
        invariant
            start <= i <= end <= n == rows@.len(),
            out@ == rows@.subrange(start as int, i as int),
        decreases end - i,
    {
        out.push(rows[i].duplicate());
        proof {
            assert(out@ =~= rows@.subrange(start as int, i + 1));
        }
        i = i + 1;
    }
    out
}

} // verus!
