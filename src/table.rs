use vstd::prelude::*;

use crate::error::{AppError, AppResult};
use crate::ids::EntityId;
use crate::text::{lemma_text_lt_irreflexive, lemma_text_lt_total, lemma_text_lt_transitive, text_lt};

verus! {

/// Sort key of a record: a primary and a secondary text.
pub type Rank = (Seq<char>, Seq<char>);

pub open spec fn rank_lt(a: Rank, b: Rank) -> bool {
    text_lt(a.0, b.0) || (a.0 == b.0 && text_lt(a.1, b.1))
}

/// Scope in which a record is addressed: up to two owner identifiers, whose
/// meaning each kind of record fixes.
pub type Scope = (EntityId, EntityId);

/// A stored entity: it has a key, a sort key, and an owner.
pub trait Record: Sized {
    spec fn key(&self) -> u128;

    spec fn rank(&self) -> Rank;

    spec fn in_scope(&self, scope: Scope) -> bool;

    fn id(&self) -> (r: EntityId)
        ensures
            r.value == self.key(),
    ;

    fn duplicate(&self) -> (r: Self)
        ensures
            r == *self,
    ;

    fn ranks_before(&self, other: &Self) -> (r: bool)
        ensures
            r == rank_lt(self.rank(), other.rank()),
    ;

    fn is_in_scope(&self, scope: Scope) -> (r: bool)
        ensures
            r == self.in_scope(scope),
    ;
}

/// Listing order: by sort key, then by key.
pub open spec fn precedes<T: Record>(a: T, b: T) -> bool {
    rank_lt(a.rank(), b.rank()) || (a.rank() == b.rank() && a.key() < b.key())
}

pub open spec fn has_key<T: Record>(rows: Seq<T>, key: u128) -> bool {
    exists|i: int| 0 <= i < rows.len() && #[trigger] rows[i].key() == key
}

pub open spec fn index_of<T: Record>(rows: Seq<T>, key: u128) -> int {
    choose|i: int| 0 <= i < rows.len() && #[trigger] rows[i].key() == key
}

/// The row with the given key, if any.
pub open spec fn lookup<T: Record>(rows: Seq<T>, key: u128) -> Option<T> {
    if has_key(rows, key) {
        Some(rows[index_of(rows, key)])
    } else {
        None
    }
}

/// The row with the given key, if there is one and it lies in the scope.
pub open spec fn lookup_in_scope<T: Record>(rows: Seq<T>, key: u128, scope: Scope) -> Option<T> {
    match lookup(rows, key) {
        Some(row) => if row.in_scope(scope) {
            Some(row)
        } else {
            None
        },
        None => None,
    }
}

pub open spec fn keys_unique<T: Record>(rows: Seq<T>) -> bool {
    forall|i: int, j: int|
        0 <= i < rows.len() && 0 <= j < rows.len() && #[trigger] rows[i].key() == #[trigger] rows[j].key()
            ==> i == j
}

pub open spec fn strictly_sorted<T: Record>(s: Seq<T>) -> bool {
    forall|i: int, j: int| 0 <= i < j < s.len() ==> precedes(#[trigger] s[i], #[trigger] s[j])
}

/// `out` lists, in listing order, exactly the rows that lie in the scope.
pub open spec fn listed<T: Record>(rows: Seq<T>, scope: Scope, out: Seq<T>) -> bool {
    &&& strictly_sorted(out)
    &&& forall|x: T|
        #![trigger out.contains(x)]
        #![trigger rows.contains(x)]
        out.contains(x) <==> (rows.contains(x) && x.in_scope(scope))
}

pub proof fn lemma_rank_lt_facts(a: Rank, b: Rank, c: Rank)
    ensures
        !rank_lt(a, a),
        rank_lt(a, b) && rank_lt(b, c) ==> rank_lt(a, c),
        rank_lt(a, b) || rank_lt(b, a) || a == b,
{
    lemma_text_lt_irreflexive(a.0);
    lemma_text_lt_irreflexive(a.1);
    lemma_text_lt_total(a.0, b.0);
    lemma_text_lt_total(a.1, b.1);
    if rank_lt(a, b) && rank_lt(b, c) {
        if text_lt(a.0, b.0) && text_lt(b.0, c.0) {
            lemma_text_lt_transitive(a.0, b.0, c.0);
        }
        if a.0 == b.0 && b.0 == c.0 {
            lemma_text_lt_transitive(a.1, b.1, c.1);
        }
    }
}

/// Listing order is a strict total order on records with distinct keys.
pub proof fn lemma_precedes_order<T: Record>(a: T, b: T, c: T)
    ensures
        !precedes(a, a),
        precedes(a, b) && precedes(b, c) ==> precedes(a, c),
        a.key() != b.key() ==> precedes(a, b) || precedes(b, a),
        precedes(a, b) ==> !precedes(b, a),
{
    lemma_rank_lt_facts(a.rank(), b.rank(), c.rank());
    lemma_rank_lt_facts(b.rank(), a.rank(), c.rank());
    lemma_rank_lt_facts(a.rank(), b.rank(), a.rank());
}

/// Two listings of the same rows in the same scope are equal: listing order is
/// total, so what is listed fixes the order.
pub proof fn lemma_listing_unique<T: Record>(rows: Seq<T>, scope: Scope, a: Seq<T>, b: Seq<T>)
    requires
        listed(rows, scope, a),
        listed(rows, scope, b),
    ensures
        a == b,
{
    lemma_sorted_same_elements(a, b);
}

proof fn lemma_sorted_same_elements<T: Record>(a: Seq<T>, b: Seq<T>)
    requires
        strictly_sorted(a),
        strictly_sorted(b),
        forall|x: T| #![trigger a.contains(x)] #![trigger b.contains(x)] a.contains(x) <==> b.contains(x),
    ensures
        a == b,
    decreases a.len(),
{
    if a.len() == 0 {
        if b.len() > 0 {
            assert(b.contains(b[0]));
        }
        assert(a =~= b);
    } else {
        assert(a.contains(a[0]));
        assert(b.len() > 0);
        assert(b.contains(b[0]));
        let j = choose|j: int| 0 <= j < b.len() && b[j] == a[0];
        let k = choose|k: int| 0 <= k < a.len() && a[k] == b[0];
        lemma_precedes_order(a[0], b[0], a[0]);
        if a[0] != b[0] {
            assert(j > 0);
            assert(k > 0);
            assert(precedes(b[0], b[j]));
            assert(precedes(a[0], a[k]));
            assert(false);
        }
        let a1 = a.drop_first();
        let b1 = b.drop_first();
        assert forall|x: T| #![trigger a1.contains(x)] #![trigger b1.contains(x)] a1.contains(x) <==> b1.contains(x) by {
            if a1.contains(x) {
                let i = choose|i: int| 0 <= i < a1.len() && a1[i] == x;
                assert(a[i + 1] == x);
                assert(precedes(a[0], a[i + 1]));
                lemma_precedes_order(x, x, x);
                assert(b.contains(x));
                let m = choose|m: int| 0 <= m < b.len() && b[m] == x;
                assert(m != 0);
                assert(b1[m - 1] == x);
            }
            if b1.contains(x) {
                let i = choose|i: int| 0 <= i < b1.len() && b1[i] == x;
                assert(b[i + 1] == x);
                assert(precedes(b[0], b[i + 1]));
                lemma_precedes_order(x, x, x);
                assert(a.contains(x));
                let m = choose|m: int| 0 <= m < a.len() && a[m] == x;
                assert(m != 0);
                assert(a1[m - 1] == x);
            }
        }
        lemma_sorted_same_elements(a1, b1);
        assert(a =~= seq![a[0]] + a1);
        assert(b =~= seq![b[0]] + b1);
    }
}

/// A scoped lookup never yields another record: what it finds has the key
/// asked for, lies in the scope, and is stored.
pub proof fn lemma_scoped_lookup_sound<T: Record>(rows: Seq<T>, key: u128, scope: Scope)
    ensures
        lookup_in_scope(rows, key, scope) is Some ==> {
            let found = lookup_in_scope(rows, key, scope)->0;
            &&& found.key() == key
            &&& found.in_scope(scope)
            &&& rows.contains(found)
        },
{
    if lookup_in_scope(rows, key, scope) is Some {
        let i = index_of(rows, key);
        assert(rows[i] == lookup_in_scope(rows, key, scope)->0);
    }
}

/// A record addressed through a scope it does not lie in is treated as absent:
/// the lookup gives exactly what it gives once the record is gone.
pub proof fn lemma_wrong_scope_is_absence<T: Record>(rows: Seq<T>, key: u128, scope: Scope)
    requires
        keys_unique(rows),
        has_key(rows, key),
        !rows[index_of(rows, key)].in_scope(scope),
    ensures
        lookup_in_scope(rows, key, scope) is None,
        lookup_in_scope(rows, key, scope) == lookup_in_scope(
            rows.remove(index_of(rows, key)),
            key,
            scope,
        ),
{
    let i = index_of(rows, key);
    let rest = rows.remove(i);
    if has_key(rest, key) {
        let j = choose|j: int| 0 <= j < rest.len() && #[trigger] rest[j].key() == key;
        if j < i {
            assert(rows[j].key() == rows[i].key());
        } else {
            assert(rows[j + 1].key() == rows[i].key());
        }
    }
}

/// A key that is not stored is found in no scope.
pub proof fn lemma_absent_key_found_nowhere<T: Record>(rows: Seq<T>, key: u128, scope: Scope)
    requires
        !has_key(rows, key),
    ensures
        lookup_in_scope(rows, key, scope) is None,
{
}

/// A record added under a new key is found again, whole, under that key in
/// any scope it lies in.
pub proof fn lemma_added_then_found<T: Record>(rows: Seq<T>, row: T, scope: Scope)
    requires
        !has_key(rows, row.key()),
        row.in_scope(scope),
    ensures
        lookup_in_scope(rows.push(row), row.key(), scope) == Some(row),
{
    let s = rows.push(row);
    assert(s[rows.len() as int].key() == row.key());
    let i = index_of(s, row.key());
    if i < rows.len() {
        assert(rows[i].key() == row.key());
    }
}

/// In listing order.
fn in_order<T: Record>(a: &T, b: &T) -> (r: bool)
    ensures
        r == precedes(*a, *b),
{
    proof {
        lemma_rank_lt_facts(a.rank(), b.rank(), a.rank());
    }
    if a.ranks_before(b) {
        true
    } else if b.ranks_before(a) {
        false
    } else {
        a.id().value < b.id().value
    }
}

/// Inserts `x` into a listing at its place.
fn insert_sorted<T: Record>(out: &mut Vec<T>, x: T)
    requires
        strictly_sorted(old(out)@),
        forall|i: int| 0 <= i < old(out)@.len() ==> (#[trigger] old(out)@[i]).key() != x.key(),
    ensures
        strictly_sorted(final(out)@),
        forall|y: T| #[trigger] final(out)@.contains(y) <==> (old(out)@.contains(y) || y == x),
{
    let ghost s = out@;
    let mut i: usize = 0;
    let mut found = false;
    while !found && i < out.len()
        invariant
            out@ == s,
            s == old(out)@,
            i <= s.len(),
            forall|j: int| 0 <= j < s.len() ==> (#[trigger] s[j]).key() != x.key(),
            forall|j: int| 0 <= j < i ==> precedes(#[trigger] s[j], x),
            found ==> i < s.len() && precedes(x, s[i as int]),
        decreases s.len() - i + (if found { 0int } else { 1int }),
    {
        if in_order(&x, &out[i]) {
            found = true;
        } else {
            proof {
                lemma_precedes_order(s[i as int], x, x);
                assert(s[i as int].key() != x.key());
            }
            i = i + 1;
        }
    }
    let ghost i0 = i;
    out.insert(i, x);
    proof {
        let t = out@;
        assert(t =~= s.insert(i0 as int, x));
        assert forall|p: int, q: int| 0 <= p < q < t.len() implies precedes(
            #[trigger] t[p],
            #[trigger] t[q],
        ) by {
            if q < i0 {
            } else if q == i0 {
            } else if p < i0 {
                lemma_precedes_order(s[p], x, s[q - 1]);
                if i0 < q - 1 {
                    lemma_precedes_order(x, s[i0 as int], s[q - 1]);
                }
            } else if p == i0 {
                if i0 < q - 1 {
                    lemma_precedes_order(x, s[i0 as int], s[q - 1]);
                }
            } else {
            }
        }
        assert forall|y: T| #[trigger] t.contains(y) <==> (s.contains(y) || y == x) by {
            if t.contains(y) {
                let m = choose|m: int| 0 <= m < t.len() && t[m] == y;
                if m < i0 {
                    assert(s[m] == y);
                } else if m > i0 {
                    assert(s[m - 1] == y);
                }
            }
            if s.contains(y) {
                let m = choose|m: int| 0 <= m < s.len() && s[m] == y;
                if m < i0 {
                    assert(t[m] == y);
                } else {
                    assert(t[m + 1] == y);
                }
            }
            if y == x {
                assert(t[i0 as int] == x);
            }
        }
    }
}

/// Rows of one kind of record, at most one per key.
pub struct Table<T> {
    rows: Vec<T>,
}

impl<T: Record> View for Table<T> {
    type V = Seq<T>;

    closed spec fn view(&self) -> Seq<T> {
        self.rows@
    }
}

impl<T: Record> Table<T> {
    pub open spec fn wf(&self) -> bool {
        keys_unique(self@)
    }

    pub fn new() -> (r: Self)
        ensures
            r@ == Seq::<T>::empty(),
            r.wf(),
    {
        Table { rows: Vec::new() }
    }

    pub fn len(&self) -> (r: usize)
        ensures
            r == self@.len(),
    {
        self.rows.len()
    }

    /// Where the row with the given key stands.
    pub fn position(&self, key: EntityId) -> (r: Option<usize>)
        requires
            self.wf(),
        ensures
            r is None <==> !has_key(self@, key.value),
            r is Some ==> r->0 as int == index_of(self@, key.value),
            has_key(self@, key.value) ==> 0 <= index_of(self@, key.value) < self@.len()
                && self@[index_of(self@, key.value)].key() == key.value,
    {
        let mut i: usize = 0;
        while i < self.rows.len()
            invariant
                self.wf(),
                i <= self@.len(),
                forall|j: int| 0 <= j < i ==> (#[trigger] self@[j]).key() != key.value,
            decreases self@.len() - i,
        {
            if self.rows[i].id().value == key.value {
                proof {
                    let k = index_of(self@, key.value);
                    assert(self@[i as int].key() == key.value);
                    assert(self@[k].key() == self@[i as int].key());
                }
                return Some(i);
            }
            i = i + 1;
        }
        None
    }

    /// A copy of the row with the given key.
    pub fn fetch(&self, key: EntityId) -> (r: Option<T>)
        requires
            self.wf(),
        ensures
            r == lookup(self@, key.value),
    {
        match self.position(key) {
            Some(i) => Some(self.rows[i].duplicate()),
            None => None,
        }
    }

    /// A copy of the row with the given key, if it lies in the scope.
    pub fn fetch_in_scope(&self, key: EntityId, scope: Scope) -> (r: Option<T>)
        requires
            self.wf(),
        ensures
            r == lookup_in_scope(self@, key.value, scope),
    {
        match self.fetch(key) {
            Some(row) => if row.is_in_scope(scope) {
                Some(row)
            } else {
                None
            },
            None => None,
        }
    }

    /// Adds a row under a key not yet taken; a taken key is a storage error.
    pub fn insert(&mut self, row: T) -> (r: AppResult<T>)
        requires
            old(self).wf(),
        ensures
            final(self).wf(),
            has_key(old(self)@, row.key()) ==> is_database_failure(r) && final(self)@ == old(self)@,
            !has_key(old(self)@, row.key()) ==> r == Ok::<T, AppError>(row) && final(self)@ == old(
                self,
            )@.push(row),
    {
        let key = row.id();
        if self.position(key).is_some() {
            return Err(AppError::database("a record with this identifier already exists"));
        }
        let copy = row.duplicate();
        self.rows.push(copy);
        proof {
            let s = self@;
            assert forall|i: int, j: int|
                0 <= i < s.len() && 0 <= j < s.len() && #[trigger] s[i].key() == #[trigger] s[j].key()
                    implies i == j by {
                if i < s.len() - 1 && j == s.len() - 1 {
                    assert(has_key(old(self)@, row.key()));
                }
                if j < s.len() - 1 && i == s.len() - 1 {
                    assert(has_key(old(self)@, row.key()));
                }
            }
        }
        Ok(row)
    }

    /// Puts `row` in place of the row with the same key, if there is one.
    pub fn replace(&mut self, row: T) -> (r: bool)
        requires
            old(self).wf(),
        ensures
            final(self).wf(),
            r == has_key(old(self)@, row.key()),
            r ==> final(self)@ == old(self)@.update(index_of(old(self)@, row.key()), row),
            !r ==> final(self)@ == old(self)@,
    {
        match self.position(row.id()) {
            Some(i) => {
                self.rows.set(i, row);
                proof {
                    let s = self@;
                    assert forall|p: int, q: int|
                        0 <= p < s.len() && 0 <= q < s.len() && #[trigger] s[p].key()
                            == #[trigger] s[q].key() implies p == q by {
                        assert(old(self)@[p].key() == s[p].key());
                        assert(old(self)@[q].key() == s[q].key());
                    }
                }
                true
            },
            None => false,
        }
    }

    /// Removes the row with the given key; tells whether there was one.
    pub fn remove(&mut self, key: EntityId) -> (r: bool)
        requires
            old(self).wf(),
        ensures
            final(self).wf(),
            r == has_key(old(self)@, key.value),
            r ==> final(self)@ == old(self)@.remove(index_of(old(self)@, key.value)),
            !r ==> final(self)@ == old(self)@,
    {
        match self.position(key) {
            Some(i) => {
                self.rows.remove(i);
                proof {
                    let s = self@;
                    let o = old(self)@;
                    assert forall|p: int, q: int|
                        0 <= p < s.len() && 0 <= q < s.len() && #[trigger] s[p].key()
                            == #[trigger] s[q].key() implies p == q by {
                        let pp = if p < i { p } else { p + 1 };
                        let qq = if q < i { q } else { q + 1 };
                        assert(o[pp].key() == o[qq].key());
                    }
                }
                true
            },
            None => false,
        }
    }

    /// The rows that lie in the scope, in listing order.
    pub fn select(&self, scope: Scope) -> (r: Vec<T>)
        requires
            self.wf(),
        ensures
            listed(self@, scope, r@),
    {
        let mut out: Vec<T> = Vec::new();
        let mut k: usize = 0;
        while k < self.rows.len()
            invariant
                self.wf(),
                k <= self@.len(),
                strictly_sorted(out@),
                forall|x: T| #[trigger]
                    out@.contains(x) <==> (exists|j: int|
                        0 <= j < k && self@[j] == x && x.in_scope(scope)),
            decreases self@.len() - k,
        {
            if self.rows[k].is_in_scope(scope) {
                let x = self.rows[k].duplicate();
                proof {
                    assert forall|i: int| 0 <= i < out@.len() implies (#[trigger] out@[i]).key()
                        != x.key() by {
                        assert(out@.contains(out@[i]));
                        let j = choose|j: int|
                            0 <= j < k && self@[j] == out@[i] && out@[i].in_scope(scope);
                        assert(self@[j].key() != self@[k as int].key());
                    }
                }
                insert_sorted(&mut out, x);
                proof {
                    assert forall|y: T| #[trigger]
                        out@.contains(y) <==> (exists|j: int|
                            0 <= j < k + 1 && self@[j] == y && y.in_scope(scope)) by {
                        if y == x {
                            assert(self@[k as int] == y);
                        }
                    }
                }
            }
            k = k + 1;
        }
        proof {
            assert forall|x: T| #[trigger] out@.contains(x) <==> (self@.contains(x) && x.in_scope(scope)) by {
                if self@.contains(x) && x.in_scope(scope) {
                    let j = choose|j: int| 0 <= j < self@.len() && self@[j] == x;
                    assert(0 <= j < k && self@[j] == x && x.in_scope(scope));
                }
            }
        }
        out
    }
}

/// The result failed with a storage error.
pub open spec fn is_database_failure<T>(r: AppResult<T>) -> bool {
    r is Err && r->Err_0 is Database
}

} // verus!
