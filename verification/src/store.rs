//! The subscriber store: CRUD over subscriber rows with uniqueness enforcement
//! on email.
//!
//! The store keeps at most one live row per email value. An insert of an email
//! that is already present fails with a conflict and changes nothing — the
//! store checks atomically at its constraint layer, so callers never pre-check
//! existence before inserting. Deleting an absent email is a normal outcome,
//! not an error.
use vstd::prelude::*;

verus! {

/// A persisted subscriber row: a surrogate id assigned by the store on insert,
/// the unique email, and a creation timestamp set once and never updated.
#[derive(Debug)]
pub struct SubscriberRow {
    pub id: u64,
    pub email: String,
    pub created_at: u64,
}

/// Mathematical image of one stored row.
#[verifier::ext_equal]
pub ghost struct RowView {
    pub id: int,
    pub email: Seq<char>,
    pub created_at: u64,
}

impl View for SubscriberRow {
    type V = RowView;

    open spec fn view(&self) -> RowView {
        RowView { id: self.id as int, email: self.email@, created_at: self.created_at }
    }
}

/// Mathematical image of the whole store: whether the relation exists yet, the
/// live rows in insertion order, and the next surrogate id to assign.
#[verifier::ext_equal]
pub ghost struct StoreView {
    pub schema_ready: bool,
    pub rows: Seq<RowView>,
    pub next_id: int,
}

impl StoreView {
    /// The emails of the live rows, in insertion order.
    pub open spec fn emails(self) -> Seq<Seq<char>> {
        self.rows.map_values(|r: RowView| r.email)
    }

    /// Whether some live row holds `e`.
    pub open spec fn has_email(self, e: Seq<char>) -> bool {
        self.emails().contains(e)
    }

    /// Well-formedness: at most one live row per email, and surrogate ids
    /// strictly increasing in insertion order, all below `next_id`.
    pub open spec fn wf(self) -> bool {
        &&& forall|i: int, j: int|
            #![trigger self.rows[i], self.rows[j]]
            0 <= i < j < self.rows.len() ==> self.rows[i].email != self.rows[j].email
                && self.rows[i].id < self.rows[j].id
        &&& forall|i: int| #![trigger self.rows[i]]
            0 <= i < self.rows.len() ==> 0 <= self.rows[i].id < self.next_id
        &&& 0 <= self.next_id
    }
}

/// The store of a process that has not created its relation yet: no rows, and
/// the first surrogate id is 1.
pub open spec fn empty_store() -> StoreView {
    StoreView { schema_ready: false, rows: Seq::empty(), next_id: 1 }
}

/// The store after schema creation: the relation exists; nothing else changes,
/// so creation is never destructive.
pub open spec fn spec_ensure_schema(s: StoreView) -> StoreView {
    StoreView { schema_ready: true, ..s }
}

/// An insert of `e` conflicts exactly when some live row already holds `e`.
pub open spec fn insert_conflicts(s: StoreView, e: Seq<char>) -> bool {
    s.has_email(e)
}

/// The row that a non-conflicting insert of `e` at time `now` creates.
pub open spec fn inserted_row(s: StoreView, e: Seq<char>, now: u64) -> RowView {
    RowView { id: s.next_id, email: e, created_at: now }
}

/// The store after an insert of `e` at `now`: unchanged on conflict, extended
/// by exactly one fresh row otherwise.
pub open spec fn spec_insert(s: StoreView, e: Seq<char>, now: u64) -> StoreView {
    if insert_conflicts(s, e) {
        s
    } else {
        StoreView { rows: s.rows.push(inserted_row(s, e, now)), next_id: s.next_id + 1, ..s }
    }
}

/// Whether a delete of `e` finds a row to remove.
pub open spec fn delete_finds(s: StoreView, e: Seq<char>) -> bool {
    s.has_email(e)
}

/// Holds of the rows a delete of `e` keeps: those whose email is not `e`.
pub open spec fn keeps(e: Seq<char>) -> spec_fn(RowView) -> bool {
    |r: RowView| r.email != e
}

/// The store after a delete of `e`: every row whose email is not `e` is kept,
/// in order; the row holding `e` is gone.
pub open spec fn spec_delete(s: StoreView, e: Seq<char>) -> StoreView {
    StoreView { rows: s.rows.filter(keeps(e)), ..s }
}

/// Why a store operation failed: the unique constraint on email rejected an
/// insert, or the store could not be reached at all.
#[derive(Clone, Copy, Debug, PartialEq, Eq, Structural)]
pub enum StoreError {
    /// A row with the given email already exists.
    Conflict,
    /// The store could not be reached or the query failed in transit.
    Unavailable,
}

/// An in-memory subscriber relation. The unique constraint on email is
/// enforced inside `insert` itself (insert-and-catch, no check-then-act),
/// deletes match on email, and listing returns the emails in insertion order.
pub struct SubscriberStore {
    schema_ready: bool,
    rows: Vec<SubscriberRow>,
    next_id: u64,
}

impl View for SubscriberStore {
    type V = StoreView;

    closed spec fn view(&self) -> StoreView {
        StoreView {
            schema_ready: self.schema_ready,
            rows: self.rows@.map_values(|r: SubscriberRow| r@),
            next_id: self.next_id as int,
        }
    }
}

impl SubscriberStore {
    /// Creates a store with no relation and no rows.
    pub fn new() -> (s: SubscriberStore)
        ensures
            s@ == empty_store(),
            s@.wf(),
    {
        let s = SubscriberStore { schema_ready: false, rows: Vec::new(), next_id: 1 };
        proof {
            assert(s@ =~= empty_store());
        }
        s
    }

    /// Idempotently creates the underlying relation if absent. Safe to call on
    /// every process start: it never touches existing rows.
    pub fn ensure_schema(&mut self)
        ensures
            final(self)@ == spec_ensure_schema(old(self)@),
    {
        self.schema_ready = true;
        proof {
            assert(self@ =~= spec_ensure_schema(old(self)@));
        }
    }

    /// The constraint-layer check: whether some live row holds `email`.
    fn contains_email(&self, email: &String) -> (r: bool)
        ensures
            r == self@.has_email(email@),
    {
        let mut i: usize = 0;
        while i < self.rows.len()
            invariant
                i <= self.rows@.len(),
                forall|j: int| 0 <= j < i ==> #[trigger] self@.rows[j].email != email@,
            decreases self.rows@.len() - i,
        {
            if self.rows[i].email == *email {
                proof {
                    assert(self@.emails()[i as int] == email@);
                }
                return true;
            }
            i += 1;
        }
        proof {
            assert forall|k: int| 0 <= k < self@.emails().len() implies #[trigger] self@.emails()[k]
                != email@ by {
                assert(self@.rows[k].email != email@);
            }
        }
        false
    }

    /// Inserts a new subscriber row and returns the fully populated entity,
    /// with the assigned id and the given timestamp. Fails with
    /// `StoreError::Conflict` when `email` is already present — in that case
    /// the store is unchanged and no second row exists.
    pub fn insert(&mut self, email: String, now: u64) -> (r: Result<SubscriberRow, StoreError>)
        requires
            old(self)@.wf(),
            old(self)@.schema_ready,
            old(self)@.next_id < u64::MAX,
        ensures
            final(self)@ == spec_insert(old(self)@, email@, now),
            final(self)@.wf(),
            r is Err <==> insert_conflicts(old(self)@, email@),
            r matches Ok(row) ==> row@ == inserted_row(old(self)@, email@, now),
            r matches Err(e) ==> e == StoreError::Conflict,
    {
        if self.contains_email(&email) {
            return Err(StoreError::Conflict);
        }
        let id = self.next_id;
        let stored = SubscriberRow { id, email: email.clone(), created_at: now };
        self.rows.push(stored);
        self.next_id = id + 1;
        let row = SubscriberRow { id, email, created_at: now };
        proof {
            assert(self@.rows =~= old(self)@.rows.push(inserted_row(old(self)@, row.email@, now)));
            assert(self@ =~= spec_insert(old(self)@, row.email@, now));
            lemma_insert_preserves_wf(old(self)@, row.email@, now);
        }
        Ok(row)
    }

    /// Returns all subscriber emails, in insertion order. Never fails; an
    /// empty store yields an empty list.
    pub fn list_emails(&self) -> (r: Vec<String>)
        requires
            self@.schema_ready,
        ensures
            r.deep_view() == self@.emails(),
    {
        let mut out: Vec<String> = Vec::new();
        let mut i: usize = 0;
        while i < self.rows.len()
            invariant
                i <= self.rows@.len(),
                out@.len() == i,
                forall|j: int| 0 <= j < i ==> #[trigger] out@[j]@ == self@.rows[j].email,
            decreases self.rows@.len() - i,
        {
            let email = self.rows[i].email.clone();
            out.push(email);
            i += 1;
        }
        proof {
            assert(out.deep_view() =~= self@.emails());
        }
        out
    }

    /// Removes the row matching `email`, if any, and reports whether a row was
    /// actually removed. Not finding a match is a normal outcome: the store is
    /// then unchanged and the result is `false`.
    pub fn delete_by_email(&mut self, email: &String) -> (r: bool)
        requires
            old(self)@.wf(),
            old(self)@.schema_ready,
        ensures
            final(self)@ == spec_delete(old(self)@, email@),
            final(self)@.wf(),
            r == delete_finds(old(self)@, email@),
    {
        let mut i: usize = 0;
        while i < self.rows.len()
            invariant
                i <= self.rows@.len(),
                self@ == old(self)@,
                old(self)@.wf(),
                forall|j: int| 0 <= j < i ==> #[trigger] self@.rows[j].email != email@,
            decreases self.rows@.len() - i,
        {
            if self.rows[i].email == *email {
                let ghost prior = self@;
                let ghost at = i as int;
                self.rows.remove(i);
                proof {
                    assert(prior.rows[at].email == email@);
                    assert(prior.emails()[at] == email@);
                    assert(self@.rows =~= prior.rows.remove(at));
                    assert forall|j: int|
                        0 <= j < prior.rows.len() && j != at implies keeps(email@)(
                        #[trigger] prior.rows[j],
                    ) by {
                        if at < j {
                            assert(prior.rows[at].email != prior.rows[j].email);
                        }
                    }
                    assert(!keeps(email@)(prior.rows[at]));
                    lemma_filter_removes_one(prior.rows, keeps(email@), at);
                    assert(self@ =~= spec_delete(prior, email@));
                    lemma_remove_preserves_wf(prior, at);
                }
                return true;
            }
            i += 1;
        }
        proof {
            assert forall|k: int| 0 <= k < self@.rows.len() implies keeps(email@)(
                #[trigger] self@.rows[k],
            ) by {}
            lemma_filter_retains_all(self@.rows, keeps(email@));
            assert(self@ =~= spec_delete(old(self)@, email@));
            assert forall|k: int| 0 <= k < self@.emails().len() implies #[trigger] self@.emails()[k]
                != email@ by {
                assert(self@.rows[k].email != email@);
            }
        }
        false
    }
}

/// Filtering keeps a sequence whole when every element satisfies the
/// predicate.
proof fn lemma_filter_retains_all<A>(s: Seq<A>, pred: spec_fn(A) -> bool)
    requires
        forall|i: int| 0 <= i < s.len() ==> pred(#[trigger] s[i]),
    ensures
        s.filter(pred) == s,
    decreases s.len(),
{
    reveal(Seq::filter);
    if s.len() == 0 {
        assert(s.filter(pred) =~= s);
    } else {
        lemma_filter_retains_all(s.drop_last(), pred);
        assert(s.drop_last().push(s.last()) =~= s);
    }
}

/// Filtering removes exactly the one element failing the predicate.
proof fn lemma_filter_removes_one<A>(s: Seq<A>, pred: spec_fn(A) -> bool, i: int)
    requires
        0 <= i < s.len(),
        !pred(s[i]),
        forall|j: int| 0 <= j < s.len() && j != i ==> pred(#[trigger] s[j]),
    ensures
        s.filter(pred) == s.remove(i),
    decreases s.len(),
{
    reveal(Seq::filter);
    if i == s.len() - 1 {
        lemma_filter_retains_all(s.drop_last(), pred);
        assert(s.remove(i) =~= s.drop_last());
    } else {
        lemma_filter_removes_one(s.drop_last(), pred, i);
        assert(s.remove(i) =~= s.drop_last().remove(i).push(s.last()));
    }
}

/// A non-conflicting insert preserves well-formedness: the fresh row's email
/// was absent, and its id is the largest assigned yet.
proof fn lemma_insert_preserves_wf(s: StoreView, e: Seq<char>, now: u64)
    requires
        s.wf(),
        !insert_conflicts(s, e),
    ensures
        spec_insert(s, e, now).wf(),
{
    let t = spec_insert(s, e, now);
    let n = s.rows.len() as int;
    assert forall|i: int, j: int|
        #![trigger t.rows[i], t.rows[j]]
        0 <= i < j < t.rows.len() implies t.rows[i].email != t.rows[j].email && t.rows[i].id
        < t.rows[j].id by {
        assert(t.rows[i] == s.rows[i]);
        if j == n {
            assert(t.rows[j] == inserted_row(s, e, now));
            assert(s.emails()[i] == s.rows[i].email);
        } else {
            assert(t.rows[j] == s.rows[j]);
        }
    }
    assert forall|i: int| #![trigger t.rows[i]] 0 <= i < t.rows.len() implies 0 <= t.rows[i].id
        < t.next_id by {
        if i < n {
            assert(t.rows[i] == s.rows[i]);
        }
    }
}

/// Removing one row preserves well-formedness: the kept rows keep their
/// relative order.
proof fn lemma_remove_preserves_wf(s: StoreView, i: int)
    requires
        s.wf(),
        0 <= i < s.rows.len(),
    ensures
        (StoreView { rows: s.rows.remove(i), ..s }).wf(),
{
    s.rows.remove_ensures(i);
    let t = s.rows.remove(i);
    assert forall|a: int, b: int|
        #![trigger t[a], t[b]]
        0 <= a < b < t.len() implies t[a].email != t[b].email && t[a].id < t[b].id by {
        if a < i {
            assert(t[a] == s.rows[a]);
        } else {
            assert(t[a] == s.rows[a + 1]);
        }
        if b < i {
            assert(t[b] == s.rows[b]);
        } else {
            assert(t[b] == s.rows[b + 1]);
        }
    }
    assert forall|a: int| #![trigger t[a]] 0 <= a < t.len() implies 0 <= t[a].id < s.next_id by {
        if a < i {
            assert(t[a] == s.rows[a]);
        } else {
            assert(t[a] == s.rows[a + 1]);
        }
    }
}

/// Law: schema creation is idempotent. Creating the relation a second time
/// yields the same store as creating it once — no error, no duplicate
/// relation, no lost rows.
pub proof fn lemma_ensure_schema_idempotent(s: StoreView)
    ensures
        spec_ensure_schema(spec_ensure_schema(s)) == spec_ensure_schema(s),
{
    assert(spec_ensure_schema(spec_ensure_schema(s)) =~= spec_ensure_schema(s));
}

/// Law: uniqueness. After a successful insert of `e`, a second insert of `e`
/// always conflicts and leaves the store exactly as it was — never a second
/// row.
pub proof fn lemma_insert_unique(s: StoreView, e: Seq<char>, now: u64, later: u64)
    requires
        !insert_conflicts(s, e),
    ensures
        insert_conflicts(spec_insert(s, e, now), e),
        spec_insert(spec_insert(s, e, now), e, later) == spec_insert(s, e, now),
{
    let t = spec_insert(s, e, now);
    assert(t.emails().contains(e)) by {
        assert(t.rows[t.rows.len() - 1].email == e);
        assert(t.emails()[t.rows.len() - 1] == e);
    }
}

/// Law: delete semantics. Deleting an absent email changes nothing and is no
/// error; after any delete of `e`, no row with `e` remains, so a subsequent
/// listing excludes `e`.
pub proof fn lemma_delete_semantics(s: StoreView, e: Seq<char>)
    ensures
        !delete_finds(s, e) ==> spec_delete(s, e) == s,
        !spec_delete(s, e).has_email(e),
{
    if !delete_finds(s, e) {
        assert forall|k: int| 0 <= k < s.rows.len() implies keeps(e)(#[trigger] s.rows[k]) by {
            assert(s.emails()[k] == s.rows[k].email);
        }
        lemma_filter_retains_all(s.rows, keeps(e));
        assert(spec_delete(s, e) =~= s);
    }
    let t = spec_delete(s, e);
    assert forall|k: int| 0 <= k < t.emails().len() implies #[trigger] t.emails()[k] != e by {
        s.rows.lemma_filter_pred(keeps(e), k);
    }
}

} // verus!
