//! The record store: the rows of the case table, keyed by `customer_id`,
//! with the point queries, the filtered queries, the full- and partial-tuple
//! writes, the transactional merge-update, and the idempotent status flips.
//!
//! The store models the table that the database holds. Its abstraction is a
//! map from key to row (`table()`); every operation says what it does to that
//! map. The database-backed deployment runs the same protocol against the
//! real table: read the current row, resolve the merge with
//! [`crate::merge::resolve_update`], write the full tuple back in a single
//! statement inside one transaction. The read-then-write span must hold a
//! row-level lock (`SELECT ... FOR UPDATE`) so that two concurrent merges to
//! the same key serialize; the composition laws here describe the serialized
//! outcomes.

use vstd::prelude::*;
use crate::merge::{
    disjoint_payloads, lemma_disjoint_updates_compose, resolve_case, resolve_update,
};
use crate::record::{
    AddressFields, ClientFields, Field, FullFields, UpdatePayload, VisaCase, apply_address,
    apply_client, apply_full, field_value, payload_field, specifies, with_status,
};
use crate::status::CaseStatus;

verus! {

/// A row is active when its status says so.
pub open spec fn is_active(c: VisaCase) -> bool {
    c.status == CaseStatus::Active
}

/// A row answers a contact lookup when either of its two address keys —
/// primary e-mail or login e-mail — equals the queried one.
pub open spec fn matches_contact(c: VisaCase, key: Seq<char>) -> bool {
    c.email@ == key || c.login_email@ == key
}

/// A row answers a login lookup when its login e-mail matches and it is
/// active.
pub open spec fn matches_login_active(c: VisaCase, key: Seq<char>) -> bool {
    c.login_email@ == key && is_active(c)
}

/// The subsequence of active rows, in stored order.
pub open spec fn select_active(s: Seq<VisaCase>) -> Seq<VisaCase>
    decreases s.len(),
{
    if s.len() == 0 {
        Seq::empty()
    } else {
        let rest = select_active(s.drop_last());
        if is_active(s.last()) {
            rest.push(s.last())
        } else {
            rest
        }
    }
}

/// The subsequence of rows answering a contact lookup, in stored order.
pub open spec fn select_contact(s: Seq<VisaCase>, key: Seq<char>) -> Seq<VisaCase>
    decreases s.len(),
{
    if s.len() == 0 {
        Seq::empty()
    } else {
        let rest = select_contact(s.drop_last(), key);
        if matches_contact(s.last(), key) {
            rest.push(s.last())
        } else {
            rest
        }
    }
}

/// The subsequence of active rows answering a login lookup, in stored order.
pub open spec fn select_login_active(s: Seq<VisaCase>, key: Seq<char>) -> Seq<VisaCase>
    decreases s.len(),
{
    if s.len() == 0 {
        Seq::empty()
    } else {
        let rest = select_login_active(s.drop_last(), key);
        if matches_login_active(s.last(), key) {
            rest.push(s.last())
        } else {
            rest
        }
    }
}

/// A row after a deactivate-by-email sweep: inactive if its e-mail matched,
/// untouched otherwise.
pub open spec fn flip_if_email(c: VisaCase, email: Seq<char>) -> VisaCase {
    if c.email@ == email {
        with_status(c, CaseStatus::Inactive)
    } else {
        c
    }
}

/// How many of the first `n` rows carry e-mail `email`.
pub open spec fn count_email(s: Seq<VisaCase>, email: Seq<char>, n: int) -> int
    decreases n,
{
    if n <= 0 {
        0
    } else {
        count_email(s, email, n - 1) + (if s[n - 1].email@ == email {
            1int
        } else {
            0int
        })
    }
}

/// The key a row is stored under: its immutable `customer_id`.
pub open spec fn case_key(c: VisaCase) -> Seq<char> {
    c.customer_id@
}

/// No two rows share a key.
pub open spec fn unique_keys(s: Seq<VisaCase>) -> bool {
    forall|i: int, j: int|
        0 <= i < j < s.len() ==> case_key(#[trigger] s[i]) != case_key(#[trigger] s[j])
}

/// Some row carries key `k`.
pub open spec fn has_key(s: Seq<VisaCase>, k: Seq<char>) -> bool {
    exists|i: int| 0 <= i < s.len() && case_key(#[trigger] s[i]) == k
}

/// The position of the row with key `k` (meaningful when `has_key` holds and
/// the keys are unique).
pub open spec fn index_of_key(s: Seq<VisaCase>, k: Seq<char>) -> int {
    choose|i: int| 0 <= i < s.len() && case_key(#[trigger] s[i]) == k
}

/// The rows as a map from key to row.
pub open spec fn table_of(s: Seq<VisaCase>) -> Map<Seq<char>, VisaCase> {
    Map::new(|k: Seq<char>| has_key(s, k), |k: Seq<char>| s[index_of_key(s, k)])
}

/// Looking a stored row up in the table finds exactly that row.
pub proof fn lemma_table_lookup(s: Seq<VisaCase>, i: int)
    requires
        unique_keys(s),
        0 <= i < s.len(),
    ensures
        table_of(s).contains_key(case_key(s[i])),
        table_of(s)[case_key(s[i])] == s[i],
{
    let k = case_key(s[i]);
    assert(has_key(s, k));
    let j = index_of_key(s, k);
    assert(0 <= j < s.len() && case_key(s[j]) == k);
    assert(j == i);
}

/// Replacing the row at position `i` by a row with the same key updates the
/// table at that key and nothing else.
pub proof fn lemma_table_update(s: Seq<VisaCase>, i: int, c: VisaCase)
    requires
        unique_keys(s),
        0 <= i < s.len(),
        case_key(c) == case_key(s[i]),
    ensures
        unique_keys(s.update(i, c)),
        table_of(s.update(i, c)) == table_of(s).insert(case_key(c), c),
{
    let t = s.update(i, c);
    let k = case_key(c);
    assert forall|p: int, q: int| 0 <= p < q < t.len() implies case_key(#[trigger] t[p])
        != case_key(#[trigger] t[q]) by {
        assert(case_key(t[p]) == case_key(s[p]));
        assert(case_key(t[q]) == case_key(s[q]));
    }
    assert forall|m: Seq<char>| #[trigger] has_key(t, m) implies table_of(s).insert(
        k,
        c,
    ).contains_key(m) by {
        let w = choose|w: int| 0 <= w < t.len() && case_key(t[w]) == m;
        if w != i {
            assert(case_key(s[w]) == m);
            assert(has_key(s, m));
        }
    }
    assert forall|m: Seq<char>| table_of(s).insert(k, c).contains_key(m) implies has_key(
        t,
        m,
    ) by {
        if m == k {
            assert(case_key(t[i]) == m);
        } else {
            let w = choose|w: int| 0 <= w < s.len() && case_key(#[trigger] s[w]) == m;
            assert(w != i);
            assert(case_key(t[w]) == m);
        }
    }
    assert forall|m: Seq<char>| #[trigger] has_key(t, m) implies table_of(t)[m] == table_of(
        s,
    ).insert(k, c)[m] by {
        let w = index_of_key(t, m);
        assert(0 <= w < t.len() && case_key(t[w]) == m);
        if m == k {
            assert(w == i) by {
                if w != i {
                    assert(case_key(t[w]) == case_key(s[w]));
                    assert(case_key(s[w]) == case_key(s[i]));
                }
            }
            assert(table_of(t)[m] == c);
        } else {
            assert(w != i);
            assert(t[w] == s[w]);
            let v = index_of_key(s, m);
            assert(has_key(s, m)) by {
                assert(case_key(s[w]) == m);
            }
            assert(0 <= v < s.len() && case_key(s[v]) == m);
            assert(v == w);
        }
    }
    assert(table_of(t) =~= table_of(s).insert(k, c));
}

/// Appending a row with a fresh key extends the table by exactly that entry.
pub proof fn lemma_table_push(s: Seq<VisaCase>, c: VisaCase)
    requires
        unique_keys(s),
        !has_key(s, case_key(c)),
    ensures
        unique_keys(s.push(c)),
        table_of(s.push(c)) == table_of(s).insert(case_key(c), c),
{
    let t = s.push(c);
    let k = case_key(c);
    assert forall|p: int, q: int| 0 <= p < q < t.len() implies case_key(#[trigger] t[p])
        != case_key(#[trigger] t[q]) by {
        if q == s.len() {
            assert(case_key(t[p]) == case_key(s[p]));
            if case_key(s[p]) == k {
                assert(has_key(s, k));
            }
        } else {
            assert(case_key(t[p]) == case_key(s[p]));
            assert(case_key(t[q]) == case_key(s[q]));
        }
    }
    assert forall|m: Seq<char>| #[trigger] has_key(t, m) implies table_of(s).insert(
        k,
        c,
    ).contains_key(m) by {
        let w = choose|w: int| 0 <= w < t.len() && case_key(t[w]) == m;
        if w != s.len() {
            assert(case_key(s[w]) == m);
            assert(has_key(s, m));
        }
    }
    assert forall|m: Seq<char>| table_of(s).insert(k, c).contains_key(m) implies has_key(
        t,
        m,
    ) by {
        if m == k {
            assert(case_key(t[s.len() as int]) == m);
        } else {
            let w = choose|w: int| 0 <= w < s.len() && case_key(#[trigger] s[w]) == m;
            assert(case_key(t[w]) == m);
        }
    }
    assert forall|m: Seq<char>| #[trigger] has_key(t, m) implies table_of(t)[m] == table_of(
        s,
    ).insert(k, c)[m] by {
        let w = index_of_key(t, m);
        assert(0 <= w < t.len() && case_key(t[w]) == m);
        if m == k {
            assert(w == s.len()) by {
                if w < s.len() {
                    assert(case_key(s[w]) == k);
                    assert(has_key(s, k));
                }
            }
        } else {
            assert(w != s.len());
            assert(t[w] == s[w]);
            let v = index_of_key(s, m);
            assert(has_key(s, m)) by {
                assert(case_key(s[w]) == m);
            }
            assert(0 <= v < s.len() && case_key(s[v]) == m);
            assert(v == w);
        }
    }
    assert(table_of(t) =~= table_of(s).insert(k, c));
}

/// A key that no row carries is not in the table.
pub proof fn lemma_table_absent(s: Seq<VisaCase>, k: Seq<char>)
    requires
        !has_key(s, k),
    ensures
        !table_of(s).contains_key(k),
{
}

/// Outcome of a keyed write: the key was there and the row was rewritten, or
/// it was not and nothing happened. "Not found" is a normal negative result,
/// not a store failure.
#[derive(Clone, Copy, PartialEq, Eq, Structural, Debug)]
pub enum WriteOutcome {
    NotFound,
    Updated,
}

/// Outcome of inserting a row under a key that must be fresh.
#[derive(Clone, Copy, PartialEq, Eq, Structural, Debug)]
pub enum InsertOutcome {
    Inserted,
    DuplicateKey,
}

/// Outcome of a status flip: the key was absent, the row already carried the
/// target status (a no-op reported as such, with no write), or the row was
/// rewritten. "Already in state" is success-shaped, not an error.
#[derive(Clone, Copy, PartialEq, Eq, Structural, Debug)]
pub enum FlipOutcome {
    NotFound,
    AlreadyInState,
    Changed,
}

/// What a merge against table `m` at `key` reports.
pub open spec fn merge_result(
    m: Map<Seq<char>, VisaCase>,
    key: Seq<char>,
    update: UpdatePayload,
) -> WriteOutcome {
    if m.contains_key(key) {
        WriteOutcome::Updated
    } else {
        WriteOutcome::NotFound
    }
}

/// What a merge against table `m` at `key` leaves behind: the merged tuple
/// under an existing key, the table untouched otherwise.
pub open spec fn merge_table(
    m: Map<Seq<char>, VisaCase>,
    key: Seq<char>,
    update: UpdatePayload,
) -> Map<Seq<char>, VisaCase> {
    if m.contains_key(key) {
        m.insert(key, resolve_case(m[key], update))
    } else {
        m
    }
}

/// What a status flip to `target` at `key` reports.
pub open spec fn flip_result(
    m: Map<Seq<char>, VisaCase>,
    key: Seq<char>,
    target: CaseStatus,
) -> FlipOutcome {
    if !m.contains_key(key) {
        FlipOutcome::NotFound
    } else if m[key].status == target {
        FlipOutcome::AlreadyInState
    } else {
        FlipOutcome::Changed
    }
}

/// What a status flip to `target` at `key` leaves behind: only a row that
/// existed with the other status is rewritten, and only its status changes.
pub open spec fn flip_table(
    m: Map<Seq<char>, VisaCase>,
    key: Seq<char>,
    target: CaseStatus,
) -> Map<Seq<char>, VisaCase> {
    if m.contains_key(key) && m[key].status != target {
        m.insert(key, with_status(m[key], target))
    } else {
        m
    }
}

/// The case table. Keys are unique; the well-formedness predicate `wf` is
/// established by the constructor and preserved by every operation.
pub struct Store {
    rows: Vec<VisaCase>,
}

impl Store {
    /// The stored rows, in insertion order.
    pub closed spec fn row_seq(&self) -> Seq<VisaCase> {
        self.rows@
    }

    /// Well-formedness: no two rows share a `customer_id`.
    pub open spec fn wf(&self) -> bool {
        unique_keys(self.row_seq())
    }

    /// The store's abstraction: a map from key to row.
    pub open spec fn table(&self) -> Map<Seq<char>, VisaCase> {
        table_of(self.row_seq())
    }

    /// An empty store.
    pub fn new() -> (r: Store)
        ensures
            r.wf(),
            r.row_seq() == Seq::<VisaCase>::empty(),
            r.table() == Map::<Seq<char>, VisaCase>::empty(),
    {
        let s = Store { rows: Vec::new() };
        proof {
            assert(s.table() =~= Map::<Seq<char>, VisaCase>::empty());
        }
        s
    }

    /// Number of stored rows.
    pub fn len(&self) -> (n: usize)
        ensures
            n == self.row_seq().len(),
    {
        self.rows.len()
    }

    /// The position of the row with key `key`, if any.
    fn find_index(&self, key: &String) -> (r: Option<usize>)
        requires
            self.wf(),
        ensures
            match r {
                Some(i) => i < self.row_seq().len() && case_key(self.row_seq()[i as int])
                    == key@,
                None => !has_key(self.row_seq(), key@),
            },
    {
        let n = self.rows.len();
        let mut i: usize = 0;
        while i < n
            invariant
                n == self.row_seq().len(),
                i <= n,
                forall|j: int| 0 <= j < i ==> case_key(#[trigger] self.row_seq()[j]) != key@,
            decreases n - i,
        {
            if self.rows[i].customer_id == *key {
                return Some(i);
            }
            i = i + 1;
        }
        None
    }

    /// Point lookup by primary key; absence is a normal outcome.
    pub fn fetch_one(&self, key: &String) -> (r: Option<&VisaCase>)
        requires
            self.wf(),
        ensures
            match r {
                Some(c) => self.table().contains_key(key@) && *c == self.table()[key@],
                None => !self.table().contains_key(key@),
            },
    {
        match self.find_index(key) {
            Some(i) => {
                proof {
                    lemma_table_lookup(self.row_seq(), i as int);
                }
                Some(&self.rows[i])
            },
            None => {
                proof {
                    lemma_table_absent(self.row_seq(), key@);
                }
                None
            },
        }
    }

    /// Creates a new row. The key must be fresh; a duplicate is rejected and
    /// nothing is written.
    pub fn insert(&mut self, row: VisaCase) -> (r: InsertOutcome)
        requires
            old(self).wf(),
        ensures
            final(self).wf(),
            !old(self).table().contains_key(case_key(row)) ==> r == InsertOutcome::Inserted
                && final(self).row_seq() == old(self).row_seq().push(row)
                && final(self).table() == old(self).table().insert(case_key(row), row),
            old(self).table().contains_key(case_key(row)) ==> r == InsertOutcome::DuplicateKey
                && final(self).row_seq() == old(self).row_seq(),
    {
        match self.find_index(&row.customer_id) {
            Some(i) => {
                proof {
                    lemma_table_lookup(self.row_seq(), i as int);
                }
                InsertOutcome::DuplicateKey
            },
            None => {
                proof {
                    lemma_table_absent(self.row_seq(), row.customer_id@);
                    lemma_table_push(self.row_seq(), row);
                }
                self.rows.push(row);
                InsertOutcome::Inserted
            },
        }
    }

    /// The transactional merge-update protocol: read the current row under
    /// the key, resolve the sparse payload against it field by field, and
    /// write the fully-resolved tuple back — or, when the key is absent,
    /// write nothing at all and report not-found. An observer sees either the
    /// untouched row or the complete merged tuple, never a mixture.
    pub fn merge_update(&mut self, key: &String, update: UpdatePayload) -> (r: WriteOutcome)
        requires
            old(self).wf(),
        ensures
            final(self).wf(),
            r == merge_result(old(self).table(), key@, update),
            final(self).table() == merge_table(old(self).table(), key@, update),
            r == WriteOutcome::NotFound ==> final(self).row_seq() == old(self).row_seq(),
    {
        match self.find_index(key) {
            None => {
                proof {
                    lemma_table_absent(self.row_seq(), key@);
                }
                WriteOutcome::NotFound
            },
            Some(i) => {
                proof {
                    lemma_table_lookup(self.row_seq(), i as int);
                }
                let current = self.rows[i].clone();
                let merged = resolve_update(current, update);
                proof {
                    lemma_table_update(self.row_seq(), i as int, merged);
                }
                self.rows[i] = merged;
                WriteOutcome::Updated
            },
        }
    }

    /// Flips the row under `key` to `target` unless it is already there: the
    /// atomic conditional form of the status transition. The check and the
    /// write are one operation on the table; a row already in the target
    /// state is reported as such and not written.
    pub fn set_status(&mut self, key: &String, target: CaseStatus) -> (r: FlipOutcome)
        requires
            old(self).wf(),
        ensures
            final(self).wf(),
            r == flip_result(old(self).table(), key@, target),
            final(self).table() == flip_table(old(self).table(), key@, target),
            r != FlipOutcome::Changed ==> final(self).row_seq() == old(self).row_seq(),
    {
        match self.find_index(key) {
            None => {
                proof {
                    lemma_table_absent(self.row_seq(), key@);
                }
                FlipOutcome::NotFound
            },
            Some(i) => {
                proof {
                    lemma_table_lookup(self.row_seq(), i as int);
                }
                if self.rows[i].status == target {
                    FlipOutcome::AlreadyInState
                } else {
                    let mut row = self.rows[i].clone();
                    row.status = target;
                    proof {
                        lemma_table_update(self.row_seq(), i as int, row);
                    }
                    self.rows[i] = row;
                    FlipOutcome::Changed
                }
            },
        }
    }

    /// Marks the row under `key` active; a no-op when it already is.
    pub fn activate(&mut self, key: &String) -> (r: FlipOutcome)
        requires
            old(self).wf(),
        ensures
            final(self).wf(),
            r == flip_result(old(self).table(), key@, CaseStatus::Active),
            final(self).table() == flip_table(old(self).table(), key@, CaseStatus::Active),
            r != FlipOutcome::Changed ==> final(self).row_seq() == old(self).row_seq(),
    {
        self.set_status(key, CaseStatus::Active)
    }

    /// Soft deletion: marks the row under `key` inactive; the row itself is
    /// never removed.
    pub fn deactivate(&mut self, key: &String) -> (r: FlipOutcome)
        requires
            old(self).wf(),
        ensures
            final(self).wf(),
            r == flip_result(old(self).table(), key@, CaseStatus::Inactive),
            final(self).table() == flip_table(old(self).table(), key@, CaseStatus::Inactive),
            r != FlipOutcome::Changed ==> final(self).row_seq() == old(self).row_seq(),
    {
        self.set_status(key, CaseStatus::Inactive)
    }

    /// Point lookup by primary key restricted to active rows: an inactive
    /// row answers like a missing one.
    pub fn fetch_one_active(&self, key: &String) -> (r: Option<&VisaCase>)
        requires
            self.wf(),
        ensures
            match r {
                Some(c) => self.table().contains_key(key@) && *c == self.table()[key@]
                    && is_active(*c),
                None => !self.table().contains_key(key@) || !is_active(self.table()[key@]),
            },
    {
        match self.fetch_one(key) {
            Some(c) => {
                if c.status == CaseStatus::Active {
                    Some(c)
                } else {
                    None
                }
            },
            None => None,
        }
    }

    /// Every stored row, in stored order; an empty listing is normal.
    pub fn fetch_all(&self) -> (r: Vec<VisaCase>)
        ensures
            r@ == self.row_seq(),
    {
        let n = self.rows.len();
        let mut out: Vec<VisaCase> = Vec::new();
        let mut i: usize = 0;
        while i < n
            invariant
                n == self.row_seq().len(),
                i <= n,
                out@ == self.row_seq().subrange(0, i as int),
            decreases n - i,
        {
            out.push(self.rows[i].clone());
            proof {
                assert(out@ =~= self.row_seq().subrange(0, i + 1 as int));
            }
            i = i + 1;
        }
        proof {
            assert(out@ =~= self.row_seq());
        }
        out
    }

    /// The active rows, in stored order.
    pub fn fetch_active(&self) -> (r: Vec<VisaCase>)
        ensures
            r@ == select_active(self.row_seq()),
    {
        let n = self.rows.len();
        let mut out: Vec<VisaCase> = Vec::new();
        let mut i: usize = 0;
        while i < n
            invariant
                n == self.row_seq().len(),
                i <= n,
                out@ == select_active(self.row_seq().subrange(0, i as int)),
            decreases n - i,
        {
            proof {
                let s = self.row_seq();
                let nxt = s.subrange(0, i + 1 as int);
                assert(nxt.drop_last() =~= s.subrange(0, i as int));
                assert(nxt.last() == s[i as int]);
            }
            if self.rows[i].status == CaseStatus::Active {
                out.push(self.rows[i].clone());
            }
            i = i + 1;
        }
        proof {
            assert(self.row_seq().subrange(0, n as int) =~= self.row_seq());
        }
        out
    }

    /// Lookup by contact key: every row whose e-mail or login e-mail equals
    /// `key`, in stored order; an empty result is normal.
    pub fn fetch_by_contact(&self, key: &String) -> (r: Vec<VisaCase>)
        ensures
            r@ == select_contact(self.row_seq(), key@),
    {
        let n = self.rows.len();
        let mut out: Vec<VisaCase> = Vec::new();
        let mut i: usize = 0;
        while i < n
            invariant
                n == self.row_seq().len(),
                i <= n,
                out@ == select_contact(self.row_seq().subrange(0, i as int), key@),
            decreases n - i,
        {
            proof {
                let s = self.row_seq();
                let nxt = s.subrange(0, i + 1 as int);
                assert(nxt.drop_last() =~= s.subrange(0, i as int));
                assert(nxt.last() == s[i as int]);
            }
            if self.rows[i].email == *key || self.rows[i].login_email == *key {
                out.push(self.rows[i].clone());
            }
            i = i + 1;
        }
        proof {
            assert(self.row_seq().subrange(0, n as int) =~= self.row_seq());
        }
        out
    }

    /// Lookup by login e-mail restricted to active rows, in stored order.
    pub fn fetch_by_login_active(&self, key: &String) -> (r: Vec<VisaCase>)
        ensures
            r@ == select_login_active(self.row_seq(), key@),
    {
        let n = self.rows.len();
        let mut out: Vec<VisaCase> = Vec::new();
        let mut i: usize = 0;
        while i < n
            invariant
                n == self.row_seq().len(),
                i <= n,
                out@ == select_login_active(self.row_seq().subrange(0, i as int), key@),
            decreases n - i,
        {
            proof {
                let s = self.row_seq();
                let nxt = s.subrange(0, i + 1 as int);
                assert(nxt.drop_last() =~= s.subrange(0, i as int));
                assert(nxt.last() == s[i as int]);
            }
            if self.rows[i].login_email == *key && self.rows[i].status == CaseStatus::Active {
                out.push(self.rows[i].clone());
            }
            i = i + 1;
        }
        proof {
            assert(self.row_seq().subrange(0, n as int) =~= self.row_seq());
        }
        out
    }

    /// Rewrites the full tuple under `key` with the supplied values, leaving
    /// key and status alone; zero rows affected means the key was not there.
    pub fn write_full(&mut self, key: &String, fields: FullFields) -> (r: WriteOutcome)
        requires
            old(self).wf(),
        ensures
            final(self).wf(),
            !old(self).table().contains_key(key@) ==> r == WriteOutcome::NotFound
                && final(self).row_seq() == old(self).row_seq(),
            old(self).table().contains_key(key@) ==> r == WriteOutcome::Updated
                && final(self).table() == old(self).table().insert(
                key@,
                apply_full(old(self).table()[key@], fields),
            ),
    {
        match self.find_index(key) {
            None => {
                proof {
                    lemma_table_absent(self.row_seq(), key@);
                }
                WriteOutcome::NotFound
            },
            Some(i) => {
                proof {
                    lemma_table_lookup(self.row_seq(), i as int);
                }
                let mut row = self.rows[i].clone();
                row.email = fields.email;
                row.first_name = fields.first_name;
                row.last_name = fields.last_name;
                row.dob = fields.dob;
                row.sex = fields.sex;
                row.marital_status = fields.marital_status;
                row.phone = fields.phone;
                row.emergency_contact_name = fields.emergency_contact_name;
                row.emergency_contact_phone = fields.emergency_contact_phone;
                row.employment_start_date = fields.employment_start_date;
                row.street_name = fields.street_name;
                row.city = fields.city;
                row.state = fields.state;
                row.zip = fields.zip;
                row.client_name = fields.client_name;
                row.client_street_name = fields.client_street_name;
                row.client_city = fields.client_city;
                row.client_state = fields.client_state;
                row.client_zip = fields.client_zip;
                row.lca_title = fields.lca_title;
                row.lca_salary = fields.lca_salary;
                row.lca_code = fields.lca_code;
                row.receipt_number = fields.receipt_number;
                row.h1b_start_date = fields.h1b_start_date;
                row.h1b_end_date = fields.h1b_end_date;
                row.login_email = fields.login_email;
                proof {
                    lemma_table_update(self.row_seq(), i as int, row);
                }
                self.rows[i] = row;
                WriteOutcome::Updated
            },
        }
    }

    /// Rewrites the four address columns under `key`; zero rows affected
    /// means the key was not there.
    pub fn write_address(&mut self, key: &String, fields: AddressFields) -> (r: WriteOutcome)
        requires
            old(self).wf(),
        ensures
            final(self).wf(),
            !old(self).table().contains_key(key@) ==> r == WriteOutcome::NotFound
                && final(self).row_seq() == old(self).row_seq(),
            old(self).table().contains_key(key@) ==> r == WriteOutcome::Updated
                && final(self).table() == old(self).table().insert(
                key@,
                apply_address(old(self).table()[key@], fields),
            ),
    {
        match self.find_index(key) {
            None => {
                proof {
                    lemma_table_absent(self.row_seq(), key@);
                }
                WriteOutcome::NotFound
            },
            Some(i) => {
                proof {
                    lemma_table_lookup(self.row_seq(), i as int);
                }
                let mut row = self.rows[i].clone();
                row.street_name = fields.street_name;
                row.city = fields.city;
                row.state = fields.state;
                row.zip = fields.zip;
                proof {
                    lemma_table_update(self.row_seq(), i as int, row);
                }
                self.rows[i] = row;
                WriteOutcome::Updated
            },
        }
    }

    /// Rewrites the client-engagement columns and the status under `key`;
    /// zero rows affected means the key was not there.
    pub fn write_client(&mut self, key: &String, fields: ClientFields) -> (r: WriteOutcome)
        requires
            old(self).wf(),
        ensures
            final(self).wf(),
            !old(self).table().contains_key(key@) ==> r == WriteOutcome::NotFound
                && final(self).row_seq() == old(self).row_seq(),
            old(self).table().contains_key(key@) ==> r == WriteOutcome::Updated
                && final(self).table() == old(self).table().insert(
                key@,
                apply_client(old(self).table()[key@], fields),
            ),
    {
        match self.find_index(key) {
            None => {
                proof {
                    lemma_table_absent(self.row_seq(), key@);
                }
                WriteOutcome::NotFound
            },
            Some(i) => {
                proof {
                    lemma_table_lookup(self.row_seq(), i as int);
                }
                let mut row = self.rows[i].clone();
                row.client_name = fields.client_name;
                row.client_street_name = fields.client_street_name;
                row.client_city = fields.client_city;
                row.client_state = fields.client_state;
                row.client_zip = fields.client_zip;
                row.lca_title = fields.lca_title;
                row.lca_salary = fields.lca_salary;
                row.lca_code = fields.lca_code;
                row.receipt_number = fields.receipt_number;
                row.h1b_start_date = fields.h1b_start_date;
                row.h1b_end_date = fields.h1b_end_date;
                row.status = fields.status;
                proof {
                    lemma_table_update(self.row_seq(), i as int, row);
                }
                self.rows[i] = row;
                WriteOutcome::Updated
            },
        }
    }

    /// Soft-deletes every row whose e-mail equals `email`, unconditionally,
    /// and reports how many rows the sweep touched (matched rows, whatever
    /// status they already had). Keys are untouched, so well-formedness is
    /// preserved.
    pub fn deactivate_by_email(&mut self, email: &String) -> (count: usize)
        requires
            old(self).wf(),
        ensures
            final(self).wf(),
            final(self).row_seq().len() == old(self).row_seq().len(),
            forall|j: int| 0 <= j < old(self).row_seq().len()
                ==> final(self).row_seq()[j] == flip_if_email(
                    #[trigger] old(self).row_seq()[j],
                    email@,
                ),
            count == count_email(old(self).row_seq(), email@, old(self).row_seq().len() as int),
    {
        let ghost orig = self.rows@;
        let n = self.rows.len();
        let mut count: usize = 0;
        let mut i: usize = 0;
        while i < n
            invariant
                n == self.rows@.len(),
                orig.len() == n,
                i <= n,
                count <= i,
                unique_keys(orig),
                forall|j: int| 0 <= j < i ==> self.rows@[j] == flip_if_email(
                    #[trigger] orig[j],
                    email@,
                ),
                forall|j: int| i <= j < n ==> self.rows@[j] == #[trigger] orig[j],
                count == count_email(orig, email@, i as int),
            decreases n - i,
        {
            if self.rows[i].email == *email {
                let mut row = self.rows[i].clone();
                row.status = CaseStatus::Inactive;
                self.rows[i] = row;
                count = count + 1;
            }
            i = i + 1;
        }
        proof {
            assert forall|p: int, q: int| 0 <= p < q < self.rows@.len() implies case_key(
                #[trigger] self.rows@[p],
            ) != case_key(#[trigger] self.rows@[q]) by {
                assert(case_key(self.rows@[p]) == case_key(orig[p]));
                assert(case_key(self.rows@[q]) == case_key(orig[q]));
            }
        }
        count
    }
}

/// Interprets the outcome of the atomic conditional flip as the database
/// runs it — `UPDATE ... WHERE key = .. AND status <> target` — from its
/// affected-row count and, when that count is zero, an existence probe: a
/// nonzero count is the transition; a zero count on an existing row means it
/// already carried the target status; a zero count otherwise means the key
/// is absent.
pub fn interpret_conditional_flip(rows_affected: u64, row_exists: bool) -> (r: FlipOutcome)
    ensures
        rows_affected > 0 ==> r == FlipOutcome::Changed,
        rows_affected == 0 && row_exists ==> r == FlipOutcome::AlreadyInState,
        rows_affected == 0 && !row_exists ==> r == FlipOutcome::NotFound,
{
    if rows_affected > 0 {
        FlipOutcome::Changed
    } else if row_exists {
        FlipOutcome::AlreadyInState
    } else {
        FlipOutcome::NotFound
    }
}

/// Merging against a non-existent key performs no write and reports
/// not-found: the table is exactly what it was.
pub proof fn lemma_merge_not_found(
    m: Map<Seq<char>, VisaCase>,
    key: Seq<char>,
    update: UpdatePayload,
)
    requires
        !m.contains_key(key),
    ensures
        merge_result(m, key, update) == WriteOutcome::NotFound,
        merge_table(m, key, update) == m,
{
}

/// Two merges to the same key with disjoint field sets both survive: once
/// the two updates are serialized — which the row lock taken between read
/// and write guarantees — the final row carries the first payload's values
/// in the fields it specified, the second payload's in the fields it
/// specified, and the original values everywhere else; no other key is
/// touched. Neither update is lost.
pub proof fn lemma_disjoint_merges_compose(
    m: Map<Seq<char>, VisaCase>,
    key: Seq<char>,
    first: UpdatePayload,
    second: UpdatePayload,
)
    requires
        disjoint_payloads(first, second),
        m.contains_key(key),
    ensures
        merge_table(merge_table(m, key, first), key, second).contains_key(key),
        forall|f: Field| specifies(first, f) ==> Some(
            field_value(merge_table(merge_table(m, key, first), key, second)[key], f),
        ) == payload_field(first, f),
        forall|f: Field| specifies(second, f) ==> Some(
            field_value(merge_table(merge_table(m, key, first), key, second)[key], f),
        ) == payload_field(second, f),
        forall|f: Field| !specifies(first, f) && !specifies(second, f)
            ==> field_value(merge_table(merge_table(m, key, first), key, second)[key], f)
                == field_value(m[key], f),
        forall|k: Seq<char>|
            merge_table(merge_table(m, key, first), key, second).contains_key(k)
                <==> m.contains_key(k),
        forall|k: Seq<char>| k != key && m.contains_key(k)
            ==> merge_table(merge_table(m, key, first), key, second)[k] == m[k],
{
    lemma_disjoint_updates_compose(m[key], first, second);
}

/// Activation is idempotent: on an inactive row the first call transitions it
/// to active and reports the change; a second call reports "already in
/// state" and leaves the table exactly as the first call left it.
pub proof fn lemma_activate_idempotent(m: Map<Seq<char>, VisaCase>, key: Seq<char>)
    requires
        m.contains_key(key),
        m[key].status == CaseStatus::Inactive,
    ensures
        flip_result(m, key, CaseStatus::Active) == FlipOutcome::Changed,
        flip_table(m, key, CaseStatus::Active)[key].status == CaseStatus::Active,
        flip_result(flip_table(m, key, CaseStatus::Active), key, CaseStatus::Active)
            == FlipOutcome::AlreadyInState,
        flip_table(flip_table(m, key, CaseStatus::Active), key, CaseStatus::Active)
            == flip_table(m, key, CaseStatus::Active),
{
}

} // verus!
