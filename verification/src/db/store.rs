//! A table of alerts with the store's contract: rows are made once per
//! fingerprint, found by id or fingerprint, and changed through
//! transactions that take effect only when committed.
use vstd::prelude::*;
use vstd::string::*;
use crate::db::errors::DbError;
use crate::db::models::{Alert, AlertView, NewAlert, NewAlertView, Timestamp};
use crate::text::{clone_opt, text_eq};

verus! {

/// The abstract value of the store: its rows in the order of their creation,
/// and the id that the next row gets.
pub struct StoreView {
    pub rows: Seq<AlertView>,
    pub next_id: int,
}

impl StoreView {
    /// Ids are positive, below `next_id` and unique; a fingerprint names at
    /// most one row.
    pub open spec fn wf(self) -> bool {
        &&& 1 <= self.next_id <= i64::MAX
        &&& forall|i: int| 0 <= i < self.rows.len() ==> 1 <= (#[trigger] self.rows[i]).id < self.next_id
        &&& forall|i: int, j: int|
            0 <= i < j < self.rows.len() ==> (#[trigger] self.rows[i]).id != (#[trigger] self.rows[j]).id
        &&& forall|i: int, j: int|
            0 <= i < j < self.rows.len() && (#[trigger] self.rows[i]).fingerprint is Some
                ==> self.rows[i].fingerprint != (#[trigger] self.rows[j]).fingerprint
    }

    /// Every row knows its chat message by channel and timestamp together,
    /// or not at all.
    pub open spec fn chat_consistent(self) -> bool {
        forall|i: int| 0 <= i < self.rows.len() ==> (#[trigger] self.rows[i]).chat_ref_consistent()
    }

    /// Whether `later` is this store at a later time: every row is still
    /// there, in its place, with what was fixed at its creation.
    pub open spec fn grows_into(self, later: StoreView) -> bool {
        &&& self.rows.len() <= later.rows.len()
        &&& self.next_id <= later.next_id
        &&& forall|i: int|
            0 <= i < self.rows.len() ==> (#[trigger] self.rows[i]).same_alert(later.rows[i])
    }

    pub open spec fn has_id(self, id: int) -> bool {
        exists|i: int| 0 <= i < self.rows.len() && (#[trigger] self.rows[i]).id == id
    }

    pub open spec fn has_fingerprint(self, fingerprint: Seq<char>) -> bool {
        exists|i: int|
            0 <= i < self.rows.len() && (#[trigger] self.rows[i]).fingerprint == Some(fingerprint)
    }

    /// The position of the row with this id.
    pub open spec fn index_of_id(self, id: int) -> int {
        choose|i: int| 0 <= i < self.rows.len() && (#[trigger] self.rows[i]).id == id
    }

    /// The position of the row with this fingerprint.
    pub open spec fn index_of_fingerprint(self, fingerprint: Seq<char>) -> int {
        choose|i: int|
            0 <= i < self.rows.len() && (#[trigger] self.rows[i]).fingerprint == Some(fingerprint)
    }

    /// The row with this id, if there is one.
    pub open spec fn by_id(self, id: int) -> Option<AlertView> {
        if self.has_id(id) {
            Some(self.rows[self.index_of_id(id)])
        } else {
            None
        }
    }

    /// The row with this fingerprint, if there is one.
    pub open spec fn by_fingerprint(self, fingerprint: Seq<char>) -> Option<AlertView> {
        if self.has_fingerprint(fingerprint) {
            Some(self.rows[self.index_of_fingerprint(fingerprint)])
        } else {
            None
        }
    }

    /// Whether the store takes `new` as a row: ids are left, and its
    /// fingerprint names no row yet.
    pub open spec fn accepts(self, new: NewAlertView) -> bool {
        &&& self.next_id < i64::MAX
        &&& new.fingerprint matches Some(f) ==> !self.has_fingerprint(f)
    }

    /// The store after `new` became a row at `now`.
    pub open spec fn with_created(self, new: NewAlertView, now: int) -> StoreView {
        StoreView { rows: self.rows.push(new.stored_as(self.next_id, now)), next_id: self.next_id + 1 }
    }

    /// The store after a full-row update of the row with the id of `change`.
    pub open spec fn with_updated(self, change: AlertView, now: int) -> StoreView {
        let i = self.index_of_id(change.id);
        StoreView { rows: self.rows.update(i, self.rows[i].updated_with(change, now)), ..self }
    }

    /// The store with `row` in the place of the row with this id.
    pub open spec fn with_row(self, id: int, row: AlertView) -> StoreView {
        StoreView { rows: self.rows.update(self.index_of_id(id), row), ..self }
    }

    /// Why the store does not take `new`, where it does not.
    pub open spec fn refusal(self, new: NewAlertView) -> Seq<char> {
        if self.next_id < i64::MAX {
            "the fingerprint names a row already"@
        } else {
            "no id is left"@
        }
    }

    /// An empty store.
    pub open spec fn empty() -> StoreView {
        StoreView { rows: Seq::empty(), next_id: 1 }
    }
}

/// Creating a row keeps the store well formed.
pub proof fn lemma_created_wf(s: StoreView, new: NewAlertView, now: int)
    requires
        s.wf(),
        s.accepts(new),
    ensures
        s.with_created(new, now).wf(),
        s.with_created(new, now).by_id(s.next_id) == Some(new.stored_as(s.next_id, now)),
        new.fingerprint matches Some(f) ==> s.with_created(new, now).by_fingerprint(f) == Some(
            new.stored_as(s.next_id, now),
        ),
{
    let t = s.with_created(new, now);
    let n = s.rows.len() as int;
    assert(t.rows[n].id == s.next_id);
    assert forall|i: int| 0 <= i < t.rows.len() implies 1 <= (#[trigger] t.rows[i]).id
        < t.next_id by {
        if i < n {
            assert(t.rows[i] == s.rows[i]);
        }
    }
    assert forall|i: int, j: int| 0 <= i < j < t.rows.len() implies (#[trigger] t.rows[i]).id != (
    #[trigger] t.rows[j]).id by {
        assert(t.rows[i] == s.rows[i]);
        if j < n {
            assert(t.rows[j] == s.rows[j]);
        }
    }
    assert forall|i: int, j: int|
        0 <= i < j < t.rows.len() && (#[trigger] t.rows[i]).fingerprint is Some implies t.rows[i].fingerprint
        != (#[trigger] t.rows[j]).fingerprint by {
        assert(t.rows[i] == s.rows[i]);
        if j < n {
            assert(t.rows[j] == s.rows[j]);
        }
    }
    assert(t.has_id(s.next_id));
    let k = t.index_of_id(s.next_id);
    if k < n {
        assert(t.rows[k] == s.rows[k]);
    }
    if let Some(f) = new.fingerprint {
        assert(t.rows[n].fingerprint == Some(f));
        assert(t.has_fingerprint(f));
        let m = t.index_of_fingerprint(f);
        if m < n {
            assert(t.rows[m] == s.rows[m]);
        }
    }
}

/// Updating a row keeps the store well formed, changes that row alone and
/// keeps every id and fingerprint.
pub proof fn lemma_updated_wf(s: StoreView, change: AlertView, now: int)
    requires
        s.wf(),
        s.has_id(change.id),
    ensures
        s.with_updated(change, now).wf(),
        s.with_updated(change, now).rows.len() == s.rows.len(),
        s.with_updated(change, now).by_id(change.id) == Some(
            s.by_id(change.id)->0.updated_with(change, now),
        ),
        forall|id: int| s.with_updated(change, now).has_id(id) == s.has_id(id),
        forall|f: Seq<char>| s.with_updated(change, now).has_fingerprint(f) == s.has_fingerprint(f),
        forall|id: int|
            id != change.id ==> s.with_updated(change, now).by_id(id) == s.by_id(id),
{
    let t = s.with_updated(change, now);
    let k = s.index_of_id(change.id);
    assert forall|i: int| 0 <= i < t.rows.len() implies (#[trigger] t.rows[i]).id == s.rows[i].id
        && t.rows[i].fingerprint == s.rows[i].fingerprint by {}
    assert forall|id: int| t.has_id(id) == s.has_id(id) by {
        if s.has_id(id) {
            let i = s.index_of_id(id);
            assert(t.rows[i].id == id);
        }
        if t.has_id(id) {
            let i = t.index_of_id(id);
            assert(s.rows[i].id == id);
        }
    }
    assert forall|f: Seq<char>| t.has_fingerprint(f) == s.has_fingerprint(f) by {
        if s.has_fingerprint(f) {
            let i = s.index_of_fingerprint(f);
            assert(t.rows[i].fingerprint == Some(f));
        }
        if t.has_fingerprint(f) {
            let i = t.index_of_fingerprint(f);
            assert(s.rows[i].fingerprint == Some(f));
        }
    }
    assert(t.rows[k].id == change.id);
    assert(t.has_id(change.id));
    let k2 = t.index_of_id(change.id);
    assert(s.rows[k2].id == change.id);
    assert(k2 == k);
    assert forall|id: int| id != change.id implies t.by_id(id) == s.by_id(id) by {
        if s.has_id(id) {
            let i = s.index_of_id(id);
            assert(t.rows[i].id == id);
            let j = t.index_of_id(id);
            assert(s.rows[j].id == id);
            assert(i == j);
        }
    }
    assert forall|i: int, j: int| 0 <= i < j < t.rows.len() implies (#[trigger] t.rows[i]).id != (
    #[trigger] t.rows[j]).id by {
        assert(s.rows[i].id != s.rows[j].id);
    }
    assert forall|i: int, j: int|
        0 <= i < j < t.rows.len() && (#[trigger] t.rows[i]).fingerprint is Some implies t.rows[i].fingerprint
        != (#[trigger] t.rows[j]).fingerprint by {
        assert(s.rows[i].fingerprint != s.rows[j].fingerprint);
    }
    assert forall|i: int| 0 <= i < t.rows.len() implies 1 <= (#[trigger] t.rows[i]).id
        < t.next_id by {
        assert(1 <= s.rows[i].id < s.next_id);
    }
}

/// After an update, a fingerprint names the row it named before: changed, if
/// it is the updated row, and as it was otherwise.
pub proof fn lemma_updated_by_fingerprint(s: StoreView, change: AlertView, now: int, f: Seq<char>)
    requires
        s.wf(),
        s.has_id(change.id),
        s.has_fingerprint(f),
    ensures
        s.with_updated(change, now).by_fingerprint(f) == Some(
            if s.by_fingerprint(f)->0.id == change.id {
                s.by_fingerprint(f)->0.updated_with(change, now)
            } else {
                s.by_fingerprint(f)->0
            },
        ),
{
    let t = s.with_updated(change, now);
    lemma_updated_wf(s, change, now);
    let k = s.index_of_id(change.id);
    let i = s.index_of_fingerprint(f);
    assert(t.rows[i].fingerprint == Some(f));
    let j = t.index_of_fingerprint(f);
    assert(s.rows[j].fingerprint == Some(f));
    if i < j {
        assert(s.rows[i].fingerprint != s.rows[j].fingerprint);
    }
    if j < i {
        assert(s.rows[j].fingerprint != s.rows[i].fingerprint);
    }
    assert(i == j);
    if s.rows[i].id == change.id {
        if i < k {
            assert(s.rows[i].id != s.rows[k].id);
        }
        if k < i {
            assert(s.rows[k].id != s.rows[i].id);
        }
        assert(i == k);
    }
}

/// Creating a row leaves every row that was there as it was.
pub proof fn lemma_created_keeps_rows(s: StoreView, new: NewAlertView, now: int)
    requires
        s.wf(),
        s.accepts(new),
    ensures
        forall|id: int| s.has_id(id) ==> s.with_created(new, now).by_id(id) == s.by_id(id),
        forall|f: Seq<char>|
            s.has_fingerprint(f) ==> s.with_created(new, now).by_fingerprint(f) == s.by_fingerprint(
                f,
            ),
{
    let t = s.with_created(new, now);
    lemma_created_wf(s, new, now);
    assert forall|id: int| s.has_id(id) implies t.by_id(id) == s.by_id(id) by {
        let i = s.index_of_id(id);
        assert(t.rows[i] == s.rows[i]);
        assert(t.has_id(id));
        let j = t.index_of_id(id);
        if i < j {
            assert(t.rows[i].id != t.rows[j].id);
        }
        if j < i {
            assert(t.rows[j].id != t.rows[i].id);
        }
    }
    assert forall|f: Seq<char>| s.has_fingerprint(f) implies t.by_fingerprint(f)
        == s.by_fingerprint(f) by {
        let i = s.index_of_fingerprint(f);
        assert(t.rows[i] == s.rows[i]);
        assert(t.has_fingerprint(f));
        let j = t.index_of_fingerprint(f);
        if i < j {
            assert(t.rows[i].fingerprint != t.rows[j].fingerprint);
        }
        if j < i {
            assert(t.rows[j].fingerprint != t.rows[i].fingerprint);
        }
    }
}

/// Creating a row deletes none and leaves what is fixed at a row's
/// creation as it is.
pub proof fn lemma_created_grows(s: StoreView, new: NewAlertView, now: int)
    ensures
        s.grows_into(s.with_created(new, now)),
{
    let t = s.with_created(new, now);
    assert forall|i: int| 0 <= i < s.rows.len() implies (#[trigger] s.rows[i]).same_alert(
        t.rows[i],
    ) by {}
}

/// Updating a row deletes none and leaves what is fixed at a row's creation
/// as it is: the id, the text, the fingerprint, the classification and the
/// time of creation.
pub proof fn lemma_updated_grows(s: StoreView, change: AlertView, now: int)
    requires
        s.has_id(change.id),
    ensures
        s.grows_into(s.with_updated(change, now)),
{
}

/// Growing is transitive.
pub proof fn lemma_grows_transitive(a: StoreView, b: StoreView, c: StoreView)
    requires
        a.grows_into(b),
        b.grows_into(c),
    ensures
        a.grows_into(c),
{
    assert forall|i: int| 0 <= i < a.rows.len() implies (#[trigger] a.rows[i]).same_alert(
        c.rows[i],
    ) by {
        assert(a.rows[i].same_alert(b.rows[i]));
        assert(b.rows[i].same_alert(c.rows[i]));
    }
}

/// The outcome of a statement that should have changed exactly one row.
pub fn check_rows_affected(rows_affected: u64) -> (outcome: Result<(), DbError>)
    ensures
        rows_affected == 1 <==> outcome is Ok,
        rows_affected == 0 <==> outcome == Err::<(), DbError>(DbError::NotFound),
        rows_affected > 1 <==> outcome == Err::<(), DbError>(DbError::InconsistentState),
{
    if rows_affected == 0 {
        Err(DbError::NotFound)
    } else if rows_affected == 1 {
        Ok(())
    } else {
        Err(DbError::InconsistentState)
    }
}

/// The rows as abstract values.
pub open spec fn rows_view(rows: Seq<Alert>) -> Seq<AlertView> {
    Seq::new(rows.len(), |i: int| rows[i]@)
}

fn clone_rows(rows: &Vec<Alert>) -> (copy: Vec<Alert>)
    ensures
        copy@ == rows@,
{
    let mut copy: Vec<Alert> = Vec::new();
    let mut i: usize = 0;
    while i < rows.len()
        invariant
            i <= rows.len(),
            copy@ == rows@.subrange(0, i as int),
        decreases rows.len() - i,
    {
        copy.push(rows[i].clone());
        assert(copy@ =~= rows@.subrange(0, i + 1));
        i += 1;
    }
    assert(copy@ =~= rows@);
    copy
}

fn find_by_id(rows: &Vec<Alert>, id: i64) -> (found: Option<usize>)
    ensures
        found matches Some(i) ==> i < rows.len() && rows[i as int].id == id,
        found is None ==> forall|i: int| 0 <= i < rows.len() ==> (#[trigger] rows[i]).id != id,
{
    let mut i: usize = 0;
    while i < rows.len()
        invariant
            i <= rows.len(),
            forall|j: int| 0 <= j < i ==> (#[trigger] rows[j]).id != id,
        decreases rows.len() - i,
    {
        if rows[i].id == id {
            return Some(i);
        }
        i += 1;
    }
    None
}

fn find_by_fingerprint(rows: &Vec<Alert>, fingerprint: &str) -> (found: Option<usize>)
    ensures
        found matches Some(i) ==> i < rows.len() && rows[i as int]@.fingerprint == Some(fingerprint@),
        found is None ==> forall|i: int|
            0 <= i < rows.len() ==> (#[trigger] rows[i])@.fingerprint != Some(fingerprint@),
{
    let mut i: usize = 0;
    while i < rows.len()
        invariant
            i <= rows.len(),
            forall|j: int| 0 <= j < i ==> (#[trigger] rows[j])@.fingerprint != Some(fingerprint@),
        decreases rows.len() - i,
    {
        let same: bool = match &rows[i].fingerprint {
            Some(f) => text_eq(f.as_str(), fingerprint),
            None => false,
        };
        if same {
            return Some(i);
        }
        i += 1;
    }
    None
}

/// Work on the store that takes effect when it is committed, and never if it
/// is dropped.
pub struct Transaction {
    rows: Vec<Alert>,
    next_id: i64,
}

impl View for Transaction {
    type V = StoreView;

    closed spec fn view(&self) -> StoreView {
        StoreView { rows: rows_view(self.rows@), next_id: self.next_id as int }
    }
}

/// The alert store.
pub struct Db {
    rows: Vec<Alert>,
    next_id: i64,
}

impl View for Db {
    type V = StoreView;

    closed spec fn view(&self) -> StoreView {
        StoreView { rows: rows_view(self.rows@), next_id: self.next_id as int }
    }
}

impl Db {
    /// An empty store.
    pub fn new() -> (db: Db)
        ensures
            db@ == StoreView::empty(),
            db@.wf(),
    {
        let db = Db { rows: Vec::new(), next_id: 1 };
        assert(db@.rows =~= Seq::empty());
        db
    }

    /// Inserts `new_alert` as a row created at `now` and returns the row.
    /// Fails, leaving the transaction as it was, when the fingerprint names
    /// a row already or no id is left.
    pub fn alert_create(&self, tx: &mut Transaction, new_alert: NewAlert, now: Timestamp) -> (created:
        Result<Alert, DbError>)
        requires
            old(tx)@.wf(),
        ensures
            final(tx)@.wf(),
            created is Ok <==> old(tx)@.accepts(new_alert@),
            created matches Ok(row) ==> {
                &&& row@ == new_alert@.stored_as(old(tx)@.next_id, now@)
                &&& final(tx)@ == old(tx)@.with_created(new_alert@, now@)
            },
            created matches Err(e) ==> {
                &&& e matches DbError::DatabaseError(why)
                &&& why@ == old(tx)@.refusal(new_alert@)
                &&& final(tx)@ == old(tx)@
            },
    {
        if tx.next_id == i64::MAX {
            return Err(DbError::DatabaseError("no id is left".to_owned()));
        }
        let taken: bool = match &new_alert.fingerprint {
            Some(f) => find_by_fingerprint(&tx.rows, f.as_str()).is_some(),
            None => false,
        };
        proof {
            if let Some(f) = new_alert@.fingerprint {
                if taken {
                    let i = find_by_fingerprint_witness(tx.rows@, f);
                    assert(tx@.rows[i].fingerprint == Some(f));
                } else {
                    assert forall|i: int| 0 <= i < tx@.rows.len() implies (#[trigger] tx@.rows[i]).fingerprint
                        != Some(f) by {
                        assert(tx.rows@[i]@.fingerprint != Some(f));
                    }
                }
            }
        }
        if taken {
            return Err(
                DbError::DatabaseError("the fingerprint names a row already".to_owned()),
            );
        }
        let id: i64 = tx.next_id;
        let row = Alert {
            id,
            text: new_alert.text,
            resolved: new_alert.resolved,
            fingerprint: new_alert.fingerprint,
            chart_filename: new_alert.chart_filename,
            slack_channel: new_alert.slack_channel,
            slack_ts: new_alert.slack_ts,
            sloth_slo: new_alert.sloth_slo,
            sloth_service: new_alert.sloth_service,
            objective_name: new_alert.objective_name,
            severity: new_alert.severity,
            created_at: now,
            updated_at: now,
        };
        let copy = row.clone();
        tx.rows.push(row);
        tx.next_id = id + 1;
        proof {
            assert(tx@.rows =~= old(tx)@.with_created(new_alert@, now@).rows);
            lemma_created_wf(old(tx)@, new_alert@, now@);
        }
        Ok(copy)
    }

    /// The row with this id; `NotFound` if there is none.
    pub fn alert_get(&self, tx: &mut Transaction, alert_id: i64) -> (got: Result<Alert, DbError>)
        requires
            old(tx)@.wf(),
        ensures
            final(tx)@ == old(tx)@,
            got is Ok <==> old(tx)@.has_id(alert_id as int),
            got matches Ok(row) ==> Some(row@) == old(tx)@.by_id(alert_id as int),
            got matches Err(e) ==> e == DbError::NotFound,
    {
        match find_by_id(&tx.rows, alert_id) {
            Some(i) => {
                proof {
                    assert(tx@.rows[i as int].id == alert_id);
                    let k = tx@.index_of_id(alert_id as int);
                    assert(k == i);
                }
                Ok(tx.rows[i].clone())
            },
            None => {
                proof {
                    assert forall|i: int| 0 <= i < tx@.rows.len() implies (#[trigger] tx@.rows[i]).id
                        != alert_id by {
                        assert(tx.rows@[i].id != alert_id);
                    }
                }
                Err(DbError::NotFound)
            },
        }
    }

    /// The row with this fingerprint, if there is one. Absence is no
    /// failure.
    pub fn alert_get_by_fingerprint(&self, tx: &mut Transaction, fingerprint: &str) -> (got: Result<
        Option<Alert>,
        DbError,
    >)
        requires
            old(tx)@.wf(),
        ensures
            final(tx)@ == old(tx)@,
            got is Ok,
            got matches Ok(Some(row)) ==> Some(row@) == old(tx)@.by_fingerprint(fingerprint@),
            got matches Ok(None) ==> !old(tx)@.has_fingerprint(fingerprint@),
    {
        match find_by_fingerprint(&tx.rows, fingerprint) {
            Some(i) => {
                proof {
                    assert(tx@.rows[i as int].fingerprint == Some(fingerprint@));
                    let k = tx@.index_of_fingerprint(fingerprint@);
                    if k < i {
                        assert(tx@.rows[k].fingerprint != tx@.rows[i as int].fingerprint);
                    }
                    if i < k {
                        assert(tx@.rows[i as int].fingerprint != tx@.rows[k].fingerprint);
                    }
                }
                Ok(Some(tx.rows[i].clone()))
            },
            None => {
                proof {
                    assert forall|i: int| 0 <= i < tx@.rows.len() implies (#[trigger] tx@.rows[i]).fingerprint
                        != Some(fingerprint@) by {
                        assert(tx.rows@[i]@.fingerprint != Some(fingerprint@));
                    }
                }
                Ok(None)
            },
        }
    }

    /// Writes the mutable fields of `alert` to the row with its id and
    /// stamps the row with `now`; `NotFound` if there is no such row.
    pub fn alert_update(&self, tx: &mut Transaction, alert: &Alert, now: Timestamp) -> (updated:
        Result<(), DbError>)
        requires
            old(tx)@.wf(),
        ensures
            final(tx)@.wf(),
            updated is Ok <==> old(tx)@.has_id(alert@.id),
            updated is Ok ==> final(tx)@ == old(tx)@.with_updated(alert@, now@),
            updated matches Err(e) ==> e == DbError::NotFound && final(tx)@ == old(tx)@,
    {
        let found = find_by_id(&tx.rows, alert.id);
        let rows_affected: u64 = match found {
            Some(i) => {
                proof {
                    assert(tx@.rows[i as int].id == alert.id);
                    let k = tx@.index_of_id(alert@.id);
                    assert(k == i);
                }
                let before = &tx.rows[i];
                let after = Alert {
                    id: before.id,
                    text: before.text.clone(),
                    resolved: alert.resolved,
                    fingerprint: clone_opt(&before.fingerprint),
                    chart_filename: clone_opt(&alert.chart_filename),
                    slack_channel: clone_opt(&alert.slack_channel),
                    slack_ts: clone_opt(&alert.slack_ts),
                    sloth_slo: clone_opt(&before.sloth_slo),
                    sloth_service: clone_opt(&before.sloth_service),
                    objective_name: clone_opt(&before.objective_name),
                    severity: clone_opt(&before.severity),
                    created_at: before.created_at,
                    updated_at: now,
                };
                tx.rows.set(i, after);
                proof {
                    assert(tx@.rows =~= old(tx)@.with_updated(alert@, now@).rows);
                    lemma_updated_wf(old(tx)@, alert@, now@);
                }
                1
            },
            None => {
                proof {
                    assert forall|i: int| 0 <= i < tx@.rows.len() implies (#[trigger] tx@.rows[i]).id
                        != alert.id by {
                        assert(tx.rows@[i].id != alert.id);
                    }
                }
                0
            },
        };
        check_rows_affected(rows_affected)
    }

    /// Begins a transaction on the rows as they are now.
    pub fn start_transaction(&self) -> (begun: Result<Transaction, DbError>)
        ensures
            begun is Ok,
            begun matches Ok(tx) ==> tx@ == self@,
    {
        Ok(Transaction { rows: clone_rows(&self.rows), next_id: self.next_id })
    }

    /// Makes the work of `tx` the content of the store.
    pub fn commit(&mut self, tx: Transaction) -> (committed: Result<(), DbError>)
        ensures
            committed is Ok,
            final(self)@ == tx@,
    {
        self.rows = tx.rows;
        self.next_id = tx.next_id;
        Ok(())
    }
}

impl Transaction {
    /// Makes the work of this transaction the content of `db`.
    pub fn commit(self, db: &mut Db) -> (committed: Result<(), DbError>)
        ensures
            committed is Ok,
            final(db)@ == self@,
    {
        db.commit(self)
    }
}

spec fn find_by_fingerprint_witness(rows: Seq<Alert>, f: Seq<char>) -> int {
    choose|i: int| 0 <= i < rows.len() && (#[trigger] rows[i])@.fingerprint == Some(f)
}

} // verus!
