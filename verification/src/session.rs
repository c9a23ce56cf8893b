//! The session store: one row for each login, keyed by its session id.

use vstd::prelude::*;

use crate::database::{SessionView, UserSessions};

verus! {

/// Why the store did not do what it was asked.
#[derive(Debug)]
pub enum StoreError {
    /// No row has the session id.
    NotFound,
    /// A row has the session id already, or holds another refresh token than the caller
    /// expected.
    Conflict,
    /// The store could not be reached.
    Unavailable { cause: String },
}

/// What an insertion that leaves a taken session id alone has done, by the number of rows
/// it wrote: one row is a new session, none is a conflict.
pub fn created(rows_written: u64) -> (r: Result<(), StoreError>)
    ensures
        match r {
            Ok(_) => rows_written == 1,
            Err(e) => e is Conflict && rows_written != 1,
        },
{
    if rows_written == 1 {
        Ok(())
    } else {
        Err(StoreError::Conflict)
    }
}

/// What an update of the expected refresh token has done, by the number of rows it wrote
/// and by whether the session has a row at all: one row is the swap; none is a conflict
/// where the session is there, and a session not found where it is not.
pub fn swapped(rows_written: u64, session_exists: bool) -> (r: Result<(), StoreError>)
    ensures
        match r {
            Ok(_) => rows_written == 1,
            Err(e) => rows_written != 1 && if session_exists {
                e is Conflict
            } else {
                e is NotFound
            },
        },
{
    if rows_written == 1 {
        Ok(())
    } else if session_exists {
        Err(StoreError::Conflict)
    } else {
        Err(StoreError::NotFound)
    }
}

/// Row `i` is the one with the given id.
pub open spec fn row_at(rows: Seq<UserSessions>, id: Seq<char>, i: int) -> bool {
    0 <= i < rows.len() && rows[i].id() == id
}

/// No two rows share an id.
pub open spec fn distinct_ids(rows: Seq<UserSessions>) -> bool {
    forall|i: int, j: int| 0 <= i < j < rows.len() ==> rows[i].id() != rows[j].id()
}

/// The table that the rows make up: from each id to the rest of its row.
pub open spec fn table_of(rows: Seq<UserSessions>) -> Map<Seq<char>, SessionView> {
    Map::new(
        |id: Seq<char>| exists|i: int| row_at(rows, id, i),
        |id: Seq<char>| rows[choose|i: int| row_at(rows, id, i)].content(),
    )
}

proof fn lemma_row_in_table(rows: Seq<UserSessions>, i: int)
    requires
        distinct_ids(rows),
        0 <= i < rows.len(),
    ensures
        table_of(rows).dom().contains(rows[i].id()),
        table_of(rows)[rows[i].id()] == rows[i].content(),
{
    let id = rows[i].id();
    assert(row_at(rows, id, i));
    let j = choose|j: int| row_at(rows, id, j);
    assert(row_at(rows, id, j));
    if i < j {
        assert(rows[i].id() != rows[j].id());
    }
    if j < i {
        assert(rows[j].id() != rows[i].id());
    }
}

proof fn lemma_table_after_push(rows: Seq<UserSessions>, row: UserSessions)
    requires
        distinct_ids(rows),
        forall|i: int| 0 <= i < rows.len() ==> rows[i].id() != row.id(),
    ensures
        distinct_ids(rows.push(row)),
        table_of(rows.push(row)) == table_of(rows).insert(row.id(), row.content()),
{
    let after = rows.push(row);
    assert(distinct_ids(after));
    assert forall|id: Seq<char>|
        table_of(after).dom().contains(id) <==> #[trigger] table_of(rows).insert(
            row.id(),
            row.content(),
        ).dom().contains(id) by {
        if table_of(after).dom().contains(id) {
            let i = choose|i: int| row_at(after, id, i);
            if i < rows.len() {
                assert(row_at(rows, id, i));
            }
        }
        if table_of(rows).dom().contains(id) {
            let i = choose|i: int| row_at(rows, id, i);
            assert(row_at(after, id, i));
        }
        if id == row.id() {
            assert(row_at(after, id, rows.len() as int));
        }
    }
    assert forall|id: Seq<char>| table_of(after).dom().contains(id) implies #[trigger] table_of(
        after,
    )[id] == table_of(rows).insert(row.id(), row.content())[id] by {
        let i = choose|i: int| row_at(after, id, i);
        lemma_row_in_table(after, i);
        if i < rows.len() {
            lemma_row_in_table(rows, i);
        }
    }
    assert(table_of(after) =~= table_of(rows).insert(row.id(), row.content()));
}

proof fn lemma_table_after_update(rows: Seq<UserSessions>, at: int, row: UserSessions)
    requires
        distinct_ids(rows),
        0 <= at < rows.len(),
        rows[at].id() == row.id(),
    ensures
        distinct_ids(rows.update(at, row)),
        table_of(rows.update(at, row)) == table_of(rows).insert(row.id(), row.content()),
{
    let after = rows.update(at, row);
    assert forall|i: int, j: int| 0 <= i < j < after.len() implies after[i].id()
        != after[j].id() by {
        assert(rows[i].id() != rows[j].id());
    }
    assert forall|id: Seq<char>|
        table_of(after).dom().contains(id) <==> #[trigger] table_of(rows).insert(
            row.id(),
            row.content(),
        ).dom().contains(id) by {
        if table_of(after).dom().contains(id) {
            let i = choose|i: int| row_at(after, id, i);
            assert(row_at(rows, id, i));
        }
        if table_of(rows).dom().contains(id) {
            let i = choose|i: int| row_at(rows, id, i);
            assert(row_at(after, id, i));
        }
        if id == row.id() {
            assert(row_at(after, id, at));
        }
    }
    assert forall|id: Seq<char>| table_of(after).dom().contains(id) implies #[trigger] table_of(
        after,
    )[id] == table_of(rows).insert(row.id(), row.content())[id] by {
        let i = choose|i: int| row_at(after, id, i);
        lemma_row_in_table(after, i);
        lemma_row_in_table(rows, i);
    }
    assert(table_of(after) =~= table_of(rows).insert(row.id(), row.content()));
}

proof fn lemma_table_after_remove(rows: Seq<UserSessions>, at: int)
    requires
        distinct_ids(rows),
        0 <= at < rows.len(),
    ensures
        distinct_ids(rows.remove(at)),
        table_of(rows.remove(at)) == table_of(rows).remove(rows[at].id()),
{
    let after = rows.remove(at);
    let gone = rows[at].id();
    assert forall|i: int| 0 <= i < after.len() implies after[i] == rows[if i < at {
        i
    } else {
        i + 1
    }] by {}
    assert forall|i: int, j: int| 0 <= i < j < after.len() implies after[i].id()
        != after[j].id() by {
        let a = if i < at { i } else { i + 1 };
        let b = if j < at { j } else { j + 1 };
        assert(rows[a].id() != rows[b].id());
    }
    assert forall|id: Seq<char>|
        table_of(after).dom().contains(id) <==> #[trigger] table_of(rows).remove(
            gone,
        ).dom().contains(id) by {
        if table_of(after).dom().contains(id) {
            let i = choose|i: int| row_at(after, id, i);
            let a = if i < at { i } else { i + 1 };
            assert(row_at(rows, id, a));
            if a < at {
                assert(rows[a].id() != rows[at].id());
            } else {
                assert(rows[at].id() != rows[a].id());
            }
        }
        if table_of(rows).dom().contains(id) && id != gone {
            let i = choose|i: int| row_at(rows, id, i);
            let a = if i < at { i } else { i - 1 };
            assert(row_at(after, id, a));
        }
    }
    assert forall|id: Seq<char>| table_of(after).dom().contains(id) implies #[trigger] table_of(
        after,
    )[id] == table_of(rows).remove(gone)[id] by {
        let i = choose|i: int| row_at(after, id, i);
        let a = if i < at { i } else { i + 1 };
        lemma_row_in_table(after, i);
        lemma_row_in_table(rows, a);
    }
    assert(table_of(after) =~= table_of(rows).remove(gone));
}

/// The sessions that are alive, held in memory: at most one row for each session id.
#[derive(Debug)]
pub struct SessionStore {
    rows: Vec<UserSessions>,
}

impl View for SessionStore {
    type V = Map<Seq<char>, SessionView>;

    closed spec fn view(&self) -> Map<Seq<char>, SessionView> {
        table_of(self.rows@)
    }
}

impl SessionStore {
    /// The store holds at most one row for each session id.
    pub closed spec fn wf(&self) -> bool {
        distinct_ids(self.rows@)
    }

    /// A store without rows.
    pub fn new() -> (r: SessionStore)
        ensures
            r.wf(),
            r@ == Map::<Seq<char>, SessionView>::empty(),
    {
        let r = SessionStore { rows: Vec::new() };
        assert(r@ =~= Map::<Seq<char>, SessionView>::empty());
        r
    }

    /// The number of rows.
    pub fn len(&self) -> (r: usize)
        requires
            self.wf(),
        ensures
            r == self@.dom().len(),
            self@.dom().finite(),
    {
        proof {
            lemma_table_size(self.rows@);
        }
        self.rows.len()
    }

    fn position(&self, session_id: &String) -> (r: Option<usize>)
        requires
            self.wf(),
        ensures
            match r {
                Some(i) => row_at(self.rows@, session_id@, i as int) && self@.dom().contains(
                    session_id@,
                ) && self@[session_id@] == self.rows@[i as int].content(),
                None => !self@.dom().contains(session_id@) && forall|i: int|
                    0 <= i < self.rows@.len() ==> self.rows@[i].id() != session_id@,
            },
    {
        let mut i: usize = 0;
        while i < self.rows.len()
            invariant
                self.wf(),
                i <= self.rows.len(),
                forall|k: int| 0 <= k < i ==> self.rows@[k].id() != session_id@,
            decreases self.rows.len() - i,
        {
            if self.rows[i].user_session_id == *session_id {
                proof {
                    lemma_row_in_table(self.rows@, i as int);
                }
                return Some(i);
            }
            i += 1;
        }
        assert(!self@.dom().contains(session_id@)) by {
            if self@.dom().contains(session_id@) {
                let k = choose|k: int| row_at(self.rows@, session_id@, k);
                assert(row_at(self.rows@, session_id@, k));
            }
        }
        None
    }

    /// Whether a row has the session id.
    pub fn contains(&self, session_id: &str) -> (r: bool)
        requires
            self.wf(),
        ensures
            r == self@.dom().contains(session_id@),
    {
        self.position(&session_id.to_owned()).is_some()
    }

    /// Inserts the row of a new login. A session id that is taken already is refused, and the
    /// row that has it stays as it is.
    pub fn create(&mut self, session_id: String, user_id: String, refresh_token: String) -> (r:
        Result<(), StoreError>)
        requires
            old(self).wf(),
        ensures
            final(self).wf(),
            match r {
                Ok(_) => !old(self)@.dom().contains(session_id@) && final(self)@ == old(
                    self,
                )@.insert(
                    session_id@,
                    SessionView { user_id: user_id@, refresh_token: refresh_token@ },
                ),
                Err(e) => e is Conflict && old(self)@.dom().contains(session_id@) && final(self)@
                    == old(self)@,
            },
    {
        match self.position(&session_id) {
            Some(_) => Err(StoreError::Conflict),
            None => {
                let row = UserSessions {
                    user_session_id: session_id,
                    user_session_user_id: user_id,
                    user_session_refresh_token: refresh_token,
                };
                proof {
                    lemma_table_after_push(self.rows@, row);
                }
                self.rows.push(row);
                Ok(())
            },
        }
    }

    /// The row with the session id.
    pub fn fetch(&self, session_id: &str) -> (r: Result<UserSessions, StoreError>)
        requires
            self.wf(),
        ensures
            match r {
                Ok(row) => self@.dom().contains(session_id@) && row.id() == session_id@
                    && row.content() == self@[session_id@],
                Err(e) => e is NotFound && !self@.dom().contains(session_id@),
            },
    {
        match self.position(&session_id.to_owned()) {
            Some(i) => Ok(self.rows[i].duplicate()),
            None => Err(StoreError::NotFound),
        }
    }

    /// Overwrites the refresh token of a session, whatever it was.
    pub fn replace_refresh_token(&mut self, session_id: &str, new_token: String) -> (r: Result<
        (),
        StoreError,
    >)
        requires
            old(self).wf(),
        ensures
            final(self).wf(),
            match r {
                Ok(_) => old(self)@.dom().contains(session_id@) && final(self)@ == old(
                    self,
                )@.insert(
                    session_id@,
                    SessionView {
                        user_id: old(self)@[session_id@].user_id,
                        refresh_token: new_token@,
                    },
                ),
                Err(e) => e is NotFound && !old(self)@.dom().contains(session_id@) && final(self)@
                    == old(self)@,
            },
    {
        match self.position(&session_id.to_owned()) {
            Some(i) => {
                let row = UserSessions {
                    user_session_id: self.rows[i].user_session_id.clone(),
                    user_session_user_id: self.rows[i].user_session_user_id.clone(),
                    user_session_refresh_token: new_token,
                };
                proof {
                    lemma_table_after_update(self.rows@, i as int, row);
                }
                self.rows.set(i, row);
                Ok(())
            },
            None => Err(StoreError::NotFound),
        }
    }

    /// Overwrites the refresh token of a session if it is still the one the caller read:
    /// compare and swap, in one step. Of two callers that read the same token and then both
    /// come to replace it, the second finds another token in the row and is refused.
    pub fn swap_refresh_token(&mut self, session_id: &str, expected: &str, new_token: String) -> (r:
        Result<(), StoreError>)
        requires
            old(self).wf(),
        ensures
            final(self).wf(),
            spec_swap(old(self)@, session_id@, expected@, new_token@) == (
                final(self)@,
                spec_outcome(r),
            ),
    {
        match self.position(&session_id.to_owned()) {
            Some(i) => {
                if self.rows[i].user_session_refresh_token != expected.to_owned() {
                    return Err(StoreError::Conflict);
                }
                let row = UserSessions {
                    user_session_id: self.rows[i].user_session_id.clone(),
                    user_session_user_id: self.rows[i].user_session_user_id.clone(),
                    user_session_refresh_token: new_token,
                };
                proof {
                    lemma_table_after_update(self.rows@, i as int, row);
                }
                self.rows.set(i, row);
                Ok(())
            },
            None => Err(StoreError::NotFound),
        }
    }

    /// Removes the rows with the given session ids. An id without a row is passed over.
    pub fn delete(&mut self, session_ids: &Vec<String>) -> (r: Result<(), StoreError>)
        requires
            old(self).wf(),
        ensures
            final(self).wf(),
            r is Ok,
            final(self)@ == spec_delete(old(self)@, ids_view(session_ids@)),
    {
        let mut k: usize = 0;
        assert(self@ =~= spec_delete(old(self)@, ids_view(session_ids@).take(0)));
        while k < session_ids.len()
            invariant
                k <= session_ids.len(),
                self.wf(),
                self@ == spec_delete(old(self)@, ids_view(session_ids@).take(k as int)),
            decreases session_ids.len() - k,
        {
            let ghost before = self@;
            match self.position(&session_ids[k]) {
                Some(i) => {
                    proof {
                        lemma_table_after_remove(self.rows@, i as int);
                    }
                    self.rows.remove(i);
                },
                None => {
                    assert(before.remove(session_ids@[k as int]@) =~= before);
                },
            }
            proof {
                let ids = ids_view(session_ids@);
                assert(ids[k as int] == session_ids@[k as int]@);
                assert(ids.take(k + 1) =~= ids.take(k as int).push(ids[k as int]));
                assert(self@ == before.remove(ids[k as int]));
                lemma_delete_one_more(old(self)@, ids.take(k as int), ids[k as int]);
            }
            k += 1;
        }
        assert(ids_view(session_ids@).take(k as int) =~= ids_view(session_ids@));
        Ok(())
    }
}

/// The given session ids as plain values.
pub open spec fn ids_view(ids: Seq<String>) -> Seq<Seq<char>> {
    ids.map_values(|id: String| id@)
}

/// The table without the rows of the given session ids.
pub open spec fn spec_delete(table: Map<Seq<char>, SessionView>, ids: Seq<Seq<char>>) -> Map<
    Seq<char>,
    SessionView,
> {
    table.remove_keys(ids.to_set())
}

/// How a store operation ended, without the words of a failure.
#[derive(Clone, Copy, Debug, PartialEq, Eq, Structural)]
pub enum StoreOutcome {
    Done,
    NotFound,
    Conflict,
    Unavailable,
}

/// How an operation that hands nothing back ended.
pub open spec fn spec_outcome(result: Result<(), StoreError>) -> StoreOutcome {
    match result {
        Ok(_) => StoreOutcome::Done,
        Err(StoreError::NotFound) => StoreOutcome::NotFound,
        Err(StoreError::Conflict) => StoreOutcome::Conflict,
        Err(StoreError::Unavailable { .. }) => StoreOutcome::Unavailable,
    }
}

/// Compare and swap on the table: the row's refresh token is replaced where the row exists
/// and holds the expected token, and nothing changes otherwise.
pub open spec fn spec_swap(
    table: Map<Seq<char>, SessionView>,
    session_id: Seq<char>,
    expected: Seq<char>,
    new_token: Seq<char>,
) -> (Map<Seq<char>, SessionView>, StoreOutcome) {
    if !table.dom().contains(session_id) {
        (table, StoreOutcome::NotFound)
    } else if table[session_id].refresh_token != expected {
        (table, StoreOutcome::Conflict)
    } else {
        (
            table.insert(
                session_id,
                SessionView { user_id: table[session_id].user_id, refresh_token: new_token },
            ),
            StoreOutcome::Done,
        )
    }
}

/// Deleting one more id is removing its row from what the others left.
pub proof fn lemma_delete_one_more(
    table: Map<Seq<char>, SessionView>,
    ids: Seq<Seq<char>>,
    id: Seq<char>,
)
    ensures
        spec_delete(table, ids.push(id)) == spec_delete(table, ids).remove(id),
{
    assert forall|x: Seq<char>| ids.push(id).to_set().contains(x) <==> ids.to_set().insert(
        id,
    ).contains(x) by {
        if ids.push(id).to_set().contains(x) {
            let i = choose|i: int| 0 <= i < ids.push(id).len() && ids.push(id)[i] == x;
            if i < ids.len() {
                assert(ids[i] == x);
            }
        }
        if ids.to_set().contains(x) {
            let i = choose|i: int| 0 <= i < ids.len() && ids[i] == x;
            assert(ids.push(id)[i] == x);
        }
        if x == id {
            assert(ids.push(id)[ids.len() as int] == x);
        }
    }
    assert(ids.push(id).to_set() =~= ids.to_set().insert(id));
    assert(spec_delete(table, ids.push(id)) =~= spec_delete(table, ids).remove(id));
}

proof fn lemma_table_size(rows: Seq<UserSessions>)
    requires
        distinct_ids(rows),
    ensures
        table_of(rows).dom().finite(),
        table_of(rows).dom().len() == rows.len(),
    decreases rows.len(),
{
    if rows.len() == 0 {
        assert(table_of(rows).dom() =~= Set::<Seq<char>>::empty());
    } else {
        let front = rows.drop_last();
        let last = rows.last();
        assert forall|i: int, j: int| 0 <= i < j < front.len() implies front[i].id()
            != front[j].id() by {
            assert(rows[i].id() != rows[j].id());
        }
        lemma_table_size(front);
        assert forall|i: int| 0 <= i < front.len() implies front[i].id() != last.id() by {
            assert(rows[i].id() != rows[rows.len() - 1].id());
        }
        lemma_table_after_push(front, last);
        assert(front.push(last) =~= rows);
        assert(!table_of(front).dom().contains(last.id())) by {
            if table_of(front).dom().contains(last.id()) {
                let i = choose|i: int| row_at(front, last.id(), i);
                assert(row_at(front, last.id(), i));
            }
        }
        assert(table_of(rows).dom() =~= table_of(front).dom().insert(last.id()));
    }
}

} // verus!
