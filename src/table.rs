use vstd::prelude::*;

use crate::task::{Task, TaskView};

verus! {

/// The mathematical value of the task table: its rows in ascending order of
/// id, and the id that the next insertion receives.
pub struct TableView {
    pub rows: Seq<TaskView>,
    pub next_id: int,
}

impl TableView {
    /// A table with no rows whose counter has not handed out any id yet.
    pub open spec fn empty() -> TableView {
        TableView { rows: Seq::empty(), next_id: 1 }
    }

    /// Ids are positive, below the counter, and strictly ascending along the
    /// rows (hence unique); the counter fits in an `i32` or is one past it.
    pub open spec fn wf(self) -> bool {
        &&& 1 <= self.next_id <= i32::MAX + 1
        &&& forall|i: int|
            0 <= i < self.rows.len() ==> 1 <= #[trigger] self.rows[i].id < self.next_id
        &&& forall|i: int, j: int|
            0 <= i < j < self.rows.len() ==> #[trigger] self.rows[i].id
                < #[trigger] self.rows[j].id
    }

    pub open spec fn contains(self, id: int) -> bool {
        exists|i: int| 0 <= i < self.rows.len() && #[trigger] self.rows[i].id == id
    }

    pub open spec fn index_of(self, id: int) -> int
        recommends
            self.contains(id),
    {
        choose|i: int| 0 <= i < self.rows.len() && #[trigger] self.rows[i].id == id
    }

    /// The row with the given id, if there is one.
    pub open spec fn get(self, id: int) -> Option<TaskView> {
        if self.contains(id) {
            Some(self.rows[self.index_of(id)])
        } else {
            None
        }
    }

    /// The counter has not run past the largest `i32`.
    pub open spec fn can_insert(self) -> bool {
        self.next_id <= i32::MAX
    }

    /// The table after inserting a task with the given text.
    pub open spec fn insert(self, text: Seq<char>) -> TableView {
        TableView {
            rows: self.rows.push(TaskView { id: self.next_id, text, completed: false }),
            next_id: self.next_id + 1,
        }
    }

    /// The table after setting the completion flag of the row with the given
    /// id; unchanged when there is no such row.
    pub open spec fn set_completed(self, id: int, completed: bool) -> TableView {
        if self.contains(id) {
            let i = self.index_of(id);
            let row = self.rows[i];
            TableView {
                rows: self.rows.update(i, TaskView { id: row.id, text: row.text, completed }),
                next_id: self.next_id,
            }
        } else {
            self
        }
    }

    /// The table after deleting the row with the given id; unchanged when
    /// there is no such row.
    pub open spec fn remove(self, id: int) -> TableView {
        if self.contains(id) {
            TableView { rows: self.rows.remove(self.index_of(id)), next_id: self.next_id }
        } else {
            self
        }
    }
}

/// In a well-formed table the row at index `i` is the one that its id finds.
pub proof fn lemma_index_of(t: TableView, i: int)
    requires
        t.wf(),
        0 <= i < t.rows.len(),
    ensures
        t.contains(t.rows[i].id),
        t.index_of(t.rows[i].id) == i,
        t.get(t.rows[i].id) == Some(t.rows[i]),
{
    let id = t.rows[i].id;
    assert(t.contains(id));
    let j = t.index_of(id);
    if j < i {
        assert(t.rows[j].id < t.rows[i].id);
    } else if i < j {
        assert(t.rows[i].id < t.rows[j].id);
    }
}

/// Why the table refused an operation.
pub enum StoreError {
    /// No row has the requested id.
    RowNotFound,
    /// The id counter has handed out every positive `i32`.
    IdsExhausted,
}

impl StoreError {
    pub open spec fn message_spec(&self) -> Seq<char> {
        match self {
            StoreError::RowNotFound => "no rows returned by a query that expected to return at least one row"@,
            StoreError::IdsExhausted => "error returned from database: nextval: reached maximum value of sequence \"tasks_id_seq\" (2147483647)"@,
        }
    }

    /// The text that a client receives for this error.
    pub fn message(&self) -> (r: String)
        ensures
            r@ == self.message_spec(),
    {
        match self {
            StoreError::RowNotFound => {
                let s = "no rows returned by a query that expected to return at least one row";
                proof {
                    reveal_strlit("no rows returned by a query that expected to return at least one row");
                }
                s.to_owned()
            },
            StoreError::IdsExhausted => {
                let s = "error returned from database: nextval: reached maximum value of sequence \"tasks_id_seq\" (2147483647)";
                proof {
                    reveal_strlit("error returned from database: nextval: reached maximum value of sequence \"tasks_id_seq\" (2147483647)");
                }
                s.to_owned()
            },
        }
    }
}

/// The task table: rows kept in ascending order of id, and a serial counter
/// that hands each inserted row the next id.
pub struct TaskTable {
    rows: Vec<Task>,
    next_id: i64,
}

impl View for TaskTable {
    type V = TableView;

    closed spec fn view(&self) -> TableView {
        TableView { rows: self.rows@.map_values(|t: Task| t@), next_id: self.next_id as int }
    }
}

impl TaskTable {
    /// An empty table whose first inserted row gets id 1.
    pub fn new() -> (r: TaskTable)
        ensures
            r@ == TableView::empty(),
            r@.wf(),
    {
        let r = TaskTable { rows: Vec::new(), next_id: 1 };
        assert(r@.rows =~= Seq::<TaskView>::empty());
        r
    }

    /// The index of the row with the given id.
    fn find(&self, id: i32) -> (r: Option<usize>)
        requires
            self@.wf(),
        ensures
            r is None ==> !self@.contains(id as int),
            r matches Some(i) ==> i < self@.rows.len() && i == self@.index_of(id as int)
                && self@.contains(id as int),
    {
        let mut i: usize = 0;
        while i < self.rows.len()
            invariant
                self@.wf(),
                i <= self.rows.len(),
                forall|k: int| 0 <= k < i ==> #[trigger] self@.rows[k].id != id as int,
            decreases self.rows.len() - i,
        {
            if self.rows[i].id == id {
                proof {
                    lemma_index_of(self@, i as int);
                }
                return Some(i);
            }
            i = i + 1;
        }
        None
    }

    /// Every row, in ascending order of id.
    pub fn list(&self) -> (r: Vec<Task>)
        requires
            self@.wf(),
        ensures
            r@.map_values(|t: Task| t@) == self@.rows,
    {
        let mut out: Vec<Task> = Vec::new();
        let mut i: usize = 0;
        while i < self.rows.len()
            invariant
                i <= self.rows.len(),
                out@.len() == i,
                forall|k: int| 0 <= k < i ==> #[trigger] out@[k]@ == self@.rows[k],
            decreases self.rows.len() - i,
        {
            out.push(self.rows[i].duplicate());
            i = i + 1;
        }
        assert(out@.map_values(|t: Task| t@) =~= self@.rows);
        out
    }

    /// The row with the given id.
    pub fn get(&self, id: i32) -> (r: Result<Task, StoreError>)
        requires
            self@.wf(),
        ensures
            r is Ok <==> self@.contains(id as int),
            r matches Ok(t) ==> self@.get(id as int) == Some(t@),
            r matches Err(e) ==> e == StoreError::RowNotFound,
    {
        match self.find(id) {
            Some(i) => Ok(self.rows[i].duplicate()),
            None => Err(StoreError::RowNotFound),
        }
    }

    /// Inserts a row with the given text, not completed, under the next id,
    /// and returns it.
    pub fn insert(&mut self, text: String) -> (r: Result<Task, StoreError>)
        requires
            old(self)@.wf(),
        ensures
            final(self)@.wf(),
            r is Ok <==> old(self)@.can_insert(),
            r matches Ok(t) ==> t@ == (TaskView { id: old(self)@.next_id, text: text@, completed: false })
                && final(self)@ == old(self)@.insert(text@),
            r matches Err(e) ==> e == StoreError::IdsExhausted && final(self)@ == old(self)@,
    {
        if self.next_id > 2147483647 {
            return Err(StoreError::IdsExhausted);
        }
        let t = Task { id: self.next_id as i32, text, completed: false };
        let r = t.duplicate();
        self.rows.push(t);
        self.next_id = self.next_id + 1;
        assert(self@.rows =~= old(self)@.insert(text@).rows);
        Ok(r)
    }

    /// Sets the completion flag of the row with the given id and returns the
    /// updated row.
    pub fn set_completed(&mut self, id: i32, completed: bool) -> (r: Result<Task, StoreError>)
        requires
            old(self)@.wf(),
        ensures
            final(self)@.wf(),
            final(self)@ == old(self)@.set_completed(id as int, completed),
            r is Ok <==> old(self)@.contains(id as int),
            r matches Ok(t) ==> final(self)@.get(id as int) == Some(t@),
            r matches Err(e) ==> e == StoreError::RowNotFound,
    {
        match self.find(id) {
            Some(i) => {
                let mut t = self.rows[i].duplicate();
                t.completed = completed;
                let r = t.duplicate();
                self.rows.set(i, t);
                assert(self@.rows =~= old(self)@.set_completed(id as int, completed).rows);
                proof {
                    lemma_index_of(self@, i as int);
                }
                Ok(r)
            },
            None => Err(StoreError::RowNotFound),
        }
    }

    /// Deletes the row with the given id and returns it as it was.
    pub fn remove(&mut self, id: i32) -> (r: Result<Task, StoreError>)
        requires
            old(self)@.wf(),
        ensures
            final(self)@.wf(),
            final(self)@ == old(self)@.remove(id as int),
            r is Ok <==> old(self)@.contains(id as int),
            r matches Ok(t) ==> old(self)@.get(id as int) == Some(t@),
            r matches Err(e) ==> e == StoreError::RowNotFound,
    {
        match self.find(id) {
            Some(i) => {
                let t = self.rows.remove(i);
                assert(self@.rows =~= old(self)@.remove(id as int).rows);
                Ok(t)
            },
            None => Err(StoreError::RowNotFound),
        }
    }
}

} // verus!
