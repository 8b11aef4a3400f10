use vstd::prelude::*;

use crate::response::{
    respond_list, respond_task, BodyView, Response, ResponseView, BAD_REQUEST, CREATED, OK,
};
use crate::table::{StoreError, TableView, TaskTable};
use crate::task::{Task, TaskComplete, TaskNew, TaskView};

verus! {

/// A request, with its path id and body already read.
pub enum Request {
    /// Every task.
    List,
    /// The task with the given id.
    Get { id: i32 },
    /// A new task.
    Create { body: TaskNew },
    /// Set the completion flag of the task with the given id.
    Complete { id: i32, body: TaskComplete },
    /// Delete the task with the given id.
    Delete { id: i32 },
}

pub enum RequestView {
    List,
    Get(int),
    Create(Seq<char>),
    Complete(int, bool),
    Delete(int),
}

impl View for Request {
    type V = RequestView;

    open spec fn view(&self) -> RequestView {
        match self {
            Request::List => RequestView::List,
            Request::Get { id } => RequestView::Get(*id as int),
            Request::Create { body } => RequestView::Create(body.text@),
            Request::Complete { id, body } => RequestView::Complete(*id as int, body.completed),
            Request::Delete { id } => RequestView::Delete(*id as int),
        }
    }
}

/// The status that a request receives when it succeeds.
pub open spec fn success_status(req: RequestView) -> u16 {
    match req {
        RequestView::Create(_) => CREATED,
        _ => OK,
    }
}

/// The client error that carries a store error's text.
pub open spec fn failure(e: StoreError) -> ResponseView {
    ResponseView { status: BAD_REQUEST, body: BodyView::Message(e.message_spec()) }
}

/// The table after a request, and the response to it.
pub open spec fn step(t: TableView, req: RequestView) -> (TableView, ResponseView) {
    match req {
        RequestView::List => (t, ResponseView { status: OK, body: BodyView::Tasks(t.rows) }),
        RequestView::Get(id) => match t.get(id) {
            Some(row) => (t, ResponseView { status: OK, body: BodyView::Task(row) }),
            None => (t, failure(StoreError::RowNotFound)),
        },
        RequestView::Create(text) => if t.can_insert() {
            (
                t.insert(text),
                ResponseView {
                    status: CREATED,
                    body: BodyView::Task(TaskView { id: t.next_id, text, completed: false }),
                },
            )
        } else {
            (t, failure(StoreError::IdsExhausted))
        },
        RequestView::Complete(id, completed) => if t.contains(id) {
            let t2 = t.set_completed(id, completed);
            (t2, ResponseView { status: OK, body: BodyView::Task(t2.get(id).unwrap()) })
        } else {
            (t, failure(StoreError::RowNotFound))
        },
        RequestView::Delete(id) => if t.contains(id) {
            (t.remove(id), ResponseView { status: OK, body: BodyView::Task(t.get(id).unwrap()) })
        } else {
            (t, failure(StoreError::RowNotFound))
        },
    }
}

/// A store result with its error turned into the error's text.
fn with_message(outcome: Result<Task, StoreError>) -> (r: Result<Task, String>)
    ensures
        outcome matches Ok(t) ==> r matches Ok(u) && u@ == t@,
        outcome matches Err(e) ==> r matches Err(m) && m@ == e.message_spec(),
{
    match outcome {
        Ok(t) => Ok(t),
        Err(e) => Err(e.message()),
    }
}

/// The task list service: a task table and the requests that act on it.
pub struct TaskService {
    table: TaskTable,
}

impl View for TaskService {
    type V = TableView;

    closed spec fn view(&self) -> TableView {
        self.table@
    }
}

impl TaskService {
    /// A service over an empty table.
    pub fn new() -> (r: TaskService)
        ensures
            r@ == TableView::empty(),
            r@.wf(),
    {
        TaskService { table: TaskTable::new() }
    }

    /// The status that the request receives when it succeeds.
    pub fn success_status(req: &Request) -> (r: u16)
        ensures
            r == success_status(req@),
    {
        match req {
            Request::Create { .. } => CREATED,
            _ => OK,
        }
    }

    /// Serves one request: the table changes and the response is as `step`
    /// gives them.
    pub fn handle(&mut self, req: Request) -> (r: Response)
        requires
            old(self)@.wf(),
        ensures
            final(self)@.wf(),
            (final(self)@, r@) == step(old(self)@, req@),
    {
        let success = TaskService::success_status(&req);
        match req {
            Request::List => {
                let ts = self.table.list();
                respond_list(Ok(ts))
            },
            Request::Get { id } => {
                let outcome = self.table.get(id);
                respond_task(success, with_message(outcome))
            },
            Request::Create { body } => {
                let outcome = self.table.insert(body.text);
                respond_task(success, with_message(outcome))
            },
            Request::Complete { id, body } => {
                let outcome = self.table.set_completed(id, body.completed);
                respond_task(success, with_message(outcome))
            },
            Request::Delete { id } => {
                let outcome = self.table.remove(id);
                respond_task(success, with_message(outcome))
            },
        }
    }
}

} // verus!
