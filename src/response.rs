use vstd::prelude::*;

use crate::task::{Task, TaskView};

verus! {

/// Status of a successful read or update.
pub const OK: u16 = 200;

/// Status of a successful creation.
pub const CREATED: u16 = 201;

/// Status of every failure, whatever its cause.
pub const BAD_REQUEST: u16 = 400;

/// What a response carries.
pub enum Body {
    /// One task.
    Task(Task),
    /// Several tasks, in ascending order of id.
    Tasks(Vec<Task>),
    /// The text of the error that made the request fail.
    Message(String),
}

pub enum BodyView {
    Task(TaskView),
    Tasks(Seq<TaskView>),
    Message(Seq<char>),
}

impl View for Body {
    type V = BodyView;

    open spec fn view(&self) -> BodyView {
        match self {
            Body::Task(t) => BodyView::Task(t@),
            Body::Tasks(ts) => BodyView::Tasks(ts@.map_values(|t: Task| t@)),
            Body::Message(m) => BodyView::Message(m@),
        }
    }
}

/// An HTTP status and the body that goes with it.
pub struct Response {
    pub status: u16,
    pub body: Body,
}

pub struct ResponseView {
    pub status: u16,
    pub body: BodyView,
}

impl View for Response {
    type V = ResponseView;

    open spec fn view(&self) -> ResponseView {
        ResponseView { status: self.status, body: self.body@ }
    }
}

/// The response to an operation on one task: the task under `success` when
/// the store returned it, else 400 with the store's error text.
pub fn respond_task(success: u16, outcome: Result<Task, String>) -> (r: Response)
    ensures
        outcome matches Ok(t) ==> r@ == (ResponseView { status: success, body: BodyView::Task(t@) }),
        outcome matches Err(m) ==> r@ == (ResponseView {
            status: BAD_REQUEST,
            body: BodyView::Message(m@),
        }),
{
    match outcome {
        Ok(t) => Response { status: success, body: Body::Task(t) },
        Err(m) => Response { status: BAD_REQUEST, body: Body::Message(m) },
    }
}

/// The response to a listing: 200 with the tasks when the store returned
/// them, else 400 with the store's error text.
pub fn respond_list(outcome: Result<Vec<Task>, String>) -> (r: Response)
    ensures
        outcome matches Ok(ts) ==> r@ == (ResponseView {
            status: OK,
            body: BodyView::Tasks(ts@.map_values(|t: Task| t@)),
        }),
        outcome matches Err(m) ==> r@ == (ResponseView {
            status: BAD_REQUEST,
            body: BodyView::Message(m@),
        }),
{
    match outcome {
        Ok(ts) => Response { status: OK, body: Body::Tasks(ts) },
        Err(m) => Response { status: BAD_REQUEST, body: Body::Message(m) },
    }
}

} // verus!
