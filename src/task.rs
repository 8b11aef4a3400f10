use vstd::prelude::*;

verus! {

/// The mathematical value of a task.
pub struct TaskView {
    pub id: int,
    pub text: Seq<char>,
    pub completed: bool,
}

/// A task as the table stores it and as responses carry it.
pub struct Task {
    pub id: i32,
    pub text: String,
    pub completed: bool,
}

impl View for Task {
    type V = TaskView;

    open spec fn view(&self) -> TaskView {
        TaskView { id: self.id as int, text: self.text@, completed: self.completed }
    }
}

impl Task {
    /// A task with the same id, text and completion flag.
    pub fn duplicate(&self) -> (r: Task)
        ensures
            r@ == self@,
    {
        Task { id: self.id, text: self.text.clone(), completed: self.completed }
    }
}

/// The body of a request that creates a task.
pub struct TaskNew {
    pub text: String,
}

/// The body of a request that sets a task's completion flag.
pub struct TaskComplete {
    pub completed: bool,
}

} // verus!
