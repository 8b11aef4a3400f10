use vstd::prelude::*;

use crate::response::{BodyView, ResponseView, BAD_REQUEST, CREATED, OK};
use crate::service::{step, RequestView};
use crate::table::{lemma_index_of, TableView};
use crate::task::TaskView;

verus! {

/// The table after creating one task for each text, in order.
pub open spec fn after_creates(t: TableView, texts: Seq<Seq<char>>) -> TableView
    decreases texts.len(),
{
    if texts.len() == 0 {
        t
    } else {
        step(after_creates(t, texts.drop_last()), RequestView::Create(texts.last())).0
    }
}

/// Creating a task answers 201 with a task that has exactly the given text,
/// is not completed, and has an id that no row had before; the table then
/// holds that task.
pub proof fn lemma_create_returns_new_task(t: TableView, text: Seq<char>)
    requires
        t.wf(),
        t.can_insert(),
    ensures
        !t.contains(t.next_id),
        ({
            let (t2, r) = step(t, RequestView::Create(text));
            let task = TaskView { id: t.next_id, text, completed: false };
            &&& r == (ResponseView { status: CREATED, body: BodyView::Task(task) })
            &&& t2.wf()
            &&& t2.get(task.id) == Some(task)
        }),
{
    let t2 = t.insert(text);
    assert(t2.wf());
    lemma_index_of(t2, t.rows.len() as int);
}

/// After creating tasks from an empty table, a listing answers 200 with
/// exactly those tasks, in ascending order of id: the i-th has id i + 1, the
/// i-th text, and is not completed.
pub proof fn lemma_list_after_creates(texts: Seq<Seq<char>>)
    requires
        texts.len() <= i32::MAX,
    ensures
        ({
            let t = after_creates(TableView::empty(), texts);
            let r = step(t, RequestView::List).1;
            &&& r.status == OK
            &&& r.body == BodyView::Tasks(t.rows)
            &&& t.rows.len() == texts.len()
            &&& forall|i: int|
                0 <= i < texts.len() ==> #[trigger] t.rows[i] == (TaskView {
                    id: i + 1,
                    text: texts[i],
                    completed: false,
                })
            &&& forall|i: int, j: int| 0 <= i < j < t.rows.len() ==> t.rows[i].id < t.rows[j].id
        }),
{
    lemma_creates_from_empty(texts);
}

proof fn lemma_creates_from_empty(texts: Seq<Seq<char>>)
    requires
        texts.len() <= i32::MAX,
    ensures
        ({
            let t = after_creates(TableView::empty(), texts);
            &&& t.wf()
            &&& t.next_id == texts.len() + 1
            &&& t.rows.len() == texts.len()
            &&& forall|i: int|
                0 <= i < texts.len() ==> #[trigger] t.rows[i] == (TaskView {
                    id: i + 1,
                    text: texts[i],
                    completed: false,
                })
        }),
    decreases texts.len(),
{
    if texts.len() > 0 {
        let prefix = texts.drop_last();
        lemma_creates_from_empty(prefix);
        let t0 = after_creates(TableView::empty(), prefix);
        let t = after_creates(TableView::empty(), texts);
        assert(t0.can_insert());
        assert(t == t0.insert(texts.last()));
        assert forall|i: int| 0 <= i < texts.len() implies #[trigger] t.rows[i] == (TaskView {
            id: i + 1,
            text: texts[i],
            completed: false,
        }) by {
            if i < prefix.len() {
                assert(prefix[i] == texts[i]);
            }
        }
    } else {
        assert(after_creates(TableView::empty(), texts) == TableView::empty());
    }
}

/// Completing a task with `true` makes a later fetch answer 200 with the task
/// completed; completing it again with `false` makes a fetch answer it not
/// completed, and restores the table when the task was not completed before.
pub proof fn lemma_complete_then_get(t: TableView, id: int)
    requires
        t.wf(),
        t.contains(id),
    ensures
        ({
            let row = t.get(id).unwrap();
            let done = step(t, RequestView::Complete(id, true)).0;
            let undone = step(done, RequestView::Complete(id, false)).0;
            &&& step(done, RequestView::Get(id)).1 == (ResponseView {
                status: OK,
                body: BodyView::Task(TaskView { id, text: row.text, completed: true }),
            })
            &&& step(undone, RequestView::Get(id)).1 == (ResponseView {
                status: OK,
                body: BodyView::Task(TaskView { id, text: row.text, completed: false }),
            })
            &&& !row.completed ==> undone == t
        }),
{
    let i = t.index_of(id);
    lemma_index_of(t, i);
    let row = t.rows[i];
    let done = t.set_completed(id, true);
    lemma_index_of(done, i);
    let undone = done.set_completed(id, false);
    lemma_index_of(undone, i);
    if !row.completed {
        assert(undone.rows =~= t.rows);
    }
}

/// After a task is deleted, fetching its id answers 400.
pub proof fn lemma_delete_then_get(t: TableView, id: int)
    requires
        t.wf(),
    ensures
        step(step(t, RequestView::Delete(id)).0, RequestView::Get(id)).1.status == BAD_REQUEST,
{
    let t2 = step(t, RequestView::Delete(id)).0;
    if t2.contains(id) {
        let j = t2.index_of(id);
        let i = t.index_of(id);
        if j < i {
            assert(t2.rows[j] == t.rows[j]);
        } else {
            assert(t2.rows[j] == t.rows[j + 1]);
        }
    }
}

/// Fetching, completing or deleting an id that no task has answers 400 and
/// leaves the table as it was.
pub proof fn lemma_missing_id_fails(t: TableView, req: RequestView)
    requires
        t.wf(),
        match req {
            RequestView::Get(id) => !t.contains(id),
            RequestView::Complete(id, _) => !t.contains(id),
            RequestView::Delete(id) => !t.contains(id),
            _ => false,
        },
    ensures
        step(t, req).1.status == BAD_REQUEST,
        step(t, req).0 == t,
{
}

} // verus!
