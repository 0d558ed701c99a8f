use vstd::prelude::*;
use vstd::string::*;

use crate::clock::now_unix_seconds;
use crate::error::Error;
use crate::task::{
    apply_patch, is_empty_patch, status_or_open, PatchView, Task, TaskPatch, TaskStatus, TaskView,
};

verus! {

/// The contents of a task store: its rows in insertion order and the id that the
/// next insertion receives.
pub ghost struct StoreView {
    pub rows: Seq<TaskView>,
    pub next_id: int,
}

/// A store is well formed when every id lies in `1 .. next_id` and ids grow
/// strictly along the rows, so that no id occurs twice.
pub open spec fn store_wf(s: StoreView) -> bool {
    &&& 1 <= s.next_id <= i64::MAX
    &&& forall|i: int| 0 <= i < s.rows.len() ==> 1 <= #[trigger] s.rows[i].id < s.next_id
    &&& forall|i: int, j: int|
        0 <= i < j < s.rows.len() ==> #[trigger] s.rows[i].id < #[trigger] s.rows[j].id
}

/// The row with id `id`, if the store has one.
pub open spec fn find(rows: Seq<TaskView>, id: i64) -> Option<TaskView> {
    if exists|i: int| 0 <= i < rows.len() && rows[i].id == id {
        Some(rows[choose|i: int| 0 <= i < rows.len() && rows[i].id == id])
    } else {
        None
    }
}

/// An insertion succeeds when the patch names the task and an id is left.
pub open spec fn insert_accepted(s: StoreView, p: PatchView) -> bool {
    p.name is Some && s.next_id < i64::MAX
}

/// The failure of a refused insertion.
pub open spec fn insert_error(s: StoreView, p: PatchView) -> Error {
    if p.name is None {
        Error::MissingName
    } else {
        Error::IdsExhausted
    }
}

/// The row that an accepted insertion creates at time `time`.
pub open spec fn new_row(s: StoreView, p: PatchView, time: i64) -> TaskView {
    TaskView {
        id: s.next_id as i64,
        name: p.name.unwrap(),
        status: status_or_open(p.status),
        creation_time: time,
    }
}

pub open spec fn after_insert(s: StoreView, p: PatchView, time: i64) -> StoreView {
    StoreView { rows: s.rows.push(new_row(s, p, time)), next_id: s.next_id + 1 }
}

/// Each row with id `id` patched, the others kept.
pub open spec fn after_update(s: StoreView, id: i64, p: PatchView) -> StoreView {
    StoreView {
        rows: s.rows.map_values(|r: TaskView| if r.id == id { apply_patch(r, p) } else { r }),
        next_id: s.next_id,
    }
}

/// The rows without id `id`.
pub open spec fn after_delete(s: StoreView, id: i64) -> StoreView {
    StoreView { rows: s.rows.filter(|r: TaskView| r.id != id), next_id: s.next_id }
}

/// In a well-formed store the row at `i` is the one found by its id.
pub proof fn lemma_find_at(s: StoreView, i: int)
    requires
        store_wf(s),
        0 <= i < s.rows.len(),
    ensures
        find(s.rows, s.rows[i].id) == Some(s.rows[i]),
{
    let id = s.rows[i].id;
    assert(exists|k: int| 0 <= k < s.rows.len() && s.rows[k].id == id);
    let j = choose|k: int| 0 <= k < s.rows.len() && s.rows[k].id == id;
    if j < i {
        assert(s.rows[j].id < s.rows[i].id);
    } else if i < j {
        assert(s.rows[i].id < s.rows[j].id);
    }
}

/// A filter that keeps every element is the identity.
pub(crate) proof fn lemma_filter_keeps_all(rows: Seq<TaskView>, id: i64)
    requires
        forall|i: int| 0 <= i < rows.len() ==> #[trigger] rows[i].id != id,
    ensures
        rows.filter(|r: TaskView| r.id != id) == rows,
    decreases rows.len(),
{
    reveal(Seq::filter);
    if rows.len() > 0 {
        let d = rows.drop_last();
        assert forall|i: int| 0 <= i < d.len() implies #[trigger] d[i].id != id by {
            assert(d[i] == rows[i]);
        }
        lemma_filter_keeps_all(d, id);
        assert(d.push(rows.last()) =~= rows);
    }
}

/// Filtering out the one row with id `id` removes it at its position.
proof fn lemma_filter_removes_at(rows: Seq<TaskView>, id: i64, i: int)
    requires
        0 <= i < rows.len(),
        rows[i].id == id,
        forall|j: int| 0 <= j < rows.len() && j != i ==> #[trigger] rows[j].id != id,
    ensures
        rows.filter(|r: TaskView| r.id != id) == rows.remove(i),
    decreases rows.len(),
{
    reveal(Seq::filter);
    let d = rows.drop_last();
    if i == rows.len() - 1 {
        assert forall|k: int| 0 <= k < d.len() implies #[trigger] d[k].id != id by {
            assert(d[k] == rows[k]);
        }
        lemma_filter_keeps_all(d, id);
        assert(rows.remove(i) =~= d);
    } else {
        assert forall|k: int| 0 <= k < d.len() && k != i implies #[trigger] d[k].id != id by {
            assert(d[k] == rows[k]);
        }
        lemma_filter_removes_at(d, id, i);
        assert(rows.remove(i) =~= d.remove(i).push(rows.last()));
    }
}

/// What a deletion leaves, stated by position.
proof fn lemma_after_delete_rows(s: StoreView, id: i64)
    requires
        store_wf(s),
    ensures
        find(s.rows, id) is None ==> after_delete(s, id) == s,
        forall|i: int|
            0 <= i < s.rows.len() && s.rows[i].id == id ==> after_delete(s, id).rows
                == s.rows.remove(i),
{
    if find(s.rows, id) is None {
        assert forall|i: int| 0 <= i < s.rows.len() implies #[trigger] s.rows[i].id != id by {
            if s.rows[i].id == id {
                assert(exists|k: int| 0 <= k < s.rows.len() && s.rows[k].id == id);
            }
        }
        lemma_filter_keeps_all(s.rows, id);
    }
    assert forall|i: int|
        0 <= i < s.rows.len() && s.rows[i].id == id implies after_delete(s, id).rows
            == s.rows.remove(i) by {
        assert forall|j: int| 0 <= j < s.rows.len() && j != i implies #[trigger] s.rows[j].id
            != id by {
            if j < i {
                assert(s.rows[j].id < s.rows[i].id);
            } else {
                assert(s.rows[i].id < s.rows[j].id);
            }
        }
        lemma_filter_removes_at(s.rows, id, i);
    }
}

/// The reference model of the task store, held in memory: the rules that the
/// SQLite-backed service follows through the statements of `query`, with ids
/// handed out from 1 upwards and never reused, and rows kept in insertion order,
/// which is ascending id order. The service itself runs SQLite, not this type.
pub struct TaskMac {
    tasks: Vec<Task>,
    next_id: i64,
}

impl View for TaskMac {
    type V = StoreView;

    closed spec fn view(&self) -> StoreView {
        StoreView { rows: self.tasks@.map_values(|t: Task| t@), next_id: self.next_id as int }
    }
}

impl TaskMac {
    pub open spec fn wf(&self) -> bool {
        store_wf(self@)
    }

    /// An empty store whose first task gets id 1.
    pub fn new() -> (r: TaskMac)
        ensures
            r.wf(),
            r@.rows == Seq::<TaskView>::empty(),
            r@.next_id == 1,
    {
        let r = TaskMac { tasks: Vec::new(), next_id: 1 };
        assert(r@.rows =~= Seq::<TaskView>::empty());
        r
    }

    /// Position of the row with id `id`.
    fn position(&self, id: i64) -> (r: Option<usize>)
        requires
            self.wf(),
        ensures
            r matches Some(i) ==> i < self@.rows.len() && self@.rows[i as int].id == id && find(
                self@.rows,
                id,
            ) == Some(self@.rows[i as int]),
            r is None ==> find(self@.rows, id) is None,
    {
        let mut i: usize = 0;
        while i < self.tasks.len()
            invariant
                self.wf(),
                i <= self.tasks@.len(),
                forall|k: int| 0 <= k < i ==> #[trigger] self@.rows[k].id != id,
            decreases self.tasks@.len() - i,
        {
            assert(self@.rows[i as int] == self.tasks@[i as int]@);
            if self.tasks[i].id == id {
                proof {
                    lemma_find_at(self@, i as int);
                }
                return Some(i);
            }
            i = i + 1;
        }
        assert(!exists|k: int| 0 <= k < self@.rows.len() && self@.rows[k].id == id);
        None
    }

    /// Creates a task from `data` with the given creation time.
    pub fn insert_at(&mut self, data: TaskPatch, creation_time: i64) -> (r: Result<Task, Error>)
        requires
            old(self).wf(),
        ensures
            final(self).wf(),
            r is Ok <==> insert_accepted(old(self)@, data@),
            r matches Ok(t) ==> t@ == new_row(old(self)@, data@, creation_time) && final(self)@
                == after_insert(old(self)@, data@, creation_time),
            data.status is None && r is Ok ==> r->Ok_0.status == TaskStatus::Open,
            r matches Err(e) ==> e == insert_error(old(self)@, data@) && final(self)@ == old(self)@,
    {
        let status = match data.status {
            Some(s) => s,
            None => TaskStatus::Open,
        };
        let name = match data.name {
            Some(n) => n,
            None => {
                return Err(Error::MissingName);
            },
        };
        if self.next_id == i64::MAX {
            return Err(Error::IdsExhausted);
        }
        let task = Task { id: self.next_id, name, status, creation_time };
        let ghost before = self@;
        self.tasks.push(task.clone());
        self.next_id = self.next_id + 1;
        assert(self@.rows =~= before.rows.push(task@));
        Ok(task)
    }

    /// Creates a task from `data`, stamped with the current time. A request that
    /// `insert_at` would refuse is refused before the clock is read; a clock that
    /// cannot be read as seconds since the epoch is a storage failure.
    pub fn insert(&mut self, data: TaskPatch) -> (r: Result<Task, Error>)
        requires
            old(self).wf(),
        ensures
            final(self).wf(),
            r is Ok ==> insert_accepted(old(self)@, data@),
            r matches Ok(t) ==> t.creation_time >= 0 && t@ == new_row(old(self)@, data@, t.creation_time)
                && final(self)@ == after_insert(old(self)@, data@, t.creation_time),
            data.status is None && r is Ok ==> r->Ok_0.status == TaskStatus::Open,
            !insert_accepted(old(self)@, data@) ==> r == Err::<Task, Error>(insert_error(old(self)@, data@)),
            r matches Err(e) ==> final(self)@ == old(self)@ && (e == insert_error(old(self)@, data@)
                || (insert_accepted(old(self)@, data@) && e is Storage)),
    {
        if data.name.is_none() {
            return Err(Error::MissingName);
        }
        if self.next_id == i64::MAX {
            return Err(Error::IdsExhausted);
        }
        match now_unix_seconds() {
            Some(now) => self.insert_at(data, now),
            None => Err(Error::Storage(String::from_str("The system clock reads before the Unix epoch."))),
        }
    }

    /// The task with id `id`.
    pub fn get(&self, id: i64) -> (r: Result<Task, Error>)
        requires
            self.wf(),
        ensures
            r is Ok <==> find(self@.rows, id) is Some,
            r matches Ok(t) ==> find(self@.rows, id) == Some(t@),
            r matches Err(e) ==> e == Error::NotFound(id),
    {
        match self.position(id) {
            Some(i) => {
                assert(self@.rows[i as int] == self.tasks@[i as int]@);
                Ok(self.tasks[i].clone())
            },
            None => Err(Error::NotFound(id)),
        }
    }

    /// Changes the fields that `data` names on the task with id `id`. A patch that
    /// names nothing writes nothing and returns the task as it is.
    pub fn update(&mut self, id: i64, data: TaskPatch) -> (r: Result<Task, Error>)
        requires
            old(self).wf(),
        ensures
            final(self).wf(),
            r is Ok <==> find(old(self)@.rows, id) is Some,
            r matches Ok(t) ==> find(old(self)@.rows, id) matches Some(o) && t@ == apply_patch(
                o,
                data@,
            ),
            r is Ok ==> final(self)@ == after_update(old(self)@, id, data@),
            r matches Err(e) ==> e == Error::NotFound(id) && final(self)@ == old(self)@,
            is_empty_patch(data@) ==> final(self)@ == old(self)@,
    {
        let ghost before = self@;
        if data.is_empty() {
            proof {
                lemma_empty_patch_changes_nothing(before, id, data@);
            }
            return self.get(id);
        }
        match self.position(id) {
            None => Err(Error::NotFound(id)),
            Some(i) => {
                assert(before.rows[i as int] == self.tasks@[i as int]@);
                let name = match data.name {
                    Some(n) => n,
                    None => self.tasks[i].name.clone(),
                };
                let status = match data.status {
                    Some(s) => s,
                    None => self.tasks[i].status,
                };
                let task = Task {
                    id: self.tasks[i].id,
                    name,
                    status,
                    creation_time: self.tasks[i].creation_time,
                };
                assert(task@ == apply_patch(before.rows[i as int], data@));
                self.tasks.set(i, task.clone());
                proof {
                    let f = |r: TaskView| if r.id == id { apply_patch(r, data@) } else { r };
                    assert forall|k: int| 0 <= k < before.rows.len() implies #[trigger] self@.rows[k]
                        == f(before.rows[k]) by {
                        if k < i {
                            assert(before.rows[k].id < before.rows[i as int].id);
                        } else if k > i {
                            assert(before.rows[i as int].id < before.rows[k].id);
                        }
                    }
                    assert(self@.rows =~= after_update(before, id, data@).rows);
                }
                Ok(task)
            },
        }
    }

    /// Removes the task with id `id`. Removing an id that is absent is no failure.
    pub fn delete(&mut self, id: i64) -> (r: Result<(), Error>)
        requires
            old(self).wf(),
        ensures
            final(self).wf(),
            r is Ok,
            final(self)@ == after_delete(old(self)@, id),
    {
        let ghost before = self@;
        proof {
            lemma_after_delete_rows(before, id);
        }
        match self.position(id) {
            None => {},
            Some(i) => {
                self.tasks.remove(i);
                assert(self@.rows =~= before.rows.remove(i as int));
            },
        }
        Ok(())
    }

    /// Every task, in ascending id order.
    pub fn list(&self) -> (r: Vec<Task>)
        requires
            self.wf(),
        ensures
            r@.map_values(|t: Task| t@) == self@.rows,
    {
        let mut out: Vec<Task> = Vec::new();
        let mut i: usize = 0;
        while i < self.tasks.len()
            invariant
                i <= self.tasks@.len(),
                out@.len() == i,
                forall|k: int| 0 <= k < i ==> (#[trigger] out@[k])@ == self.tasks@[k]@,
            decreases self.tasks@.len() - i,
        {
            out.push(self.tasks[i].clone());
            i = i + 1;
        }
        assert(out@.map_values(|t: Task| t@) =~= self@.rows);
        out
    }
}

/// A patch that names no field leaves every row as it is.
pub proof fn lemma_empty_patch_changes_nothing(s: StoreView, id: i64, p: PatchView)
    requires
        is_empty_patch(p),
    ensures
        after_update(s, id, p) == s,
{
    assert(after_update(s, id, p).rows =~= s.rows);
}

} // verus!
