use vstd::prelude::*;
use vstd::string::*;

verus! {

/// Lifecycle state of a task.
#[derive(Clone, Copy, Debug, PartialEq, Eq, Structural)]
pub enum TaskStatus {
    Open,
    Closed,
}

/// The text under which a status is stored and exchanged.
pub open spec fn status_text(s: TaskStatus) -> Seq<char> {
    match s {
        TaskStatus::Open => "open"@,
        TaskStatus::Closed => "closed"@,
    }
}

/// The status whose text is `t`, if any.
pub open spec fn status_of_text(t: Seq<char>) -> Option<TaskStatus> {
    if t == "open"@ {
        Some(TaskStatus::Open)
    } else if t == "closed"@ {
        Some(TaskStatus::Closed)
    } else {
        None
    }
}

/// The status a new task gets when its patch names one or none.
pub open spec fn status_or_open(s: Option<TaskStatus>) -> TaskStatus {
    match s {
        Some(st) => st,
        None => TaskStatus::Open,
    }
}

impl Default for TaskStatus {
    fn default() -> (r: TaskStatus)
        ensures
            r == TaskStatus::Open,
    {
        TaskStatus::Open
    }
}

impl TaskStatus {
    /// The stored text of this status: "open" or "closed".
    pub fn as_str(&self) -> (r: &'static str)
        ensures
            r@ == status_text(*self),
    {
        match self {
            TaskStatus::Open => "open",
            TaskStatus::Closed => "closed",
        }
    }

    /// Reads a status back from its stored text.
    pub fn parse(t: &str) -> (r: Option<TaskStatus>)
        ensures
            r == status_of_text(t@),
            r matches Some(s) ==> status_text(s) == t@,
    {
        proof {
            reveal_strlit("open");
            reveal_strlit("closed");
        }
        let owned = t.to_owned();
        let open = String::from_str("open");
        let closed = String::from_str("closed");
        if owned.eq(&open) {
            Some(TaskStatus::Open)
        } else if owned.eq(&closed) {
            Some(TaskStatus::Closed)
        } else {
            None
        }
    }
}

/// What a task is, as plain values.
pub ghost struct TaskView {
    pub id: i64,
    pub name: Seq<char>,
    pub status: TaskStatus,
    pub creation_time: i64,
}

/// A persisted task. `creation_time` counts whole seconds since the Unix epoch, UTC.
#[derive(Debug)]
pub struct Task {
    pub id: i64,
    pub name: String,
    pub status: TaskStatus,
    pub creation_time: i64,
}

impl View for Task {
    type V = TaskView;

    open spec fn view(&self) -> TaskView {
        TaskView {
            id: self.id,
            name: self.name@,
            status: self.status,
            creation_time: self.creation_time,
        }
    }
}

impl Clone for Task {
    fn clone(&self) -> (r: Task)
        ensures
            r@ == self@,
    {
        Task {
            id: self.id,
            name: self.name.clone(),
            status: self.status,
            creation_time: self.creation_time,
        }
    }
}

impl PartialEq for Task {
    fn eq(&self, o: &Task) -> (r: bool) {
        self.id == o.id && self.name.eq(&o.name) && self.status == o.status && self.creation_time
            == o.creation_time
    }
}

impl vstd::std_specs::cmp::PartialEqSpecImpl for Task {
    open spec fn obeys_eq_spec() -> bool {
        true
    }

    open spec fn eq_spec(&self, o: &Task) -> bool {
        self@ == o@
    }
}

impl Task {
    /// A task from the columns of a stored row; `None` when the status column holds
    /// neither "open" nor "closed".
    pub fn from_columns(id: i64, name: String, status: &str, creation_time: i64) -> (r: Option<
        Task,
    >)
        ensures
            r is Some <==> status_of_text(status@) is Some,
            r matches Some(t) ==> t@ == (TaskView {
                id,
                name: name@,
                status: status_of_text(status@)->Some_0,
                creation_time,
            }),
    {
        match TaskStatus::parse(status) {
            Some(st) => Some(Task { id, name, status: st, creation_time }),
            None => None,
        }
    }
}

/// What a patch asks for, as plain values.
pub ghost struct PatchView {
    pub name: Option<Seq<char>>,
    pub status: Option<TaskStatus>,
}

/// A partial task: on creation a missing status means `Open`, on update a missing
/// field is left as it is.
#[derive(Debug)]
pub struct TaskPatch {
    pub name: Option<String>,
    pub status: Option<TaskStatus>,
}

impl View for TaskPatch {
    type V = PatchView;

    open spec fn view(&self) -> PatchView {
        PatchView {
            name: match self.name {
                Some(n) => Some(n@),
                None => None,
            },
            status: self.status,
        }
    }
}

impl Clone for TaskPatch {
    fn clone(&self) -> (r: TaskPatch)
        ensures
            r@ == self@,
    {
        let name = match &self.name {
            Some(n) => Some(n.clone()),
            None => None,
        };
        TaskPatch { name, status: self.status }
    }
}

impl Default for TaskPatch {
    fn default() -> (r: TaskPatch)
        ensures
            r@.name is None,
            r@.status is None,
    {
        TaskPatch { name: None, status: None }
    }
}

/// `t` with the fields that `p` names replaced; `id` and `creation_time` are kept.
pub open spec fn apply_patch(t: TaskView, p: PatchView) -> TaskView {
    TaskView {
        id: t.id,
        name: match p.name {
            Some(n) => n,
            None => t.name,
        },
        status: match p.status {
            Some(s) => s,
            None => t.status,
        },
        creation_time: t.creation_time,
    }
}

/// A patch that names no field.
pub open spec fn is_empty_patch(p: PatchView) -> bool {
    p.name is None && p.status is None
}

impl TaskPatch {
    /// True when the patch names no field to change.
    pub fn is_empty(&self) -> (r: bool)
        ensures
            r == is_empty_patch(self@),
    {
        self.name.is_none() && self.status.is_none()
    }
}

} // verus!
