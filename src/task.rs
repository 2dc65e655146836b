use vstd::prelude::*;

verus! {

/// Identity of a task: a serial number unique within its registry, and a
/// random UUID (as its 128-bit value) for display and cross-process use.
#[derive(Debug, Clone, Copy, PartialEq, Eq, Structural)]
pub struct TaskId {
    pub serial: usize,
    pub uuid: u128,
}

/// The container formats an archive task can produce.
#[derive(Debug, Clone, Copy, PartialEq, Eq, Structural)]
pub enum ArchiveFormat {
    Zip,
    Tar,
    TarGz,
}

/// A filesystem mutation, with the operands it needs.
#[derive(Debug)]
pub enum TaskKind {
    Copy { src: String, dest: String },
    Move { src: String, dest: String },
    Delete { path: String },
    CreateFile { path: String },
    CreateDirectory { path: String },
    Chmod { path: String, mode: u32 },
    Chown { path: String, owner: String },
    Unmount { path: String },
    Archive { paths: Vec<String>, dest: String, format: String },
}

/// Where a task stands. Progress is in thousandths (0 to 1000).
#[derive(Debug)]
pub enum TaskStatus {
    Pending,
    InProgress(u16),
    Completed,
    Failed(String),
}

/// What an executor reports about its task.
#[derive(Debug)]
pub enum ProgressEvent {
    Update(u16),
    Completed,
    Error(String),
}

/// A submitted request.
#[derive(Debug)]
pub struct Task {
    pub id: TaskId,
    pub kind: TaskKind,
    pub status: TaskStatus,
    pub description: String,
}

/// An equal, independent copy of a list of strings.
pub(crate) fn copy_string_vec(v: &Vec<String>) -> (r: Vec<String>)
    ensures
        r@ == v@,
{
    let mut r: Vec<String> = Vec::new();
    let mut i: usize = 0;
    while i < v.len()
        invariant
            i <= v@.len(),
            r@ == v@.subrange(0, i as int),
        decreases v@.len() - i,
    {
        r.push(v[i].clone());
        i += 1;
        assert(r@ =~= v@.subrange(0, i as int));
    }
    assert(r@ =~= v@);
    r
}

/// The operands of a task kind as character sequences.
pub enum KindView {
    Copy { src: Seq<char>, dest: Seq<char> },
    Move { src: Seq<char>, dest: Seq<char> },
    Delete { path: Seq<char> },
    CreateFile { path: Seq<char> },
    CreateDirectory { path: Seq<char> },
    Chmod { path: Seq<char>, mode: u32 },
    Chown { path: Seq<char>, owner: Seq<char> },
    Unmount { path: Seq<char> },
    Archive { paths: Seq<Seq<char>>, dest: Seq<char>, format: Seq<char> },
}

impl View for TaskKind {
    type V = KindView;

    open spec fn view(&self) -> KindView {
        match self {
            TaskKind::Copy { src, dest } => KindView::Copy { src: src@, dest: dest@ },
            TaskKind::Move { src, dest } => KindView::Move { src: src@, dest: dest@ },
            TaskKind::Delete { path } => KindView::Delete { path: path@ },
            TaskKind::CreateFile { path } => KindView::CreateFile { path: path@ },
            TaskKind::CreateDirectory { path } => KindView::CreateDirectory { path: path@ },
            TaskKind::Chmod { path, mode } => KindView::Chmod { path: path@, mode: *mode },
            TaskKind::Chown { path, owner } => KindView::Chown { path: path@, owner: owner@ },
            TaskKind::Unmount { path } => KindView::Unmount { path: path@ },
            TaskKind::Archive { paths, dest, format } => KindView::Archive {
                paths: paths@.map_values(|p: String| p@),
                dest: dest@,
                format: format@,
            },
        }
    }
}

/// `after` is `before` followed by one pending task per request, each with
/// the requested operands and description, in order.
pub open spec fn appended(
    before: Seq<Task>,
    after: Seq<Task>,
    requests: Seq<(KindView, Seq<char>)>,
) -> bool {
    &&& after.len() == before.len() + requests.len()
    &&& after.subrange(0, before.len() as int) == before
    &&& forall|j: int|
        0 <= j < requests.len() ==> {
            let t = #[trigger] after[before.len() + j];
            &&& t.kind@ == requests[j].0
            &&& t.description@ == requests[j].1
            &&& t.status is Pending
        }
}

/// Appending one more task that meets one more request keeps `appended`.
pub proof fn lemma_appended_push(
    before: Seq<Task>,
    after: Seq<Task>,
    requests: Seq<(KindView, Seq<char>)>,
    t: Task,
    request: (KindView, Seq<char>),
)
    requires
        appended(before, after, requests),
        t.kind@ == request.0,
        t.description@ == request.1,
        t.status is Pending,
    ensures
        appended(before, after.push(t), requests.push(request)),
{
    let a2 = after.push(t);
    let r2 = requests.push(request);
    assert(a2.subrange(0, before.len() as int) =~= after.subrange(0, before.len() as int));
    assert forall|j: int| 0 <= j < r2.len() implies {
        let u = #[trigger] a2[before.len() + j];
        &&& u.kind@ == r2[j].0
        &&& u.description@ == r2[j].1
        &&& u.status is Pending
    } by {
        if j < requests.len() {
            assert(a2[before.len() + j] == after[before.len() + j]);
        }
    }
}

impl TaskKind {
    /// Equal operands: archive path lists compare by their contents.
    pub open spec fn same_as(&self, o: &TaskKind) -> bool {
        match (self, o) {
            (
                TaskKind::Archive { paths: p1, dest: d1, format: f1 },
                TaskKind::Archive { paths: p2, dest: d2, format: f2 },
            ) => p1@ == p2@ && d1 == d2 && f1 == f2,
            _ => *self == *o,
        }
    }

    /// An independent copy with the same operands.
    pub fn duplicate(&self) -> (r: TaskKind)
        ensures
            r.same_as(self),
    {
        match self {
            TaskKind::Copy { src, dest } => TaskKind::Copy { src: src.clone(), dest: dest.clone() },
            TaskKind::Move { src, dest } => TaskKind::Move { src: src.clone(), dest: dest.clone() },
            TaskKind::Delete { path } => TaskKind::Delete { path: path.clone() },
            TaskKind::CreateFile { path } => TaskKind::CreateFile { path: path.clone() },
            TaskKind::CreateDirectory { path } => TaskKind::CreateDirectory { path: path.clone() },
            TaskKind::Chmod { path, mode } => TaskKind::Chmod { path: path.clone(), mode: *mode },
            TaskKind::Chown { path, owner } => TaskKind::Chown {
                path: path.clone(),
                owner: owner.clone(),
            },
            TaskKind::Unmount { path } => TaskKind::Unmount { path: path.clone() },
            TaskKind::Archive { paths, dest, format } => {
                TaskKind::Archive {
                    paths: copy_string_vec(paths),
                    dest: dest.clone(),
                    format: format.clone(),
                }
            },
        }
    }
}

impl TaskStatus {
    /// An equal, independent copy.
    pub fn duplicate(&self) -> (r: TaskStatus)
        ensures
            r == *self,
    {
        match self {
            TaskStatus::Pending => TaskStatus::Pending,
            TaskStatus::InProgress(p) => TaskStatus::InProgress(*p),
            TaskStatus::Completed => TaskStatus::Completed,
            TaskStatus::Failed(reason) => TaskStatus::Failed(reason.clone()),
        }
    }
}

/// The status a task takes when `event` is applied to it.
pub open spec fn status_after(event: ProgressEvent) -> TaskStatus {
    match event {
        ProgressEvent::Update(p) => TaskStatus::InProgress(p),
        ProgressEvent::Completed => TaskStatus::Completed,
        ProgressEvent::Error(reason) => TaskStatus::Failed(reason),
    }
}

impl Task {
    /// A fresh task, not yet dispatched.
    pub fn new(id: TaskId, kind: TaskKind, description: String) -> (r: Task)
        ensures
            r == (Task { id, kind, status: TaskStatus::Pending, description }),
    {
        Task { id, kind, status: TaskStatus::Pending, description }
    }

    /// Same identity, operands, status and label.
    pub open spec fn same_as(&self, o: &Task) -> bool {
        &&& self.id == o.id
        &&& self.kind.same_as(&o.kind)
        &&& self.status == o.status
        &&& self.description == o.description
    }

    /// An independent copy of the task.
    pub fn duplicate(&self) -> (r: Task)
        ensures
            r.same_as(self),
    {
        Task {
            id: self.id,
            kind: self.kind.duplicate(),
            status: self.status.duplicate(),
            description: self.description.clone(),
        }
    }
}

/// The task as it stands after a dispatch pass: a pending task is started.
pub open spec fn dispatched(t: Task) -> Task {
    if t.status is Pending {
        Task { status: TaskStatus::InProgress(0), ..t }
    } else {
        t
    }
}

/// Every task of `s` after a dispatch pass.
pub open spec fn dispatch_all(s: Seq<Task>) -> Seq<Task> {
    s.map_values(|t: Task| dispatched(t))
}

/// Positions of the pending tasks of `s`, in order.
pub open spec fn pending_positions(s: Seq<Task>) -> Seq<int>
    decreases s.len(),
{
    if s.len() == 0 {
        Seq::empty()
    } else {
        let rest = pending_positions(s.drop_last());
        if s.last().status is Pending {
            rest.push(s.len() - 1)
        } else {
            rest
        }
    }
}

/// The registry of submitted tasks, in submission order.
#[derive(Debug)]
pub struct TaskManager {
    tasks: Vec<Task>,
}

impl View for TaskManager {
    type V = Seq<Task>;

    closed spec fn view(&self) -> Seq<Task> {
        self.tasks@
    }
}

impl TaskManager {
    /// Each task's serial is its position, so no two tasks share an identifier.
    pub closed spec fn wf(&self) -> bool {
        forall|i: int| 0 <= i < self.tasks@.len() ==> #[trigger] self.tasks@[i].id.serial == i
    }

    /// An empty registry.
    pub fn new() -> (r: TaskManager)
        ensures
            r.wf(),
            r@.len() == 0,
    {
        TaskManager { tasks: Vec::new() }
    }

    /// Appends a pending task with an identifier that no earlier task of the
    /// registry has, and returns that identifier.
    pub fn add_task(&mut self, kind: TaskKind, description: String) -> (r: TaskId)
        requires
            old(self).wf(),
        ensures
            final(self).wf(),
            final(self)@ == old(self)@.push(
                Task { id: r, kind, status: TaskStatus::Pending, description },
            ),
            forall|i: int| 0 <= i < old(self)@.len() ==> #[trigger] old(self)@[i].id != r,
    {
        let id = TaskId { serial: self.tasks.len(), uuid: random_uuid() };
        assert forall|i: int| 0 <= i < old(self)@.len() implies #[trigger] old(self)@[i].id
            != id by {
            assert(old(self).tasks@[i].id.serial == i);
        }
        self.tasks.push(Task::new(id, kind, description));
        id
    }

    /// A copy of every task, in submission order.
    pub fn get_tasks(&self) -> (r: Vec<Task>)
        ensures
            r@.len() == self@.len(),
            forall|i: int| 0 <= i < r@.len() ==> #[trigger] r@[i].same_as(&self@[i]),
    {
        let mut r: Vec<Task> = Vec::new();
        let mut i: usize = 0;
        while i < self.tasks.len()
            invariant
                i <= self.tasks@.len(),
                r@.len() == i,
                forall|j: int| 0 <= j < i ==> #[trigger] r@[j].same_as(&self.tasks@[j]),
            decreases self.tasks@.len() - i,
        {
            r.push(self.tasks[i].duplicate());
            i += 1;
        }
        r
    }

    /// Starts every pending task: each is set to progress 0, and its identifier
    /// and operands are returned, in registry order, for an executor to run.
    /// Tasks already started or finished are left alone and not returned.
    pub fn process_pending_tasks(&mut self) -> (r: Vec<(TaskId, TaskKind)>)
        requires
            old(self).wf(),
        ensures
            final(self).wf(),
            final(self)@ == dispatch_all(old(self)@),
            r@.len() == pending_positions(old(self)@).len(),
            forall|k: int|
                0 <= k < r@.len() ==> {
                    let t = old(self)@[#[trigger] pending_positions(old(self)@)[k]];
                    r@[k].0 == t.id && r@[k].1.same_as(&t.kind)
                },
    {
        let mut r: Vec<(TaskId, TaskKind)> = Vec::new();
        let ghost s = self.tasks@;
        let mut i: usize = 0;
        while i < self.tasks.len()
            invariant
                i <= self.tasks@.len(),
                self.tasks@.len() == s.len(),
                forall|j: int| 0 <= j < i ==> #[trigger] self.tasks@[j] == dispatched(s[j]),
                forall|j: int| i <= j < s.len() ==> #[trigger] self.tasks@[j] == s[j],
                forall|j: int| 0 <= j < s.len() ==> #[trigger] s[j].id.serial == j,
                r@.len() == pending_positions(s.subrange(0, i as int)).len(),
                forall|k: int|
                    0 <= k < r@.len() ==> {
                        let t = s[#[trigger] pending_positions(s.subrange(0, i as int))[k]];
                        r@[k].0 == t.id && r@[k].1.same_as(&t.kind)
                    },
                forall|k: int| 0 <= k < pending_positions(s.subrange(0, i as int)).len()
                    ==> 0 <= #[trigger] pending_positions(s.subrange(0, i as int))[k] < i,
            decreases s.len() - i,
        {
            let ghost before = s.subrange(0, i as int);
            assert(s.subrange(0, i + 1).drop_last() =~= before);
            if self.tasks[i].status.is_pending() {
                r.push((self.tasks[i].id, self.tasks[i].kind.duplicate()));
                self.set_status(i, TaskStatus::InProgress(0));
            }
            i += 1;
        }
        assert(s.subrange(0, s.len() as int) =~= s);
        assert(self.tasks@ =~= dispatch_all(s));
        r
    }

    /// Applies an executor's event to the task with identifier `id`: an update
    /// sets its progress, completion completes it, an error fails it with the
    /// message. Returns true exactly when the event was a completion and a task
    /// took it; an event for an unknown identifier changes nothing.
    pub fn apply_event(&mut self, id: TaskId, event: ProgressEvent) -> (r: bool)
        requires
            old(self).wf(),
        ensures
            final(self).wf(),
            forall|i: int|
                0 <= i < old(self)@.len() && #[trigger] old(self)@[i].id == id ==> {
                    &&& final(self)@ == old(self)@.update(
                        i,
                        Task { status: status_after(event), ..old(self)@[i] },
                    )
                    &&& r == (event is Completed)
                },
            (forall|i: int| 0 <= i < old(self)@.len() ==> #[trigger] old(self)@[i].id != id) ==> {
                &&& final(self)@ == old(self)@
                &&& !r
            },
    {
        let mut i: usize = 0;
        while i < self.tasks.len()
            invariant
                i <= self.tasks@.len(),
                self.tasks@ == old(self).tasks@,
                old(self).wf(),
                forall|j: int| 0 <= j < i ==> #[trigger] self.tasks@[j].id != id,
            decreases self.tasks@.len() - i,
        {
            if self.tasks[i].id == id {
                let completed = match &event {
                    ProgressEvent::Completed => true,
                    _ => false,
                };
                let ghost applied = status_after(event);
                let status = match event {
                    ProgressEvent::Update(p) => TaskStatus::InProgress(p),
                    ProgressEvent::Completed => TaskStatus::Completed,
                    ProgressEvent::Error(reason) => TaskStatus::Failed(reason),
                };
                assert(status == applied);
                self.set_status(i, status);
                assert forall|j: int| 0 <= j < old(self)@.len() && #[trigger] old(self)@[j].id
                    == id implies j == i by {
                    assert(old(self).tasks@[j].id.serial == j);
                    assert(old(self).tasks@[i as int].id.serial == i);
                }
                return completed;
            }
            i += 1;
        }
        false
    }

    fn set_status(&mut self, i: usize, status: TaskStatus)
        requires
            i < old(self).tasks@.len(),
        ensures
            final(self).tasks@ == old(self).tasks@.update(
                i as int,
                Task { status, ..old(self).tasks@[i as int] },
            ),
    {
        let mut t = self.tasks.remove(i);
        t.status = status;
        self.tasks.insert(i, t);
        assert(self.tasks@ =~= old(self).tasks@.update(
            i as int,
            Task { status, ..old(self).tasks@[i as int] },
        ));
    }
}

impl TaskStatus {
    /// True for a task not yet dispatched.
    pub fn is_pending(&self) -> (r: bool)
        ensures
            r == (*self is Pending),
    {
        match self {
            TaskStatus::Pending => true,
            _ => false,
        }
    }
}

impl Default for TaskManager {
    /// An empty registry.
    fn default() -> (r: TaskManager)
        ensures
            r.wf(),
            r@.len() == 0,
    {
        TaskManager::new()
    }
}

/// A task that `add_task` appended shows up in the next `get_tasks` snapshot,
/// pending, last, and under an identifier that no earlier task carries.
/// `before` is the registry before the call, `id`, `kind` and `description`
/// what the call appended and returned, `snapshot` what `get_tasks` returned.
pub proof fn lemma_added_task_listed(
    before: Seq<Task>,
    id: TaskId,
    kind: TaskKind,
    description: String,
    snapshot: Seq<Task>,
)
    requires
        forall|i: int| 0 <= i < before.len() ==> #[trigger] before[i].id != id,
        snapshot.len() == before.len() + 1,
        forall|i: int|
            0 <= i < snapshot.len() ==> #[trigger] snapshot[i].same_as(
                &before.push(Task { id, kind, status: TaskStatus::Pending, description })[i],
            ),
    ensures
        snapshot.last().id == id,
        snapshot.last().status is Pending,
        snapshot.last().description == description,
        forall|i: int| 0 <= i < before.len() ==> #[trigger] snapshot[i].id != id,
{
    let after = before.push(Task { id, kind, status: TaskStatus::Pending, description });
    assert(snapshot[before.len() as int].same_as(&after[before.len() as int]));
    assert forall|i: int| 0 <= i < before.len() implies #[trigger] snapshot[i].id != id by {
        assert(snapshot[i].same_as(&after[i]));
        assert(after[i] == before[i]);
    }
}

/// A dispatch pass starts each pending task once: right after one, no task is
/// pending, so a second pass with no task added in between starts nothing and
/// leaves every task as it was.
pub proof fn lemma_dispatch_once(s: Seq<Task>)
    ensures
        pending_positions(dispatch_all(s)).len() == 0,
        dispatch_all(dispatch_all(s)) == dispatch_all(s),
    decreases s.len(),
{
    if s.len() > 0 {
        assert(dispatch_all(s).drop_last() =~= dispatch_all(s.drop_last()));
        lemma_dispatch_once(s.drop_last());
    }
    assert(dispatch_all(dispatch_all(s)) =~= dispatch_all(s));
}

/// Relies on uuid::Uuid::new_v4 for a random version-4 UUID, read as its
/// 128-bit value. Nothing is promised of the value.
#[verifier::external_body]
fn random_uuid() -> (r: u128) {
    uuid::Uuid::new_v4().as_u128()
}

} // verus!
