use vstd::prelude::*;

pub mod key_import;
pub mod verification;

verus! {

/// The kinds of to-do tasks a user is given.
#[derive(Clone, Copy, Debug, PartialEq, Eq, Structural)]
pub enum TodoTaskKind {
    /// Import room keys to bootstrap decryption.
    InitialKeyImport,
    /// Verify the session to enable cross-signing.
    Verification,
}

/// Unique identifier of a task kind.
pub open spec fn spec_task_id(kind: TodoTaskKind) -> Seq<char> {
    match kind {
        TodoTaskKind::InitialKeyImport => "initial_key_import"@,
        TodoTaskKind::Verification => "verification"@,
    }
}

/// Title of a task kind.
pub open spec fn spec_task_title(kind: TodoTaskKind) -> Seq<char> {
    match kind {
        TodoTaskKind::InitialKeyImport => "Import your room keys"@,
        TodoTaskKind::Verification => "Verify the session"@,
    }
}

/// Short description of a task kind.
pub open spec fn spec_task_label(kind: TodoTaskKind) -> Seq<char> {
    match kind {
        TodoTaskKind::InitialKeyImport => "Make an initial import to bootstrap decryption."@,
        TodoTaskKind::Verification => "Enables cross-signing support."@,
    }
}

impl TodoTaskKind {
    /// The ID of the task, which no other kind of task shares.
    pub fn id(&self) -> (id: &'static str)
        ensures
            id@ == spec_task_id(*self),
    {
        match self {
            TodoTaskKind::InitialKeyImport => "initial_key_import",
            TodoTaskKind::Verification => "verification",
        }
    }

    /// Task title
    pub fn title(&self) -> (title: String)
        ensures
            title@ == spec_task_title(*self),
    {
        match self {
            TodoTaskKind::InitialKeyImport => String::from_str("Import your room keys"),
            TodoTaskKind::Verification => String::from_str("Verify the session"),
        }
    }

    /// Short task description
    pub fn label(&self) -> (label: String)
        ensures
            label@ == spec_task_label(*self),
    {
        match self {
            TodoTaskKind::InitialKeyImport => String::from_str(
                "Make an initial import to bootstrap decryption.",
            ),
            TodoTaskKind::Verification => String::from_str("Enables cross-signing support."),
        }
    }
}

/// A task that can be put on the user's to-do list.
pub trait TodoTaskBehavior {
    /// The kind of task this is.
    spec fn spec_kind(&self) -> TodoTaskKind;

    /// The kind of task this is.
    fn kind(&self) -> (kind: TodoTaskKind)
        ensures
            kind == self.spec_kind(),
    ;

    /// The ID of the task, which no other kind of task shares.
    fn id(&self) -> (id: &'static str)
        ensures
            id@ == spec_task_id(self.spec_kind()),
    {
        self.kind().id()
    }

    /// Task title
    fn title(&self) -> (title: String)
        ensures
            title@ == spec_task_title(self.spec_kind()),
    {
        self.kind().title()
    }

    /// Short task description
    fn label(&self) -> (label: String)
        ensures
            label@ == spec_task_label(self.spec_kind()),
    {
        self.kind().label()
    }

    /// Check whether the task was fulfilled.
    fn is_finished(&self, tasks: &UserTodoTasks) -> (finished: bool)
        ensures
            finished == tasks@.completed.contains(spec_task_id(self.spec_kind())),
    {
        tasks.is_completed(self.id())
    }
}

/// One entry of the user's to-do list.
#[derive(Clone, Copy, Debug, PartialEq, Eq, Structural)]
pub struct TodoTaskItem {
    pub kind: TodoTaskKind,
}

impl TodoTaskItem {
    pub fn new<T: TodoTaskBehavior>(task: T) -> (item: Self)
        ensures
            item.kind == task.spec_kind(),
    {
        TodoTaskItem { kind: task.kind() }
    }

    pub fn id(&self) -> (id: &'static str)
        ensures
            id@ == spec_task_id(self.kind),
    {
        self.kind.id()
    }

    /// Check whether the task was fulfilled.
    pub fn is_finished(&self, tasks: &UserTodoTasks) -> (finished: bool)
        ensures
            finished == tasks@.completed.contains(spec_task_id(self.kind)),
    {
        tasks.is_completed(self.kind.id())
    }

    pub fn title(&self) -> (title: String)
        ensures
            title@ == spec_task_title(self.kind),
    {
        self.kind.title()
    }

    pub fn label(&self) -> (label: String)
        ensures
            label@ == spec_task_label(self.kind),
    {
        self.kind.label()
    }
}

/// Plain view of [`UserTodoTasks`]: the tasks in order, and the IDs marked completed.
pub struct TodoTasksView {
    pub tasks: Seq<TodoTaskKind>,
    pub completed: Set<Seq<char>>,
}

/// The user's to-do list, and the IDs of the tasks completed so far.
#[derive(Debug)]
pub struct UserTodoTasks {
    tasks: Vec<TodoTaskItem>,
    completed: Vec<String>,
}

impl View for UserTodoTasks {
    type V = TodoTasksView;

    closed spec fn view(&self) -> TodoTasksView {
        TodoTasksView {
            tasks: self.tasks@.map_values(|t: TodoTaskItem| t.kind),
            completed: self.completed.deep_view().to_set(),
        }
    }
}

impl Default for UserTodoTasks {
    fn default() -> (tasks: Self)
        ensures
            tasks@.tasks == Seq::<TodoTaskKind>::empty(),
            tasks@.completed == Set::<Seq<char>>::empty(),
    {
        Self::new()
    }
}

impl UserTodoTasks {
    pub fn new() -> (tasks: Self)
        ensures
            tasks@.tasks == Seq::<TodoTaskKind>::empty(),
            tasks@.completed == Set::<Seq<char>>::empty(),
    {
        let tasks = UserTodoTasks { tasks: Vec::new(), completed: Vec::new() };
        proof {
            assert(tasks@.tasks =~= Seq::<TodoTaskKind>::empty());
            assert(tasks@.completed =~= Set::<Seq<char>>::empty());
        }
        tasks
    }

    pub fn add_task<T: TodoTaskBehavior>(&mut self, task: T)
        ensures
            final(self)@.tasks == old(self)@.tasks.push(task.spec_kind()),
            final(self)@.completed == old(self)@.completed,
    {
        self.tasks.push(TodoTaskItem::new(task));
        proof {
            assert(self@.tasks =~= old(self)@.tasks.push(task.spec_kind()));
        }
    }

    pub fn tasks(&self) -> (tasks: &[TodoTaskItem])
        ensures
            tasks@.map_values(|t: TodoTaskItem| t.kind) == self@.tasks,
    {
        self.tasks.as_slice()
    }

    pub fn get(&self, ix: usize) -> (task: Option<&TodoTaskItem>)
        ensures
            match task {
                Some(t) => ix < self@.tasks.len() && t.kind == self@.tasks[ix as int],
                None => ix >= self@.tasks.len(),
            },
    {
        if ix < self.tasks.len() {
            Some(&self.tasks[ix])
        } else {
            None
        }
    }

    pub fn is_empty(&self) -> (empty: bool)
        ensures
            empty == (self@.tasks.len() == 0),
    {
        self.tasks.len() == 0
    }

    /// Mark a task as completed by its ID.
    pub fn mark_completed(&mut self, id: &str)
        ensures
            final(self)@.completed == old(self)@.completed.insert(id@),
            final(self)@.tasks == old(self)@.tasks,
    {
        if !self.is_completed(id) {
            self.completed.push(String::from_str(id));
            proof {
                let old_s = old(self).completed.deep_view();
                let new_s = self.completed.deep_view();
                assert(new_s =~= old_s.push(id@));
                assert forall|x: Seq<char>| new_s.contains(x) <==> (old_s.contains(x) || x == id@) by {
                    if new_s.contains(x) {
                        let k = choose|k: int| 0 <= k < new_s.len() && new_s[k] == x;
                        if k < old_s.len() {
                            assert(old_s[k] == x);
                        }
                    }
                    if old_s.contains(x) {
                        let k = choose|k: int| 0 <= k < old_s.len() && old_s[k] == x;
                        assert(new_s[k] == x);
                    }
                    if x == id@ {
                        assert(new_s[old_s.len() as int] == x);
                    }
                }
                assert(self@.completed =~= old(self)@.completed.insert(id@));
            }
        } else {
            proof {
                assert(self@.completed =~= old(self)@.completed.insert(id@));
            }
        }
    }

    /// Check if a task ID has been marked as completed.
    pub fn is_completed(&self, id: &str) -> (completed: bool)
        ensures
            completed == self@.completed.contains(id@),
    {
        let target = String::from_str(id);
        let mut i: usize = 0;
        while i < self.completed.len()
            invariant
                0 <= i <= self.completed@.len(),
                target@ == id@,
                forall|j: int| 0 <= j < i ==> self.completed.deep_view()[j] != id@,
            decreases self.completed@.len() - i,
        {
            if self.completed[i].eq(&target) {
                proof {
                    assert(self.completed.deep_view()[i as int] == id@);
                }
                return true;
            }
            i = i + 1;
        }
        proof {
            if self.completed.deep_view().contains(id@) {
                let k = choose|k: int| 0 <= k < self.completed.deep_view().len() && self.completed.deep_view()[k] == id@;
                assert(self.completed.deep_view()[k] != id@);
            }
        }
        false
    }
}


/// A task counts as finished once its ID was marked completed, and marking more IDs never
/// unfinishes it.
pub proof fn law_marked_task_is_finished(
    completed: Set<Seq<char>>,
    kind: TodoTaskKind,
    other: Seq<char>,
)
    ensures
        completed.insert(spec_task_id(kind)).contains(spec_task_id(kind)),
        completed.contains(spec_task_id(kind)) ==> completed.insert(other).contains(
            spec_task_id(kind),
        ),
{
}


/// The completed IDs after marking each of `ids` in turn, starting from `start`.
pub open spec fn spec_marked(start: Set<Seq<char>>, ids: Seq<Seq<char>>) -> Set<Seq<char>>
    decreases ids.len(),
{
    if ids.len() == 0 {
        start
    } else {
        spec_marked(start, ids.drop_last()).insert(ids.last())
    }
}

/// On a fresh list, after any run of [`UserTodoTasks::mark_completed`] calls (in any order,
/// repeats allowed), an ID counts as completed exactly when it was marked.
pub proof fn law_completed_is_what_was_marked(ids: Seq<Seq<char>>, id: Seq<char>)
    ensures
        spec_marked(Set::empty(), ids).contains(id) <==> ids.contains(id),
    decreases ids.len(),
{
    if ids.len() > 0 {
        law_completed_is_what_was_marked(ids.drop_last(), id);
        if ids.drop_last().contains(id) {
            let k = choose|k: int| 0 <= k < ids.drop_last().len() && ids.drop_last()[k] == id;
            assert(ids[k] == id);
        }
        if ids.contains(id) && id != ids.last() {
            let k = choose|k: int| 0 <= k < ids.len() && ids[k] == id;
            assert(ids.drop_last()[k] == id);
        }
        if id == ids.last() {
            assert(ids[ids.len() - 1] == id);
        }
    }
}

} // verus!
