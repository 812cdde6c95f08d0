//! The in-memory task store: tasks keyed by their identifier, kept in the order in which
//! they were first stored.

use vstd::prelude::*;

use crate::task::{Task, TaskStatus, TaskView};

verus! {

/// No two tasks share an identifier.
pub open spec fn task_ids_distinct(tasks: Seq<TaskView>) -> bool {
    forall|i: int, j: int|
        0 <= i < tasks.len() && 0 <= j < tasks.len() && i != j ==> tasks[i].task_id
            != tasks[j].task_id
}

/// Some task has identifier `id`.
pub open spec fn has_task(tasks: Seq<TaskView>, id: Seq<char>) -> bool {
    exists|i: int| 0 <= i < tasks.len() && tasks[i].task_id == id
}

/// The position of the task with identifier `id`.
pub open spec fn task_index(tasks: Seq<TaskView>, id: Seq<char>) -> int {
    choose|i: int| 0 <= i < tasks.len() && tasks[i].task_id == id
}

/// The task with identifier `id`, if there is one.
pub open spec fn lookup_task(tasks: Seq<TaskView>, id: Seq<char>) -> Option<TaskView> {
    if has_task(tasks, id) {
        Some(tasks[task_index(tasks, id)])
    } else {
        None
    }
}

/// Stores `task`: it replaces the task with the same identifier in place, or else comes last.
pub open spec fn upsert_task(tasks: Seq<TaskView>, task: TaskView) -> Seq<TaskView> {
    if has_task(tasks, task.task_id) {
        tasks.update(task_index(tasks, task.task_id), task)
    } else {
        tasks.push(task)
    }
}

/// The task is accepted and assigned to agent `agent_id`: what that agent's poll hands out.
pub open spec fn awaits_agent(task: TaskView, agent_id: Seq<char>) -> bool {
    task.agent_id == agent_id && task.status == TaskStatus::Accepted
}

/// The tasks that agent `agent_id` receives when it polls, in store order.
pub open spec fn accepted_for(tasks: Seq<TaskView>, agent_id: Seq<char>) -> Seq<TaskView> {
    tasks.filter(|t: TaskView| awaits_agent(t, agent_id))
}

pub open spec fn tasks_view(tasks: Seq<Task>) -> Seq<TaskView> {
    tasks.map_values(|t: Task| t@)
}

/// With distinct identifiers, position `i` is the one that holds identifier `tasks[i].task_id`.
pub proof fn lemma_task_index(tasks: Seq<TaskView>, i: int)
    requires
        task_ids_distinct(tasks),
        0 <= i < tasks.len(),
    ensures
        has_task(tasks, tasks[i].task_id),
        task_index(tasks, tasks[i].task_id) == i,
{
}

/// Storing a task keeps identifiers distinct.
pub proof fn lemma_upsert_task_distinct(tasks: Seq<TaskView>, task: TaskView)
    requires
        task_ids_distinct(tasks),
    ensures
        task_ids_distinct(upsert_task(tasks, task)),
{
    if has_task(tasks, task.task_id) {
        let k = task_index(tasks, task.task_id);
        let s = upsert_task(tasks, task);
        assert forall|i: int, j: int|
            0 <= i < s.len() && 0 <= j < s.len() && i != j implies s[i].task_id
            != s[j].task_id by {
            if i == k || j == k {
            }
        }
    }
}

/// The in-memory task store.
pub struct TaskStore {
    tasks: Vec<Task>,
}

impl View for TaskStore {
    type V = Seq<TaskView>;

    closed spec fn view(&self) -> Seq<TaskView> {
        tasks_view(self.tasks@)
    }
}

impl TaskStore {
    pub open spec fn wf(&self) -> bool {
        task_ids_distinct(self@)
    }

    /// An empty store.
    pub fn new() -> (store: TaskStore)
        ensures
            store.wf(),
            store@ == Seq::<TaskView>::empty(),
    {
        let store = TaskStore { tasks: Vec::new() };
        assert(store@ =~= Seq::<TaskView>::empty());
        store
    }

    /// The position of the task with identifier `task_id`, if there is one.
    pub fn position(&self, task_id: &str) -> (pos: Option<usize>)
        requires
            self.wf(),
        ensures
            pos is None <==> !has_task(self@, task_id@),
            pos matches Some(i) ==> i < self@.len() && i == task_index(self@, task_id@)
                && self@[i as int].task_id == task_id@,
    {
        let wanted = task_id.to_owned();
        let n = self.tasks.len();
        for i in 0..n
            invariant
                n == self.tasks@.len(),
                self.wf(),
                wanted@ == task_id@,
                forall|j: int| 0 <= j < i ==> self@[j].task_id != task_id@,
        {
            if self.tasks[i].task_id == wanted {
                proof {
                    lemma_task_index(self@, i as int);
                }
                return Some(i);
            }
        }
        None
    }

    /// The task at position `i`.
    pub fn at(&self, i: usize) -> (task: &Task)
        requires
            i < self@.len(),
        ensures
            task@ == self@[i as int],
    {
        &self.tasks[i]
    }

    /// The task with identifier `task_id`, if there is one.
    pub fn get(&self, task_id: &str) -> (task: Option<&Task>)
        requires
            self.wf(),
        ensures
            match task {
                Some(t) => lookup_task(self@, task_id@) == Some(t@),
                None => lookup_task(self@, task_id@) is None,
            },
    {
        match self.position(task_id) {
            Some(i) => Some(&self.tasks[i]),
            None => None,
        }
    }

    /// Stores `task`, replacing the task with the same identifier if there is one.
    pub fn insert(&mut self, task: Task)
        requires
            old(self).wf(),
        ensures
            final(self).wf(),
            final(self)@ == upsert_task(old(self)@, task@),
    {
        proof {
            lemma_upsert_task_distinct(self@, task@);
        }
        match self.position(task.task_id.as_str()) {
            Some(i) => {
                self.tasks.set(i, task);
            },
            None => {
                self.tasks.push(task);
            },
        }
        assert(self@ =~= upsert_task(old(self)@, task@));
    }

    /// Replaces the task at position `i` by one with the same identifier.
    pub fn replace_at(&mut self, i: usize, task: Task)
        requires
            old(self).wf(),
            i < old(self)@.len(),
            task@.task_id == old(self)@[i as int].task_id,
        ensures
            final(self).wf(),
            final(self)@ == old(self)@.update(i as int, task@),
    {
        self.tasks.set(i, task);
        assert(self@ =~= old(self)@.update(i as int, task@));
    }

    /// Copies of all stored tasks, in store order.
    pub fn list(&self) -> (tasks: Vec<Task>)
        ensures
            tasks_view(tasks@) == self@,
    {
        let mut out: Vec<Task> = Vec::new();
        let n = self.tasks.len();
        for i in 0..n
            invariant
                n == self.tasks@.len(),
                out@.len() == i,
                tasks_view(out@) == self@.take(i as int),
        {
            let ghost before = out@;
            out.push(self.tasks[i].duplicate());
            assert(self@[i as int] == self.tasks@[i as int]@);
            assert forall|j: int| 0 <= j < i implies tasks_view(out@)[j] == tasks_view(before)[j] by {
                assert(out@[j] == before[j]);
            }
            assert(tasks_view(out@) =~= self@.take(i + 1));
        }
        assert(self@.take(n as int) =~= self@);
        out
    }

    /// Copies of the tasks that agent `agent_id` receives when it polls, in store order.
    pub fn accepted_for(&self, agent_id: &str) -> (tasks: Vec<Task>)
        ensures
            tasks_view(tasks@) == accepted_for(self@, agent_id@),
    {
        let wanted = agent_id.to_owned();
        let mut out: Vec<Task> = Vec::new();
        let n = self.tasks.len();
        let ghost pred = |t: TaskView| awaits_agent(t, agent_id@);
        for i in 0..n
            invariant
                n == self.tasks@.len(),
                wanted@ == agent_id@,
                pred == (|t: TaskView| awaits_agent(t, agent_id@)),
                tasks_view(out@) == self@.take(i as int).filter(pred),
        {
            reveal_with_fuel(Seq::<_>::filter, 1);
            assert(self@.take(i + 1).drop_last() =~= self@.take(i as int));
            let t = &self.tasks[i];
            if t.agent_id == wanted && t.status == TaskStatus::Accepted {
                out.push(t.duplicate());
            }
            assert(tasks_view(out@) =~= self@.take(i + 1).filter(pred));
        }
        assert(self@.take(n as int) =~= self@);
        out
    }
}

} // verus!
