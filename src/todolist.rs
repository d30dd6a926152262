use vstd::prelude::*;

use crate::stamp::Stamp;
use crate::task::{PriorityEnum, Task};

verus! {

/// The id that the next added task receives: one more than the id of the last
/// task in the sequence, or 1 for an empty one. This is not the largest id plus
/// one: after a removal from the middle, a later add may reuse an id still held
/// by an earlier task.
pub open spec fn next_id(s: Seq<Task>) -> int {
    if s.len() == 0 {
        1
    } else {
        s.last().id + 1
    }
}

/// An add on `s` can give its id as an `i32`.
pub open spec fn can_add(s: Seq<Task>) -> bool {
    next_id(s) <= i32::MAX
}

/// Every task of `s` has its completion time exactly when it is done.
pub open spec fn all_wf(s: Seq<Task>) -> bool {
    forall|i: int| 0 <= i < s.len() ==> #[trigger] s[i].wf()
}

/// `s` after adding a pending task with the given title, priority and creation time.
pub open spec fn added(s: Seq<Task>, title: String, priority: Option<PriorityEnum>, now: Stamp) -> Seq<
    Task,
> {
    s.push(
        Task {
            id: next_id(s) as i32,
            title,
            done: false,
            created_at: now,
            completed_at: None,
            priority,
        },
    )
}

/// `p` names a task of `s` by its 1-based position.
pub open spec fn valid_position(s: Seq<Task>, p: int) -> bool {
    1 <= p <= s.len()
}

/// `s` after removing the task at 1-based position `p`; unchanged where `p` names none.
pub open spec fn removed(s: Seq<Task>, p: int) -> Seq<Task> {
    if valid_position(s, p) {
        s.remove(p - 1)
    } else {
        s
    }
}

/// The task `t` marked done at `now`.
pub open spec fn done_at(t: Task, now: Stamp) -> Task {
    Task {
        id: t.id,
        title: t.title,
        done: true,
        created_at: t.created_at,
        completed_at: Some(now),
        priority: t.priority,
    }
}

/// The task `t` marked pending, without a completion time.
pub open spec fn pending_again(t: Task) -> Task {
    Task {
        id: t.id,
        title: t.title,
        done: false,
        created_at: t.created_at,
        completed_at: None,
        priority: t.priority,
    }
}

/// `s` after completing the task at 1-based position `p` at `now`; unchanged where
/// `p` names none. A task that is already done gets the new completion time.
pub open spec fn completed(s: Seq<Task>, p: int, now: Stamp) -> Seq<Task> {
    if valid_position(s, p) {
        s.update(p - 1, done_at(s[p - 1], now))
    } else {
        s
    }
}

/// `s` with every task pending again.
pub open spec fn reset_all(s: Seq<Task>) -> Seq<Task> {
    Seq::new(s.len(), |i: int| pending_again(s[i]))
}

/// The tasks of `s` whose done flag is `done`, in their order in `s`.
pub open spec fn with_status(s: Seq<Task>, done: bool) -> Seq<Task>
    decreases s.len(),
{
    if s.len() == 0 {
        Seq::empty()
    } else if s.last().done == done {
        with_status(s.drop_last(), done).push(s.last())
    } else {
        with_status(s.drop_last(), done)
    }
}

/// The tasks that a sequence of borrowed tasks refers to.
pub open spec fn derefs(s: Seq<&Task>) -> Seq<Task> {
    s.map_values(|t: &Task| *t)
}

/// The texts of a sequence of strings.
pub open spec fn texts(s: Seq<String>) -> Seq<Seq<char>> {
    s.map_values(|l: String| l@)
}

/// The listing lines of the tasks of `s`, one for each.
pub open spec fn lines(s: Seq<Task>) -> Seq<Seq<char>> {
    Seq::new(s.len(), |i: int| s[i].line())
}

/// The task store: an ordered sequence of tasks and the path it is saved to.
/// The path is configuration, not data: it is never part of the saved payload.
pub struct TodoList {
    pub tasks: Vec<Task>,
    pub path: String,
}

impl TodoList {
    /// An empty list bound to `path`.
    pub fn new(path: &str) -> (r: TodoList)
        ensures
            r.tasks@ == Seq::<Task>::empty(),
            r.path@ == path@,
    {
        TodoList { tasks: Vec::new(), path: path.to_string() }
    }

    /// The list that loading gives: the saved tasks where they could be read and
    /// parsed, an empty list otherwise; bound to `path` either way.
    pub fn load_tasks(path: String, saved: Option<Vec<Task>>) -> (r: TodoList)
        ensures
            r.path == path,
            r.tasks@ == match saved {
                Some(v) => v@,
                None => Seq::<Task>::empty(),
            },
    {
        match saved {
            Some(tasks) => TodoList { tasks, path },
            None => TodoList { tasks: Vec::new(), path },
        }
    }

    /// Appends a pending task created at `now`, with the id `next_id` gives.
    pub fn add_task_at(&mut self, title: String, priority: Option<PriorityEnum>, now: Stamp)
        requires
            can_add(old(self).tasks@),
        ensures
            final(self).tasks@ == added(old(self).tasks@, title, priority, now),
            final(self).path == old(self).path,
            all_wf(old(self).tasks@) ==> all_wf(final(self).tasks@),
    {
        let mut id: i32 = 1;
        if self.tasks.len() > 0 {
            id = self.tasks[self.tasks.len() - 1].id + 1;
        }
        let task = Task { id, title, done: false, created_at: now, completed_at: None, priority };
        self.tasks.push(task);
    }

    /// Appends a pending task created now, in UTC. Where the clock reads a time
    /// before the Unix epoch or one that a `Stamp` cannot hold, the list is left as it was.
    pub fn add_task(&mut self, title: String, priority: Option<PriorityEnum>)
        requires
            can_add(old(self).tasks@),
        ensures
            final(self).tasks@ == old(self).tasks@ || exists|now: Stamp|
                final(self).tasks@ == added(old(self).tasks@, title, priority, now),
            final(self).path == old(self).path,
            all_wf(old(self).tasks@) ==> all_wf(final(self).tasks@),
    {
        match Stamp::now() {
            Some(now) => self.add_task_at(title, priority, now),
            None => {},
        }
    }

    /// Removes the task at 1-based position `i`; does nothing where `i` names no task.
    pub fn remove_task(&mut self, i: i32)
        ensures
            final(self).tasks@ == removed(old(self).tasks@, i as int),
            final(self).path == old(self).path,
            all_wf(old(self).tasks@) ==> all_wf(final(self).tasks@),
    {
        if 1 <= i && (i as usize) <= self.tasks.len() {
            let index = (i - 1) as usize;
            self.tasks.remove(index);
        }
        proof {
            let s = old(self).tasks@;
            if all_wf(s) && valid_position(s, i as int) {
                assert forall|j: int| 0 <= j < s.len() - 1 implies #[trigger] s.remove(
                    i - 1,
                )[j].wf() by {
                    if j < i - 1 {
                        assert(s.remove(i - 1)[j] == s[j]);
                    } else {
                        assert(s.remove(i - 1)[j] == s[j + 1]);
                    }
                }
            }
        }
    }

    /// Marks the task at 1-based position `i` done at `now`, also where it was done
    /// already; does nothing where `i` names no task.
    pub fn complete_task_at(&mut self, i: i32, now: Stamp)
        ensures
            final(self).tasks@ == completed(old(self).tasks@, i as int, now),
            final(self).path == old(self).path,
            all_wf(old(self).tasks@) ==> all_wf(final(self).tasks@),
    {
        if 1 <= i && (i as usize) <= self.tasks.len() {
            let index = (i - 1) as usize;
            self.tasks[index].done = true;
            self.tasks[index].completed_at = Some(now);
        }
        proof {
            let s = old(self).tasks@;
            if valid_position(s, i as int) {
                assert(self.tasks@ =~= completed(s, i as int, now));
            }
        }
    }

    /// Marks the task at 1-based position `i` done now, in UTC. Where the clock
    /// reads a time before the Unix epoch or one that a `Stamp` cannot hold, the list is left as it was.
    pub fn complete_task(&mut self, i: i32)
        ensures
            final(self).tasks@ == old(self).tasks@ || exists|now: Stamp|
                final(self).tasks@ == completed(old(self).tasks@, i as int, now),
            final(self).path == old(self).path,
            all_wf(old(self).tasks@) ==> all_wf(final(self).tasks@),
    {
        match Stamp::now() {
            Some(now) => self.complete_task_at(i, now),
            None => {},
        }
    }

    /// Marks every task pending and clears its completion time.
    pub fn reset_tasks(&mut self)
        ensures
            final(self).tasks@ == reset_all(old(self).tasks@),
            final(self).path == old(self).path,
            all_wf(final(self).tasks@),
    {
        let n = self.tasks.len();
        let mut i: usize = 0;
        while i < n
            invariant
                n == self.tasks@.len(),
                n == old(self).tasks@.len(),
                0 <= i <= n,
                self.path == old(self).path,
                forall|j: int| 0 <= j < i ==> self.tasks@[j] == pending_again(old(self).tasks@[j]),
                forall|j: int| i <= j < n ==> self.tasks@[j] == old(self).tasks@[j],
            decreases n - i,
        {
            self.tasks[i].done = false;
            self.tasks[i].completed_at = None;
            i += 1;
        }
        assert(self.tasks@ =~= reset_all(old(self).tasks@));
    }

    /// The done tasks, in list order.
    pub fn completed_tasks(&self) -> (r: Vec<&Task>)
        ensures
            derefs(r@) == with_status(self.tasks@, true),
    {
        self.tasks_with_status(true)
    }

    /// The pending tasks, in list order.
    pub fn pending_tasks(&self) -> (r: Vec<&Task>)
        ensures
            derefs(r@) == with_status(self.tasks@, false),
    {
        self.tasks_with_status(false)
    }

    fn tasks_with_status(&self, done: bool) -> (r: Vec<&Task>)
        ensures
            derefs(r@) == with_status(self.tasks@, done),
    {
        let mut out: Vec<&Task> = Vec::new();
        let mut i: usize = 0;
        while i < self.tasks.len()
            invariant
                0 <= i <= self.tasks@.len(),
                derefs(out@) == with_status(self.tasks@.subrange(0, i as int), done),
            decreases self.tasks@.len() - i,
        {
            let t = &self.tasks[i];
            let ghost before = out@;
            if t.done == done {
                out.push(t);
                assert(derefs(out@) =~= derefs(before).push(*t));
            }
            proof {
                let s = self.tasks@.subrange(0, i + 1);
                assert(s.drop_last() =~= self.tasks@.subrange(0, i as int));
            }
            i += 1;
        }
        assert(self.tasks@.subrange(0, self.tasks@.len() as int) =~= self.tasks@);
        out
    }
    /// The listing lines of all tasks, in list order.
    pub fn list_tasks(&self) -> (r: Vec<String>)
        ensures
            texts(r@) == lines(self.tasks@),
    {
        let mut out: Vec<String> = Vec::new();
        let mut i: usize = 0;
        while i < self.tasks.len()
            invariant
                0 <= i <= self.tasks@.len(),
                texts(out@) == lines(self.tasks@.subrange(0, i as int)),
            decreases self.tasks@.len() - i,
        {
            let ghost before = out@;
            let line = self.tasks[i].display();
            out.push(line);
            proof {
                assert(self.tasks@.subrange(0, i + 1).drop_last() =~= self.tasks@.subrange(0, i as int));
                assert(texts(out@) =~= texts(before).push(self.tasks@[i as int].line()));
                assert(texts(out@) =~= lines(self.tasks@.subrange(0, i + 1)));
            }
            i += 1;
        }
        assert(self.tasks@.subrange(0, self.tasks@.len() as int) =~= self.tasks@);
        out
    }

    /// The listing lines of the done tasks, in list order.
    pub fn list_completed_tasks(&self) -> (r: Vec<String>)
        ensures
            texts(r@) == lines(with_status(self.tasks@, true)),
    {
        let done = self.completed_tasks();
        lines_of(&done)
    }

    /// The listing lines of the pending tasks, in list order.
    pub fn list_pending_tasks(&self) -> (r: Vec<String>)
        ensures
            texts(r@) == lines(with_status(self.tasks@, false)),
    {
        let pending = self.pending_tasks();
        lines_of(&pending)
    }
}

fn lines_of(tasks: &Vec<&Task>) -> (r: Vec<String>)
    ensures
        texts(r@) == lines(derefs(tasks@)),
{
    let mut out: Vec<String> = Vec::new();
    let mut i: usize = 0;
    while i < tasks.len()
        invariant
            0 <= i <= tasks@.len(),
            texts(out@) == lines(derefs(tasks@).subrange(0, i as int)),
        decreases tasks@.len() - i,
    {
        let ghost before = out@;
        let line = tasks[i].display();
        out.push(line);
        proof {
            assert(texts(out@) =~= texts(before).push(derefs(tasks@)[i as int].line()));
            assert(texts(out@) =~= lines(derefs(tasks@).subrange(0, i + 1)));
        }
        i += 1;
    }
    assert(derefs(tasks@).subrange(0, tasks@.len() as int) =~= derefs(tasks@));
    out
}

/// Completing and resetting keep every task's id at its position, so ids that
/// follow the adds stay so until a removal.
pub proof fn lemma_ids_kept(s: Seq<Task>, p: int, now: Stamp)
    ensures
        completed(s, p, now).len() == s.len(),
        reset_all(s).len() == s.len(),
        forall|k: int| 0 <= k < s.len() ==> #[trigger] completed(s, p, now)[k].id == s[k].id,
        forall|k: int| 0 <= k < s.len() ==> #[trigger] reset_all(s)[k].id == s[k].id,
{
}

/// Completing a position twice leaves it done with the second completion time:
/// the same list as completing it once at that time.
pub proof fn lemma_complete_twice(s: Seq<Task>, p: int, first: Stamp, second: Stamp)
    requires
        valid_position(s, p),
    ensures
        completed(completed(s, p, first), p, second) == completed(s, p, second),
        completed(completed(s, p, first), p, second)[p - 1].done,
        completed(completed(s, p, first), p, second)[p - 1].completed_at == Some(second),
{
    assert(completed(completed(s, p, first), p, second) =~= completed(s, p, second));
}

/// After a reset every task is pending and none is done.
pub proof fn lemma_reset_views(s: Seq<Task>)
    ensures
        with_status(reset_all(s), false) == reset_all(s),
        with_status(reset_all(s), true) == Seq::<Task>::empty(),
    decreases s.len(),
{
    if s.len() > 0 {
        lemma_reset_views(s.drop_last());
        assert(reset_all(s).drop_last() =~= reset_all(s.drop_last()));
        assert(reset_all(s) =~= reset_all(s.drop_last()).push(reset_all(s).last()));
    }
}

/// Removing at a position that names no task (zero, negative, past the end)
/// leaves the list as it was.
pub proof fn lemma_remove_out_of_range(s: Seq<Task>, p: int)
    requires
        p < 1 || p > s.len(),
    ensures
        removed(s, p) == s,
{
}

} // verus!
