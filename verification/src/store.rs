use vstd::prelude::*;

use crate::models::Task;
use crate::models::TaskPriority;
use crate::models::TaskStatus;
use crate::models::TaskView;
use crate::models::UpdateTask;

verus! {

/// Whether a task row passes the listing filters of one owner: the owner
/// predicate always applies, each of the two optional predicates only when
/// present.
pub open spec fn task_matches(
    t: TaskView,
    user_id: u128,
    status: Option<TaskStatus>,
    priority: Option<TaskPriority>,
) -> bool {
    &&& t.user_id == user_id
    &&& (status matches Some(s) ==> t.status == s)
    &&& (priority matches Some(p) ==> t.priority == p)
}

/// Whether a row is the one a task identifier names, scoped by owner: a row
/// of another owner is never it.
pub open spec fn task_owned(t: TaskView, task_id: u128, user_id: u128) -> bool {
    t.id == task_id && t.user_id == user_id
}

/// One page of a sequence: `limit` entries from `offset`, clipped to what
/// is there.
pub open spec fn page_of(q: Seq<TaskView>, offset: int, limit: int) -> Seq<TaskView> {
    let start = if offset > q.len() {
        q.len() as int
    } else {
        offset
    };
    let end = if offset + limit > q.len() {
        q.len() as int
    } else {
        offset + limit
    };
    q.subrange(start, end)
}

/// The listing filters of one owner, as a single predicate.
pub open spec fn list_pred(
    user_id: u128,
    status: Option<TaskStatus>,
    priority: Option<TaskPriority>,
) -> spec_fn(TaskView) -> bool {
    |t: TaskView| task_matches(t, user_id, status, priority)
}

/// What a filtered listing returns over a table held in creation order:
/// exactly the owner's rows passing the filters, newest first, then the
/// requested page.
pub open spec fn list_result(
    s: Seq<TaskView>,
    user_id: u128,
    status: Option<TaskStatus>,
    priority: Option<TaskPriority>,
    offset: int,
    limit: int,
) -> Seq<TaskView> {
    page_of(s.filter(list_pred(user_id, status, priority)).reverse(), offset, limit)
}

/// A row after a partial update: each supplied field replaced, every other
/// field kept, and the update timestamp advanced to `now`.
pub open spec fn patched_view(t: TaskView, u: &UpdateTask, now: i64) -> TaskView {
    TaskView {
        id: t.id,
        title: match u.title {
            Some(s) => s@,
            None => t.title,
        },
        description: match u.description {
            Some(d) => Some(d@),
            None => t.description,
        },
        status: match u.status {
            Some(s) => s,
            None => t.status,
        },
        priority: match u.priority {
            Some(p) => p,
            None => t.priority,
        },
        due_date: match u.due_date {
            Some(d) => Some(d),
            None => t.due_date,
        },
        user_id: t.user_id,
        created_at: t.created_at,
        updated_at: now,
    }
}

/// The reference model of the task table: rows in creation order. It gives
/// the parameterized statements their intended meaning, and the ownership
/// and filtering guarantees are proved against it.
#[derive(Debug)]
pub struct TaskStore {
    pub tasks: Vec<Task>,
}

impl View for TaskStore {
    type V = Seq<TaskView>;

    open spec fn view(&self) -> Seq<TaskView> {
        self.tasks@.map_values(|t: Task| t@)
    }
}

/// The rows of a fetched page, as mathematical values.
pub open spec fn rows_view(r: Seq<Task>) -> Seq<TaskView> {
    r.map_values(|t: Task| t@)
}

impl TaskStore {
    /// An empty table.
    pub fn new() -> (r: TaskStore)
        ensures
            r@ == Seq::<TaskView>::empty(),
    {
        let r = TaskStore { tasks: Vec::new() };
        proof {
            assert(r@ =~= Seq::<TaskView>::empty());
        }
        r
    }

    /// Append a freshly created row.
    pub fn insert_task(&mut self, t: Task)
        ensures
            final(self)@ == old(self)@.push(t@),
    {
        let ghost tv = t@;
        self.tasks.push(t);
        proof {
            assert(self@ =~= old(self)@.push(tv));
        }
    }

    /// The filtered, paginated listing of one owner's tasks, newest first:
    /// exactly the owner's rows that pass the supplied filters, in reverse
    /// creation order, clipped to the requested page. A row of another
    /// owner is never returned, whichever filters are present.
    pub fn list_tasks(
        &self,
        user_id: u128,
        status: Option<TaskStatus>,
        priority: Option<TaskPriority>,
        offset: usize,
        limit: usize,
    ) -> (r: Vec<Task>)
        ensures
            rows_view(r@) == list_result(self@, user_id, status, priority, offset as int, limit as int),
    {
        broadcast use vstd::seq_lib::group_seq_properties;

        let mut matched: Vec<Task> = Vec::new();
        let mut i: usize = 0;
        while i < self.tasks.len()
            invariant
                i <= self.tasks@.len(),
                rows_view(matched@) == self@.take(i as int).filter(
                    list_pred(user_id, status, priority),
                ),
            decreases self.tasks@.len() - i,
        {
            let t = &self.tasks[i];
            let status_ok = match status {
                Some(s) => t.status == s,
                None => true,
            };
            let priority_ok = match priority {
                Some(p) => t.priority == p,
                None => true,
            };
            let is_match = t.user_id == user_id && status_ok && priority_ok;
            let ghost prev = rows_view(matched@);
            proof {
                assert(self@[i as int] == self.tasks@[i as int]@);
                assert(is_match == task_matches(self@[i as int], user_id, status, priority));
                assert(list_pred(user_id, status, priority)(self@[i as int]) == task_matches(
                    self@[i as int],
                    user_id,
                    status,
                    priority,
                ));
            }
            if is_match {
                matched.push(t.duplicate());
            }
            proof {
                assert(self@.take(i as int + 1) =~= self@.take(i as int).push(self@[i as int]));
                self@.take(i as int).lemma_filter_push(
                    self@[i as int],
                    list_pred(user_id, status, priority),
                );
                if task_matches(self@[i as int], user_id, status, priority) {
                    assert(rows_view(matched@) =~= prev.push(self@[i as int]));
                } else {
                    assert(rows_view(matched@) =~= prev);
                }
                assert(rows_view(matched@) == self@.take(i as int + 1).filter(
                    list_pred(user_id, status, priority),
                ));
            }
            i = i + 1;
        }
        proof {
            assert(self@.take(self.tasks@.len() as int) =~= self@);
        }
        let m = matched.len();
        let mut newest_first: Vec<Task> = Vec::new();
        let mut j: usize = 0;
        while j < m
            invariant
                m == matched@.len(),
                j <= m,
                newest_first@.len() == j,
                forall|k: int| 0 <= k < j ==> newest_first@[k]@ == matched@[m - 1 - k]@,
            decreases m - j,
        {
            newest_first.push(matched[m - 1 - j].duplicate());
            j = j + 1;
        }
        proof {
            assert(rows_view(newest_first@) =~= rows_view(matched@).reverse());
        }
        let mut out: Vec<Task> = Vec::new();
        let mut k: usize = offset;
        while k < newest_first.len() && out.len() < limit
            invariant
                k >= offset,
                out@.len() == k - offset,
                out@.len() <= limit,
                k <= newest_first@.len() || k == offset,
                forall|x: int| 0 <= x < out@.len() ==> out@[x]@ == newest_first@[offset + x]@,
            decreases newest_first@.len() - k,
        {
            out.push(newest_first[k].duplicate());
            k = k + 1;
        }
        proof {
            let q = rows_view(newest_first@);
            assert(rows_view(out@) =~= page_of(q, offset as int, limit as int));
            assert(rows_view(out@) =~= list_result(
                self@,
                user_id,
                status,
                priority,
                offset as int,
                limit as int,
            ));
        }
        out
    }

    /// The single-task lookup, scoped by owner: the first row the
    /// identifier names for this owner, or nothing when no such row exists
    /// — a row of another owner counts as absent.
    pub fn find_task(&self, task_id: u128, user_id: u128) -> (r: Option<Task>)
        ensures
            r is None <==> (forall|i: int|
                0 <= i < self@.len() ==> !task_owned(#[trigger] self@[i], task_id, user_id)),
            r matches Some(t) ==> exists|i: int|
                0 <= i < self@.len() && task_owned(#[trigger] self@[i], task_id, user_id) && t@
                    == self@[i],
    {
        let mut i: usize = 0;
        while i < self.tasks.len()
            invariant
                i <= self.tasks@.len(),
                forall|j: int| 0 <= j < i ==> !task_owned(#[trigger] self@[j], task_id, user_id),
            decreases self.tasks@.len() - i,
        {
            let t = &self.tasks[i];
            if t.id == task_id && t.user_id == user_id {
                let r = t.duplicate();
                proof {
                    assert(self@[i as int] == self.tasks@[i as int]@);
                    assert(task_owned(self@[i as int], task_id, user_id));
                    assert(r@ == self@[i as int]);
                }
                return Some(r);
            }
            i = i + 1;
        }
        None
    }

    /// The partial update, scoped by owner: when the identifier names no
    /// row of this owner — wrong id, or a row of another owner — nothing at
    /// all changes; otherwise exactly that row is replaced by its patched
    /// value, every other row untouched, and the updated row is returned.
    pub fn update_task(&mut self, task_id: u128, user_id: u128, u: &UpdateTask, now: i64) -> (r:
        Option<Task>)
        ensures
            r is None <==> (forall|i: int|
                0 <= i < old(self)@.len() ==> !task_owned(
                    #[trigger] old(self)@[i],
                    task_id,
                    user_id,
                )),
            r is None ==> final(self)@ == old(self)@,
            r matches Some(t) ==> exists|i: int|
                0 <= i < old(self)@.len() && task_owned(#[trigger] old(self)@[i], task_id, user_id)
                    && t@ == patched_view(old(self)@[i], u, now) && final(self)@ == old(
                    self,
                )@.update(i, t@),
    {
        let mut i: usize = 0;
        while i < self.tasks.len()
            invariant
                i <= self.tasks@.len(),
                self@ == old(self)@,
                self.tasks@.len() == old(self)@.len(),
                forall|j: int| 0 <= j < i ==> !task_owned(#[trigger] self@[j], task_id, user_id),
            decreases self.tasks@.len() - i,
        {
            let hit = self.tasks[i].id == task_id && self.tasks[i].user_id == user_id;
            if hit {
                proof {
                    assert(self@[i as int] == self.tasks@[i as int]@);
                    assert(task_owned(old(self)@[i as int], task_id, user_id));
                }
                let t_old = self.tasks[i].duplicate();
                let patched = Task {
                    id: t_old.id,
                    title: match &u.title {
                        Some(s) => s.clone(),
                        None => t_old.title,
                    },
                    description: match &u.description {
                        Some(d) => Some(d.clone()),
                        None => t_old.description,
                    },
                    status: match u.status {
                        Some(s) => s,
                        None => t_old.status,
                    },
                    priority: match u.priority {
                        Some(p) => p,
                        None => t_old.priority,
                    },
                    due_date: match u.due_date {
                        Some(d) => Some(d),
                        None => t_old.due_date,
                    },
                    user_id: t_old.user_id,
                    created_at: t_old.created_at,
                    updated_at: now,
                };
                let result = patched.duplicate();
                let ghost pv = patched@;
                let _ = self.tasks.remove(i);
                self.tasks.insert(i, patched);
                proof {
                    assert(pv == patched_view(old(self)@[i as int], u, now));
                    assert(self@ =~= old(self)@.update(i as int, pv));
                }
                return Some(result);
            }
            i = i + 1;
        }
        None
    }

    /// The delete, scoped by owner: when the identifier names no row of
    /// this owner, nothing changes and nothing is reported deleted;
    /// otherwise exactly one row — that one — is removed.
    pub fn delete_task(&mut self, task_id: u128, user_id: u128) -> (r: bool)
        ensures
            !r <==> (forall|i: int|
                0 <= i < old(self)@.len() ==> !task_owned(
                    #[trigger] old(self)@[i],
                    task_id,
                    user_id,
                )),
            !r ==> final(self)@ == old(self)@,
            r ==> exists|i: int|
                0 <= i < old(self)@.len() && task_owned(#[trigger] old(self)@[i], task_id, user_id)
                    && final(self)@ == old(self)@.remove(i),
            r ==> final(self)@.len() == old(self)@.len() - 1,
    {
        let mut i: usize = 0;
        while i < self.tasks.len()
            invariant
                i <= self.tasks@.len(),
                self@ == old(self)@,
                self.tasks@.len() == old(self)@.len(),
                forall|j: int| 0 <= j < i ==> !task_owned(#[trigger] self@[j], task_id, user_id),
            decreases self.tasks@.len() - i,
        {
            let hit = self.tasks[i].id == task_id && self.tasks[i].user_id == user_id;
            if hit {
                proof {
                    assert(self@[i as int] == self.tasks@[i as int]@);
                    assert(task_owned(old(self)@[i as int], task_id, user_id));
                }
                let _ = self.tasks.remove(i);
                proof {
                    assert(self@ =~= old(self)@.remove(i as int));
                }
                return true;
            }
            i = i + 1;
        }
        false
    }
}

/// Every row a listing returns belongs to the requesting owner and passes
/// every present filter, for each of the four combinations of the two
/// optional predicates.
pub proof fn lemma_listed_tasks_match(
    s: Seq<TaskView>,
    user_id: u128,
    status: Option<TaskStatus>,
    priority: Option<TaskPriority>,
    offset: int,
    limit: int,
)
    requires
        offset >= 0,
        limit >= 0,
    ensures
        forall|k: int|
            0 <= k < list_result(s, user_id, status, priority, offset, limit).len()
                ==> task_matches(
                #[trigger] list_result(s, user_id, status, priority, offset, limit)[k],
                user_id,
                status,
                priority,
            ),
{
    let pred = list_pred(user_id, status, priority);
    let f = s.filter(pred);
    let q = f.reverse();
    let result = list_result(s, user_id, status, priority, offset, limit);
    assert forall|k: int| 0 <= k < result.len() implies task_matches(
        result[k],
        user_id,
        status,
        priority,
    ) by {
        let start = if offset > q.len() {
            q.len() as int
        } else {
            offset
        };
        let end = if offset + limit > q.len() {
            q.len() as int
        } else {
            offset + limit
        };
        assert(q.len() == f.len());
        assert(result.len() == end - start);
        assert(0 <= start + k < q.len());
        assert(result[k] == q[start + k]);
        assert(q[start + k] == f[f.len() - 1 - (start + k)]);
        s.lemma_filter_pred(pred, f.len() - 1 - (start + k));
        assert(pred(result[k]));
    }
}

/// A partial update touches no other row: every row but the patched one is
/// exactly what it was.
pub proof fn lemma_update_leaves_others(s: Seq<TaskView>, i: int, v: TaskView)
    requires
        0 <= i < s.len(),
    ensures
        forall|j: int| 0 <= j < s.len() && j != i ==> s.update(i, v)[j] == s[j],
        s.update(i, v).len() == s.len(),
{
}

/// A patch replaces exactly the supplied fields: whatever was not supplied
/// — the identifier, the owner, the creation timestamp, and every absent
/// field — keeps its old value, and the update timestamp becomes `now`.
pub proof fn lemma_patch_keeps_unsupplied(t: TaskView, u: &UpdateTask, now: i64)
    ensures
        patched_view(t, u, now).id == t.id,
        patched_view(t, u, now).user_id == t.user_id,
        patched_view(t, u, now).created_at == t.created_at,
        patched_view(t, u, now).updated_at == now,
        u.title is None ==> patched_view(t, u, now).title == t.title,
        u.description is None ==> patched_view(t, u, now).description == t.description,
        u.status is None ==> patched_view(t, u, now).status == t.status,
        u.priority is None ==> patched_view(t, u, now).priority == t.priority,
        u.due_date is None ==> patched_view(t, u, now).due_date == t.due_date,
{
}

} // verus!
