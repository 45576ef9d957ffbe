use vstd::prelude::*;

use crate::errors::AppError;
use crate::models::CreateTask;
use crate::models::Task;
use crate::models::TaskPriority;
use crate::models::TaskResponse;
use crate::models::TaskStatus;
use crate::models::UpdateTask;
use crate::models::valid_create_task;
use crate::query::QueryBuilder;
use crate::query::SqlValueView;
use crate::query::build_update_query;
use crate::query::count_task_query;
use crate::query::count_task_sql;
use crate::query::insert_task_query;
use crate::query::insert_task_sql;
use crate::query::params_view;
use crate::query::update_task_params;
use crate::query::update_task_sql;

verus! {

/// Validate a creation payload and produce the insert, with the documented
/// defaults filled in: a task is pending and of medium priority unless the
/// caller says otherwise.
pub fn create_task_prepare(user_id: u128, payload: &CreateTask) -> (r: Result<
    QueryBuilder,
    AppError,
>)
    ensures
        r is Ok <==> valid_create_task(
            payload.title@,
            match payload.description {
                Some(d) => Some(d@),
                None => None,
            },
        ),
        r matches Err(e) ==> e == AppError::ValidationError,
        r matches Ok(q) ==> q.sql@ == insert_task_sql() && params_view(q.params@) == seq![
            SqlValueView::Text(payload.title@),
            SqlValueView::OptText(
                match payload.description {
                    Some(d) => Some(d@),
                    None => None,
                },
            ),
            SqlValueView::Status(
                match payload.status {
                    Some(s) => s,
                    None => TaskStatus::Pending,
                },
            ),
            SqlValueView::Priority(
                match payload.priority {
                    Some(p) => p,
                    None => TaskPriority::Medium,
                },
            ),
            SqlValueView::OptInt(payload.due_date),
            SqlValueView::Id(user_id),
        ],
{
    match payload.validate() {
        Ok(()) => (),
        Err(e) => {
            return Err(e);
        },
    }
    let status = match payload.status {
        Some(s) => s,
        None => TaskStatus::default(),
    };
    let priority = match payload.priority {
        Some(p) => p,
        None => TaskPriority::default(),
    };
    Ok(
        insert_task_query(
            &payload.title,
            &payload.description,
            status,
            priority,
            payload.due_date,
            user_id,
        ),
    )
}

/// Shape a fetched row for the caller, or report that no task with that
/// identifier belongs to this owner.
pub fn get_task_decide(row: Option<Task>) -> (r: Result<TaskResponse, AppError>)
    ensures
        row is None ==> r == Err::<TaskResponse, AppError>(AppError::TaskNotFound),
        row matches Some(t) ==> (r matches Ok(tr) && tr@ == t@),
{
    match row {
        Some(t) => Ok(TaskResponse::from(t)),
        None => Err(AppError::TaskNotFound),
    }
}

/// Shape every fetched row for the caller, keeping order and count.
pub fn tasks_to_responses(tasks: Vec<Task>) -> (r: Vec<TaskResponse>)
    ensures
        r@.len() == tasks@.len(),
        forall|i: int| 0 <= i < tasks@.len() ==> r@[i]@ == tasks@[i]@,
{
    let mut out: Vec<TaskResponse> = Vec::new();
    let mut idx: usize = 0;
    while idx < tasks.len()
        invariant
            idx <= tasks@.len(),
            out@.len() == idx,
            forall|i: int| 0 <= i < idx ==> out@[i]@ == tasks@[i]@,
        decreases tasks@.len() - idx,
    {
        let t = tasks[idx].duplicate();
        out.push(TaskResponse::from(t));
        idx = idx + 1;
    }
    out
}

/// First step of a partial update: validate the supplied field set, before
/// any store access — an empty set is a validation failure and no statement
/// of any kind is produced — then produce the owner-scoped existence check.
pub fn update_task_precheck(task_id: u128, user_id: u128, payload: &UpdateTask) -> (r: Result<
    QueryBuilder,
    AppError,
>)
    ensures
        r is Ok <==> payload.spec_valid(),
        r matches Err(e) ==> e == AppError::ValidationError,
        r matches Ok(q) ==> q.sql@ == count_task_sql() && params_view(q.params@) == seq![
            SqlValueView::Id(task_id),
            SqlValueView::Id(user_id),
        ],
{
    match payload.validate() {
        Ok(()) => Ok(count_task_query(task_id, user_id)),
        Err(e) => Err(e),
    }
}

/// Second step of a partial update, given the existence count: a task that
/// is absent or belongs to another owner is the same not-found outcome;
/// otherwise the single-statement update over exactly the supplied fields
/// is produced.
pub fn update_task_prepare(
    task_id: u128,
    user_id: u128,
    payload: &UpdateTask,
    existing_count: i64,
) -> (r: Result<QueryBuilder, AppError>)
    ensures
        r is Ok <==> payload.spec_valid() && existing_count != 0,
        !payload.spec_valid() ==> r == Err::<QueryBuilder, AppError>(AppError::ValidationError),
        payload.spec_valid() && existing_count == 0 ==> r == Err::<QueryBuilder, AppError>(
            AppError::TaskNotFound,
        ),
        r matches Ok(q) ==> q.sql@ == update_task_sql(
            payload.title is Some,
            payload.description is Some,
            payload.status is Some,
            payload.priority is Some,
            payload.due_date is Some,
        ) && params_view(q.params@) == update_task_params(task_id, user_id, payload),
{
    match payload.validate() {
        Ok(()) => (),
        Err(e) => {
            return Err(e);
        },
    }
    if existing_count == 0 {
        return Err(AppError::TaskNotFound);
    }
    Ok(build_update_query(task_id, user_id, payload))
}

/// Judge the outcome of the owner-scoped delete: zero affected rows — a
/// task that is absent or belongs to another owner — is the same not-found
/// outcome; otherwise the delete took effect.
pub fn delete_task_decide(rows_affected: u64) -> (r: Result<(), AppError>)
    ensures
        rows_affected == 0 ==> r == Err::<(), AppError>(AppError::TaskNotFound),
        rows_affected > 0 ==> r == Ok::<(), AppError>(()),
{
    if rows_affected == 0 {
        Err(AppError::TaskNotFound)
    } else {
        Ok(())
    }
}

} // verus!
