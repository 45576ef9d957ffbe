use task_service::errors::AppError;
use task_service::models::CreateTask;
use task_service::models::Pagination;
use task_service::models::TaskPriority;
use task_service::models::TaskStatus;
use task_service::models::UpdateTask;
use task_service::query::SqlValue;
use task_service::query::build_list_query;
use task_service::query::build_update_query;
use task_service::query::count_task_query;
use task_service::query::delete_task_query;
use task_service::query::task_by_id_query;
use task_service::tasks::create_task_prepare;
use task_service::tasks::delete_task_decide;
use task_service::tasks::update_task_precheck;
use task_service::tasks::update_task_prepare;

fn empty_update() -> UpdateTask {
    UpdateTask { title: None, description: None, status: None, priority: None, due_date: None }
}

fn page(
    page: Option<i64>,
    per_page: Option<i64>,
    status: Option<TaskStatus>,
    priority: Option<TaskPriority>,
) -> Pagination {
    Pagination { page, per_page, status, priority }
}

#[test]
fn listing_without_filters() {
    let q = build_list_query(1, &page(None, None, None, None)).unwrap();
    assert_eq!(
        q.sql,
        "SELECT * FROM tasks WHERE user_id = $1 ORDER BY created_at DESC LIMIT $2 OFFSET $3"
    );
    assert!(matches!(q.params[0], SqlValue::Id(1)));
    assert!(matches!(q.params[1], SqlValue::Int(10)));
    assert!(matches!(q.params[2], SqlValue::Int(0)));
}

#[test]
fn listing_with_status_filter_only() {
    let q = build_list_query(1, &page(None, None, Some(TaskStatus::Pending), None)).unwrap();
    assert_eq!(
        q.sql,
        "SELECT * FROM tasks WHERE user_id = $1 AND status = $2 ORDER BY created_at DESC LIMIT $3 OFFSET $4"
    );
    assert!(matches!(q.params[1], SqlValue::Status(TaskStatus::Pending)));
    assert!(matches!(q.params[2], SqlValue::Int(10)));
    assert!(matches!(q.params[3], SqlValue::Int(0)));
}

#[test]
fn listing_with_priority_filter_only() {
    let q = build_list_query(1, &page(None, None, None, Some(TaskPriority::High))).unwrap();
    assert_eq!(
        q.sql,
        "SELECT * FROM tasks WHERE user_id = $1 AND priority = $2 ORDER BY created_at DESC LIMIT $3 OFFSET $4"
    );
    assert!(matches!(q.params[1], SqlValue::Priority(TaskPriority::High)));
}

#[test]
fn listing_with_both_filters() {
    let q = build_list_query(
        1,
        &page(Some(3), Some(5), Some(TaskStatus::Completed), Some(TaskPriority::Low)),
    )
    .unwrap();
    assert_eq!(
        q.sql,
        "SELECT * FROM tasks WHERE user_id = $1 AND status = $2 AND priority = $3 ORDER BY created_at DESC LIMIT $4 OFFSET $5"
    );
    assert!(matches!(q.params[1], SqlValue::Status(TaskStatus::Completed)));
    assert!(matches!(q.params[2], SqlValue::Priority(TaskPriority::Low)));
    assert!(matches!(q.params[3], SqlValue::Int(5)));
    assert!(matches!(q.params[4], SqlValue::Int(10)));
}

#[test]
fn pagination_is_defaulted_capped_and_validated() {
    // Out-of-domain values are rejected before any store access.
    assert_eq!(
        build_list_query(1, &page(Some(0), None, None, None)).unwrap_err(),
        AppError::ValidationError
    );
    assert_eq!(
        build_list_query(1, &page(Some(-5), None, None, None)).unwrap_err(),
        AppError::ValidationError
    );
    assert_eq!(
        build_list_query(1, &page(Some(i64::MAX), None, None, None)).unwrap_err(),
        AppError::ValidationError
    );
    assert_eq!(
        build_list_query(1, &page(None, Some(-1), None, None)).unwrap_err(),
        AppError::ValidationError
    );
    // A zero page size is allowed and asks for an empty page.
    let q = build_list_query(1, &page(None, Some(0), None, None)).unwrap();
    assert!(matches!(q.params[1], SqlValue::Int(0)));
    assert!(matches!(q.params[2], SqlValue::Int(0)));
    // The page size is capped; the offset follows the capped size.
    let q = build_list_query(1, &page(Some(2), Some(1_000_000), None, None)).unwrap();
    assert!(matches!(q.params[1], SqlValue::Int(100)));
    assert!(matches!(q.params[2], SqlValue::Int(100)));
    // The exact offset formula: (page - 1) * page_size.
    let q = build_list_query(1, &page(Some(4), Some(25), None, None)).unwrap();
    assert!(matches!(q.params[1], SqlValue::Int(25)));
    assert!(matches!(q.params[2], SqlValue::Int(75)));
    // The largest accepted page number still binds an in-range offset.
    let q = build_list_query(1, &page(Some(92_233_720_368_547_758), Some(100), None, None))
        .unwrap();
    assert!(matches!(q.params[1], SqlValue::Int(100)));
    assert!(matches!(q.params[2], SqlValue::Int(9_223_372_036_854_775_700)));
}

#[test]
fn update_with_one_field_has_no_leading_comma() {
    let u = UpdateTask { title: Some("new title".to_owned()), ..empty_update() };
    let q = build_update_query(8, 2, &u);
    assert_eq!(q.sql, "UPDATE tasks SET title = $1 WHERE id = $2 AND user_id = $3 RETURNING *");
    assert!(matches!(&q.params[0], SqlValue::Text(s) if s == "new title"));
    assert!(matches!(q.params[1], SqlValue::Id(8)));
    assert!(matches!(q.params[2], SqlValue::Id(2)));
}

#[test]
fn update_with_a_sparse_field_subset_keeps_commas_and_indices_aligned() {
    let u = UpdateTask {
        description: Some("notes".to_owned()),
        priority: Some(TaskPriority::Urgent),
        ..empty_update()
    };
    let q = build_update_query(8, 2, &u);
    assert_eq!(
        q.sql,
        "UPDATE tasks SET description = $1, priority = $2 WHERE id = $3 AND user_id = $4 RETURNING *"
    );
    assert!(matches!(&q.params[0], SqlValue::Text(s) if s == "notes"));
    assert!(matches!(q.params[1], SqlValue::Priority(TaskPriority::Urgent)));
    assert!(matches!(q.params[2], SqlValue::Id(8)));
    assert!(matches!(q.params[3], SqlValue::Id(2)));
}

#[test]
fn update_with_every_field_present() {
    let u = UpdateTask {
        title: Some("t".to_owned()),
        description: Some("d".to_owned()),
        status: Some(TaskStatus::Archived),
        priority: Some(TaskPriority::Low),
        due_date: Some(123),
    };
    let q = build_update_query(8, 2, &u);
    assert_eq!(
        q.sql,
        "UPDATE tasks SET title = $1, description = $2, status = $3, priority = $4, due_date = $5 WHERE id = $6 AND user_id = $7 RETURNING *"
    );
    assert_eq!(q.params.len(), 7);
}

#[test]
fn empty_update_fails_validation_and_reaches_no_statement() {
    let u = empty_update();
    assert_eq!(u.validate().unwrap_err(), AppError::ValidationError);
    assert_eq!(update_task_precheck(8, 2, &u).unwrap_err(), AppError::ValidationError);
    assert_eq!(update_task_prepare(8, 2, &u, 1).unwrap_err(), AppError::ValidationError);
}

#[test]
fn update_of_absent_or_foreign_task_is_not_found() {
    let u = UpdateTask { title: Some("t".to_owned()), ..empty_update() };
    assert_eq!(update_task_prepare(8, 2, &u, 0).unwrap_err(), AppError::TaskNotFound);
    assert!(update_task_prepare(8, 2, &u, 1).is_ok());
}

#[test]
fn update_length_bounds_are_enforced() {
    let u = UpdateTask { title: Some(String::new()), ..empty_update() };
    assert_eq!(u.validate().unwrap_err(), AppError::ValidationError);
    let u = UpdateTask { title: Some("x".repeat(256)), ..empty_update() };
    assert_eq!(u.validate().unwrap_err(), AppError::ValidationError);
    let u = UpdateTask { description: Some("x".repeat(1001)), ..empty_update() };
    assert_eq!(u.validate().unwrap_err(), AppError::ValidationError);
    let u = UpdateTask { description: Some("x".repeat(1000)), ..empty_update() };
    assert!(u.validate().is_ok());
}

#[test]
fn create_task_fills_documented_defaults() {
    let p = CreateTask {
        title: "buy milk".to_owned(),
        description: None,
        status: None,
        priority: None,
        due_date: None,
    };
    let q = create_task_prepare(2, &p).unwrap();
    assert_eq!(
        q.sql,
        "INSERT INTO tasks (title, description, status, priority, due_date, user_id) VALUES ($1, $2, $3, $4, $5, $6) RETURNING *"
    );
    assert!(matches!(&q.params[0], SqlValue::Text(s) if s == "buy milk"));
    assert!(matches!(q.params[1], SqlValue::OptText(None)));
    assert!(matches!(q.params[2], SqlValue::Status(TaskStatus::Pending)));
    assert!(matches!(q.params[3], SqlValue::Priority(TaskPriority::Medium)));
    assert!(matches!(q.params[4], SqlValue::OptInt(None)));
    assert!(matches!(q.params[5], SqlValue::Id(2)));
}

#[test]
fn create_task_title_bounds() {
    let p = CreateTask {
        title: String::new(),
        description: None,
        status: None,
        priority: None,
        due_date: None,
    };
    assert_eq!(create_task_prepare(2, &p).unwrap_err(), AppError::ValidationError);
    let p = CreateTask {
        title: "x".repeat(256),
        description: None,
        status: None,
        priority: None,
        due_date: None,
    };
    assert_eq!(create_task_prepare(2, &p).unwrap_err(), AppError::ValidationError);
}

#[test]
fn scoped_single_row_statements() {
    let q = task_by_id_query(8, 2);
    assert_eq!(q.sql, "SELECT * FROM tasks WHERE id = $1 AND user_id = $2");
    let q = count_task_query(8, 2);
    assert_eq!(q.sql, "SELECT COUNT(*) FROM tasks WHERE id = $1 AND user_id = $2");
    let q = delete_task_query(8, 2);
    assert_eq!(q.sql, "DELETE FROM tasks WHERE id = $1 AND user_id = $2");
}

#[test]
fn delete_outcome_follows_affected_rows() {
    assert_eq!(delete_task_decide(0).unwrap_err(), AppError::TaskNotFound);
    assert!(delete_task_decide(1).is_ok());
}
