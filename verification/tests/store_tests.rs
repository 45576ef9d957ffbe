use task_service::models::Task;
use task_service::models::TaskPriority;
use task_service::models::TaskStatus;
use task_service::models::UpdateTask;
use task_service::store::TaskStore;

fn task(id: u128, user_id: u128, status: TaskStatus, priority: TaskPriority, at: i64) -> Task {
    Task {
        id,
        title: format!("task {}", id),
        description: None,
        status,
        priority,
        due_date: None,
        user_id,
        created_at: at,
        updated_at: at,
    }
}

fn seeded() -> TaskStore {
    let mut s = TaskStore::new();
    s.insert_task(task(1, 1, TaskStatus::Pending, TaskPriority::Low, 100));
    s.insert_task(task(2, 1, TaskStatus::Completed, TaskPriority::High, 200));
    s.insert_task(task(3, 2, TaskStatus::Pending, TaskPriority::High, 300));
    s.insert_task(task(4, 1, TaskStatus::Pending, TaskPriority::High, 400));
    s.insert_task(task(5, 1, TaskStatus::Archived, TaskPriority::Low, 500));
    s
}

fn ids(rows: &[Task]) -> Vec<u128> {
    rows.iter().map(|t| t.id).collect()
}

#[test]
fn listing_unfiltered_returns_owners_tasks_newest_first() {
    let s = seeded();
    let rows = s.list_tasks(1, None, None, 0, 10);
    assert_eq!(ids(&rows), vec![5, 4, 2, 1]);
}

#[test]
fn listing_with_status_filter() {
    let s = seeded();
    let rows = s.list_tasks(1, Some(TaskStatus::Pending), None, 0, 10);
    assert_eq!(ids(&rows), vec![4, 1]);
}

#[test]
fn listing_with_priority_filter() {
    let s = seeded();
    let rows = s.list_tasks(1, None, Some(TaskPriority::High), 0, 10);
    assert_eq!(ids(&rows), vec![4, 2]);
}

#[test]
fn listing_with_both_filters_never_leaks_other_owners() {
    let s = seeded();
    let rows = s.list_tasks(1, Some(TaskStatus::Pending), Some(TaskPriority::High), 0, 10);
    // Task 3 also matches both filters but belongs to another owner.
    assert_eq!(ids(&rows), vec![4]);
    for t in &rows {
        assert_eq!(t.user_id, 1);
    }
}

#[test]
fn listing_pages_clip_to_what_is_there() {
    let s = seeded();
    assert_eq!(ids(&s.list_tasks(1, None, None, 0, 2)), vec![5, 4]);
    assert_eq!(ids(&s.list_tasks(1, None, None, 2, 2)), vec![2, 1]);
    assert_eq!(ids(&s.list_tasks(1, None, None, 4, 2)), Vec::<u128>::new());
    assert_eq!(ids(&s.list_tasks(1, None, None, 100, 2)), Vec::<u128>::new());
}

#[test]
fn update_of_foreign_task_mutates_nothing() {
    let mut s = seeded();
    let u = UpdateTask {
        title: Some("hijacked".to_owned()),
        description: None,
        status: None,
        priority: None,
        due_date: None,
    };
    // Task 3 exists but belongs to owner 2: for owner 1 it is not found.
    assert!(s.update_task(3, 1, &u, 999).is_none());
    assert!(s.update_task(77, 1, &u, 999).is_none());
    let rows = s.list_tasks(2, None, None, 0, 10);
    assert_eq!(rows[0].title, "task 3");
    assert_eq!(rows[0].updated_at, 300);
}

#[test]
fn update_of_one_field_leaves_the_others_and_advances_the_timestamp() {
    let mut s = seeded();
    let u = UpdateTask {
        title: None,
        description: None,
        status: Some(TaskStatus::InProgress),
        priority: None,
        due_date: None,
    };
    let t = s.update_task(2, 1, &u, 777).unwrap();
    assert_eq!(t.id, 2);
    assert_eq!(t.status, TaskStatus::InProgress);
    assert_eq!(t.title, "task 2");
    assert_eq!(t.priority, TaskPriority::High);
    assert_eq!(t.created_at, 200);
    assert_eq!(t.updated_at, 777);
    // Other rows are untouched.
    let rows = s.list_tasks(1, None, None, 0, 10);
    assert_eq!(ids(&rows), vec![5, 4, 2, 1]);
    assert_eq!(rows[3].updated_at, 100);
}

#[test]
fn delete_of_absent_or_foreign_task_removes_nothing() {
    let mut s = seeded();
    assert!(!s.delete_task(77, 1));
    assert!(!s.delete_task(3, 1));
    assert_eq!(s.list_tasks(1, None, None, 0, 10).len(), 4);
    assert_eq!(s.list_tasks(2, None, None, 0, 10).len(), 1);
}

#[test]
fn delete_of_owned_task_removes_exactly_one_row() {
    let mut s = seeded();
    assert!(s.delete_task(2, 1));
    let rows = s.list_tasks(1, None, None, 0, 10);
    assert_eq!(ids(&rows), vec![5, 4, 1]);
    assert_eq!(s.list_tasks(2, None, None, 0, 10).len(), 1);
}

#[test]
fn find_task_is_owner_scoped() {
    let s = seeded();
    assert_eq!(s.find_task(2, 1).unwrap().id, 2);
    assert!(s.find_task(3, 1).is_none());
    assert!(s.find_task(77, 1).is_none());
}
