use vstd::prelude::*;
use vstd::string::StrSliceExecFns;

use crate::errors::AppError;
use crate::validation::is_valid_email;
use crate::validation::email_ok;

verus! {

/// Lifecycle state of a task. The enum order suggests a progression but no
/// transition rule is enforced: any status may be changed to any other.
#[derive(Debug, Clone, Copy, PartialEq, Eq, Structural)]
pub enum TaskStatus {
    Pending,
    InProgress,
    Completed,
    Archived,
}

impl Default for TaskStatus {
    /// A newly created task is pending unless the caller says otherwise.
    fn default() -> (r: Self)
        ensures
            r == TaskStatus::Pending,
    {
        TaskStatus::Pending
    }
}

impl TaskStatus {
    /// Every carried variant is a known one, so a status value is always valid.
    pub fn validate(&self) -> (r: Result<(), AppError>)
        ensures
            r is Ok,
    {
        Ok(())
    }
}

/// Priority of a task.
#[derive(Debug, Clone, Copy, PartialEq, Eq, Structural)]
pub enum TaskPriority {
    Low,
    Medium,
    High,
    Urgent,
}

impl Default for TaskPriority {
    fn default() -> (r: Self)
        ensures
            r == TaskPriority::Medium,
    {
        TaskPriority::Medium
    }
}

impl TaskPriority {
    pub fn validate(&self) -> (r: Result<(), AppError>)
        ensures
            r is Ok,
    {
        Ok(())
    }
}

/// A persisted task row. Identifiers are 128-bit values (the HTTP layer maps
/// them to and from its own identifier type); timestamps are Unix seconds.
#[derive(Debug)]
pub struct Task {
    pub id: u128,
    pub title: String,
    pub description: Option<String>,
    pub status: TaskStatus,
    pub priority: TaskPriority,
    pub due_date: Option<i64>,
    pub user_id: u128,
    pub created_at: i64,
    pub updated_at: i64,
}

/// The mathematical value of a task row: every text field as a character
/// sequence.
pub struct TaskView {
    pub id: u128,
    pub title: Seq<char>,
    pub description: Option<Seq<char>>,
    pub status: TaskStatus,
    pub priority: TaskPriority,
    pub due_date: Option<i64>,
    pub user_id: u128,
    pub created_at: i64,
    pub updated_at: i64,
}

impl View for Task {
    type V = TaskView;

    open spec fn view(&self) -> TaskView {
        TaskView {
            id: self.id,
            title: self.title@,
            description: match self.description {
                Some(d) => Some(d@),
                None => None,
            },
            status: self.status,
            priority: self.priority,
            due_date: self.due_date,
            user_id: self.user_id,
            created_at: self.created_at,
            updated_at: self.updated_at,
        }
    }
}

impl Task {
    /// A field-for-field copy of the row.
    pub fn duplicate(&self) -> (r: Task)
        ensures
            r@ == self@,
    {
        Task {
            id: self.id,
            title: self.title.clone(),
            description: match &self.description {
                Some(d) => Some(d.clone()),
                None => None,
            },
            status: self.status,
            priority: self.priority,
            due_date: self.due_date,
            user_id: self.user_id,
            created_at: self.created_at,
            updated_at: self.updated_at,
        }
    }
}

/// Payload for creating a task.
#[derive(Debug)]
pub struct CreateTask {
    pub title: String,
    pub description: Option<String>,
    pub status: Option<TaskStatus>,
    pub priority: Option<TaskPriority>,
    pub due_date: Option<i64>,
}

/// Whether a create payload satisfies the shape constraints: a title of 1 to
/// 255 characters and a description of at most 1000 characters.
pub open spec fn valid_create_task(title: Seq<char>, description: Option<Seq<char>>) -> bool {
    &&& 1 <= title.len() <= 255
    &&& match description {
        Some(d) => d.len() <= 1000,
        None => true,
    }
}

impl CreateTask {
    /// Shape validation, performed before any store access.
    pub fn validate(&self) -> (r: Result<(), AppError>)
        ensures
            r is Ok <==> valid_create_task(
                self.title@,
                match self.description {
                    Some(d) => Some(d@),
                    None => None,
                },
            ),
            r matches Err(e) ==> e == AppError::ValidationError,
    {
        let title_len = self.title.as_str().unicode_len();
        if title_len < 1 || title_len > 255 {
            return Err(AppError::ValidationError);
        }
        if let Some(d) = &self.description {
            if d.as_str().unicode_len() > 1000 {
                return Err(AppError::ValidationError);
            }
        }
        Ok(())
    }
}

/// Payload for a partial update: any subset of the five fields may be given.
#[derive(Debug)]
pub struct UpdateTask {
    pub title: Option<String>,
    pub description: Option<String>,
    pub status: Option<TaskStatus>,
    pub priority: Option<TaskPriority>,
    pub due_date: Option<i64>,
}

impl UpdateTask {
    /// True when no field at all was supplied; such an update is rejected
    /// before any store access.
    pub open spec fn spec_is_empty(&self) -> bool {
        &&& self.title is None
        &&& self.description is None
        &&& self.status is None
        &&& self.priority is None
        &&& self.due_date is None
    }

    pub fn is_empty(&self) -> (r: bool)
        ensures
            r == self.spec_is_empty(),
    {
        self.title.is_none() && self.description.is_none() && self.status.is_none()
            && self.priority.is_none() && self.due_date.is_none()
    }

    /// Whether the supplied fields satisfy the shape constraints.
    pub open spec fn spec_valid(&self) -> bool {
        &&& match self.title {
            Some(t) => 1 <= t@.len() <= 255,
            None => true,
        }
        &&& match self.description {
            Some(d) => d@.len() <= 1000,
            None => true,
        }
        &&& !self.spec_is_empty()
    }

    /// Shape validation: the supplied fields must be well-formed and at least
    /// one field must be present. Performed before any store access.
    pub fn validate(&self) -> (r: Result<(), AppError>)
        ensures
            r is Ok <==> self.spec_valid(),
            r matches Err(e) ==> e == AppError::ValidationError,
    {
        if let Some(t) = &self.title {
            let l = t.as_str().unicode_len();
            if l < 1 || l > 255 {
                return Err(AppError::ValidationError);
            }
        }
        if let Some(d) = &self.description {
            if d.as_str().unicode_len() > 1000 {
                return Err(AppError::ValidationError);
            }
        }
        if self.is_empty() {
            return Err(AppError::ValidationError);
        }
        Ok(())
    }
}

/// What the service reports about a task: the full row.
#[derive(Debug)]
pub struct TaskResponse {
    pub id: u128,
    pub title: String,
    pub description: Option<String>,
    pub status: TaskStatus,
    pub priority: TaskPriority,
    pub due_date: Option<i64>,
    pub user_id: u128,
    pub created_at: i64,
    pub updated_at: i64,
}

impl View for TaskResponse {
    type V = TaskView;

    open spec fn view(&self) -> TaskView {
        TaskView {
            id: self.id,
            title: self.title@,
            description: match self.description {
                Some(d) => Some(d@),
                None => None,
            },
            status: self.status,
            priority: self.priority,
            due_date: self.due_date,
            user_id: self.user_id,
            created_at: self.created_at,
            updated_at: self.updated_at,
        }
    }
}

impl From<Task> for TaskResponse {
    fn from(task: Task) -> (r: Self) {
        TaskResponse {
            id: task.id,
            title: task.title,
            description: task.description,
            status: task.status,
            priority: task.priority,
            due_date: task.due_date,
            user_id: task.user_id,
            created_at: task.created_at,
            updated_at: task.updated_at,
        }
    }
}

impl vstd::std_specs::convert::FromSpecImpl<Task> for TaskResponse {
    open spec fn obeys_from_spec() -> bool {
        true
    }

    open spec fn from_spec(task: Task) -> Self {
        TaskResponse {
            id: task.id,
            title: task.title,
            description: task.description,
            status: task.status,
            priority: task.priority,
            due_date: task.due_date,
            user_id: task.user_id,
            created_at: task.created_at,
            updated_at: task.updated_at,
        }
    }
}

/// A persisted account row. The password hash never leaves the library in a
/// response value.
#[derive(Debug)]
pub struct User {
    pub id: u128,
    pub email: String,
    pub username: String,
    pub password_hash: String,
    pub created_at: i64,
    pub updated_at: i64,
}

/// Registration payload.
#[derive(Debug)]
pub struct RegisterUser {
    pub email: String,
    pub username: String,
    pub password: String,
}

/// Whether a registration payload satisfies the shape constraints: a
/// well-formed email address, a username of 3 to 50 characters, and a
/// password of at least 6 characters.
pub open spec fn valid_register(email: Seq<char>, username: Seq<char>, password: Seq<char>) -> bool {
    &&& email_ok(email)
    &&& 3 <= username.len() <= 50
    &&& password.len() >= 6
}

impl RegisterUser {
    /// Shape validation, performed before any store access.
    pub fn validate(&self) -> (r: Result<(), AppError>)
        ensures
            r is Ok <==> valid_register(self.email@, self.username@, self.password@),
            r matches Err(e) ==> e == AppError::ValidationError,
    {
        if !is_valid_email(&self.email) {
            return Err(AppError::ValidationError);
        }
        let ulen = self.username.as_str().unicode_len();
        if ulen < 3 || ulen > 50 {
            return Err(AppError::ValidationError);
        }
        if self.password.as_str().unicode_len() < 6 {
            return Err(AppError::ValidationError);
        }
        Ok(())
    }
}

/// Login payload. The email is the only login key.
#[derive(Debug)]
pub struct LoginUser {
    pub email: String,
    pub password: String,
}

impl LoginUser {
    /// Shape validation, performed before any store access.
    pub fn validate(&self) -> (r: Result<(), AppError>)
        ensures
            r is Ok <==> email_ok(self.email@),
            r matches Err(e) ==> e == AppError::ValidationError,
    {
        if !is_valid_email(&self.email) {
            return Err(AppError::ValidationError);
        }
        Ok(())
    }
}

/// What the service reports about an account: everything but the password
/// hash.
#[derive(Debug)]
pub struct UserResponse {
    pub id: u128,
    pub email: String,
    pub username: String,
    pub created_at: i64,
}

/// Answer to a successful registration or login: the minted token and the
/// account it identifies.
#[derive(Debug)]
pub struct AuthResponse {
    pub token: String,
    pub user: UserResponse,
}

/// Query parameters of the task listing.
#[derive(Debug)]
pub struct Pagination {
    pub page: Option<i64>,
    pub per_page: Option<i64>,
    pub status: Option<TaskStatus>,
    pub priority: Option<TaskPriority>,
}

} // verus!
