use vstd::prelude::*;
use vstd::string::StringExecFns;

use crate::errors::AppError;
use crate::models::Pagination;
use crate::models::TaskPriority;
use crate::models::TaskStatus;
use crate::models::UpdateTask;

verus! {

/// A value bound to one positional parameter of a statement. Caller-supplied
/// data only ever travels through these; no value is ever spliced into the
/// statement text itself.
#[derive(Debug)]
pub enum SqlValue {
    Id(u128),
    Text(String),
    OptText(Option<String>),
    Int(i64),
    OptInt(Option<i64>),
    Status(TaskStatus),
    Priority(TaskPriority),
}

/// The mathematical value of a bound parameter.
pub enum SqlValueView {
    Id(u128),
    Text(Seq<char>),
    OptText(Option<Seq<char>>),
    Int(i64),
    OptInt(Option<i64>),
    Status(TaskStatus),
    Priority(TaskPriority),
}

impl View for SqlValue {
    type V = SqlValueView;

    open spec fn view(&self) -> SqlValueView {
        match self {
            SqlValue::Id(v) => SqlValueView::Id(*v),
            SqlValue::Text(v) => SqlValueView::Text(v@),
            SqlValue::OptText(v) => SqlValueView::OptText(
                match v {
                    Some(s) => Some(s@),
                    None => None,
                },
            ),
            SqlValue::Int(v) => SqlValueView::Int(*v),
            SqlValue::OptInt(v) => SqlValueView::OptInt(*v),
            SqlValue::Status(v) => SqlValueView::Status(*v),
            SqlValue::Priority(v) => SqlValueView::Priority(*v),
        }
    }
}

/// The bound parameters of a builder, as mathematical values, in binding
/// order.
pub open spec fn params_view(params: Seq<SqlValue>) -> Seq<SqlValueView> {
    params.map_values(|v: SqlValue| v@)
}

/// The digit of a positional placeholder; statements here never bind more
/// than nine parameters.
pub open spec fn placeholder_digit(n: int) -> char {
    if n == 1 {
        '1'
    } else if n == 2 {
        '2'
    } else if n == 3 {
        '3'
    } else if n == 4 {
        '4'
    } else if n == 5 {
        '5'
    } else if n == 6 {
        '6'
    } else if n == 7 {
        '7'
    } else if n == 8 {
        '8'
    } else {
        '9'
    }
}

/// The text of the `n`-th positional placeholder, `$1` through `$9`.
pub open spec fn placeholder(n: int) -> Seq<char> {
    seq!['$', placeholder_digit(n)]
}

/// Assembles one parameterized statement as an ordered list of text
/// fragments and bound values. A bound value always renders the placeholder
/// whose ordinal is the number of values bound so far plus one, so
/// positional indices can neither collide nor skip, whichever subset of
/// optional fragments a caller appends.
#[derive(Debug)]
pub struct QueryBuilder {
    pub sql: String,
    pub params: Vec<SqlValue>,
}

impl QueryBuilder {
    /// Start a statement from a fixed leading fragment.
    pub fn new(base: &str) -> (r: QueryBuilder)
        ensures
            r.sql@ == base@,
            r.params@ == Seq::<SqlValue>::empty(),
    {
        let r = QueryBuilder { sql: base.to_owned(), params: Vec::new() };
        proof {
            assert(r.params@ =~= Seq::<SqlValue>::empty());
        }
        r
    }

    /// Append a fixed text fragment. Never used with caller-supplied data.
    pub fn push(&mut self, fragment: &str)
        ensures
            final(self).sql@ == old(self).sql@ + fragment@,
            final(self).params@ == old(self).params@,
    {
        self.sql.append(fragment);
    }

    /// Bind a value: renders the next positional placeholder and records the
    /// value at that position.
    pub fn push_bind(&mut self, value: SqlValue)
        requires
            old(self).params@.len() < 9,
        ensures
            final(self).sql@ == old(self).sql@ + placeholder(old(self).params@.len() as int + 1),
            final(self).params@ == old(self).params@.push(value),
    {
        let n = self.params.len();
        self.params.push(value);
        if n == 0 {
            proof {
                reveal_strlit("$1");
                assert("$1"@ =~= placeholder(1));
            }
            self.sql.append("$1");
        } else if n == 1 {
            proof {
                reveal_strlit("$2");
                assert("$2"@ =~= placeholder(2));
            }
            self.sql.append("$2");
        } else if n == 2 {
            proof {
                reveal_strlit("$3");
                assert("$3"@ =~= placeholder(3));
            }
            self.sql.append("$3");
        } else if n == 3 {
            proof {
                reveal_strlit("$4");
                assert("$4"@ =~= placeholder(4));
            }
            self.sql.append("$4");
        } else if n == 4 {
            proof {
                reveal_strlit("$5");
                assert("$5"@ =~= placeholder(5));
            }
            self.sql.append("$5");
        } else if n == 5 {
            proof {
                reveal_strlit("$6");
                assert("$6"@ =~= placeholder(6));
            }
            self.sql.append("$6");
        } else if n == 6 {
            proof {
                reveal_strlit("$7");
                assert("$7"@ =~= placeholder(7));
            }
            self.sql.append("$7");
        } else if n == 7 {
            proof {
                reveal_strlit("$8");
                assert("$8"@ =~= placeholder(8));
            }
            self.sql.append("$8");
        } else {
            proof {
                reveal_strlit("$9");
                assert("$9"@ =~= placeholder(9));
            }
            self.sql.append("$9");
        }
    }
}

/// Default page number when the caller supplies none.
pub const DEFAULT_PAGE: i64 = 1;

/// Default page size when the caller supplies none.
pub const DEFAULT_PER_PAGE: i64 = 10;

/// Hard cap on the page size, so no caller can request an unbounded result
/// set.
pub const MAX_PER_PAGE: i64 = 100;

/// Largest accepted page number: `i64::MAX / MAX_PER_PAGE`, the machine
/// bound under which `(page - 1) * page_size` always fits, and nothing
/// tighter.
pub const MAX_PAGE: i64 = 92_233_720_368_547_758;

/// Whether a supplied page number is in the accepted domain: absent, or at
/// least 1 and within the machine bound.
pub open spec fn valid_page(page: Option<i64>) -> bool {
    match page {
        Some(v) => 1 <= v <= MAX_PAGE,
        None => true,
    }
}

/// Whether a supplied page size is in the accepted domain: absent, or not
/// negative — zero is allowed and yields an empty page, as a zero limit
/// does.
pub open spec fn valid_per_page(per_page: Option<i64>) -> bool {
    match per_page {
        Some(v) => v >= 0,
        None => true,
    }
}

/// The page number actually used: the supplied one, defaulted to 1.
pub open spec fn effective_page(page: Option<i64>) -> i64 {
    match page {
        Some(v) => v,
        None => DEFAULT_PAGE,
    }
}

/// The page size actually used: defaulted to 10 and capped at
/// `MAX_PER_PAGE`, the documented bound on one result set.
pub open spec fn effective_per_page(per_page: Option<i64>) -> i64 {
    match per_page {
        Some(v) => if v > MAX_PER_PAGE {
            MAX_PER_PAGE
        } else {
            v
        },
        None => DEFAULT_PER_PAGE,
    }
}

/// How many rows the listing skips: `(page - 1) * page_size`, exactly.
pub open spec fn list_offset(page: Option<i64>, per_page: Option<i64>) -> i64 {
    ((effective_page(page) - 1) * effective_per_page(per_page)) as i64
}

/// One where `b` holds, else zero: counts how many optional predicates
/// precede a given one.
pub open spec fn b2i(b: bool) -> int {
    if b {
        1
    } else {
        0
    }
}

/// The text of the filtered listing statement, for each combination of the
/// two optional predicates. The owner predicate always comes first; each
/// optional predicate takes the next positional index; limit and offset
/// take the last two.
pub open spec fn list_tasks_sql(has_status: bool, has_priority: bool) -> Seq<char> {
    let n = 1 + b2i(has_status) + b2i(has_priority);
    "SELECT * FROM tasks WHERE user_id = "@ + placeholder(1) + (if has_status {
        " AND status = "@ + placeholder(2)
    } else {
        Seq::<char>::empty()
    }) + (if has_priority {
        " AND priority = "@ + placeholder(2 + b2i(has_status))
    } else {
        Seq::<char>::empty()
    }) + " ORDER BY created_at DESC LIMIT "@ + placeholder(n + 1) + " OFFSET "@ + placeholder(
        n + 2,
    )
}

/// The values the listing binds, in positional order: owner, then each
/// present filter, then limit and offset.
pub open spec fn list_tasks_params(
    user_id: u128,
    status: Option<TaskStatus>,
    priority: Option<TaskPriority>,
    limit: i64,
    offset: i64,
) -> Seq<SqlValueView> {
    seq![SqlValueView::Id(user_id)] + (match status {
        Some(s) => seq![SqlValueView::Status(s)],
        None => Seq::<SqlValueView>::empty(),
    }) + (match priority {
        Some(p) => seq![SqlValueView::Priority(p)],
        None => Seq::<SqlValueView>::empty(),
    }) + seq![SqlValueView::Int(limit), SqlValueView::Int(offset)]
}

/// Build the filtered, paginated listing of one owner's tasks, newest
/// first. A page number below 1 — the documented domain — or past the
/// machine bound, or a negative page size, is a validation failure before
/// any store access; otherwise, whatever subset of the two optional
/// filters is present, every bound value lands at the placeholder of its
/// own ordinal, and the offset is exactly `(page - 1) * page_size`.
#[verifier::rlimit(100)]
pub fn build_list_query(user_id: u128, p: &Pagination) -> (r: Result<QueryBuilder, AppError>)
    ensures
        r is Ok <==> valid_page(p.page) && valid_per_page(p.per_page),
        r matches Err(e) ==> e == AppError::ValidationError,
        r matches Ok(q) ==> q.sql@ == list_tasks_sql(p.status is Some, p.priority is Some)
            && params_view(q.params@) == list_tasks_params(
            user_id,
            p.status,
            p.priority,
            effective_per_page(p.per_page),
            list_offset(p.page, p.per_page),
        ),
{
    let page: i64 = match p.page {
        Some(v) => {
            if v < 1 || v > MAX_PAGE {
                return Err(AppError::ValidationError);
            }
            v
        },
        None => DEFAULT_PAGE,
    };
    let per_page: i64 = match p.per_page {
        Some(v) => {
            if v < 0 {
                return Err(AppError::ValidationError);
            }
            if v > MAX_PER_PAGE {
                MAX_PER_PAGE
            } else {
                v
            }
        },
        None => DEFAULT_PER_PAGE,
    };
    assert((page - 1) * per_page <= 9_223_372_036_854_775_700i64 && 0 <= (page - 1) * per_page)
        by (nonlinear_arith)
        requires
            1 <= page <= 92_233_720_368_547_758i64,
            0 <= per_page <= 100,
    ;
    let offset: i64 = (page - 1) * per_page;
    let mut b = QueryBuilder::new("SELECT * FROM tasks WHERE user_id = ");
    b.push_bind(SqlValue::Id(user_id));
    if let Some(s) = p.status {
        b.push(" AND status = ");
        b.push_bind(SqlValue::Status(s));
    }
    if let Some(pr) = p.priority {
        b.push(" AND priority = ");
        b.push_bind(SqlValue::Priority(pr));
    }
    b.push(" ORDER BY created_at DESC LIMIT ");
    b.push_bind(SqlValue::Int(per_page));
    b.push(" OFFSET ");
    b.push_bind(SqlValue::Int(offset));
    proof {
        assert(b.sql@ =~= list_tasks_sql(p.status is Some, p.priority is Some));
        assert(params_view(b.params@) =~= list_tasks_params(
            user_id,
            p.status,
            p.priority,
            effective_per_page(p.per_page),
            list_offset(p.page, p.per_page),
        ));
    }
    Ok(b)
}

/// One piece of the SET clause: nothing when the field is absent; else a
/// comma when any field preceded it, its label, and the placeholder after
/// the ones already taken.
pub open spec fn set_fragment(present: bool, before: int, label: Seq<char>) -> Seq<char> {
    if present {
        (if before > 0 {
            ", "@
        } else {
            Seq::<char>::empty()
        }) + label + placeholder(before + 1)
    } else {
        Seq::<char>::empty()
    }
}

/// The text of the partial update statement for a given subset of present
/// fields: only supplied fields appear, the first without a leading comma
/// and every later one with its own, and the owner-and-id scope takes the
/// two positions after the fields.
pub open spec fn update_task_sql(ht: bool, hd: bool, hs: bool, hp: bool, hu: bool) -> Seq<char> {
    let n = b2i(ht) + b2i(hd) + b2i(hs) + b2i(hp) + b2i(hu);
    "UPDATE tasks SET "@ + set_fragment(ht, 0, "title = "@) + set_fragment(
        hd,
        b2i(ht),
        "description = "@,
    ) + set_fragment(hs, b2i(ht) + b2i(hd), "status = "@) + set_fragment(
        hp,
        b2i(ht) + b2i(hd) + b2i(hs),
        "priority = "@,
    ) + set_fragment(hu, b2i(ht) + b2i(hd) + b2i(hs) + b2i(hp), "due_date = "@)
        + " WHERE id = "@ + placeholder(n + 1) + " AND user_id = "@ + placeholder(n + 2)
        + " RETURNING *"@
}

/// The values the partial update binds, in positional order: each supplied
/// field in the fixed field order, then the task id and the owner id.
pub open spec fn update_task_params(task_id: u128, user_id: u128, u: &UpdateTask) -> Seq<
    SqlValueView,
> {
    (match u.title {
        Some(t) => seq![SqlValueView::Text(t@)],
        None => Seq::<SqlValueView>::empty(),
    }) + (match u.description {
        Some(d) => seq![SqlValueView::Text(d@)],
        None => Seq::<SqlValueView>::empty(),
    }) + (match u.status {
        Some(s) => seq![SqlValueView::Status(s)],
        None => Seq::<SqlValueView>::empty(),
    }) + (match u.priority {
        Some(p) => seq![SqlValueView::Priority(p)],
        None => Seq::<SqlValueView>::empty(),
    }) + (match u.due_date {
        Some(d) => seq![SqlValueView::Int(d)],
        None => Seq::<SqlValueView>::empty(),
    }) + seq![SqlValueView::Id(task_id), SqlValueView::Id(user_id)]
}

/// Append one optional text field of the SET clause: nothing when absent;
/// else a comma when any parameter was already bound, the label, and the
/// next placeholder.
fn push_text_field(b: &mut QueryBuilder, label: &str, value: &Option<String>)
    requires
        old(b).params@.len() < 9,
    ensures
        final(b).sql@ == old(b).sql@ + set_fragment(
            value is Some,
            old(b).params@.len() as int,
            label@,
        ),
        params_view(final(b).params@) == params_view(old(b).params@) + (match value {
            Some(t) => seq![SqlValueView::Text(t@)],
            None => Seq::<SqlValueView>::empty(),
        }),
{
    if let Some(t) = value {
        if b.params.len() > 0 {
            b.push(", ");
        }
        b.push(label);
        b.push_bind(SqlValue::Text(t.clone()));
    }
    proof {
        assert(b.sql@ =~= old(b).sql@ + set_fragment(
            value is Some,
            old(b).params@.len() as int,
            label@,
        ));
        assert(params_view(b.params@) =~= params_view(old(b).params@) + (match value {
            Some(t) => seq![SqlValueView::Text(t@)],
            None => Seq::<SqlValueView>::empty(),
        }));
    }
}

/// Append the optional status field of the SET clause.
fn push_status_field(b: &mut QueryBuilder, label: &str, value: &Option<TaskStatus>)
    requires
        old(b).params@.len() < 9,
    ensures
        final(b).sql@ == old(b).sql@ + set_fragment(
            value is Some,
            old(b).params@.len() as int,
            label@,
        ),
        params_view(final(b).params@) == params_view(old(b).params@) + (match value {
            Some(s) => seq![SqlValueView::Status(*s)],
            None => Seq::<SqlValueView>::empty(),
        }),
{
    if let Some(s) = value {
        if b.params.len() > 0 {
            b.push(", ");
        }
        b.push(label);
        b.push_bind(SqlValue::Status(*s));
    }
    proof {
        assert(b.sql@ =~= old(b).sql@ + set_fragment(
            value is Some,
            old(b).params@.len() as int,
            label@,
        ));
        assert(params_view(b.params@) =~= params_view(old(b).params@) + (match value {
            Some(s) => seq![SqlValueView::Status(*s)],
            None => Seq::<SqlValueView>::empty(),
        }));
    }
}

/// Append the optional priority field of the SET clause.
fn push_priority_field(b: &mut QueryBuilder, label: &str, value: &Option<TaskPriority>)
    requires
        old(b).params@.len() < 9,
    ensures
        final(b).sql@ == old(b).sql@ + set_fragment(
            value is Some,
            old(b).params@.len() as int,
            label@,
        ),
        params_view(final(b).params@) == params_view(old(b).params@) + (match value {
            Some(p) => seq![SqlValueView::Priority(*p)],
            None => Seq::<SqlValueView>::empty(),
        }),
{
    if let Some(p) = value {
        if b.params.len() > 0 {
            b.push(", ");
        }
        b.push(label);
        b.push_bind(SqlValue::Priority(*p));
    }
    proof {
        assert(b.sql@ =~= old(b).sql@ + set_fragment(
            value is Some,
            old(b).params@.len() as int,
            label@,
        ));
        assert(params_view(b.params@) =~= params_view(old(b).params@) + (match value {
            Some(p) => seq![SqlValueView::Priority(*p)],
            None => Seq::<SqlValueView>::empty(),
        }));
    }
}

/// Append the optional due-date field of the SET clause.
fn push_due_field(b: &mut QueryBuilder, label: &str, value: &Option<i64>)
    requires
        old(b).params@.len() < 9,
    ensures
        final(b).sql@ == old(b).sql@ + set_fragment(
            value is Some,
            old(b).params@.len() as int,
            label@,
        ),
        params_view(final(b).params@) == params_view(old(b).params@) + (match value {
            Some(d) => seq![SqlValueView::Int(*d)],
            None => Seq::<SqlValueView>::empty(),
        }),
{
    if let Some(d) = value {
        if b.params.len() > 0 {
            b.push(", ");
        }
        b.push(label);
        b.push_bind(SqlValue::Int(*d));
    }
    proof {
        assert(b.sql@ =~= old(b).sql@ + set_fragment(
            value is Some,
            old(b).params@.len() as int,
            label@,
        ));
        assert(params_view(b.params@) =~= params_view(old(b).params@) + (match value {
            Some(d) => seq![SqlValueView::Int(*d)],
            None => Seq::<SqlValueView>::empty(),
        }));
    }
}

/// Build the partial update of one owned task: a single SET clause over
/// exactly the supplied fields, the owner-and-id scope re-applied, and the
/// updated row returned.
#[verifier::rlimit(100)]
pub fn build_update_query(task_id: u128, user_id: u128, u: &UpdateTask) -> (r: QueryBuilder)
    requires
        !u.spec_is_empty(),
    ensures
        r.sql@ == update_task_sql(
            u.title is Some,
            u.description is Some,
            u.status is Some,
            u.priority is Some,
            u.due_date is Some,
        ),
        params_view(r.params@) == update_task_params(task_id, user_id, u),
{
    let ghost ht = u.title is Some;
    let ghost hd = u.description is Some;
    let ghost hs = u.status is Some;
    let ghost hp = u.priority is Some;
    let ghost hu = u.due_date is Some;
    let ghost n = b2i(ht) + b2i(hd) + b2i(hs) + b2i(hp) + b2i(hu);
    let mut b = QueryBuilder::new("UPDATE tasks SET ");
    push_text_field(&mut b, "title = ", &u.title);
    assert(params_view(b.params@).len() == b2i(ht));
    push_text_field(&mut b, "description = ", &u.description);
    assert(params_view(b.params@).len() == b2i(ht) + b2i(hd));
    push_status_field(&mut b, "status = ", &u.status);
    assert(params_view(b.params@).len() == b2i(ht) + b2i(hd) + b2i(hs));
    push_priority_field(&mut b, "priority = ", &u.priority);
    assert(params_view(b.params@).len() == b2i(ht) + b2i(hd) + b2i(hs) + b2i(hp));
    push_due_field(&mut b, "due_date = ", &u.due_date);
    assert(params_view(b.params@).len() == n);
    assert(b.params@.len() == n);
    b.push(" WHERE id = ");
    b.push_bind(SqlValue::Id(task_id));
    b.push(" AND user_id = ");
    b.push_bind(SqlValue::Id(user_id));
    b.push(" RETURNING *");
    proof {
        assert(b.sql@ == update_task_sql(ht, hd, hs, hp, hu));
        assert(params_view(b.params@) =~= update_task_params(task_id, user_id, u));
    }
    b
}

/// The text of the combined uniqueness pre-check at registration: one count
/// over any match on either key.
pub open spec fn count_users_sql() -> Seq<char> {
    "SELECT COUNT(*) FROM users WHERE email = "@ + placeholder(1) + " OR username = "@
        + placeholder(2)
}

/// Build the combined email-or-username existence count.
pub fn count_users_query(email: &String, username: &String) -> (r: QueryBuilder)
    ensures
        r.sql@ == count_users_sql(),
        params_view(r.params@) == seq![
            SqlValueView::Text(email@),
            SqlValueView::Text(username@),
        ],
{
    let mut b = QueryBuilder::new("SELECT COUNT(*) FROM users WHERE email = ");
    b.push_bind(SqlValue::Text(email.clone()));
    b.push(" OR username = ");
    b.push_bind(SqlValue::Text(username.clone()));
    proof {
        assert(b.sql@ =~= count_users_sql());
        assert(params_view(b.params@) =~= seq![
            SqlValueView::Text(email@),
            SqlValueView::Text(username@),
        ]);
    }
    b
}

/// The text of the account insert, returning the stored row without the
/// password hash.
pub open spec fn insert_user_sql() -> Seq<char> {
    "INSERT INTO users (email, username, password_hash) VALUES ("@ + placeholder(1) + ", "@
        + placeholder(2) + ", "@ + placeholder(3)
        + ") RETURNING id, email, username, created_at"@
}

/// Build the account insert.
pub fn insert_user_query(email: &String, username: &String, password_hash: &String) -> (r:
    QueryBuilder)
    ensures
        r.sql@ == insert_user_sql(),
        params_view(r.params@) == seq![
            SqlValueView::Text(email@),
            SqlValueView::Text(username@),
            SqlValueView::Text(password_hash@),
        ],
{
    let mut b = QueryBuilder::new("INSERT INTO users (email, username, password_hash) VALUES (");
    b.push_bind(SqlValue::Text(email.clone()));
    b.push(", ");
    b.push_bind(SqlValue::Text(username.clone()));
    b.push(", ");
    b.push_bind(SqlValue::Text(password_hash.clone()));
    b.push(") RETURNING id, email, username, created_at");
    proof {
        assert(b.sql@ =~= insert_user_sql());
        assert(params_view(b.params@) =~= seq![
            SqlValueView::Text(email@),
            SqlValueView::Text(username@),
            SqlValueView::Text(password_hash@),
        ]);
    }
    b
}

/// The text of the login lookup: by email alone, the only login key. The
/// stored creation timestamp comes back with the row, so the answered
/// record can carry it.
pub open spec fn find_user_by_email_sql() -> Seq<char> {
    "SELECT id, email, username, password_hash, created_at FROM users WHERE email = "@
        + placeholder(1)
}

/// Build the login lookup.
pub fn find_user_by_email_query(email: &String) -> (r: QueryBuilder)
    ensures
        r.sql@ == find_user_by_email_sql(),
        params_view(r.params@) == seq![SqlValueView::Text(email@)],
{
    let mut b = QueryBuilder::new(
        "SELECT id, email, username, password_hash, created_at FROM users WHERE email = ",
    );
    b.push_bind(SqlValue::Text(email.clone()));
    proof {
        assert(b.sql@ =~= find_user_by_email_sql());
        assert(params_view(b.params@) =~= seq![SqlValueView::Text(email@)]);
    }
    b
}

/// The text of the task insert, returning the stored row.
pub open spec fn insert_task_sql() -> Seq<char> {
    "INSERT INTO tasks (title, description, status, priority, due_date, user_id) VALUES ("@
        + placeholder(1) + ", "@ + placeholder(2) + ", "@ + placeholder(3) + ", "@
        + placeholder(4) + ", "@ + placeholder(5) + ", "@ + placeholder(6) + ") RETURNING *"@
}

/// Build the task insert.
pub fn insert_task_query(
    title: &String,
    description: &Option<String>,
    status: TaskStatus,
    priority: TaskPriority,
    due_date: Option<i64>,
    user_id: u128,
) -> (r: QueryBuilder)
    ensures
        r.sql@ == insert_task_sql(),
        params_view(r.params@) == seq![
            SqlValueView::Text(title@),
            SqlValueView::OptText(
                match description {
                    Some(d) => Some(d@),
                    None => None,
                },
            ),
            SqlValueView::Status(status),
            SqlValueView::Priority(priority),
            SqlValueView::OptInt(due_date),
            SqlValueView::Id(user_id),
        ],
{
    let mut b = QueryBuilder::new(
        "INSERT INTO tasks (title, description, status, priority, due_date, user_id) VALUES (",
    );
    b.push_bind(SqlValue::Text(title.clone()));
    b.push(", ");
    b.push_bind(
        SqlValue::OptText(
            match description {
                Some(d) => Some(d.clone()),
                None => None,
            },
        ),
    );
    b.push(", ");
    b.push_bind(SqlValue::Status(status));
    b.push(", ");
    b.push_bind(SqlValue::Priority(priority));
    b.push(", ");
    b.push_bind(SqlValue::OptInt(due_date));
    b.push(", ");
    b.push_bind(SqlValue::Id(user_id));
    b.push(") RETURNING *");
    proof {
        assert(b.sql@ =~= insert_task_sql());
        assert(params_view(b.params@) =~= seq![
            SqlValueView::Text(title@),
            SqlValueView::OptText(
                match description {
                    Some(d) => Some(d@),
                    None => None,
                },
            ),
            SqlValueView::Status(status),
            SqlValueView::Priority(priority),
            SqlValueView::OptInt(due_date),
            SqlValueView::Id(user_id),
        ]);
    }
    b
}

/// The text of the single-task lookup, scoped by owner.
pub open spec fn task_by_id_sql() -> Seq<char> {
    "SELECT * FROM tasks WHERE id = "@ + placeholder(1) + " AND user_id = "@ + placeholder(2)
}

/// Build the single-task lookup.
pub fn task_by_id_query(task_id: u128, user_id: u128) -> (r: QueryBuilder)
    ensures
        r.sql@ == task_by_id_sql(),
        params_view(r.params@) == seq![SqlValueView::Id(task_id), SqlValueView::Id(user_id)],
{
    let mut b = QueryBuilder::new("SELECT * FROM tasks WHERE id = ");
    b.push_bind(SqlValue::Id(task_id));
    b.push(" AND user_id = ");
    b.push_bind(SqlValue::Id(user_id));
    proof {
        assert(b.sql@ =~= task_by_id_sql());
        assert(params_view(b.params@) =~= seq![
            SqlValueView::Id(task_id),
            SqlValueView::Id(user_id),
        ]);
    }
    b
}

/// The text of the owner-scoped existence count used before an update.
pub open spec fn count_task_sql() -> Seq<char> {
    "SELECT COUNT(*) FROM tasks WHERE id = "@ + placeholder(1) + " AND user_id = "@
        + placeholder(2)
}

/// Build the owner-scoped task existence count.
pub fn count_task_query(task_id: u128, user_id: u128) -> (r: QueryBuilder)
    ensures
        r.sql@ == count_task_sql(),
        params_view(r.params@) == seq![SqlValueView::Id(task_id), SqlValueView::Id(user_id)],
{
    let mut b = QueryBuilder::new("SELECT COUNT(*) FROM tasks WHERE id = ");
    b.push_bind(SqlValue::Id(task_id));
    b.push(" AND user_id = ");
    b.push_bind(SqlValue::Id(user_id));
    proof {
        assert(b.sql@ =~= count_task_sql());
        assert(params_view(b.params@) =~= seq![
            SqlValueView::Id(task_id),
            SqlValueView::Id(user_id),
        ]);
    }
    b
}

/// The text of the owner-scoped delete.
pub open spec fn delete_task_sql() -> Seq<char> {
    "DELETE FROM tasks WHERE id = "@ + placeholder(1) + " AND user_id = "@ + placeholder(2)
}

/// Build the owner-scoped delete.
pub fn delete_task_query(task_id: u128, user_id: u128) -> (r: QueryBuilder)
    ensures
        r.sql@ == delete_task_sql(),
        params_view(r.params@) == seq![SqlValueView::Id(task_id), SqlValueView::Id(user_id)],
{
    let mut b = QueryBuilder::new("DELETE FROM tasks WHERE id = ");
    b.push_bind(SqlValue::Id(task_id));
    b.push(" AND user_id = ");
    b.push_bind(SqlValue::Id(user_id));
    proof {
        assert(b.sql@ =~= delete_task_sql());
        assert(params_view(b.params@) =~= seq![
            SqlValueView::Id(task_id),
            SqlValueView::Id(user_id),
        ]);
    }
    b
}

} // verus!
