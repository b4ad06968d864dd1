//! What the transports share: the errors they report and the checks they
//! make on a request before it reaches the supervisor.

use crate::query::{TaskQuery, TaskQueryView, DEFAULT_LIMIT, MAX_LIMIT};
use crate::router::{CoreError, CoreErrorView};
use crate::status::TaskStatus;
use crate::task_id::TaskId;
use crate::text::{blank, join, join3, is_blank, opt_view, str_eq, lowercase};
use crate::wire::WireStatus;
use vstd::prelude::*;
use vstd::string::StringExecFns;

verus! {

/// Errors that a transport reports to its client.
#[derive(Debug)]
pub enum ApiError {
    /// The request breaks a rule; it never reaches the supervisor.
    InvalidRequest(String),
    /// The task is not known.
    TaskNotFound(String),
    /// Something that should not happen did.
    Internal(String),
    /// The supervision core failed.
    Core(CoreError),
}

/// What an [`ApiError`] holds, as plain values.
pub enum ApiErrorView {
    InvalidRequest(Seq<char>),
    TaskNotFound(Seq<char>),
    Internal(Seq<char>),
    Core(CoreErrorView),
}

impl View for ApiError {
    type V = ApiErrorView;

    open spec fn view(&self) -> ApiErrorView {
        match self {
            ApiError::InvalidRequest(m) => ApiErrorView::InvalidRequest(m@),
            ApiError::TaskNotFound(m) => ApiErrorView::TaskNotFound(m@),
            ApiError::Internal(m) => ApiErrorView::Internal(m@),
            ApiError::Core(e) => ApiErrorView::Core(e@),
        }
    }
}

/// Status classes of the RPC transport.
#[derive(Clone, Copy, Debug, PartialEq, Eq, Structural)]
pub enum RpcCode {
    InvalidArgument,
    NotFound,
    Internal,
}

impl ApiErrorView {
    /// The error in words.
    pub open spec fn message(self) -> Seq<char> {
        match self {
            ApiErrorView::InvalidRequest(m) => "invalid request: "@ + m,
            ApiErrorView::TaskNotFound(m) => "task not found: "@ + m,
            ApiErrorView::Internal(m) => "internal error: "@ + m,
            ApiErrorView::Core(e) => "core error: "@ + e.message(),
        }
    }

    /// The HTTP status of the error: 400 for a bad request, 404 for an
    /// unknown task, 500 for everything else.
    pub open spec fn http_status(self) -> u16 {
        match self {
            ApiErrorView::InvalidRequest(_) => 400,
            ApiErrorView::TaskNotFound(_) => 404,
            _ => 500,
        }
    }

    /// What the HTTP body says under `error`.
    pub open spec fn http_text(self) -> Seq<char> {
        match self {
            ApiErrorView::InvalidRequest(m) => m,
            ApiErrorView::TaskNotFound(m) => m,
            ApiErrorView::Internal(m) => m,
            ApiErrorView::Core(e) => e.message(),
        }
    }

    /// The status class of the error over RPC.
    pub open spec fn rpc_code(self) -> RpcCode {
        match self {
            ApiErrorView::InvalidRequest(_) => RpcCode::InvalidArgument,
            ApiErrorView::TaskNotFound(_) => RpcCode::NotFound,
            _ => RpcCode::Internal,
        }
    }

    /// What the RPC status says.
    pub open spec fn rpc_text(self) -> Seq<char> {
        match self {
            ApiErrorView::InvalidRequest(m) => m,
            ApiErrorView::TaskNotFound(m) => m,
            _ => self.message(),
        }
    }
}

impl ApiError {
    /// The error in words.
    pub fn message(&self) -> (r: String)
        ensures
            r@ == self@.message(),
    {
        match self {
            ApiError::InvalidRequest(m) => join("invalid request: ", m.as_str()),
            ApiError::TaskNotFound(m) => join("task not found: ", m.as_str()),
            ApiError::Internal(m) => join("internal error: ", m.as_str()),
            ApiError::Core(e) => {
                let inner = e.message();
                join("core error: ", inner.as_str())
            },
        }
    }

    /// The HTTP status of the error and the text of its body.
    pub fn http_response(&self) -> (r: (u16, String))
        ensures
            r.0 == self@.http_status(),
            r.1@ == self@.http_text(),
    {
        match self {
            ApiError::InvalidRequest(m) => (400, m.clone()),
            ApiError::TaskNotFound(m) => (404, m.clone()),
            ApiError::Internal(m) => (500, m.clone()),
            ApiError::Core(e) => (500, e.message()),
        }
    }

    /// The status class of the error over RPC and the text of the status.
    pub fn rpc_status(&self) -> (r: (RpcCode, String))
        ensures
            r.0 == self@.rpc_code(),
            r.1@ == self@.rpc_text(),
    {
        match self {
            ApiError::InvalidRequest(m) => (RpcCode::InvalidArgument, m.clone()),
            ApiError::TaskNotFound(m) => (RpcCode::NotFound, m.clone()),
            ApiError::Internal(_) => (RpcCode::Internal, self.message()),
            ApiError::Core(_) => (RpcCode::Internal, self.message()),
        }
    }
}

impl From<CoreError> for ApiError {
    fn from(e: CoreError) -> (r: Self)
        ensures
            r@ == ApiErrorView::Core(e@),
    {
        ApiError::Core(e)
    }
}

impl vstd::std_specs::convert::FromSpecImpl<CoreError> for ApiError {
    open spec fn obeys_from_spec() -> bool {
        true
    }

    open spec fn from_spec(e: CoreError) -> Self {
        ApiError::Core(e)
    }
}

/// The rejection of a request, with the rule it breaks.
pub open spec fn invalid<T>(why: Seq<char>) -> Result<T, ApiErrorView> {
    Err(ApiErrorView::InvalidRequest(why))
}

/// The status that a lowercase name stands for.
pub open spec fn status_named(name: Seq<char>) -> Option<TaskStatus> {
    if name == "pending"@ {
        Some(TaskStatus::Pending)
    } else if name == "running"@ {
        Some(TaskStatus::Running)
    } else if name == "succeeded"@ {
        Some(TaskStatus::Succeeded)
    } else if name == "failed"@ {
        Some(TaskStatus::Failed)
    } else if name == "timeout"@ {
        Some(TaskStatus::Timeout)
    } else if name == "canceled"@ {
        Some(TaskStatus::Canceled)
    } else if name == "exhausted"@ {
        Some(TaskStatus::Exhausted)
    } else {
        None
    }
}

/// The lowercase name of a status.
pub open spec fn name_of(status: TaskStatus) -> Seq<char> {
    match status {
        TaskStatus::Pending => "pending"@,
        TaskStatus::Running => "running"@,
        TaskStatus::Succeeded => "succeeded"@,
        TaskStatus::Failed => "failed"@,
        TaskStatus::Timeout => "timeout"@,
        TaskStatus::Canceled => "canceled"@,
        TaskStatus::Exhausted => "exhausted"@,
    }
}

/// The lowercase name of `status`.
pub fn status_name(status: TaskStatus) -> (r: &'static str)
    ensures
        r@ == name_of(status),
{
    match status {
        TaskStatus::Pending => "pending",
        TaskStatus::Running => "running",
        TaskStatus::Succeeded => "succeeded",
        TaskStatus::Failed => "failed",
        TaskStatus::Timeout => "timeout",
        TaskStatus::Canceled => "canceled",
        TaskStatus::Exhausted => "exhausted",
    }
}

/// Every status is read back from its name.
pub proof fn lemma_status_name_roundtrip(status: TaskStatus)
    ensures
        status_named(name_of(status)) == Some(status),
{
    reveal_strlit("pending");
    reveal_strlit("running");
    reveal_strlit("succeeded");
    reveal_strlit("failed");
    reveal_strlit("timeout");
    reveal_strlit("canceled");
    reveal_strlit("exhausted");
    assert("running"@[0] == 'r');
    assert("succeeded"@[0] == 's');
    assert("failed"@[0] == 'f');
    assert("timeout"@[0] == 't');
    assert("canceled"@[0] == 'c');
    assert("exhausted"@[0] == 'e');
    assert("pending"@[0] == 'p');
}

/// What is said of a status name that stands for no status.
pub open spec fn bad_status(given: Seq<char>) -> Seq<char> {
    "invalid status: '"@ + given
        + "' (valid: pending, running, succeeded, failed, timeout, canceled, exhausted)"@
}

/// The status that the already lowercased name `lower` stands for.
pub fn status_from_lower(lower: &str) -> (r: Option<TaskStatus>)
    ensures
        r == status_named(lower@),
{
    if str_eq(lower, "pending") {
        Some(TaskStatus::Pending)
    } else if str_eq(lower, "running") {
        Some(TaskStatus::Running)
    } else if str_eq(lower, "succeeded") {
        Some(TaskStatus::Succeeded)
    } else if str_eq(lower, "failed") {
        Some(TaskStatus::Failed)
    } else if str_eq(lower, "timeout") {
        Some(TaskStatus::Timeout)
    } else if str_eq(lower, "canceled") {
        Some(TaskStatus::Canceled)
    } else if str_eq(lower, "exhausted") {
        Some(TaskStatus::Exhausted)
    } else {
        None
    }
}

/// What reading a status name comes to, once the name is lowercased: the
/// status it stands for, or a rejection that quotes the name as given.
pub open spec fn status_parsed(given: Seq<char>, lower: Seq<char>) -> Result<
    TaskStatus,
    ApiErrorView,
> {
    match status_named(lower) {
        Some(s) => Ok(s),
        None => invalid(bad_status(given)),
    }
}

/// The view of a status that was read, or of why it was not.
pub open spec fn status_view(r: Result<TaskStatus, ApiError>) -> Result<TaskStatus, ApiErrorView> {
    match r {
        Ok(s) => Ok(s),
        Err(e) => Err(e@),
    }
}

/// Reads a status name as it was given, `lower` being its lowercase form.
pub fn parse_status_lowered(given: &str, lower: &str) -> (r: Result<TaskStatus, ApiError>)
    ensures
        status_view(r) == status_parsed(given@, lower@),
{
    match status_from_lower(lower) {
        Some(s) => Ok(s),
        None => Err(
            ApiError::InvalidRequest(
                join3(
                    "invalid status: '",
                    given,
                    "' (valid: pending, running, succeeded, failed, timeout, canceled, exhausted)",
                ),
            ),
        ),
    }
}

/// Reads a status name, whatever its case.
pub fn parse_status(s: &str) -> (r: Result<TaskStatus, ApiError>)
    ensures
        status_view(r) == status_parsed(s@, lowercase(s@)),
{
    let lower = s.to_lowercase();
    parse_status_lowered(s, lower.as_str())
}

/// The status that a wire status stands for; the unspecified one stands
/// for none.
pub open spec fn status_of_wire(w: WireStatus) -> Option<TaskStatus> {
    match w {
        WireStatus::Unspecified => None,
        WireStatus::Pending => Some(TaskStatus::Pending),
        WireStatus::Running => Some(TaskStatus::Running),
        WireStatus::Succeeded => Some(TaskStatus::Succeeded),
        WireStatus::Failed => Some(TaskStatus::Failed),
        WireStatus::Timeout => Some(TaskStatus::Timeout),
        WireStatus::Canceled => Some(TaskStatus::Canceled),
        WireStatus::Exhausted => Some(TaskStatus::Exhausted),
    }
}

/// What reading a status number comes to.
pub open spec fn status_decoded(raw: i32) -> Result<TaskStatus, ApiErrorView> {
    match WireStatus::of_number(raw) {
        None => invalid("invalid status"@),
        Some(w) => match status_of_wire(w) {
            None => invalid("status cannot be unspecified"@),
            Some(s) => Ok(s),
        },
    }
}

/// Reads the status that the number `raw` stands for on the wire.
pub fn proto_to_domain_status(raw: i32) -> (r: Result<TaskStatus, ApiError>)
    ensures
        status_view(r) == status_decoded(raw),
{
    let status = match WireStatus::from_code(raw) {
        Some(w) => w,
        None => {
            return Err(ApiError::InvalidRequest(String::from_str("invalid status")));
        },
    };
    match status {
        WireStatus::Pending => Ok(TaskStatus::Pending),
        WireStatus::Running => Ok(TaskStatus::Running),
        WireStatus::Succeeded => Ok(TaskStatus::Succeeded),
        WireStatus::Failed => Ok(TaskStatus::Failed),
        WireStatus::Timeout => Ok(TaskStatus::Timeout),
        WireStatus::Canceled => Ok(TaskStatus::Canceled),
        WireStatus::Exhausted => Ok(TaskStatus::Exhausted),
        WireStatus::Unspecified => Err(
            ApiError::InvalidRequest(String::from_str("status cannot be unspecified")),
        ),
    }
}

/// The filters and the page that a client asks for over HTTP.
#[derive(Debug)]
pub struct ListTasksParams {
    /// Only tasks of this slot.
    pub slot: Option<String>,
    /// Only tasks in the status of this name.
    pub status: Option<String>,
    /// Page size.
    pub limit: Option<usize>,
    /// Number of matching tasks to skip.
    pub offset: Option<usize>,
}

/// What a [`ListTasksParams`] holds, as plain values.
pub struct ListTasksParamsView {
    pub slot: Option<Seq<char>>,
    pub status: Option<Seq<char>>,
    pub limit: Option<usize>,
    pub offset: Option<usize>,
}

impl View for ListTasksParams {
    type V = ListTasksParamsView;

    open spec fn view(&self) -> ListTasksParamsView {
        ListTasksParamsView {
            slot: opt_view(self.slot),
            status: opt_view(self.status),
            limit: self.limit,
            offset: self.offset,
        }
    }
}

/// The filters and the page that a client asks for over RPC; a limit or
/// an offset of zero stands for none.
#[derive(Debug)]
pub struct ListTasksRequest {
    /// Only tasks of this slot.
    pub slot: Option<String>,
    /// Only tasks in the status of this number.
    pub status: Option<i32>,
    /// Page size.
    pub limit: u32,
    /// Number of matching tasks to skip.
    pub offset: u32,
}

/// What a [`ListTasksRequest`] holds, as plain values.
pub struct ListTasksRequestView {
    pub slot: Option<Seq<char>>,
    pub status: Option<i32>,
    pub limit: u32,
    pub offset: u32,
}

impl View for ListTasksRequest {
    type V = ListTasksRequestView;

    open spec fn view(&self) -> ListTasksRequestView {
        ListTasksRequestView {
            slot: opt_view(self.slot),
            status: self.status,
            limit: self.limit,
            offset: self.offset,
        }
    }
}

/// A page size, held to the largest one.
pub open spec fn capped(limit: int) -> usize {
    if limit <= MAX_LIMIT {
        limit as usize
    } else {
        MAX_LIMIT
    }
}

/// The query that a listing comes to, given the status that its status
/// filter was read as: a slot filter must not be blank, a status filter
/// must have been read, and the page size is held to the largest one.
pub open spec fn query_of(
    slot: Option<Seq<char>>,
    status: Option<Result<TaskStatus, ApiErrorView>>,
    limit: Option<int>,
    offset: Option<int>,
) -> Result<TaskQueryView, ApiErrorView> {
    if slot is Some && blank(slot->0) {
        invalid("slot cannot be empty"@)
    } else if status is Some && status->0 is Err {
        Err(status->0->Err_0)
    } else {
        Ok(
            TaskQueryView {
                slot,
                status: match status {
                    Some(s) => Some(s->Ok_0),
                    None => None,
                },
                limit: match limit {
                    Some(l) => capped(l),
                    None => DEFAULT_LIMIT,
                },
                offset: match offset {
                    Some(o) => o as usize,
                    None => 0,
                },
            },
        )
    }
}

/// The view of a query that was built, or of why it was not.
pub open spec fn query_view(r: Result<TaskQuery, ApiError>) -> Result<TaskQueryView, ApiErrorView> {
    match r {
        Ok(q) => Ok(q@),
        Err(e) => Err(e@),
    }
}

/// The query of an HTTP listing.
pub fn http_list_query(params: ListTasksParams) -> (r: Result<TaskQuery, ApiError>)
    ensures
        query_view(r) == query_of(
            params@.slot,
            match params@.status {
                Some(s) => Some(status_parsed(s, lowercase(s))),
                None => None,
            },
            match params.limit {
                Some(l) => Some(l as int),
                None => None,
            },
            match params.offset {
                Some(o) => Some(o as int),
                None => None,
            },
        ),
{
    let mut query = TaskQuery::new();
    if let Some(slot) = &params.slot {
        if is_blank(slot.as_str()) {
            return Err(ApiError::InvalidRequest(String::from_str("slot cannot be empty")));
        }
        query = query.with_slot(slot.as_str());
    }
    if let Some(status_str) = &params.status {
        let status = match parse_status(status_str.as_str()) {
            Ok(s) => s,
            Err(e) => {
                return Err(e);
            },
        };
        query = query.with_status(status);
    }
    if let Some(limit) = params.limit {
        query = query.with_limit(limit);
    }
    if let Some(offset) = params.offset {
        query = query.with_offset(offset);
    }
    Ok(query)
}

/// The query of an RPC listing.
pub fn rpc_list_query(req: ListTasksRequest) -> (r: Result<TaskQuery, ApiError>)
    ensures
        query_view(r) == query_of(
            req@.slot,
            match req.status {
                Some(raw) => Some(status_decoded(raw)),
                None => None,
            },
            if req.limit > 0 {
                Some(req.limit as int)
            } else {
                None
            },
            if req.offset > 0 {
                Some(req.offset as int)
            } else {
                None
            },
        ),
{
    let mut query = TaskQuery::new();
    if let Some(slot) = &req.slot {
        if is_blank(slot.as_str()) {
            return Err(ApiError::InvalidRequest(String::from_str("slot cannot be empty")));
        }
        query = query.with_slot(slot.as_str());
    }
    if let Some(status_raw) = req.status {
        let status = match proto_to_domain_status(status_raw) {
            Ok(s) => s,
            Err(e) => {
                return Err(e);
            },
        };
        query = query.with_status(status);
    }
    if req.limit > 0 {
        query = query.with_limit(req.limit as usize);
    }
    if req.offset > 0 {
        query = query.with_offset(req.offset as usize);
    }
    Ok(query)
}

/// The identifier of the task that a request names; it must not be blank.
pub fn task_id_of(id: String) -> (r: Result<TaskId, ApiError>)
    ensures
        match r {
            Ok(t) => !blank(id@) && t@ == id@,
            Err(e) => blank(id@) && e@ == ApiErrorView::InvalidRequest(
                "task_id cannot be empty"@,
            ),
        },
{
    if is_blank(id.as_str()) {
        return Err(ApiError::InvalidRequest(String::from_str("task_id cannot be empty")));
    }
    Ok(TaskId::from(id))
}

} // verus!
