//! Typed models for the applications endpoints: manifests, requests,
//! function runs, progress events, and the parameters of each call,
//! together with the URL path and query parameters each call uses.

use vstd::prelude::*;

use crate::strings::dec_int_str;
use crate::strings::dec_str;
use crate::strings::join1;
use crate::strings::join2;
use crate::strings::join2e;
use crate::strings::join3;
use crate::strings::join3e;
use crate::strings::join4;
use crate::strings::push_opt_i32;
use crate::strings::push_opt_str;
use crate::strings::push_opt_usize;
use crate::strings::views_of_pairs;
use crate::error::SdkError;

verus! {

/// Why a field was missing when a request was built.
#[derive(Clone, Debug, PartialEq)]
pub struct BuilderError {
    /// Name of the first required field that was never set.
    pub field: String,
}

/// Direction of cursor-based pagination.
#[derive(Clone, Copy, Debug, Eq, PartialEq, Ord, PartialOrd, Hash)]
pub enum CursorDirection {
    Forward,
    Backward,
}

impl CursorDirection {
    /// The wire value of the direction, as it appears in query strings.
    pub fn display_string(&self) -> (r: String)
        ensures
            self is Forward ==> r@ == "forward"@,
            self is Backward ==> r@ == "backward"@,
    {
        match self {
            CursorDirection::Forward => String::from_str("forward"),
            CursorDirection::Backward => String::from_str("backward"),
        }
    }
}

impl Default for CursorDirection {
    /// Pagination runs forward unless asked otherwise.
    fn default() -> (r: CursorDirection)
        ensures
            r == CursorDirection::Forward,
    {
        CursorDirection::Forward
    }
}

/// Outcome of one function run.
#[derive(Clone, Copy, Debug, Eq, PartialEq, Ord, PartialOrd, Hash)]
pub enum FunctionRunOutcome {
    Undefined,
    Success,
    Failure,
}

impl FunctionRunOutcome {
    /// The wire value of the outcome.
    pub fn display_string(&self) -> (r: String)
        ensures
            self is Undefined ==> r@ == "Undefined"@,
            self is Success ==> r@ == "Success"@,
            self is Failure ==> r@ == "Failure"@,
    {
        match self {
            FunctionRunOutcome::Undefined => String::from_str("Undefined"),
            FunctionRunOutcome::Success => String::from_str("Success"),
            FunctionRunOutcome::Failure => String::from_str("Failure"),
        }
    }
}

impl Default for FunctionRunOutcome {
    /// A run that has not finished has no outcome yet.
    fn default() -> (r: FunctionRunOutcome)
        ensures
            r == FunctionRunOutcome::Undefined,
    {
        FunctionRunOutcome::Undefined
    }
}

/// Lifecycle state of one function run.
#[derive(Clone, Copy, Debug, Eq, PartialEq, Ord, PartialOrd, Hash)]
pub enum FunctionRunStatus {
    Pending,
    Running,
    Completed,
}

impl FunctionRunStatus {
    /// The wire value of the status.
    pub fn display_string(&self) -> (r: String)
        ensures
            self is Pending ==> r@ == "Pending"@,
            self is Running ==> r@ == "Running"@,
            self is Completed ==> r@ == "Completed"@,
    {
        match self {
            FunctionRunStatus::Pending => String::from_str("Pending"),
            FunctionRunStatus::Running => String::from_str("Running"),
            FunctionRunStatus::Completed => String::from_str("Completed"),
        }
    }
}

impl Default for FunctionRunStatus {
    /// A freshly created run is pending.
    fn default() -> (r: FunctionRunStatus)
        ensures
            r == FunctionRunStatus::Pending,
    {
        FunctionRunStatus::Pending
    }
}

/// Why a request failed.
#[derive(Clone, Copy, Debug, Eq, PartialEq, Hash)]
pub enum RequestFailureReason {
    Unknown,
    InternalError,
    FunctionError,
    RequestError,
    NextFunctionNotFound,
    ConstraintUnsatisfiable,
    FunctionTimeout,
    Cancelled,
    OutOfMemory,
}

impl RequestFailureReason {
    /// The wire value of the reason.
    pub fn display_string(&self) -> (r: String)
        ensures
            self is Unknown ==> r@ == "unknown"@,
            self is InternalError ==> r@ == "internalerror"@,
            self is FunctionError ==> r@ == "functionerror"@,
            self is RequestError ==> r@ == "requesterror"@,
            self is NextFunctionNotFound ==> r@ == "nextfunctionnotfound"@,
            self is ConstraintUnsatisfiable ==> r@ == "constraintunsatisfiable"@,
            self is FunctionTimeout ==> r@ == "functiontimeout"@,
            self is Cancelled ==> r@ == "cancelled"@,
            self is OutOfMemory ==> r@ == "outofmemory"@,
    {
        match self {
            RequestFailureReason::Unknown => String::from_str("unknown"),
            RequestFailureReason::InternalError => String::from_str("internalerror"),
            RequestFailureReason::FunctionError => String::from_str("functionerror"),
            RequestFailureReason::RequestError => String::from_str("requesterror"),
            RequestFailureReason::NextFunctionNotFound => String::from_str("nextfunctionnotfound"),
            RequestFailureReason::ConstraintUnsatisfiable => String::from_str(
                "constraintunsatisfiable",
            ),
            RequestFailureReason::FunctionTimeout => String::from_str("functiontimeout"),
            RequestFailureReason::Cancelled => String::from_str("cancelled"),
            RequestFailureReason::OutOfMemory => String::from_str("outofmemory"),
        }
    }
}

impl Default for RequestFailureReason {
    /// The reason is unknown until the server says more.
    fn default() -> (r: RequestFailureReason)
        ensures
            r == RequestFailureReason::Unknown,
    {
        RequestFailureReason::Unknown
    }
}

/// Outcome of a whole request.
#[derive(Clone, Debug, PartialEq)]
pub enum RequestOutcome {
    Unknown,
    Success,
    Failure(RequestFailureReason),
}

impl Default for RequestOutcome {
    /// The outcome is unknown until the request finishes.
    fn default() -> (r: RequestOutcome)
        ensures
            r == RequestOutcome::Unknown,
    {
        RequestOutcome::Unknown
    }
}

/// Whether an application accepts new requests.
#[derive(Clone, Debug, PartialEq)]
pub enum ApplicationState {
    Active,
    Disabled { reason: String },
}

impl Default for ApplicationState {
    /// Applications are active unless disabled.
    fn default() -> (r: ApplicationState)
        ensures
            r == ApplicationState::Active,
    {
        ApplicationState::Active
    }
}

/// The entry function of an application, as written in a manifest.
#[derive(Clone, Default, Debug, PartialEq)]
pub struct Entrypoint {
    pub function_name: String,
    pub input_serializer: String,
    pub output_serializer: String,
    pub output_type_hints_base64: Option<String>,
}

/// The entry function of an application, as the server reports it.
#[derive(Clone, Default, Debug, PartialEq)]
pub struct EntryPointManifest {
    pub function_name: String,
    pub input_serializer: String,
    pub output_serializer: String,
    pub output_type_hints_base64: String,
}

/// Placement constraints of a manifest.
#[derive(Clone, Default, Debug, PartialEq)]
pub struct PlacementConstraintsManifest {
    pub filter_expressions: Vec<String>,
}

/// Placement constraints as the server reports them: label filter
/// expressions in the form `"key=value"`, `"key!=value"`, and so on.
#[derive(Clone, Default, Debug, PartialEq)]
pub struct PlacementConstraints {
    pub filter_expressions: Option<Vec<String>>,
}

impl PlacementConstraints {
    /// Constraints with no filter expressions.
    pub fn new() -> (r: PlacementConstraints)
        ensures
            r.filter_expressions is None,
    {
        PlacementConstraints { filter_expressions: None }
    }
}

/// A GPU requirement of a function.
#[derive(Clone, Default, Debug, PartialEq)]
pub struct GpuResources {
    pub count: i32,
    pub model: String,
}

impl GpuResources {
    /// A requirement of `count` devices of `model`.
    pub fn new(count: i32, model: String) -> (r: GpuResources)
        ensures
            r.count == count,
            r.model == model,
    {
        GpuResources { count, model }
    }
}

/// The error a failed request carries.
#[derive(Clone, Default, Debug, PartialEq)]
pub struct RequestError {
    pub function_name: String,
    pub message: String,
}

impl RequestError {
    /// An error raised by `function_name` with the given message.
    pub fn new(function_name: String, message: String) -> (r: RequestError)
        ensures
            r.function_name == function_name,
            r.message == message,
    {
        RequestError { function_name, message }
    }
}

/// The failure half of a request outcome, as the wire format nests it.
#[derive(Clone, Default, Debug, PartialEq)]
pub struct RequestOutcomeOneOf {
    pub failure: RequestFailureReason,
}

impl RequestOutcomeOneOf {
    /// A failed outcome with the given reason.
    pub fn new(failure: RequestFailureReason) -> (r: RequestOutcomeOneOf)
        ensures
            r.failure == failure,
    {
        RequestOutcomeOneOf { failure }
    }
}

/// One attempt to execute a function run on an executor.
#[derive(Clone, Default, Debug, PartialEq)]
pub struct Allocation {
    pub attempt_number: i32,
    pub created_at: i32,
    pub execution_duration_ms: Option<Option<i64>>,
    pub executor_id: String,
    pub function_executor_id: String,
    pub function_name: String,
    pub id: String,
    pub outcome: FunctionRunOutcome,
}

impl Allocation {
    /// An allocation with no recorded execution duration.
    pub fn new(
        attempt_number: i32,
        created_at: i32,
        executor_id: String,
        function_executor_id: String,
        function_name: String,
        id: String,
        outcome: FunctionRunOutcome,
    ) -> (r: Allocation)
        ensures
            r.attempt_number == attempt_number,
            r.created_at == created_at,
            r.execution_duration_ms is None,
            r.executor_id == executor_id,
            r.function_executor_id == function_executor_id,
            r.function_name == function_name,
            r.id == id,
            r.outcome == outcome,
    {
        Allocation {
            attempt_number,
            created_at,
            execution_duration_ms: None,
            executor_id,
            function_executor_id,
            function_name,
            id,
            outcome,
        }
    }
}

/// One function run of a request.
#[derive(Clone, Default, Debug, PartialEq)]
pub struct FunctionRun {
    pub allocations: Vec<Allocation>,
    pub application: String,
    pub application_version: String,
    pub created_at: i32,
    pub id: String,
    pub name: String,
    pub namespace: String,
    pub outcome: Option<Option<FunctionRunOutcome>>,
    pub status: FunctionRunStatus,
}

impl FunctionRun {
    /// A run with no outcome yet.
    pub fn new(
        allocations: Vec<Allocation>,
        application: String,
        application_version: String,
        created_at: i32,
        id: String,
        name: String,
        namespace: String,
        status: FunctionRunStatus,
    ) -> (r: FunctionRun)
        ensures
            r.allocations == allocations,
            r.application == application,
            r.application_version == application_version,
            r.created_at == created_at,
            r.id == id,
            r.name == name,
            r.namespace == namespace,
            r.outcome is None,
            r.status == status,
    {
        FunctionRun {
            allocations,
            application,
            application_version,
            created_at,
            id,
            name,
            namespace,
            outcome: None,
            status,
        }
    }
}

/// A request as it appears in listings.
#[derive(Clone, Default, Debug, PartialEq)]
pub struct ShallowRequest {
    pub application_version: String,
    pub created_at: i32,
    pub function_runs_count: i32,
    pub id: String,
    pub outcome: Option<Option<Box<RequestOutcome>>>,
}

impl ShallowRequest {
    /// A listed request with no outcome yet.
    pub fn new(
        application_version: String,
        created_at: i32,
        function_runs_count: i32,
        id: String,
    ) -> (r: ShallowRequest)
        ensures
            r.application_version == application_version,
            r.created_at == created_at,
            r.function_runs_count == function_runs_count,
            r.id == id,
            r.outcome is None,
    {
        ShallowRequest { application_version, created_at, function_runs_count, id, outcome: None }
    }
}

/// One page of a request listing.
#[derive(Clone, Default, Debug, PartialEq)]
pub struct ApplicationRequests {
    pub next_cursor: Option<Option<String>>,
    pub prev_cursor: Option<Option<String>>,
    pub requests: Vec<ShallowRequest>,
}

impl ApplicationRequests {
    /// A page with no cursors.
    pub fn new(requests: Vec<ShallowRequest>) -> (r: ApplicationRequests)
        ensures
            r.next_cursor is None,
            r.prev_cursor is None,
            r.requests == requests,
    {
        ApplicationRequests { next_cursor: None, prev_cursor: None, requests }
    }
}

/// Summary outcome carried by a run-completion event.
#[derive(Clone, Copy, Debug, Eq, PartialEq, Hash)]
pub enum FunctionRunOutcomeSummary {
    Unknown,
    Success,
    Failure,
}

/// A request was created.
#[derive(Clone, Debug, PartialEq)]
pub struct RequestCreatedEvent {
    pub namespace: String,
    pub application_name: String,
    pub application_version: String,
    pub request_id: String,
}

/// A request started running.
#[derive(Clone, Debug, PartialEq)]
pub struct RequestStartedEvent {
    pub namespace: String,
    pub application_name: String,
    pub application_version: String,
    pub request_id: String,
}

/// A request finished, with its outcome.
#[derive(Clone, Debug, PartialEq)]
pub struct RequestFinishedEvent {
    pub namespace: String,
    pub application_name: String,
    pub application_version: String,
    pub request_id: String,
    pub outcome: RequestOutcome,
}

/// A function run was created.
#[derive(Clone, Debug, PartialEq)]
pub struct FunctionRunCreated {
    pub namespace: String,
    pub application_name: String,
    pub application_version: String,
    pub request_id: String,
    pub function_name: String,
    pub function_run_id: String,
}

/// A function run was assigned to an executor.
#[derive(Clone, Debug, PartialEq)]
pub struct FunctionRunAssigned {
    pub namespace: String,
    pub application_name: String,
    pub application_version: String,
    pub request_id: String,
    pub function_name: String,
    pub function_run_id: String,
    pub allocation_id: String,
    pub executor_id: String,
}

/// A function run completed, with its outcome.
#[derive(Clone, Debug, PartialEq)]
pub struct FunctionRunCompleted {
    pub namespace: String,
    pub application_name: String,
    pub application_version: String,
    pub request_id: String,
    pub function_name: String,
    pub function_run_id: String,
    pub allocation_id: String,
    pub outcome: FunctionRunOutcomeSummary,
}

/// A function run was answered from the cache.
#[derive(Clone, Debug, PartialEq)]
pub struct FunctionRunMatchedCache {
    pub namespace: String,
    pub application_name: String,
    pub application_version: String,
    pub request_id: String,
    pub function_name: String,
    pub function_run_id: String,
}

/// The wire value of a pagination direction.
pub open spec fn spec_direction_str(d: CursorDirection) -> Seq<char> {
    match d {
        CursorDirection::Forward => "forward"@,
        CursorDirection::Backward => "backward"@,
    }
}

/// Append the pair `(name, direction)` when the optional direction is
/// set.
fn push_opt_direction(r: &mut Vec<(String, String)>, name: &str, v: &Option<CursorDirection>)
    ensures
        views_of_pairs(final(r)@) == match *v {
            Some(d) => views_of_pairs(old(r)@).push((name@, spec_direction_str(d))),
            None => views_of_pairs(old(r)@),
        },
{
    match v {
        Some(d) => {
            let ghost before = r@;
            r.push((String::from_str(name), d.display_string()));
            proof {
                assert(views_of_pairs(r@) =~= views_of_pairs(before).push(
                    (name@, spec_direction_str(*d)),
                ));
            }
        },
        None => {},
    }
}

/// Parameters of the get-application call.
#[derive(Clone, Debug)]
pub struct GetApplicationRequest {
    pub namespace: String,
    pub application: String,
}

/// Builder for [`GetApplicationRequest`].
#[derive(Clone, Default, Debug)]
pub struct GetApplicationRequestBuilder {
    pub namespace: Option<String>,
    pub application: Option<String>,
}

impl GetApplicationRequest {
    /// A builder with nothing set.
    pub fn builder() -> (r: GetApplicationRequestBuilder)
        ensures
            r.namespace is None,
            r.application is None,
    {
        GetApplicationRequestBuilder { namespace: None, application: None }
    }

    /// The path of the addressed application.
    pub fn url_path(&self) -> (r: String)
        ensures
            r@ == "/v1/namespaces/"@ + self.namespace@ + "/applications/"@ + self.application@,
    {
        join2e("/v1/namespaces/", &self.namespace, "/applications/", &self.application)
    }
}

impl GetApplicationRequestBuilder {
    /// Set the namespace.
    pub fn namespace(self, value: String) -> (r: Self)
        ensures
            r.namespace == Some(value),
            r.application == self.application,
    {
        GetApplicationRequestBuilder { namespace: Some(value), ..self }
    }

    /// Set the application name.
    pub fn application(self, value: String) -> (r: Self)
        ensures
            r.application == Some(value),
            r.namespace == self.namespace,
    {
        GetApplicationRequestBuilder { application: Some(value), ..self }
    }

    /// Build the request; fails naming the first required field that was
    /// never set.
    pub fn build(self) -> (r: Result<GetApplicationRequest, BuilderError>)
        ensures
            r is Ok <==> (self.namespace is Some && self.application is Some),
            match r {
                Ok(v) => v.namespace == self.namespace->0 && v.application == self.application->0,
                Err(e) => if self.namespace is None {
                    e.field@ == "namespace"@
                } else {
                    e.field@ == "application"@
                },
            },
    {
        let GetApplicationRequestBuilder { namespace, application } = self;
        match namespace {
            Some(namespace) => match application {
                Some(application) => Ok(GetApplicationRequest { namespace, application }),
                None => Err(BuilderError { field: String::from_str("application") }),
            },
            None => Err(BuilderError { field: String::from_str("namespace") }),
        }
    }
}

/// Parameters of the delete-application call.
#[derive(Clone, Debug)]
pub struct DeleteApplicationRequest {
    pub namespace: String,
    pub application: String,
}

/// Builder for [`DeleteApplicationRequest`].
#[derive(Clone, Default, Debug)]
pub struct DeleteApplicationRequestBuilder {
    pub namespace: Option<String>,
    pub application: Option<String>,
}

impl DeleteApplicationRequest {
    /// A builder with nothing set.
    pub fn builder() -> (r: DeleteApplicationRequestBuilder)
        ensures
            r.namespace is None,
            r.application is None,
    {
        DeleteApplicationRequestBuilder { namespace: None, application: None }
    }

    /// The path of the addressed application.
    pub fn url_path(&self) -> (r: String)
        ensures
            r@ == "/v1/namespaces/"@ + self.namespace@ + "/applications/"@ + self.application@,
    {
        join2e("/v1/namespaces/", &self.namespace, "/applications/", &self.application)
    }
}

impl DeleteApplicationRequestBuilder {
    /// Set the namespace.
    pub fn namespace(self, value: String) -> (r: Self)
        ensures
            r == (DeleteApplicationRequestBuilder { namespace: Some(value), ..self }),
    {
        DeleteApplicationRequestBuilder { namespace: Some(value), ..self }
    }

    /// Set the application name.
    pub fn application(self, value: String) -> (r: Self)
        ensures
            r == (DeleteApplicationRequestBuilder { application: Some(value), ..self }),
    {
        DeleteApplicationRequestBuilder { application: Some(value), ..self }
    }

    /// Build the request; fails naming the first required field that was
    /// never set.
    pub fn build(self) -> (r: Result<DeleteApplicationRequest, BuilderError>)
        ensures
            r is Ok <==> (self.namespace is Some && self.application is Some),
            match r {
                Ok(v) => v.namespace == self.namespace->0 && v.application == self.application->0,
                Err(e) => if self.namespace is None {
                    e.field@ == "namespace"@
                } else {
                    e.field@ == "application"@
                },
            },
    {
        let DeleteApplicationRequestBuilder { namespace, application } = self;
        match namespace {
            Some(namespace) => match application {
                Some(application) => Ok(DeleteApplicationRequest { namespace, application }),
                None => Err(BuilderError { field: String::from_str("application") }),
            },
            None => Err(BuilderError { field: String::from_str("namespace") }),
        }
    }
}

/// Parameters of the list-applications call.
#[derive(Clone, Debug)]
pub struct ListApplicationsRequest {
    pub namespace: String,
    pub limit: Option<i32>,
    pub cursor: Option<String>,
    pub direction: Option<CursorDirection>,
}

/// Builder for [`ListApplicationsRequest`].
#[derive(Clone, Default, Debug)]
pub struct ListApplicationsRequestBuilder {
    pub namespace: Option<String>,
    pub limit: Option<i32>,
    pub cursor: Option<String>,
    pub direction: Option<CursorDirection>,
}

impl ListApplicationsRequest {
    /// A builder with nothing set.
    pub fn builder() -> (r: ListApplicationsRequestBuilder)
        ensures
            r.namespace is None,
            r.limit is None,
            r.cursor is None,
            r.direction is None,
    {
        ListApplicationsRequestBuilder {
            namespace: None,
            limit: None,
            cursor: None,
            direction: None,
        }
    }

    /// The path of the namespace's application collection.
    pub fn url_path(&self) -> (r: String)
        ensures
            r@ == "/v1/namespaces/"@ + self.namespace@ + "/applications"@,
    {
        join1("/v1/namespaces/", &self.namespace, "/applications")
    }

    /// The query parameters the call sends, in order: `limit`, `cursor`,
    /// `direction`, each present exactly when set.
    pub open spec fn spec_query(&self) -> Seq<(Seq<char>, Seq<char>)> {
        let q0 = Seq::<(Seq<char>, Seq<char>)>::empty();
        let q1 = match self.limit {
            Some(n) => q0.push(("limit"@, dec_int_str(n as int))),
            None => q0,
        };
        let q2 = match self.cursor {
            Some(c) => q1.push(("cursor"@, c@)),
            None => q1,
        };
        match self.direction {
            Some(d) => q2.push(("direction"@, spec_direction_str(d))),
            None => q2,
        }
    }

    /// Render the query parameters.
    pub fn query(&self) -> (r: Vec<(String, String)>)
        ensures
            views_of_pairs(r@) == self.spec_query(),
    {
        let mut r: Vec<(String, String)> = Vec::new();
        proof {
            assert(views_of_pairs(r@) =~= Seq::<(Seq<char>, Seq<char>)>::empty());
        }
        push_opt_i32(&mut r, "limit", &self.limit);
        push_opt_str(&mut r, "cursor", &self.cursor);
        push_opt_direction(&mut r, "direction", &self.direction);
        r
    }
}

impl ListApplicationsRequestBuilder {
    /// Set the namespace.
    pub fn namespace(self, value: String) -> (r: Self)
        ensures
            r == (ListApplicationsRequestBuilder { namespace: Some(value), ..self }),
    {
        ListApplicationsRequestBuilder { namespace: Some(value), ..self }
    }

    /// Set the page size.
    pub fn limit(self, value: i32) -> (r: Self)
        ensures
            r == (ListApplicationsRequestBuilder { limit: Some(value), ..self }),
    {
        ListApplicationsRequestBuilder { limit: Some(value), ..self }
    }

    /// Set the pagination cursor.
    pub fn cursor(self, value: String) -> (r: Self)
        ensures
            r == (ListApplicationsRequestBuilder { cursor: Some(value), ..self }),
    {
        ListApplicationsRequestBuilder { cursor: Some(value), ..self }
    }

    /// Set the pagination direction.
    pub fn direction(self, value: CursorDirection) -> (r: Self)
        ensures
            r == (ListApplicationsRequestBuilder { direction: Some(value), ..self }),
    {
        ListApplicationsRequestBuilder { direction: Some(value), ..self }
    }

    /// Build the request; only the namespace is required.
    pub fn build(self) -> (r: Result<ListApplicationsRequest, BuilderError>)
        ensures
            r is Ok <==> self.namespace is Some,
            match r {
                Ok(v) => v.namespace == self.namespace->0 && v.limit == self.limit && v.cursor
                    == self.cursor && v.direction == self.direction,
                Err(e) => e.field@ == "namespace"@,
            },
    {
        let ListApplicationsRequestBuilder { namespace, limit, cursor, direction } = self;
        match namespace {
            Some(namespace) => Ok(ListApplicationsRequest { namespace, limit, cursor, direction }),
            None => Err(BuilderError { field: String::from_str("namespace") }),
        }
    }
}

/// Parameters of the list-requests call.
#[derive(Clone, Debug)]
pub struct ListRequestsRequest {
    pub namespace: String,
    pub application: String,
    pub limit: Option<i32>,
    pub cursor: Option<String>,
    pub direction: Option<CursorDirection>,
}

/// Builder for [`ListRequestsRequest`].
#[derive(Clone, Default, Debug)]
pub struct ListRequestsRequestBuilder {
    pub namespace: Option<String>,
    pub application: Option<String>,
    pub limit: Option<i32>,
    pub cursor: Option<String>,
    pub direction: Option<CursorDirection>,
}

impl ListRequestsRequest {
    /// A builder with nothing set.
    pub fn builder() -> (r: ListRequestsRequestBuilder)
        ensures
            r.namespace is None,
            r.application is None,
            r.limit is None,
            r.cursor is None,
            r.direction is None,
    {
        ListRequestsRequestBuilder {
            namespace: None,
            application: None,
            limit: None,
            cursor: None,
            direction: None,
        }
    }

    /// The path of the application's request collection.
    pub fn url_path(&self) -> (r: String)
        ensures
            r@ == "/v1/namespaces/"@ + self.namespace@ + "/applications/"@ + self.application@
                + "/requests"@,
    {
        join2("/v1/namespaces/", &self.namespace, "/applications/", &self.application, "/requests")
    }

    /// The query parameters the call sends, in order: `limit`, `cursor`,
    /// `direction`, each present exactly when set.
    pub open spec fn spec_query(&self) -> Seq<(Seq<char>, Seq<char>)> {
        let q0 = Seq::<(Seq<char>, Seq<char>)>::empty();
        let q1 = match self.limit {
            Some(n) => q0.push(("limit"@, dec_int_str(n as int))),
            None => q0,
        };
        let q2 = match self.cursor {
            Some(c) => q1.push(("cursor"@, c@)),
            None => q1,
        };
        match self.direction {
            Some(d) => q2.push(("direction"@, spec_direction_str(d))),
            None => q2,
        }
    }

    /// Render the query parameters.
    pub fn query(&self) -> (r: Vec<(String, String)>)
        ensures
            views_of_pairs(r@) == self.spec_query(),
    {
        let mut r: Vec<(String, String)> = Vec::new();
        proof {
            assert(views_of_pairs(r@) =~= Seq::<(Seq<char>, Seq<char>)>::empty());
        }
        push_opt_i32(&mut r, "limit", &self.limit);
        push_opt_str(&mut r, "cursor", &self.cursor);
        push_opt_direction(&mut r, "direction", &self.direction);
        r
    }
}

impl ListRequestsRequestBuilder {
    /// Set the namespace.
    pub fn namespace(self, value: String) -> (r: Self)
        ensures
            r == (ListRequestsRequestBuilder { namespace: Some(value), ..self }),
    {
        ListRequestsRequestBuilder { namespace: Some(value), ..self }
    }

    /// Set the application name.
    pub fn application(self, value: String) -> (r: Self)
        ensures
            r == (ListRequestsRequestBuilder { application: Some(value), ..self }),
    {
        ListRequestsRequestBuilder { application: Some(value), ..self }
    }

    /// Set the page size.
    pub fn limit(self, value: i32) -> (r: Self)
        ensures
            r == (ListRequestsRequestBuilder { limit: Some(value), ..self }),
    {
        ListRequestsRequestBuilder { limit: Some(value), ..self }
    }

    /// Set the pagination cursor.
    pub fn cursor(self, value: String) -> (r: Self)
        ensures
            r == (ListRequestsRequestBuilder { cursor: Some(value), ..self }),
    {
        ListRequestsRequestBuilder { cursor: Some(value), ..self }
    }

    /// Set the pagination direction.
    pub fn direction(self, value: CursorDirection) -> (r: Self)
        ensures
            r == (ListRequestsRequestBuilder { direction: Some(value), ..self }),
    {
        ListRequestsRequestBuilder { direction: Some(value), ..self }
    }

    /// Build the request; namespace and application are required.
    pub fn build(self) -> (r: Result<ListRequestsRequest, BuilderError>)
        ensures
            r is Ok <==> (self.namespace is Some && self.application is Some),
            match r {
                Ok(v) => v.namespace == self.namespace->0 && v.application == self.application->0
                    && v.limit == self.limit && v.cursor == self.cursor && v.direction
                    == self.direction,
                Err(e) => if self.namespace is None {
                    e.field@ == "namespace"@
                } else {
                    e.field@ == "application"@
                },
            },
    {
        let ListRequestsRequestBuilder { namespace, application, limit, cursor, direction } = self;
        match namespace {
            Some(namespace) => match application {
                Some(application) => Ok(
                    ListRequestsRequest { namespace, application, limit, cursor, direction },
                ),
                None => Err(BuilderError { field: String::from_str("application") }),
            },
            None => Err(BuilderError { field: String::from_str("namespace") }),
        }
    }
}

/// Parameters of the get-request call.
#[derive(Clone, Debug)]
pub struct GetRequestRequest {
    pub namespace: String,
    pub application: String,
    pub request_id: String,
    pub updates_pagination_token: Option<String>,
}

/// Builder for [`GetRequestRequest`].
#[derive(Clone, Default, Debug)]
pub struct GetRequestRequestBuilder {
    pub namespace: Option<String>,
    pub application: Option<String>,
    pub request_id: Option<String>,
    pub updates_pagination_token: Option<String>,
}

impl GetRequestRequest {
    /// A builder with nothing set.
    pub fn builder() -> (r: GetRequestRequestBuilder)
        ensures
            r.namespace is None,
            r.application is None,
            r.request_id is None,
            r.updates_pagination_token is None,
    {
        GetRequestRequestBuilder {
            namespace: None,
            application: None,
            request_id: None,
            updates_pagination_token: None,
        }
    }

    /// The path of the addressed request.
    pub fn url_path(&self) -> (r: String)
        ensures
            r@ == "/v1/namespaces/"@ + self.namespace@ + "/applications/"@ + self.application@
                + "/requests/"@ + self.request_id@,
    {
        join3e(
            "/v1/namespaces/",
            &self.namespace,
            "/applications/",
            &self.application,
            "/requests/",
            &self.request_id,
        )
    }

    /// The query parameters the call sends: a `nextToken` exactly when a
    /// pagination token for progress updates is set.
    pub open spec fn spec_query(&self) -> Seq<(Seq<char>, Seq<char>)> {
        match self.updates_pagination_token {
            Some(t) => Seq::<(Seq<char>, Seq<char>)>::empty().push(("nextToken"@, t@)),
            None => Seq::<(Seq<char>, Seq<char>)>::empty(),
        }
    }

    /// Render the query parameters.
    pub fn query(&self) -> (r: Vec<(String, String)>)
        ensures
            views_of_pairs(r@) == self.spec_query(),
    {
        let mut r: Vec<(String, String)> = Vec::new();
        proof {
            assert(views_of_pairs(r@) =~= Seq::<(Seq<char>, Seq<char>)>::empty());
        }
        push_opt_str(&mut r, "nextToken", &self.updates_pagination_token);
        r
    }
}

impl GetRequestRequestBuilder {
    /// Set the namespace.
    pub fn namespace(self, value: String) -> (r: Self)
        ensures
            r == (GetRequestRequestBuilder { namespace: Some(value), ..self }),
    {
        GetRequestRequestBuilder { namespace: Some(value), ..self }
    }

    /// Set the application name.
    pub fn application(self, value: String) -> (r: Self)
        ensures
            r == (GetRequestRequestBuilder { application: Some(value), ..self }),
    {
        GetRequestRequestBuilder { application: Some(value), ..self }
    }

    /// Set the request id.
    pub fn request_id(self, value: String) -> (r: Self)
        ensures
            r == (GetRequestRequestBuilder { request_id: Some(value), ..self }),
    {
        GetRequestRequestBuilder { request_id: Some(value), ..self }
    }

    /// Set the pagination token for progress updates.
    pub fn updates_pagination_token(self, value: String) -> (r: Self)
        ensures
            r == (GetRequestRequestBuilder { updates_pagination_token: Some(value), ..self }),
    {
        GetRequestRequestBuilder { updates_pagination_token: Some(value), ..self }
    }

    /// Build the request; namespace, application and request id are
    /// required.
    pub fn build(self) -> (r: Result<GetRequestRequest, BuilderError>)
        ensures
            r is Ok <==> (self.namespace is Some && self.application is Some && self.request_id
                is Some),
            match r {
                Ok(v) => v.namespace == self.namespace->0 && v.application == self.application->0
                    && v.request_id == self.request_id->0 && v.updates_pagination_token
                    == self.updates_pagination_token,
                Err(e) => if self.namespace is None {
                    e.field@ == "namespace"@
                } else if self.application is None {
                    e.field@ == "application"@
                } else {
                    e.field@ == "request_id"@
                },
            },
    {
        let GetRequestRequestBuilder {
            namespace,
            application,
            request_id,
            updates_pagination_token,
        } = self;
        match namespace {
            Some(namespace) => match application {
                Some(application) => match request_id {
                    Some(request_id) => Ok(
                        GetRequestRequest {
                            namespace,
                            application,
                            request_id,
                            updates_pagination_token,
                        },
                    ),
                    None => Err(BuilderError { field: String::from_str("request_id") }),
                },
                None => Err(BuilderError { field: String::from_str("application") }),
            },
            None => Err(BuilderError { field: String::from_str("namespace") }),
        }
    }
}

/// Parameters of the delete-request call.
#[derive(Clone, Debug)]
pub struct DeleteRequestRequest {
    pub namespace: String,
    pub application: String,
    pub request_id: String,
}

/// Builder for [`DeleteRequestRequest`].
#[derive(Clone, Default, Debug)]
pub struct DeleteRequestRequestBuilder {
    pub namespace: Option<String>,
    pub application: Option<String>,
    pub request_id: Option<String>,
}

impl DeleteRequestRequest {
    /// A builder with nothing set.
    pub fn builder() -> (r: DeleteRequestRequestBuilder)
        ensures
            r.namespace is None,
            r.application is None,
            r.request_id is None,
    {
        DeleteRequestRequestBuilder { namespace: None, application: None, request_id: None }
    }

    /// The path of the addressed request.
    pub fn url_path(&self) -> (r: String)
        ensures
            r@ == "/v1/namespaces/"@ + self.namespace@ + "/applications/"@ + self.application@
                + "/requests/"@ + self.request_id@,
    {
        join3e(
            "/v1/namespaces/",
            &self.namespace,
            "/applications/",
            &self.application,
            "/requests/",
            &self.request_id,
        )
    }
}

impl DeleteRequestRequestBuilder {
    /// Set the namespace.
    pub fn namespace(self, value: String) -> (r: Self)
        ensures
            r == (DeleteRequestRequestBuilder { namespace: Some(value), ..self }),
    {
        DeleteRequestRequestBuilder { namespace: Some(value), ..self }
    }

    /// Set the application name.
    pub fn application(self, value: String) -> (r: Self)
        ensures
            r == (DeleteRequestRequestBuilder { application: Some(value), ..self }),
    {
        DeleteRequestRequestBuilder { application: Some(value), ..self }
    }

    /// Set the request id.
    pub fn request_id(self, value: String) -> (r: Self)
        ensures
            r == (DeleteRequestRequestBuilder { request_id: Some(value), ..self }),
    {
        DeleteRequestRequestBuilder { request_id: Some(value), ..self }
    }

    /// Build the request; all three fields are required.
    pub fn build(self) -> (r: Result<DeleteRequestRequest, BuilderError>)
        ensures
            r is Ok <==> (self.namespace is Some && self.application is Some && self.request_id
                is Some),
            match r {
                Ok(v) => v.namespace == self.namespace->0 && v.application == self.application->0
                    && v.request_id == self.request_id->0,
                Err(e) => if self.namespace is None {
                    e.field@ == "namespace"@
                } else if self.application is None {
                    e.field@ == "application"@
                } else {
                    e.field@ == "request_id"@
                },
            },
    {
        let DeleteRequestRequestBuilder { namespace, application, request_id } = self;
        match namespace {
            Some(namespace) => match application {
                Some(application) => match request_id {
                    Some(request_id) => Ok(
                        DeleteRequestRequest { namespace, application, request_id },
                    ),
                    None => Err(BuilderError { field: String::from_str("request_id") }),
                },
                None => Err(BuilderError { field: String::from_str("application") }),
            },
            None => Err(BuilderError { field: String::from_str("namespace") }),
        }
    }
}

/// Parameters of the check-function-output call.
#[derive(Clone, Debug)]
pub struct CheckFunctionOutputRequest {
    pub namespace: String,
    pub application: String,
    pub request_id: String,
}

/// Builder for [`CheckFunctionOutputRequest`].
#[derive(Clone, Default, Debug)]
pub struct CheckFunctionOutputRequestBuilder {
    pub namespace: Option<String>,
    pub application: Option<String>,
    pub request_id: Option<String>,
}

impl CheckFunctionOutputRequest {
    /// A builder with nothing set.
    pub fn builder() -> (r: CheckFunctionOutputRequestBuilder)
        ensures
            r.namespace is None,
            r.application is None,
            r.request_id is None,
    {
        CheckFunctionOutputRequestBuilder { namespace: None, application: None, request_id: None }
    }

    /// The path of the request's output.
    pub fn url_path(&self) -> (r: String)
        ensures
            r@ == "/v1/namespaces/"@ + self.namespace@ + "/applications/"@ + self.application@
                + "/requests/"@ + self.request_id@ + "/output"@,
    {
        join3(
            "/v1/namespaces/",
            &self.namespace,
            "/applications/",
            &self.application,
            "/requests/",
            &self.request_id,
            "/output",
        )
    }
}

impl CheckFunctionOutputRequestBuilder {
    /// Set the namespace.
    pub fn namespace(self, value: String) -> (r: Self)
        ensures
            r == (CheckFunctionOutputRequestBuilder { namespace: Some(value), ..self }),
    {
        CheckFunctionOutputRequestBuilder { namespace: Some(value), ..self }
    }

    /// Set the application name.
    pub fn application(self, value: String) -> (r: Self)
        ensures
            r == (CheckFunctionOutputRequestBuilder { application: Some(value), ..self }),
    {
        CheckFunctionOutputRequestBuilder { application: Some(value), ..self }
    }

    /// Set the request id.
    pub fn request_id(self, value: String) -> (r: Self)
        ensures
            r == (CheckFunctionOutputRequestBuilder { request_id: Some(value), ..self }),
    {
        CheckFunctionOutputRequestBuilder { request_id: Some(value), ..self }
    }

    /// Build the request; all three fields are required.
    pub fn build(self) -> (r: Result<CheckFunctionOutputRequest, BuilderError>)
        ensures
            r is Ok <==> (self.namespace is Some && self.application is Some && self.request_id
                is Some),
            match r {
                Ok(v) => v.namespace == self.namespace->0 && v.application == self.application->0
                    && v.request_id == self.request_id->0,
                Err(e) => if self.namespace is None {
                    e.field@ == "namespace"@
                } else if self.application is None {
                    e.field@ == "application"@
                } else {
                    e.field@ == "request_id"@
                },
            },
    {
        let CheckFunctionOutputRequestBuilder { namespace, application, request_id } = self;
        match namespace {
            Some(namespace) => match application {
                Some(application) => match request_id {
                    Some(request_id) => Ok(
                        CheckFunctionOutputRequest { namespace, application, request_id },
                    ),
                    None => Err(BuilderError { field: String::from_str("request_id") }),
                },
                None => Err(BuilderError { field: String::from_str("application") }),
            },
            None => Err(BuilderError { field: String::from_str("namespace") }),
        }
    }
}

/// Parameters of the download-request-output call.
#[derive(Clone, Debug)]
pub struct DownloadRequestOutputRequest {
    pub namespace: String,
    pub application: String,
    pub request_id: String,
}

/// Builder for [`DownloadRequestOutputRequest`].
#[derive(Clone, Default, Debug)]
pub struct DownloadRequestOutputRequestBuilder {
    pub namespace: Option<String>,
    pub application: Option<String>,
    pub request_id: Option<String>,
}

impl DownloadRequestOutputRequest {
    /// A builder with nothing set.
    pub fn builder() -> (r: DownloadRequestOutputRequestBuilder)
        ensures
            r.namespace is None,
            r.application is None,
            r.request_id is None,
    {
        DownloadRequestOutputRequestBuilder {
            namespace: None,
            application: None,
            request_id: None,
        }
    }

    /// The path of the request's output.
    pub fn url_path(&self) -> (r: String)
        ensures
            r@ == "/v1/namespaces/"@ + self.namespace@ + "/applications/"@ + self.application@
                + "/requests/"@ + self.request_id@ + "/output"@,
    {
        join3(
            "/v1/namespaces/",
            &self.namespace,
            "/applications/",
            &self.application,
            "/requests/",
            &self.request_id,
            "/output",
        )
    }
}

impl DownloadRequestOutputRequestBuilder {
    /// Set the namespace.
    pub fn namespace(self, value: String) -> (r: Self)
        ensures
            r == (DownloadRequestOutputRequestBuilder { namespace: Some(value), ..self }),
    {
        DownloadRequestOutputRequestBuilder { namespace: Some(value), ..self }
    }

    /// Set the application name.
    pub fn application(self, value: String) -> (r: Self)
        ensures
            r == (DownloadRequestOutputRequestBuilder { application: Some(value), ..self }),
    {
        DownloadRequestOutputRequestBuilder { application: Some(value), ..self }
    }

    /// Set the request id.
    pub fn request_id(self, value: String) -> (r: Self)
        ensures
            r == (DownloadRequestOutputRequestBuilder { request_id: Some(value), ..self }),
    {
        DownloadRequestOutputRequestBuilder { request_id: Some(value), ..self }
    }

    /// Build the request; all three fields are required.
    pub fn build(self) -> (r: Result<DownloadRequestOutputRequest, BuilderError>)
        ensures
            r is Ok <==> (self.namespace is Some && self.application is Some && self.request_id
                is Some),
            match r {
                Ok(v) => v.namespace == self.namespace->0 && v.application == self.application->0
                    && v.request_id == self.request_id->0,
                Err(e) => if self.namespace is None {
                    e.field@ == "namespace"@
                } else if self.application is None {
                    e.field@ == "application"@
                } else {
                    e.field@ == "request_id"@
                },
            },
    {
        let DownloadRequestOutputRequestBuilder { namespace, application, request_id } = self;
        match namespace {
            Some(namespace) => match application {
                Some(application) => match request_id {
                    Some(request_id) => Ok(
                        DownloadRequestOutputRequest { namespace, application, request_id },
                    ),
                    None => Err(BuilderError { field: String::from_str("request_id") }),
                },
                None => Err(BuilderError { field: String::from_str("application") }),
            },
            None => Err(BuilderError { field: String::from_str("namespace") }),
        }
    }
}

/// Parameters of the download-function-output call.
#[derive(Clone, Debug)]
pub struct DownloadFunctionOutputRequest {
    pub namespace: String,
    pub application: String,
    pub request_id: String,
    pub function_call_id: String,
}

/// Builder for [`DownloadFunctionOutputRequest`].
#[derive(Clone, Default, Debug)]
pub struct DownloadFunctionOutputRequestBuilder {
    pub namespace: Option<String>,
    pub application: Option<String>,
    pub request_id: Option<String>,
    pub function_call_id: Option<String>,
}

impl DownloadFunctionOutputRequest {
    /// A builder with nothing set.
    pub fn builder() -> (r: DownloadFunctionOutputRequestBuilder)
        ensures
            r.namespace is None,
            r.application is None,
            r.request_id is None,
            r.function_call_id is None,
    {
        DownloadFunctionOutputRequestBuilder {
            namespace: None,
            application: None,
            request_id: None,
            function_call_id: None,
        }
    }

    /// The path of one function call's output within the request.
    pub fn url_path(&self) -> (r: String)
        ensures
            r@ == "/v1/namespaces/"@ + self.namespace@ + "/applications/"@ + self.application@
                + "/requests/"@ + self.request_id@ + "/output/"@ + self.function_call_id@,
    {
        join4(
            "/v1/namespaces/",
            &self.namespace,
            "/applications/",
            &self.application,
            "/requests/",
            &self.request_id,
            "/output/",
            &self.function_call_id,
        )
    }
}

impl DownloadFunctionOutputRequestBuilder {
    /// Set the namespace.
    pub fn namespace(self, value: String) -> (r: Self)
        ensures
            r == (DownloadFunctionOutputRequestBuilder { namespace: Some(value), ..self }),
    {
        DownloadFunctionOutputRequestBuilder { namespace: Some(value), ..self }
    }

    /// Set the application name.
    pub fn application(self, value: String) -> (r: Self)
        ensures
            r == (DownloadFunctionOutputRequestBuilder { application: Some(value), ..self }),
    {
        DownloadFunctionOutputRequestBuilder { application: Some(value), ..self }
    }

    /// Set the request id.
    pub fn request_id(self, value: String) -> (r: Self)
        ensures
            r == (DownloadFunctionOutputRequestBuilder { request_id: Some(value), ..self }),
    {
        DownloadFunctionOutputRequestBuilder { request_id: Some(value), ..self }
    }

    /// Set the function call id.
    pub fn function_call_id(self, value: String) -> (r: Self)
        ensures
            r == (DownloadFunctionOutputRequestBuilder { function_call_id: Some(value), ..self }),
    {
        DownloadFunctionOutputRequestBuilder { function_call_id: Some(value), ..self }
    }

    /// Build the request; all four fields are required.
    pub fn build(self) -> (r: Result<DownloadFunctionOutputRequest, BuilderError>)
        ensures
            r is Ok <==> (self.namespace is Some && self.application is Some && self.request_id
                is Some && self.function_call_id is Some),
            match r {
                Ok(v) => v.namespace == self.namespace->0 && v.application == self.application->0
                    && v.request_id == self.request_id->0 && v.function_call_id
                    == self.function_call_id->0,
                Err(e) => if self.namespace is None {
                    e.field@ == "namespace"@
                } else if self.application is None {
                    e.field@ == "application"@
                } else if self.request_id is None {
                    e.field@ == "request_id"@
                } else {
                    e.field@ == "function_call_id"@
                },
            },
    {
        let DownloadFunctionOutputRequestBuilder {
            namespace,
            application,
            request_id,
            function_call_id,
        } = self;
        match namespace {
            Some(namespace) => match application {
                Some(application) => match request_id {
                    Some(request_id) => match function_call_id {
                        Some(function_call_id) => Ok(
                            DownloadFunctionOutputRequest {
                                namespace,
                                application,
                                request_id,
                                function_call_id,
                            },
                        ),
                        None => Err(BuilderError { field: String::from_str("function_call_id") }),
                    },
                    None => Err(BuilderError { field: String::from_str("request_id") }),
                },
                None => Err(BuilderError { field: String::from_str("application") }),
            },
            None => Err(BuilderError { field: String::from_str("namespace") }),
        }
    }
}

/// Parameters of the stream-progress call.
#[derive(Clone, Debug)]
pub struct StreamProgressRequest {
    pub namespace: String,
    pub application: String,
    pub request_id: String,
}

/// Builder for [`StreamProgressRequest`].
#[derive(Clone, Default, Debug)]
pub struct StreamProgressRequestBuilder {
    pub namespace: Option<String>,
    pub application: Option<String>,
    pub request_id: Option<String>,
}

impl StreamProgressRequest {
    /// A builder with nothing set.
    pub fn builder() -> (r: StreamProgressRequestBuilder)
        ensures
            r.namespace is None,
            r.application is None,
            r.request_id is None,
    {
        StreamProgressRequestBuilder { namespace: None, application: None, request_id: None }
    }

    /// The path of the request's progress stream.
    pub fn url_path(&self) -> (r: String)
        ensures
            r@ == "/namespaces/"@ + self.namespace@ + "/applications/"@ + self.application@
                + "/requests/"@ + self.request_id@ + "/progress"@,
    {
        join3(
            "/namespaces/",
            &self.namespace,
            "/applications/",
            &self.application,
            "/requests/",
            &self.request_id,
            "/progress",
        )
    }
}

impl StreamProgressRequestBuilder {
    /// Set the namespace.
    pub fn namespace(self, value: String) -> (r: Self)
        ensures
            r == (StreamProgressRequestBuilder { namespace: Some(value), ..self }),
    {
        StreamProgressRequestBuilder { namespace: Some(value), ..self }
    }

    /// Set the application name.
    pub fn application(self, value: String) -> (r: Self)
        ensures
            r == (StreamProgressRequestBuilder { application: Some(value), ..self }),
    {
        StreamProgressRequestBuilder { application: Some(value), ..self }
    }

    /// Set the request id.
    pub fn request_id(self, value: String) -> (r: Self)
        ensures
            r == (StreamProgressRequestBuilder { request_id: Some(value), ..self }),
    {
        StreamProgressRequestBuilder { request_id: Some(value), ..self }
    }

    /// Build the request; all three fields are required.
    pub fn build(self) -> (r: Result<StreamProgressRequest, BuilderError>)
        ensures
            r is Ok <==> (self.namespace is Some && self.application is Some && self.request_id
                is Some),
            match r {
                Ok(v) => v.namespace == self.namespace->0 && v.application == self.application->0
                    && v.request_id == self.request_id->0,
                Err(e) => if self.namespace is None {
                    e.field@ == "namespace"@
                } else if self.application is None {
                    e.field@ == "application"@
                } else {
                    e.field@ == "request_id"@
                },
            },
    {
        let StreamProgressRequestBuilder { namespace, application, request_id } = self;
        match namespace {
            Some(namespace) => match application {
                Some(application) => match request_id {
                    Some(request_id) => Ok(
                        StreamProgressRequest { namespace, application, request_id },
                    ),
                    None => Err(BuilderError { field: String::from_str("request_id") }),
                },
                None => Err(BuilderError { field: String::from_str("application") }),
            },
            None => Err(BuilderError { field: String::from_str("namespace") }),
        }
    }
}

/// Parameters of the delete-function call.
#[derive(Clone, Debug)]
pub struct DeleteFunctionRequest {
    pub namespace: String,
    pub application: String,
    pub function_name: String,
}

/// Builder for [`DeleteFunctionRequest`].
#[derive(Clone, Default, Debug)]
pub struct DeleteFunctionRequestBuilder {
    pub namespace: Option<String>,
    pub application: Option<String>,
    pub function_name: Option<String>,
}

impl DeleteFunctionRequest {
    /// A builder with nothing set.
    pub fn builder() -> (r: DeleteFunctionRequestBuilder)
        ensures
            r.namespace is None,
            r.application is None,
            r.function_name is None,
    {
        DeleteFunctionRequestBuilder { namespace: None, application: None, function_name: None }
    }
}

impl DeleteFunctionRequestBuilder {
    /// Set the namespace.
    pub fn namespace(self, value: String) -> (r: Self)
        ensures
            r == (DeleteFunctionRequestBuilder { namespace: Some(value), ..self }),
    {
        DeleteFunctionRequestBuilder { namespace: Some(value), ..self }
    }

    /// Set the application name.
    pub fn application(self, value: String) -> (r: Self)
        ensures
            r == (DeleteFunctionRequestBuilder { application: Some(value), ..self }),
    {
        DeleteFunctionRequestBuilder { application: Some(value), ..self }
    }

    /// Set the function name.
    pub fn function_name(self, value: String) -> (r: Self)
        ensures
            r == (DeleteFunctionRequestBuilder { function_name: Some(value), ..self }),
    {
        DeleteFunctionRequestBuilder { function_name: Some(value), ..self }
    }

    /// Build the request; all three fields are required.
    pub fn build(self) -> (r: Result<DeleteFunctionRequest, BuilderError>)
        ensures
            r is Ok <==> (self.namespace is Some && self.application is Some && self.function_name
                is Some),
            match r {
                Ok(v) => v.namespace == self.namespace->0 && v.application == self.application->0
                    && v.function_name == self.function_name->0,
                Err(e) => if self.namespace is None {
                    e.field@ == "namespace"@
                } else if self.application is None {
                    e.field@ == "application"@
                } else {
                    e.field@ == "function_name"@
                },
            },
    {
        let DeleteFunctionRequestBuilder { namespace, application, function_name } = self;
        match namespace {
            Some(namespace) => match application {
                Some(application) => match function_name {
                    Some(function_name) => Ok(
                        DeleteFunctionRequest { namespace, application, function_name },
                    ),
                    None => Err(BuilderError { field: String::from_str("function_name") }),
                },
                None => Err(BuilderError { field: String::from_str("application") }),
            },
            None => Err(BuilderError { field: String::from_str("namespace") }),
        }
    }
}

/// Parameters of the get-logs call.
#[derive(Clone, Debug)]
pub struct GetLogsRequest {
    pub namespace: String,
    pub application: String,
    pub request_id: Option<String>,
    pub container_id: Option<String>,
    pub function: Option<String>,
    pub next_token: Option<String>,
    pub head: Option<usize>,
    pub tail: Option<usize>,
    pub ignore: Option<String>,
    pub function_executor: Option<String>,
}

/// Builder for [`GetLogsRequest`].
#[derive(Clone, Default, Debug)]
pub struct GetLogsRequestBuilder {
    pub namespace: Option<String>,
    pub application: Option<String>,
    pub request_id: Option<String>,
    pub container_id: Option<String>,
    pub function: Option<String>,
    pub next_token: Option<String>,
    pub head: Option<usize>,
    pub tail: Option<usize>,
    pub ignore: Option<String>,
    pub function_executor: Option<String>,
}

impl GetLogsRequest {
    /// A builder with nothing set.
    pub fn builder() -> (r: GetLogsRequestBuilder)
        ensures
            r.namespace is None,
            r.application is None,
            r.request_id is None,
            r.container_id is None,
            r.function is None,
            r.next_token is None,
            r.head is None,
            r.tail is None,
            r.ignore is None,
            r.function_executor is None,
    {
        GetLogsRequestBuilder {
            namespace: None,
            application: None,
            request_id: None,
            container_id: None,
            function: None,
            next_token: None,
            head: None,
            tail: None,
            ignore: None,
            function_executor: None,
        }
    }

    /// The path of the application's logs.
    pub fn url_path(&self) -> (r: String)
        ensures
            r@ == "/v1/namespaces/"@ + self.namespace@ + "/applications/"@ + self.application@
                + "/logs"@,
    {
        join2("/v1/namespaces/", &self.namespace, "/applications/", &self.application, "/logs")
    }

    /// The query parameters the call sends, in this order, each present
    /// exactly when the matching filter is set.
    pub open spec fn spec_query(&self) -> Seq<(Seq<char>, Seq<char>)> {
        let q0 = Seq::<(Seq<char>, Seq<char>)>::empty();
        let q1 = match self.request_id {
            Some(s) => q0.push(("requestId"@, s@)),
            None => q0,
        };
        let q2 = match self.container_id {
            Some(s) => q1.push(("containerId"@, s@)),
            None => q1,
        };
        let q3 = match self.function {
            Some(s) => q2.push(("function"@, s@)),
            None => q2,
        };
        let q4 = match self.next_token {
            Some(s) => q3.push(("nextToken"@, s@)),
            None => q3,
        };
        let q5 = match self.head {
            Some(n) => q4.push(("head"@, dec_str(n as int))),
            None => q4,
        };
        let q6 = match self.tail {
            Some(n) => q5.push(("tail"@, dec_str(n as int))),
            None => q5,
        };
        let q7 = match self.ignore {
            Some(s) => q6.push(("ignore"@, s@)),
            None => q6,
        };
        match self.function_executor {
            Some(s) => q7.push(("functionExecutor"@, s@)),
            None => q7,
        }
    }

    /// Render the query parameters.
    pub fn query(&self) -> (r: Vec<(String, String)>)
        ensures
            views_of_pairs(r@) == self.spec_query(),
    {
        let mut r: Vec<(String, String)> = Vec::new();
        proof {
            assert(views_of_pairs(r@) =~= Seq::<(Seq<char>, Seq<char>)>::empty());
        }
        push_opt_str(&mut r, "requestId", &self.request_id);
        push_opt_str(&mut r, "containerId", &self.container_id);
        push_opt_str(&mut r, "function", &self.function);
        push_opt_str(&mut r, "nextToken", &self.next_token);
        push_opt_usize(&mut r, "head", &self.head);
        push_opt_usize(&mut r, "tail", &self.tail);
        push_opt_str(&mut r, "ignore", &self.ignore);
        push_opt_str(&mut r, "functionExecutor", &self.function_executor);
        r
    }
}

impl GetLogsRequestBuilder {
    /// Set the namespace.
    pub fn namespace(self, value: String) -> (r: Self)
        ensures
            r == (GetLogsRequestBuilder { namespace: Some(value), ..self }),
    {
        GetLogsRequestBuilder { namespace: Some(value), ..self }
    }

    /// Set the application name.
    pub fn application(self, value: String) -> (r: Self)
        ensures
            r == (GetLogsRequestBuilder { application: Some(value), ..self }),
    {
        GetLogsRequestBuilder { application: Some(value), ..self }
    }

    /// Restrict the logs to one request.
    pub fn request_id(self, value: String) -> (r: Self)
        ensures
            r == (GetLogsRequestBuilder { request_id: Some(value), ..self }),
    {
        GetLogsRequestBuilder { request_id: Some(value), ..self }
    }

    /// Restrict the logs to one container.
    pub fn container_id(self, value: String) -> (r: Self)
        ensures
            r == (GetLogsRequestBuilder { container_id: Some(value), ..self }),
    {
        GetLogsRequestBuilder { container_id: Some(value), ..self }
    }

    /// Restrict the logs to one function.
    pub fn function(self, value: String) -> (r: Self)
        ensures
            r == (GetLogsRequestBuilder { function: Some(value), ..self }),
    {
        GetLogsRequestBuilder { function: Some(value), ..self }
    }

    /// Continue a paginated log fetch.
    pub fn next_token(self, value: String) -> (r: Self)
        ensures
            r == (GetLogsRequestBuilder { next_token: Some(value), ..self }),
    {
        GetLogsRequestBuilder { next_token: Some(value), ..self }
    }

    /// Keep only the first lines.
    pub fn head(self, value: usize) -> (r: Self)
        ensures
            r == (GetLogsRequestBuilder { head: Some(value), ..self }),
    {
        GetLogsRequestBuilder { head: Some(value), ..self }
    }

    /// Keep only the last lines.
    pub fn tail(self, value: usize) -> (r: Self)
        ensures
            r == (GetLogsRequestBuilder { tail: Some(value), ..self }),
    {
        GetLogsRequestBuilder { tail: Some(value), ..self }
    }

    /// Drop lines matching the pattern.
    pub fn ignore(self, value: String) -> (r: Self)
        ensures
            r == (GetLogsRequestBuilder { ignore: Some(value), ..self }),
    {
        GetLogsRequestBuilder { ignore: Some(value), ..self }
    }

    /// Restrict the logs to one function executor.
    pub fn function_executor(self, value: String) -> (r: Self)
        ensures
            r == (GetLogsRequestBuilder { function_executor: Some(value), ..self }),
    {
        GetLogsRequestBuilder { function_executor: Some(value), ..self }
    }

    /// Build the request; namespace and application are required.
    pub fn build(self) -> (r: Result<GetLogsRequest, BuilderError>)
        ensures
            r is Ok <==> (self.namespace is Some && self.application is Some),
            match r {
                Ok(v) => v.namespace == self.namespace->0 && v.application == self.application->0
                    && v.request_id == self.request_id && v.container_id == self.container_id
                    && v.function == self.function && v.next_token == self.next_token && v.head
                    == self.head && v.tail == self.tail && v.ignore == self.ignore
                    && v.function_executor == self.function_executor,
                Err(e) => if self.namespace is None {
                    e.field@ == "namespace"@
                } else {
                    e.field@ == "application"@
                },
            },
    {
        let GetLogsRequestBuilder {
            namespace,
            application,
            request_id,
            container_id,
            function,
            next_token,
            head,
            tail,
            ignore,
            function_executor,
        } = self;
        match namespace {
            Some(namespace) => match application {
                Some(application) => Ok(
                    GetLogsRequest {
                        namespace,
                        application,
                        request_id,
                        container_id,
                        function,
                        next_token,
                        head,
                        tail,
                        ignore,
                        function_executor,
                    },
                ),
                None => Err(BuilderError { field: String::from_str("application") }),
            },
            None => Err(BuilderError { field: String::from_str("namespace") }),
        }
    }
}

/// How progress updates are fetched.
#[derive(Clone, Debug)]
pub enum ProgressUpdatesRequestMode {
    /// One page, continuing from the token when one is given.
    Paginated(Option<String>),
    /// Follow continuation tokens until the last page.
    FetchAll,
    /// Follow the live event stream instead.
    Stream,
}

/// Parameters of the progress-updates call.
#[derive(Clone, Debug)]
pub struct ProgressUpdatesRequest {
    pub namespace: String,
    pub application: String,
    pub request_id: String,
    pub mode: ProgressUpdatesRequestMode,
}

/// Builder for [`ProgressUpdatesRequest`].
#[derive(Clone, Default, Debug)]
pub struct ProgressUpdatesRequestBuilder {
    pub namespace: Option<String>,
    pub application: Option<String>,
    pub request_id: Option<String>,
    pub mode: Option<ProgressUpdatesRequestMode>,
}

impl ProgressUpdatesRequest {
    /// A builder with nothing set.
    pub fn builder() -> (r: ProgressUpdatesRequestBuilder)
        ensures
            r.namespace is None,
            r.application is None,
            r.request_id is None,
            r.mode is None,
    {
        ProgressUpdatesRequestBuilder {
            namespace: None,
            application: None,
            request_id: None,
            mode: None,
        }
    }

    /// The path of the request's progress updates.
    pub fn url_path(&self) -> (r: String)
        ensures
            r@ == "/v1/namespaces/"@ + self.namespace@ + "/applications/"@ + self.application@
                + "/requests/"@ + self.request_id@ + "/updates"@,
    {
        join3(
            "/v1/namespaces/",
            &self.namespace,
            "/applications/",
            &self.application,
            "/requests/",
            &self.request_id,
            "/updates",
        )
    }

    /// The `Accept` header the call sends: the event-stream type when
    /// following the live stream, JSON otherwise.
    pub fn accept_header(&self) -> (r: String)
        ensures
            (self.mode is Stream) ==> r@ == "text/event-stream"@,
            !(self.mode is Stream) ==> r@ == "application/json"@,
    {
        match &self.mode {
            ProgressUpdatesRequestMode::Stream => String::from_str("text/event-stream"),
            _ => String::from_str("application/json"),
        }
    }

    /// The query parameters the call sends: a `nextToken` exactly when
    /// continuing a paginated fetch from a token.
    pub open spec fn spec_query(&self) -> Seq<(Seq<char>, Seq<char>)> {
        match self.mode {
            ProgressUpdatesRequestMode::Paginated(Some(t)) => Seq::<(
                Seq<char>,
                Seq<char>,
            )>::empty().push(("nextToken"@, t@)),
            _ => Seq::<(Seq<char>, Seq<char>)>::empty(),
        }
    }

    /// Render the query parameters.
    pub fn query(&self) -> (r: Vec<(String, String)>)
        ensures
            views_of_pairs(r@) == self.spec_query(),
    {
        let mut r: Vec<(String, String)> = Vec::new();
        proof {
            assert(views_of_pairs(r@) =~= Seq::<(Seq<char>, Seq<char>)>::empty());
        }
        match &self.mode {
            ProgressUpdatesRequestMode::Paginated(Some(t)) => {
                let ghost before = r@;
                r.push((String::from_str("nextToken"), t.clone()));
                proof {
                    assert(views_of_pairs(r@) =~= views_of_pairs(before).push(("nextToken"@, t@)));
                }
            },
            _ => {},
        }
        r
    }
}

impl ProgressUpdatesRequestBuilder {
    /// Set the namespace.
    pub fn namespace(self, value: String) -> (r: Self)
        ensures
            r == (ProgressUpdatesRequestBuilder { namespace: Some(value), ..self }),
    {
        ProgressUpdatesRequestBuilder { namespace: Some(value), ..self }
    }

    /// Set the application name.
    pub fn application(self, value: String) -> (r: Self)
        ensures
            r == (ProgressUpdatesRequestBuilder { application: Some(value), ..self }),
    {
        ProgressUpdatesRequestBuilder { application: Some(value), ..self }
    }

    /// Set the request id.
    pub fn request_id(self, value: String) -> (r: Self)
        ensures
            r == (ProgressUpdatesRequestBuilder { request_id: Some(value), ..self }),
    {
        ProgressUpdatesRequestBuilder { request_id: Some(value), ..self }
    }

    /// Set the fetch mode.
    pub fn mode(self, value: ProgressUpdatesRequestMode) -> (r: Self)
        ensures
            r == (ProgressUpdatesRequestBuilder { mode: Some(value), ..self }),
    {
        ProgressUpdatesRequestBuilder { mode: Some(value), ..self }
    }

    /// Build the request; all four fields are required.
    pub fn build(self) -> (r: Result<ProgressUpdatesRequest, BuilderError>)
        ensures
            r is Ok <==> (self.namespace is Some && self.application is Some && self.request_id
                is Some && self.mode is Some),
            match r {
                Ok(v) => v.namespace == self.namespace->0 && v.application == self.application->0
                    && v.request_id == self.request_id->0 && v.mode == self.mode->0,
                Err(e) => if self.namespace is None {
                    e.field@ == "namespace"@
                } else if self.application is None {
                    e.field@ == "application"@
                } else if self.request_id is None {
                    e.field@ == "request_id"@
                } else {
                    e.field@ == "mode"@
                },
            },
    {
        let ProgressUpdatesRequestBuilder { namespace, application, request_id, mode } = self;
        match namespace {
            Some(namespace) => match application {
                Some(application) => match request_id {
                    Some(request_id) => match mode {
                        Some(mode) => Ok(
                            ProgressUpdatesRequest { namespace, application, request_id, mode },
                        ),
                        None => Err(BuilderError { field: String::from_str("mode") }),
                    },
                    None => Err(BuilderError { field: String::from_str("request_id") }),
                },
                None => Err(BuilderError { field: String::from_str("application") }),
            },
            None => Err(BuilderError { field: String::from_str("namespace") }),
        }
    }
}

/// Builder for [`Entrypoint`].
#[derive(Clone, Default, Debug)]
pub struct EntrypointBuilder {
    pub function_name: Option<String>,
    pub input_serializer: Option<String>,
    pub output_serializer: Option<String>,
    pub output_type_hints_base64: Option<String>,
}

impl Entrypoint {
    /// A builder with nothing set.
    pub fn builder() -> (r: EntrypointBuilder)
        ensures
            r.function_name is None,
            r.input_serializer is None,
            r.output_serializer is None,
            r.output_type_hints_base64 is None,
    {
        EntrypointBuilder {
            function_name: None,
            input_serializer: None,
            output_serializer: None,
            output_type_hints_base64: None,
        }
    }
}

impl EntrypointBuilder {
    /// Set the entry function's name.
    pub fn function_name(self, value: String) -> (r: Self)
        ensures
            r == (EntrypointBuilder { function_name: Some(value), ..self }),
    {
        EntrypointBuilder { function_name: Some(value), ..self }
    }

    /// Set the input serializer.
    pub fn input_serializer(self, value: String) -> (r: Self)
        ensures
            r == (EntrypointBuilder { input_serializer: Some(value), ..self }),
    {
        EntrypointBuilder { input_serializer: Some(value), ..self }
    }

    /// Set the output serializer.
    pub fn output_serializer(self, value: String) -> (r: Self)
        ensures
            r == (EntrypointBuilder { output_serializer: Some(value), ..self }),
    {
        EntrypointBuilder { output_serializer: Some(value), ..self }
    }

    /// Set the encoded output type hints.
    pub fn output_type_hints_base64(self, value: String) -> (r: Self)
        ensures
            r == (EntrypointBuilder { output_type_hints_base64: Some(value), ..self }),
    {
        EntrypointBuilder { output_type_hints_base64: Some(value), ..self }
    }

    /// Build the entrypoint; the three serializer and name fields are
    /// required, the type hints are optional.
    pub fn build(self) -> (r: Result<Entrypoint, BuilderError>)
        ensures
            r is Ok <==> (self.function_name is Some && self.input_serializer is Some
                && self.output_serializer is Some),
            match r {
                Ok(v) => v.function_name == self.function_name->0 && v.input_serializer
                    == self.input_serializer->0 && v.output_serializer
                    == self.output_serializer->0 && v.output_type_hints_base64
                    == self.output_type_hints_base64,
                Err(e) => if self.function_name is None {
                    e.field@ == "function_name"@
                } else if self.input_serializer is None {
                    e.field@ == "input_serializer"@
                } else {
                    e.field@ == "output_serializer"@
                },
            },
    {
        let EntrypointBuilder {
            function_name,
            input_serializer,
            output_serializer,
            output_type_hints_base64,
        } = self;
        match function_name {
            Some(function_name) => match input_serializer {
                Some(input_serializer) => match output_serializer {
                    Some(output_serializer) => Ok(
                        Entrypoint {
                            function_name,
                            input_serializer,
                            output_serializer,
                            output_type_hints_base64,
                        },
                    ),
                    None => Err(BuilderError { field: String::from_str("output_serializer") }),
                },
                None => Err(BuilderError { field: String::from_str("input_serializer") }),
            },
            None => Err(BuilderError { field: String::from_str("function_name") }),
        }
    }
}

/// Builder for [`PlacementConstraintsManifest`].
#[derive(Clone, Default, Debug)]
pub struct PlacementConstraintsManifestBuilder {
    pub filter_expressions: Option<Vec<String>>,
}

impl PlacementConstraintsManifest {
    /// A builder with nothing set.
    pub fn builder() -> (r: PlacementConstraintsManifestBuilder)
        ensures
            r.filter_expressions is None,
    {
        PlacementConstraintsManifestBuilder { filter_expressions: None }
    }
}

impl PlacementConstraintsManifestBuilder {
    /// Set the filter expressions.
    pub fn filter_expressions(self, value: Vec<String>) -> (r: Self)
        ensures
            r == (PlacementConstraintsManifestBuilder { filter_expressions: Some(value) }),
    {
        PlacementConstraintsManifestBuilder { filter_expressions: Some(value) }
    }

    /// Build the manifest; the expressions default to none at all.
    pub fn build(self) -> (r: Result<PlacementConstraintsManifest, BuilderError>)
        ensures
            r is Ok,
            match r {
                Ok(v) => match self.filter_expressions {
                    Some(x) => v.filter_expressions == x,
                    None => v.filter_expressions@ == Seq::<String>::empty(),
                },
                Err(_) => false,
            },
    {
        match self.filter_expressions {
            Some(filter_expressions) => Ok(PlacementConstraintsManifest { filter_expressions }),
            None => Ok(PlacementConstraintsManifest { filter_expressions: Vec::new() }),
        }
    }
}

/// The `Accept` header of an invocation: the event-stream type when the
/// caller asked to stream progress, JSON otherwise.
pub fn invoke_accept_header(stream: bool) -> (r: String)
    ensures
        stream ==> r@ == "text/event-stream"@,
        !stream ==> r@ == "application/json"@,
{
    if stream {
        String::from_str("text/event-stream")
    } else {
        String::from_str("application/json")
    }
}

/// The non-streaming half of an invoke answer: the response body must
/// carry the new request's id, and a body without one is a server fault
/// even though the status was success.
pub fn invoke_request_id(request_id: Option<String>) -> (r: Result<String, SdkError>)
    ensures
        match r {
            Ok(id) => request_id == Some(id),
            Err(e) => request_id is None && match e {
                SdkError::ServerError { status, message } => status == 200 && message@
                    == "Missing request_id in response"@,
                _ => false,
            },
        },
{
    match request_id {
        Some(id) => Ok(id),
        None => Err(
            SdkError::ServerError {
                status: 200,
                message: String::from_str("Missing request_id in response"),
            },
        ),
    }
}

/// One pagination step of fetching all progress updates: the page is
/// appended to what was gathered so far, and the fetch goes on exactly
/// while the server returned a continuation token.
pub fn merge_progress_page<T>(acc: &mut Vec<T>, page: Vec<T>, next_token: &Option<String>) -> (more:
    bool)
    ensures
        final(acc)@ == old(acc)@ + page@,
        more <==> next_token is Some,
{
    let mut page = page;
    acc.append(&mut page);
    match next_token {
        Some(_) => true,
        None => false,
    }
}

} // verus!
