//! Typed models for the image-build endpoints, the URL of each call, and
//! the decision logic of the build polling loop.

use vstd::prelude::*;

use crate::strings::join1;
use crate::strings::join1e;
use crate::strings::push_opt_i32;
use crate::strings::push_opt_str;
use crate::strings::views_of_pairs;
use crate::strings::dec_int_str;
use crate::applications::BuilderError;

verus! {

/// The status of an image build.
#[derive(Clone, Debug, PartialEq)]
pub enum BuildStatus {
    Pending,
    Enqueued,
    Building,
    Succeeded,
    Failed,
    Canceling,
    Canceled,
}

/// The wire value of a build status, as the listing filter sends it.
pub open spec fn spec_status_str(s: BuildStatus) -> Seq<char> {
    match s {
        BuildStatus::Pending => "pending"@,
        BuildStatus::Enqueued => "enqueued"@,
        BuildStatus::Building => "building"@,
        BuildStatus::Succeeded => "succeeded"@,
        BuildStatus::Failed => "failed"@,
        BuildStatus::Canceling => "canceling"@,
        BuildStatus::Canceled => "canceled"@,
    }
}

impl BuildStatus {
    /// Render the status as the listing filter sends it.
    pub fn query_value(&self) -> (r: String)
        ensures
            r@ == spec_status_str(*self),
    {
        match self {
            BuildStatus::Pending => String::from_str("pending"),
            BuildStatus::Enqueued => String::from_str("enqueued"),
            BuildStatus::Building => String::from_str("building"),
            BuildStatus::Succeeded => String::from_str("succeeded"),
            BuildStatus::Failed => String::from_str("failed"),
            BuildStatus::Canceling => String::from_str("canceling"),
            BuildStatus::Canceled => String::from_str("canceled"),
        }
    }
}

/// Build information as the build service reports it.
#[derive(Clone, Debug, PartialEq)]
pub struct BuildInfo {
    pub id: String,
    pub status: String,
    pub created_at: String,
    pub updated_at: String,
    pub finished_at: Option<String>,
    pub error_message: Option<String>,
}

/// Detailed build information.
#[derive(Clone, Debug, PartialEq)]
pub struct BuildInfoResponse {
    pub id: String,
    pub status: BuildStatus,
    pub error_message: Option<String>,
    pub created_at: String,
    pub updated_at: String,
    pub finished_at: Option<String>,
    pub image_hash: String,
    pub image_name: Option<String>,
}

/// One row of a build listing.
#[derive(Clone, Debug, PartialEq)]
pub struct BuildListResponse {
    pub public_id: String,
    pub name: String,
    pub tags: Vec<String>,
    pub creation_time: String,
    pub status: BuildStatus,
}

/// Answer to a cancel request.
#[derive(Clone, Debug, PartialEq)]
pub struct CancelBuildResponse {
    pub status: String,
}

/// The final outcome of a build.
#[derive(Clone, Debug, PartialEq)]
pub struct ImageBuildResult {
    pub id: String,
    pub status: BuildStatus,
    pub created_at: String,
    pub finished_at: Option<String>,
    pub error_message: Option<String>,
}

/// Answer to an image pull.
#[derive(Clone, Debug, PartialEq)]
pub struct ImagePullResponse {
    pub id: String,
    pub image_uri: String,
    pub image_hash: String,
    pub image_digest: String,
    pub image_name: String,
    pub registry: RegistryType,
    pub status: BuildStatus,
    pub error: Option<String>,
    pub created_at: String,
    pub finished_at: Option<String>,
}

/// One log line of a streamed build log.
#[derive(Clone, Debug, PartialEq)]
pub struct LogEntry {
    pub build_id: String,
    pub timestamp: String,
    pub stream: String,
    pub message: String,
    pub sequence_number: i64,
    pub build_status: String,
}

/// One page of a paginated listing.
#[derive(Clone, Debug, PartialEq)]
pub struct Page<T> {
    pub items: Vec<T>,
    pub total_items: i64,
    pub page: i32,
    pub page_size: i32,
    pub total_pages: i32,
}

/// Where a built image is stored.
#[derive(Clone, Debug, PartialEq)]
pub enum RegistryType {
    ECR,
    Docker,
}

/// One decision of the build polling loop: a terminal status yields the
/// final result, every other status means ask again.
pub fn poll_step(info: BuildInfo) -> (r: Option<ImageBuildResult>)
    ensures
        r is Some <==> (info.status@ == "completed"@ || info.status@ == "succeeded"@
            || info.status@ == "failed"@),
        match r {
            Some(v) => v.id == info.id && v.created_at == info.created_at && v.finished_at
                == info.finished_at && if info.status@ == "failed"@ {
                v.status is Failed && v.error_message == info.error_message
            } else {
                v.status is Succeeded && v.error_message is None
            },
            None => true,
        },
{
    proof {
        reveal_strlit("completed");
        reveal_strlit("succeeded");
        reveal_strlit("failed");
        assert("completed"@.len() == 9);
        assert("failed"@.len() == 6);
        assert("succeeded"@.len() == 9);
        assert("completed"@ != "failed"@);
        assert("succeeded"@ != "failed"@);
    }
    if info.status == String::from_str("completed") || info.status == String::from_str(
        "succeeded",
    ) {
        Some(
            ImageBuildResult {
                id: info.id,
                status: BuildStatus::Succeeded,
                created_at: info.created_at,
                finished_at: info.finished_at,
                error_message: None,
            },
        )
    } else if info.status == String::from_str("failed") {
        Some(
            ImageBuildResult {
                id: info.id,
                status: BuildStatus::Failed,
                created_at: info.created_at,
                finished_at: info.finished_at,
                error_message: info.error_message,
            },
        )
    } else {
        None
    }
}

/// Parameters of an image build.
#[derive(Clone, Debug)]
pub struct ImageBuildRequest {
    pub image_name: String,
    pub image_tag: String,
    pub context_data: Vec<u8>,
    pub application_name: String,
    pub application_version: String,
    pub function_name: String,
}

/// Builder for [`ImageBuildRequest`].
#[derive(Clone, Default, Debug)]
pub struct ImageBuildRequestBuilder {
    pub image_name: Option<String>,
    pub image_tag: Option<String>,
    pub context_data: Option<Vec<u8>>,
    pub application_name: Option<String>,
    pub application_version: Option<String>,
    pub function_name: Option<String>,
}

impl ImageBuildRequest {
    /// A builder with nothing set.
    pub fn builder() -> (r: ImageBuildRequestBuilder)
        ensures
            r.image_name is None,
            r.image_tag is None,
            r.context_data is None,
            r.application_name is None,
            r.application_version is None,
            r.function_name is None,
    {
        ImageBuildRequestBuilder {
            image_name: None,
            image_tag: None,
            context_data: None,
            application_name: None,
            application_version: None,
            function_name: None,
        }
    }
}

impl ImageBuildRequestBuilder {
    /// Set the image name.
    pub fn image_name(self, value: String) -> (r: Self)
        ensures
            r == (ImageBuildRequestBuilder { image_name: Some(value), ..self }),
    {
        ImageBuildRequestBuilder { image_name: Some(value), ..self }
    }

    /// Set the image tag.
    pub fn image_tag(self, value: String) -> (r: Self)
        ensures
            r == (ImageBuildRequestBuilder { image_tag: Some(value), ..self }),
    {
        ImageBuildRequestBuilder { image_tag: Some(value), ..self }
    }

    /// Set the build context archive.
    pub fn context_data(self, value: Vec<u8>) -> (r: Self)
        ensures
            r == (ImageBuildRequestBuilder { context_data: Some(value), ..self }),
    {
        ImageBuildRequestBuilder { context_data: Some(value), ..self }
    }

    /// Set the application this image belongs to.
    pub fn application_name(self, value: String) -> (r: Self)
        ensures
            r == (ImageBuildRequestBuilder { application_name: Some(value), ..self }),
    {
        ImageBuildRequestBuilder { application_name: Some(value), ..self }
    }

    /// Set the application version.
    pub fn application_version(self, value: String) -> (r: Self)
        ensures
            r == (ImageBuildRequestBuilder { application_version: Some(value), ..self }),
    {
        ImageBuildRequestBuilder { application_version: Some(value), ..self }
    }

    /// Set the function the image serves.
    pub fn function_name(self, value: String) -> (r: Self)
        ensures
            r == (ImageBuildRequestBuilder { function_name: Some(value), ..self }),
    {
        ImageBuildRequestBuilder { function_name: Some(value), ..self }
    }

    /// Build the request; every field is required.
    pub fn build(self) -> (r: Result<ImageBuildRequest, BuilderError>)
        ensures
            r is Ok <==> (self.image_name is Some && self.image_tag is Some && self.context_data
                is Some && self.application_name is Some && self.application_version is Some
                && self.function_name is Some),
            match r {
                Ok(v) => v.image_name == self.image_name->0 && v.image_tag == self.image_tag->0
                    && v.context_data == self.context_data->0 && v.application_name
                    == self.application_name->0 && v.application_version
                    == self.application_version->0 && v.function_name == self.function_name->0,
                Err(e) => if self.image_name is None {
                    e.field@ == "image_name"@
                } else if self.image_tag is None {
                    e.field@ == "image_tag"@
                } else if self.context_data is None {
                    e.field@ == "context_data"@
                } else if self.application_name is None {
                    e.field@ == "application_name"@
                } else if self.application_version is None {
                    e.field@ == "application_version"@
                } else {
                    e.field@ == "function_name"@
                },
            },
    {
        let ImageBuildRequestBuilder {
            image_name,
            image_tag,
            context_data,
            application_name,
            application_version,
            function_name,
        } = self;
        match image_name {
            Some(image_name) => match image_tag {
                Some(image_tag) => match context_data {
                    Some(context_data) => match application_name {
                        Some(application_name) => match application_version {
                            Some(application_version) => match function_name {
                                Some(function_name) => Ok(
                                    ImageBuildRequest {
                                        image_name,
                                        image_tag,
                                        context_data,
                                        application_name,
                                        application_version,
                                        function_name,
                                    },
                                ),
                                None => Err(
                                    BuilderError { field: String::from_str("function_name") },
                                ),
                            },
                            None => Err(
                                BuilderError { field: String::from_str("application_version") },
                            ),
                        },
                        None => Err(BuilderError { field: String::from_str("application_name") }),
                    },
                    None => Err(BuilderError { field: String::from_str("context_data") }),
                },
                None => Err(BuilderError { field: String::from_str("image_tag") }),
            },
            None => Err(BuilderError { field: String::from_str("image_name") }),
        }
    }
}

/// Parameters of the cancel-build call.
#[derive(Clone, Debug)]
pub struct CancelBuildRequest {
    pub build_id: String,
}

/// Builder for [`CancelBuildRequest`].
#[derive(Clone, Default, Debug)]
pub struct CancelBuildRequestBuilder {
    pub build_id: Option<String>,
}

impl CancelBuildRequest {
    /// A builder with nothing set.
    pub fn builder() -> (r: CancelBuildRequestBuilder)
        ensures
            r.build_id is None,
    {
        CancelBuildRequestBuilder { build_id: None }
    }

    /// The path that cancels the build.
    pub fn url_path(&self) -> (r: String)
        ensures
            r@ == "/images/v2/builds/"@ + self.build_id@ + "/cancel"@,
    {
        join1("/images/v2/builds/", &self.build_id, "/cancel")
    }
}

impl CancelBuildRequestBuilder {
    /// Set the build id.
    pub fn build_id(self, value: String) -> (r: Self)
        ensures
            r == (CancelBuildRequestBuilder { build_id: Some(value) }),
    {
        CancelBuildRequestBuilder { build_id: Some(value) }
    }

    /// Build the request; the build id is required.
    pub fn build(self) -> (r: Result<CancelBuildRequest, BuilderError>)
        ensures
            r is Ok <==> self.build_id is Some,
            match r {
                Ok(v) => v.build_id == self.build_id->0,
                Err(e) => e.field@ == "build_id"@,
            },
    {
        match self.build_id {
            Some(build_id) => Ok(CancelBuildRequest { build_id }),
            None => Err(BuilderError { field: String::from_str("build_id") }),
        }
    }
}

/// Parameters of the get-build-info call.
#[derive(Clone, Debug)]
pub struct GetBuildInfoRequest {
    pub build_id: String,
}

/// Builder for [`GetBuildInfoRequest`].
#[derive(Clone, Default, Debug)]
pub struct GetBuildInfoRequestBuilder {
    pub build_id: Option<String>,
}

impl GetBuildInfoRequest {
    /// A builder with nothing set.
    pub fn builder() -> (r: GetBuildInfoRequestBuilder)
        ensures
            r.build_id is None,
    {
        GetBuildInfoRequestBuilder { build_id: None }
    }

    /// The path of the addressed build.
    pub fn url_path(&self) -> (r: String)
        ensures
            r@ == "/images/v2/builds/"@ + self.build_id@,
    {
        join1e("/images/v2/builds/", &self.build_id)
    }
}

impl GetBuildInfoRequestBuilder {
    /// Set the build id.
    pub fn build_id(self, value: String) -> (r: Self)
        ensures
            r == (GetBuildInfoRequestBuilder { build_id: Some(value) }),
    {
        GetBuildInfoRequestBuilder { build_id: Some(value) }
    }

    /// Build the request; the build id is required.
    pub fn build(self) -> (r: Result<GetBuildInfoRequest, BuilderError>)
        ensures
            r is Ok <==> self.build_id is Some,
            match r {
                Ok(v) => v.build_id == self.build_id->0,
                Err(e) => e.field@ == "build_id"@,
            },
    {
        match self.build_id {
            Some(build_id) => Ok(GetBuildInfoRequest { build_id }),
            None => Err(BuilderError { field: String::from_str("build_id") }),
        }
    }
}

/// Parameters of the stream-logs call.
#[derive(Clone, Debug)]
pub struct StreamLogsRequest {
    pub build_id: String,
}

/// Builder for [`StreamLogsRequest`].
#[derive(Clone, Default, Debug)]
pub struct StreamLogsRequestBuilder {
    pub build_id: Option<String>,
}

impl StreamLogsRequest {
    /// A builder with nothing set.
    pub fn builder() -> (r: StreamLogsRequestBuilder)
        ensures
            r.build_id is None,
    {
        StreamLogsRequestBuilder { build_id: None }
    }

    /// The path of the build's log stream.
    pub fn url_path(&self) -> (r: String)
        ensures
            r@ == "/images/v2/builds/"@ + self.build_id@ + "/logs"@,
    {
        join1("/images/v2/builds/", &self.build_id, "/logs")
    }
}

impl StreamLogsRequestBuilder {
    /// Set the build id.
    pub fn build_id(self, value: String) -> (r: Self)
        ensures
            r == (StreamLogsRequestBuilder { build_id: Some(value) }),
    {
        StreamLogsRequestBuilder { build_id: Some(value) }
    }

    /// Build the request; the build id is required.
    pub fn build(self) -> (r: Result<StreamLogsRequest, BuilderError>)
        ensures
            r is Ok <==> self.build_id is Some,
            match r {
                Ok(v) => v.build_id == self.build_id->0,
                Err(e) => e.field@ == "build_id"@,
            },
    {
        match self.build_id {
            Some(build_id) => Ok(StreamLogsRequest { build_id }),
            None => Err(BuilderError { field: String::from_str("build_id") }),
        }
    }
}

/// Parameters of the list-builds call.
#[derive(Clone, Debug)]
pub struct ListBuildsRequest {
    pub page: Option<i32>,
    pub page_size: Option<i32>,
    pub status: Option<BuildStatus>,
    pub application_name: Option<String>,
    pub image_name: Option<String>,
    pub function_name: Option<String>,
}

/// Builder for [`ListBuildsRequest`].
#[derive(Clone, Default, Debug)]
pub struct ListBuildsRequestBuilder {
    pub page: Option<i32>,
    pub page_size: Option<i32>,
    pub status: Option<BuildStatus>,
    pub application_name: Option<String>,
    pub image_name: Option<String>,
    pub function_name: Option<String>,
}

impl ListBuildsRequest {
    /// A builder with nothing set.
    pub fn builder() -> (r: ListBuildsRequestBuilder)
        ensures
            r.page is None,
            r.page_size is None,
            r.status is None,
            r.application_name is None,
            r.image_name is None,
            r.function_name is None,
    {
        ListBuildsRequestBuilder {
            page: None,
            page_size: None,
            status: None,
            application_name: None,
            image_name: None,
            function_name: None,
        }
    }

    /// The path of the build collection.
    pub fn url_path(&self) -> (r: String)
        ensures
            r@ == "/images/v2/builds"@,
    {
        String::from_str("/images/v2/builds")
    }

    /// The query parameters the call sends, in this order, each present
    /// exactly when the matching filter is set.
    pub open spec fn spec_query(&self) -> Seq<(Seq<char>, Seq<char>)> {
        let q0 = Seq::<(Seq<char>, Seq<char>)>::empty();
        let q1 = match self.page {
            Some(n) => q0.push(("page"@, dec_int_str(n as int))),
            None => q0,
        };
        let q2 = match self.page_size {
            Some(n) => q1.push(("page_size"@, dec_int_str(n as int))),
            None => q1,
        };
        let q3 = match self.status {
            Some(s) => q2.push(("status"@, spec_status_str(s))),
            None => q2,
        };
        let q4 = match self.application_name {
            Some(s) => q3.push(("graph_name"@, s@)),
            None => q3,
        };
        let q5 = match self.image_name {
            Some(s) => q4.push(("image_name"@, s@)),
            None => q4,
        };
        match self.function_name {
            Some(s) => q5.push(("graph_function_name"@, s@)),
            None => q5,
        }
    }

    /// Render the query parameters.
    pub fn query(&self) -> (r: Vec<(String, String)>)
        ensures
            views_of_pairs(r@) == self.spec_query(),
    {
        let mut r: Vec<(String, String)> = Vec::new();
        proof {
            assert(views_of_pairs(r@) =~= Seq::<(Seq<char>, Seq<char>)>::empty());
        }
        push_opt_i32(&mut r, "page", &self.page);
        push_opt_i32(&mut r, "page_size", &self.page_size);
        match &self.status {
            Some(s) => {
                let ghost before = r@;
                r.push((String::from_str("status"), s.query_value()));
                proof {
                    assert(views_of_pairs(r@) =~= views_of_pairs(before).push(
                        ("status"@, spec_status_str(*s)),
                    ));
                }
            },
            None => {},
        }
        push_opt_str(&mut r, "graph_name", &self.application_name);
        push_opt_str(&mut r, "image_name", &self.image_name);
        push_opt_str(&mut r, "graph_function_name", &self.function_name);
        r
    }
}

impl ListBuildsRequestBuilder {
    /// Set the page number.
    pub fn page(self, value: i32) -> (r: Self)
        ensures
            r == (ListBuildsRequestBuilder { page: Some(value), ..self }),
    {
        ListBuildsRequestBuilder { page: Some(value), ..self }
    }

    /// Set the page size.
    pub fn page_size(self, value: i32) -> (r: Self)
        ensures
            r == (ListBuildsRequestBuilder { page_size: Some(value), ..self }),
    {
        ListBuildsRequestBuilder { page_size: Some(value), ..self }
    }

    /// Keep only builds in the given status.
    pub fn status(self, value: BuildStatus) -> (r: Self)
        ensures
            r == (ListBuildsRequestBuilder { status: Some(value), ..self }),
    {
        ListBuildsRequestBuilder { status: Some(value), ..self }
    }

    /// Keep only builds of the given application.
    pub fn application_name(self, value: String) -> (r: Self)
        ensures
            r == (ListBuildsRequestBuilder { application_name: Some(value), ..self }),
    {
        ListBuildsRequestBuilder { application_name: Some(value), ..self }
    }

    /// Keep only builds of the given image.
    pub fn image_name(self, value: String) -> (r: Self)
        ensures
            r == (ListBuildsRequestBuilder { image_name: Some(value), ..self }),
    {
        ListBuildsRequestBuilder { image_name: Some(value), ..self }
    }

    /// Keep only builds of the given function.
    pub fn function_name(self, value: String) -> (r: Self)
        ensures
            r == (ListBuildsRequestBuilder { function_name: Some(value), ..self }),
    {
        ListBuildsRequestBuilder { function_name: Some(value), ..self }
    }

    /// Build the request; every filter is optional.
    pub fn build(self) -> (r: Result<ListBuildsRequest, BuilderError>)
        ensures
            r is Ok,
            match r {
                Ok(v) => v.page == self.page && v.page_size == self.page_size && v.status
                    == self.status && v.application_name == self.application_name && v.image_name
                    == self.image_name && v.function_name == self.function_name,
                Err(_) => false,
            },
    {
        let ListBuildsRequestBuilder {
            page,
            page_size,
            status,
            application_name,
            image_name,
            function_name,
        } = self;
        Ok(
            ListBuildsRequest {
                page,
                page_size,
                status,
                application_name,
                image_name,
                function_name,
            },
        )
    }
}

} // verus!
