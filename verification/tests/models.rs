use tensorlake_cloud_sdk::applications::Allocation;
use tensorlake_cloud_sdk::applications::ApplicationRequests;
use tensorlake_cloud_sdk::applications::ApplicationState;
use tensorlake_cloud_sdk::applications::CursorDirection;
use tensorlake_cloud_sdk::applications::Entrypoint;
use tensorlake_cloud_sdk::applications::FunctionRun;
use tensorlake_cloud_sdk::applications::FunctionRunOutcome;
use tensorlake_cloud_sdk::applications::FunctionRunStatus;
use tensorlake_cloud_sdk::applications::GetApplicationRequest;
use tensorlake_cloud_sdk::applications::GetLogsRequest;
use tensorlake_cloud_sdk::applications::GpuResources;
use tensorlake_cloud_sdk::applications::ListApplicationsRequest;
use tensorlake_cloud_sdk::applications::PlacementConstraints;
use tensorlake_cloud_sdk::applications::PlacementConstraintsManifest;
use tensorlake_cloud_sdk::applications::RequestError;
use tensorlake_cloud_sdk::applications::RequestFailureReason;
use tensorlake_cloud_sdk::applications::RequestOutcome;
use tensorlake_cloud_sdk::applications::RequestOutcomeOneOf;
use tensorlake_cloud_sdk::applications::ShallowRequest;
use tensorlake_cloud_sdk::images::BuildInfo;
use tensorlake_cloud_sdk::images::BuildStatus;
use tensorlake_cloud_sdk::images::ImageBuildRequest;
use tensorlake_cloud_sdk::images::poll_step;
use tensorlake_cloud_sdk::secrets::ListSecretsRequest;
use tensorlake_cloud_sdk::secrets::NewSecret;
use tensorlake_cloud_sdk::secrets::UpsertSecret;
use tensorlake_cloud_sdk::secrets::UpsertSecretRequest;

#[test]
fn constructors_fill_fields_and_leave_optionals_empty() {
    let alloc = Allocation::new(
        3,
        1700,
        "ex-1".to_string(),
        "fex-1".to_string(),
        "f".to_string(),
        "alloc-1".to_string(),
        FunctionRunOutcome::Success,
    );
    assert_eq!(alloc.attempt_number, 3);
    assert_eq!(alloc.created_at, 1700);
    assert_eq!(alloc.execution_duration_ms, None);
    assert_eq!(alloc.executor_id, "ex-1");
    assert_eq!(alloc.outcome, FunctionRunOutcome::Success);

    let run = FunctionRun::new(
        vec![alloc],
        "app".to_string(),
        "1.0.0".to_string(),
        1701,
        "run-1".to_string(),
        "f".to_string(),
        "default".to_string(),
        FunctionRunStatus::Running,
    );
    assert_eq!(run.allocations.len(), 1);
    assert_eq!(run.outcome, None);
    assert_eq!(run.status, FunctionRunStatus::Running);

    let shallow = ShallowRequest::new("1.0.0".to_string(), 1702, 2, "req-1".to_string());
    assert_eq!(shallow.function_runs_count, 2);
    assert_eq!(shallow.outcome, None);

    let page = ApplicationRequests::new(vec![shallow]);
    assert_eq!(page.next_cursor, None);
    assert_eq!(page.prev_cursor, None);
    assert_eq!(page.requests.len(), 1);

    let gpu = GpuResources::new(2, "h100".to_string());
    assert_eq!(gpu.count, 2);
    assert_eq!(gpu.model, "h100");

    let pc = PlacementConstraints::new();
    assert_eq!(pc.filter_expressions, None);

    let err = RequestError::new("f".to_string(), "boom".to_string());
    assert_eq!(err.function_name, "f");
    assert_eq!(err.message, "boom");

    let one_of = RequestOutcomeOneOf::new(RequestFailureReason::FunctionError);
    assert_eq!(one_of.failure, RequestFailureReason::FunctionError);
}

#[test]
fn defaults_match_the_wire_protocol() {
    assert_eq!(CursorDirection::default(), CursorDirection::Forward);
    assert_eq!(FunctionRunOutcome::default(), FunctionRunOutcome::Undefined);
    assert_eq!(FunctionRunStatus::default(), FunctionRunStatus::Pending);
    assert_eq!(RequestFailureReason::default(), RequestFailureReason::Unknown);
    assert_eq!(RequestOutcome::default(), RequestOutcome::Unknown);
    assert_eq!(ApplicationState::default(), ApplicationState::Active);
}

#[test]
fn display_strings_match_the_wire_protocol() {
    assert_eq!(CursorDirection::Forward.display_string(), "forward");
    assert_eq!(CursorDirection::Backward.display_string(), "backward");
    assert_eq!(FunctionRunOutcome::Failure.display_string(), "Failure");
    assert_eq!(FunctionRunStatus::Completed.display_string(), "Completed");
    assert_eq!(RequestFailureReason::OutOfMemory.display_string(), "outofmemory");
    assert_eq!(RequestFailureReason::ConstraintUnsatisfiable.display_string(), "constraintunsatisfiable");
    assert_eq!(BuildStatus::Canceling.query_value(), "canceling");
    assert_eq!(BuildStatus::Succeeded.query_value(), "succeeded");
}

#[test]
fn builders_require_their_fields() {
    let req = GetApplicationRequest::builder()
        .namespace("default".to_string())
        .application("my-app".to_string())
        .build()
        .unwrap();
    assert_eq!(req.namespace, "default");
    assert_eq!(req.application, "my-app");

    let missing = GetApplicationRequest::builder().namespace("default".to_string()).build();
    assert_eq!(missing.unwrap_err().field, "application");

    let missing = GetApplicationRequest::builder().build();
    assert_eq!(missing.unwrap_err().field, "namespace");
}

#[test]
fn optional_builder_fields_default_to_unset() {
    let req = ListApplicationsRequest::builder().namespace("default".to_string()).build().unwrap();
    assert_eq!(req.limit, None);
    assert_eq!(req.cursor, None);
    assert!(req.direction.is_none());

    let req = ListApplicationsRequest::builder()
        .namespace("default".to_string())
        .limit(10)
        .cursor("abc".to_string())
        .direction(CursorDirection::Backward)
        .build()
        .unwrap();
    assert_eq!(req.limit, Some(10));
    assert_eq!(req.cursor.as_deref(), Some("abc"));
    assert_eq!(req.direction, Some(CursorDirection::Backward));
}

#[test]
fn entrypoint_builder_reports_first_missing_field() {
    let e = Entrypoint::builder()
        .function_name("main".to_string())
        .input_serializer("json".to_string())
        .output_serializer("json".to_string())
        .build()
        .unwrap();
    assert_eq!(e.function_name, "main");
    assert_eq!(e.output_type_hints_base64, None);

    let missing = Entrypoint::builder().function_name("main".to_string()).build();
    assert_eq!(missing.unwrap_err().field, "input_serializer");
}

#[test]
fn placement_constraints_manifest_builder_defaults_to_no_filters() {
    let m = PlacementConstraintsManifest::builder().build().unwrap();
    assert!(m.filter_expressions.is_empty());

    let m = PlacementConstraintsManifest::builder()
        .filter_expressions(vec!["zone=eu".to_string()])
        .build()
        .unwrap();
    assert_eq!(m.filter_expressions, vec!["zone=eu".to_string()]);
}

#[test]
fn get_logs_builder_passes_filters_through() {
    let req = GetLogsRequest::builder()
        .namespace("default".to_string())
        .application("my-app".to_string())
        .tail(100)
        .build()
        .unwrap();
    assert_eq!(req.tail, Some(100));
    assert_eq!(req.head, None);
    assert_eq!(req.request_id, None);
}

#[test]
fn image_build_request_builder_requires_every_field() {
    let req = ImageBuildRequest::builder()
        .image_name("img".to_string())
        .image_tag("latest".to_string())
        .context_data(vec![1, 2, 3])
        .application_name("app".to_string())
        .application_version("1.0.0".to_string())
        .function_name("main".to_string())
        .build()
        .unwrap();
    assert_eq!(req.context_data, vec![1, 2, 3]);

    let missing = ImageBuildRequest::builder().image_name("img".to_string()).build();
    assert_eq!(missing.unwrap_err().field, "image_tag");
}

#[test]
fn poll_step_stops_exactly_on_terminal_statuses() {
    let info = |status: &str| BuildInfo {
        id: "b-1".to_string(),
        status: status.to_string(),
        created_at: "t0".to_string(),
        updated_at: "t1".to_string(),
        finished_at: Some("t2".to_string()),
        error_message: Some("oops".to_string()),
    };
    for pending in ["pending", "building", "enqueued", "anything-else"] {
        assert!(poll_step(info(pending)).is_none(), "{pending}");
    }
    let done = poll_step(info("completed")).unwrap();
    assert_eq!(done.status, BuildStatus::Succeeded);
    assert_eq!(done.error_message, None);
    let done = poll_step(info("succeeded")).unwrap();
    assert_eq!(done.status, BuildStatus::Succeeded);
    let failed = poll_step(info("failed")).unwrap();
    assert_eq!(failed.status, BuildStatus::Failed);
    assert_eq!(failed.error_message.as_deref(), Some("oops"));
    assert_eq!(failed.id, "b-1");
}

#[test]
fn upsert_secret_conversions_keep_names_and_values() {
    match UpsertSecret::from_pair("api-key", "value-1") {
        UpsertSecret::Single(s) => {
            assert_eq!(s.name, "api-key");
            assert_eq!(s.value, "value-1");
        }
        UpsertSecret::Multiple(_) => panic!("one pair makes a single secret"),
    }
    let pairs = vec![
        ("a".to_string(), "1".to_string()),
        ("b".to_string(), "2".to_string()),
    ];
    match UpsertSecret::from_pairs(pairs) {
        UpsertSecret::Multiple(s) => {
            assert_eq!(
                s,
                vec![
                    NewSecret { name: "a".to_string(), value: "1".to_string() },
                    NewSecret { name: "b".to_string(), value: "2".to_string() },
                ]
            );
        }
        UpsertSecret::Single(_) => panic!("several pairs make several secrets"),
    }
}

#[test]
fn secret_request_builders_work() {
    let req = UpsertSecretRequest::builder()
        .organization_id("org-1".to_string())
        .project_id("proj-1".to_string())
        .secrets(UpsertSecret::from_pair("k", "v"))
        .build()
        .unwrap();
    assert_eq!(req.organization_id, "org-1");

    let missing = ListSecretsRequest::builder().organization_id("org-1".to_string()).build();
    assert_eq!(missing.unwrap_err().field, "project_id");
}
