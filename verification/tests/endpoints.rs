use tensorlake_cloud_sdk::applications::CheckFunctionOutputRequest;
use tensorlake_cloud_sdk::applications::CursorDirection;
use tensorlake_cloud_sdk::applications::DeleteApplicationRequest;
use tensorlake_cloud_sdk::applications::DownloadFunctionOutputRequest;
use tensorlake_cloud_sdk::applications::GetLogsRequest;
use tensorlake_cloud_sdk::applications::GetRequestRequest;
use tensorlake_cloud_sdk::applications::ListApplicationsRequest;
use tensorlake_cloud_sdk::applications::ListRequestsRequest;
use tensorlake_cloud_sdk::applications::ProgressUpdatesRequest;
use tensorlake_cloud_sdk::applications::ProgressUpdatesRequestMode;
use tensorlake_cloud_sdk::applications::StreamProgressRequest;
use tensorlake_cloud_sdk::applications::merge_progress_page;
use tensorlake_cloud_sdk::error::SdkError;
use tensorlake_cloud_sdk::error::body_message_or_default;
use tensorlake_cloud_sdk::error::bearer_header_value;
use tensorlake_cloud_sdk::error::response_disposition;
use tensorlake_cloud_sdk::images::CancelBuildRequest;
use tensorlake_cloud_sdk::images::GetBuildInfoRequest;
use tensorlake_cloud_sdk::images::BuildStatus;
use tensorlake_cloud_sdk::images::ListBuildsRequest;
use tensorlake_cloud_sdk::images::StreamLogsRequest;
use tensorlake_cloud_sdk::secrets::GetSecretRequest;
use tensorlake_cloud_sdk::secrets::ListSecretsRequest;
use tensorlake_cloud_sdk::applications::invoke_accept_header;
use tensorlake_cloud_sdk::applications::invoke_request_id;
use tensorlake_cloud_sdk::event_source::eventsource_step;
use tensorlake_cloud_sdk::event_source::SignalAction;
use tensorlake_cloud_sdk::event_source::StreamSignal;
use tensorlake_cloud_sdk::strings::i32_to_string;
use tensorlake_cloud_sdk::strings::u64_to_string;
use tensorlake_cloud_sdk::strings::usize_to_string;

#[test]
fn decimal_rendering_matches_std() {
    for n in [0u64, 1, 9, 10, 99, 100, 1024, 123456789, u64::MAX] {
        assert_eq!(u64_to_string(n), n.to_string());
    }
    for n in [0i32, 7, -1, -10, 42, i32::MAX, i32::MIN] {
        assert_eq!(i32_to_string(n), n.to_string());
    }
    assert_eq!(usize_to_string(300), "300");
}

#[test]
fn application_paths_match_the_api() {
    let list = ListApplicationsRequest::builder().namespace("default".to_string()).build().unwrap();
    assert_eq!(list.url_path(), "/v1/namespaces/default/applications");

    let del = DeleteApplicationRequest::builder()
        .namespace("default".to_string())
        .application("test-app".to_string())
        .build()
        .unwrap();
    assert_eq!(del.url_path(), "/v1/namespaces/default/applications/test-app");

    let get_req = GetRequestRequest::builder()
        .namespace("default".to_string())
        .application("test-app".to_string())
        .request_id("req-123".to_string())
        .build()
        .unwrap();
    assert_eq!(get_req.url_path(), "/v1/namespaces/default/applications/test-app/requests/req-123");

    let check = CheckFunctionOutputRequest::builder()
        .namespace("default".to_string())
        .application("test-app".to_string())
        .request_id("req-123".to_string())
        .build()
        .unwrap();
    assert_eq!(
        check.url_path(),
        "/v1/namespaces/default/applications/test-app/requests/req-123/output"
    );

    let dl = DownloadFunctionOutputRequest::builder()
        .namespace("default".to_string())
        .application("test-app".to_string())
        .request_id("req-123".to_string())
        .function_call_id("fc-9".to_string())
        .build()
        .unwrap();
    assert_eq!(
        dl.url_path(),
        "/v1/namespaces/default/applications/test-app/requests/req-123/output/fc-9"
    );

    let stream = StreamProgressRequest::builder()
        .namespace("default".to_string())
        .application("test-app".to_string())
        .request_id("req-123".to_string())
        .build()
        .unwrap();
    assert_eq!(
        stream.url_path(),
        "/namespaces/default/applications/test-app/requests/req-123/progress"
    );

    let logs = GetLogsRequest::builder()
        .namespace("default".to_string())
        .application("test-app".to_string())
        .build()
        .unwrap();
    assert_eq!(logs.url_path(), "/v1/namespaces/default/applications/test-app/logs");
}

#[test]
fn list_queries_render_only_what_is_set() {
    let req = ListApplicationsRequest::builder().namespace("default".to_string()).build().unwrap();
    assert!(req.query().is_empty());

    let req = ListApplicationsRequest::builder()
        .namespace("default".to_string())
        .limit(10)
        .cursor("c0".to_string())
        .direction(CursorDirection::Backward)
        .build()
        .unwrap();
    assert_eq!(
        req.query(),
        vec![
            ("limit".to_string(), "10".to_string()),
            ("cursor".to_string(), "c0".to_string()),
            ("direction".to_string(), "backward".to_string()),
        ]
    );

    let req = ListRequestsRequest::builder()
        .namespace("default".to_string())
        .application("test-app".to_string())
        .limit(10)
        .build()
        .unwrap();
    assert_eq!(req.url_path(), "/v1/namespaces/default/applications/test-app/requests");
    assert_eq!(req.query(), vec![("limit".to_string(), "10".to_string())]);
}

#[test]
fn logs_query_renders_in_declared_order() {
    let req = GetLogsRequest::builder()
        .namespace("default".to_string())
        .application("test-app".to_string())
        .request_id("r1".to_string())
        .head(5)
        .tail(100)
        .function_executor("fe".to_string())
        .build()
        .unwrap();
    assert_eq!(
        req.query(),
        vec![
            ("requestId".to_string(), "r1".to_string()),
            ("head".to_string(), "5".to_string()),
            ("tail".to_string(), "100".to_string()),
            ("functionExecutor".to_string(), "fe".to_string()),
        ]
    );
}

#[test]
fn progress_updates_request_modes_choose_header_and_query() {
    let req = ProgressUpdatesRequest::builder()
        .namespace("default".to_string())
        .application("test-app".to_string())
        .request_id("r1".to_string())
        .mode(ProgressUpdatesRequestMode::Stream)
        .build()
        .unwrap();
    assert_eq!(req.url_path(), "/v1/namespaces/default/applications/test-app/requests/r1/updates");
    assert_eq!(req.accept_header(), "text/event-stream");
    assert!(req.query().is_empty());

    let req = ProgressUpdatesRequest::builder()
        .namespace("default".to_string())
        .application("test-app".to_string())
        .request_id("r1".to_string())
        .mode(ProgressUpdatesRequestMode::Paginated(Some("tok".to_string())))
        .build()
        .unwrap();
    assert_eq!(req.accept_header(), "application/json");
    assert_eq!(req.query(), vec![("nextToken".to_string(), "tok".to_string())]);

    let req = ProgressUpdatesRequest::builder()
        .namespace("default".to_string())
        .application("test-app".to_string())
        .request_id("r1".to_string())
        .mode(ProgressUpdatesRequestMode::FetchAll)
        .build()
        .unwrap();
    assert_eq!(req.accept_header(), "application/json");
    assert!(req.query().is_empty());
}

#[test]
fn merge_progress_page_appends_and_decides() {
    let mut acc = vec![1, 2];
    let more = merge_progress_page(&mut acc, vec![3, 4], &Some("tok".to_string()));
    assert!(more);
    assert_eq!(acc, vec![1, 2, 3, 4]);
    let more = merge_progress_page(&mut acc, vec![5], &None);
    assert!(!more);
    assert_eq!(acc, vec![1, 2, 3, 4, 5]);
}

#[test]
fn image_paths_match_the_api() {
    let cancel = CancelBuildRequest::builder().build_id("b-1".to_string()).build().unwrap();
    assert_eq!(cancel.url_path(), "/images/v2/builds/b-1/cancel");

    let info = GetBuildInfoRequest::builder().build_id("b-1".to_string()).build().unwrap();
    assert_eq!(info.url_path(), "/images/v2/builds/b-1");

    let logs = StreamLogsRequest::builder().build_id("b-1".to_string()).build().unwrap();
    assert_eq!(logs.url_path(), "/images/v2/builds/b-1/logs");

    let list = ListBuildsRequest::builder().build().unwrap();
    assert_eq!(list.url_path(), "/images/v2/builds");
    assert!(list.query().is_empty());

    let list = ListBuildsRequest::builder()
        .page(1)
        .page_size(25)
        .status(BuildStatus::Building)
        .application_name("app".to_string())
        .build()
        .unwrap();
    assert_eq!(
        list.query(),
        vec![
            ("page".to_string(), "1".to_string()),
            ("page_size".to_string(), "25".to_string()),
            ("status".to_string(), "building".to_string()),
            ("graph_name".to_string(), "app".to_string()),
        ]
    );
}

#[test]
fn secret_paths_match_the_api() {
    let get = GetSecretRequest::builder()
        .organization_id("org-1".to_string())
        .project_id("proj-1".to_string())
        .secret_id("sec-1".to_string())
        .build()
        .unwrap();
    assert_eq!(get.url_path(), "/platform/v1/organizations/org-1/projects/proj-1/secrets/sec-1");

    let list = ListSecretsRequest::builder()
        .organization_id("org-1".to_string())
        .project_id("proj-1".to_string())
        .page_size(10)
        .build()
        .unwrap();
    assert_eq!(list.url_path(), "/platform/v1/organizations/org-1/projects/proj-1/secrets");
    assert_eq!(list.query(), vec![("pageSize".to_string(), "10".to_string())]);
}

#[test]
fn response_disposition_classifies_statuses() {
    assert!(response_disposition(200, "ok".to_string()).is_none());
    assert!(response_disposition(204, "ok".to_string()).is_none());
    match response_disposition(401, "denied".to_string()) {
        Some(SdkError::Authentication(m)) => assert_eq!(m, "denied"),
        _ => panic!("401 is an authentication failure"),
    }
    match response_disposition(403, "forbidden".to_string()) {
        Some(SdkError::Authorization(m)) => assert_eq!(m, "forbidden"),
        _ => panic!("403 is an authorization failure"),
    }
    match response_disposition(500, "boom".to_string()) {
        Some(SdkError::ServerError { status, message }) => {
            assert_eq!(status, 500);
            assert_eq!(message, "boom");
        }
        _ => panic!("500 is a server error"),
    }
    match response_disposition(302, "moved".to_string()) {
        Some(SdkError::ServerError { status, .. }) => assert_eq!(status, 302),
        _ => panic!("any non-success status maps to a server error"),
    }
}

#[test]
fn body_messages_fall_back_to_the_default() {
    assert_eq!(body_message_or_default(None, "Unauthorized"), "Unauthorized");
    assert_eq!(body_message_or_default(Some(String::new()), "Unauthorized"), "Unauthorized");
    assert_eq!(body_message_or_default(Some("why".to_string()), "Unauthorized"), "why");
}

#[test]
fn bearer_header_is_prefixed() {
    assert_eq!(bearer_header_value("test-token"), "Bearer test-token");
}

#[test]
fn invoke_helpers_decide_header_and_request_id() {
    assert_eq!(invoke_accept_header(true), "text/event-stream");
    assert_eq!(invoke_accept_header(false), "application/json");

    assert_eq!(invoke_request_id(Some("req-1".to_string())).unwrap(), "req-1");
    match invoke_request_id(None) {
        Err(SdkError::ServerError { status, message }) => {
            assert_eq!(status, 200);
            assert_eq!(message, "Missing request_id in response");
        }
        _ => panic!("a body without a request id is a server fault"),
    }
}

#[test]
fn eventsource_signals_map_to_actions() {
    assert_eq!(eventsource_step(StreamSignal::Opened), SignalAction::Skip);
    assert_eq!(
        eventsource_step(StreamSignal::Message("{\"a\":1}".to_string())),
        SignalAction::EmitPayload("{\"a\":1}".to_string())
    );
    assert_eq!(eventsource_step(StreamSignal::Ended), SignalAction::Stop);
    assert_eq!(
        eventsource_step(StreamSignal::Failed("reset".to_string())),
        SignalAction::Fail("reset".to_string())
    );
}
