use codex_grpc::admission::{ConcurrencyLimit, Refusal};
use codex_grpc::error::ErrorCode;
use codex_grpc::exit::ProcessExit;
use codex_grpc::invocation::Action;
use codex_grpc::service::{
    has_distinct_names, read_stream, resolve_executable, spawn_plan, wait_outcome, CodexCliService,
    OutputStream, RunCommandRequest,
};

fn request(cwd: &str) -> RunCommandRequest {
    RunCommandRequest {
        args: vec![String::from("exec"), String::from("--json")],
        env: vec![(String::from("RUST_LOG"), String::from("debug"))],
        cwd: String::from(cwd),
        stdin: vec![1, 2, 3],
    }
}

#[test]
fn startup_override_wins() {
    let service = CodexCliService::new(Some(String::from("/opt/codex/bin/codex")), None);
    let resolved = service.resolve_cli_path(
        Some(String::from("/env/codex")),
        Ok(String::from("/usr/local/bin/codex-grpc-server")),
    );
    assert_eq!(resolved.unwrap(), "/opt/codex/bin/codex");
}

#[test]
fn environment_override_is_second() {
    let service = CodexCliService::new(None, None);
    let resolved = service.resolve_cli_path(
        Some(String::from("/env/codex")),
        Ok(String::from("/usr/local/bin/codex-grpc-server")),
    );
    assert_eq!(resolved.unwrap(), "/env/codex");
    let resolved = service.resolve_cli_path(Some(String::from("/env/codex")), Err(String::from("no exe")));
    assert_eq!(resolved.unwrap(), "/env/codex");
}

#[test]
fn falls_back_to_sibling_of_own_executable() {
    let service = CodexCliService::new(None, Some(2));
    let resolved = service.resolve_cli_path(None, Ok(String::from("/usr/local/bin/codex-grpc-server")));
    assert_eq!(resolved.unwrap(), "/usr/local/bin/codex");
    let resolved = resolve_executable(&None, None, Ok(String::from("codex-grpc-server")));
    assert_eq!(resolved.unwrap(), "codex");
}

#[test]
fn unresolvable_executable_is_an_internal_error() {
    let service = CodexCliService::new(None, None);
    let error = service.resolve_cli_path(None, Err(String::from("permission denied"))).unwrap_err();
    assert_eq!(error.code, ErrorCode::Internal);
    assert_eq!(error.message, "failed to determine current executable: permission denied");
}

#[test]
fn service_gate_follows_the_limit() {
    let mut service = CodexCliService::new(None, Some(1));
    assert_eq!(service.gate().limit(), ConcurrencyLimit::BoundedBy(1));
    let permit = service.acquire().unwrap();
    assert_eq!(service.acquire().unwrap_err(), Refusal::MustWait);
    assert_eq!(service.gate().in_flight(), 1);
    service.release(permit);
    assert_eq!(service.gate().in_flight(), 0);
    let permit = service.acquire().unwrap();
    service.close();
    assert!(service.gate().is_closed());
    assert_eq!(service.acquire().unwrap_err(), Refusal::Unavailable);
    service.release(permit);
    assert_eq!(service.gate().in_flight(), 0);
}

#[test]
fn service_without_limit_counts_every_call() {
    let mut service = CodexCliService::new(None, None);
    assert_eq!(service.gate().limit(), ConcurrencyLimit::Unbounded);
    let mut permits = Vec::new();
    for _ in 0..50 {
        permits.push(service.acquire().unwrap());
    }
    assert_eq!(service.gate().in_flight(), 50);
    for permit in permits {
        service.release(permit);
    }
    assert_eq!(service.gate().in_flight(), 0);
}

#[test]
fn environment_names_must_differ() {
    let pair = |name: &str, value: &str| (String::from(name), String::from(value));
    assert!(has_distinct_names(&Vec::new()));
    assert!(has_distinct_names(&vec![pair("A", "1")]));
    assert!(has_distinct_names(&vec![pair("A", "1"), pair("B", "1"), pair("a", "1")]));
    assert!(!has_distinct_names(&vec![pair("A", "1"), pair("A", "2")]));
    assert!(!has_distinct_names(&vec![pair("A", "1"), pair("B", "2"), pair("A", "1")]));
    assert!(!has_distinct_names(&vec![pair("B", "1"), pair("A", "2"), pair("C", "3"), pair("C", "4")]));
    assert!(request("").is_well_formed());
    let mut twice = request("");
    twice.env.push(pair("RUST_LOG", "trace"));
    assert!(!twice.is_well_formed());
}

#[test]
fn service_begins_calls_at_admission() {
    let service = CodexCliService::new(Some(String::from("/bin/echo")), None);
    let call = service.run_command(request(""));
    assert_eq!(call.pending(), Action::AcquireSlot);
    assert!(!call.holds_slot());
    assert!(call.plan().is_none());
    assert_eq!(call.input(), &vec![1u8, 2, 3]);
}

#[test]
fn spawn_plan_carries_the_request() {
    let request = request("/work");
    let plan = spawn_plan("/bin/codex", &request);
    assert_eq!(plan.program, "/bin/codex");
    assert_eq!(plan.args, &vec![String::from("exec"), String::from("--json")]);
    assert_eq!(plan.env, &vec![(String::from("RUST_LOG"), String::from("debug"))]);
    assert_eq!(plan.cwd, Some("/work"));
}

#[test]
fn empty_working_directory_is_inherited() {
    let request = request("");
    let plan = spawn_plan("/bin/codex", &request);
    assert_eq!(plan.cwd, None);
}

#[test]
fn empty_environment_adds_no_overrides() {
    let request = RunCommandRequest { args: Vec::new(), env: Vec::new(), cwd: String::new(), stdin: Vec::new() };
    let plan = spawn_plan("codex", &request);
    assert!(plan.env.is_empty());
    assert!(plan.args.is_empty());
    assert_eq!(plan.cwd, None);
    assert_eq!(plan.program, "codex");
}

#[test]
fn read_stream_returns_the_bytes_read() {
    let bytes = vec![0u8, 255, 10, 13, 0, 128, 7];
    let captured = read_stream(OutputStream::Stdout, Some(Ok(bytes.clone()))).unwrap();
    assert_eq!(captured, bytes);
    let captured = read_stream(OutputStream::Stderr, Some(Ok(Vec::new()))).unwrap();
    assert!(captured.is_empty());
}

#[test]
fn read_stream_without_a_stream_is_empty() {
    assert!(read_stream(OutputStream::Stdout, None).unwrap().is_empty());
    assert!(read_stream(OutputStream::Stderr, None).unwrap().is_empty());
}

#[test]
fn read_stream_failure_names_the_stream() {
    let error = read_stream(OutputStream::Stdout, Some(Err(String::from("reset")))).unwrap_err();
    assert_eq!(error.code, ErrorCode::Internal);
    assert_eq!(error.message, "failed to read stdout: reset");
    let error = read_stream(OutputStream::Stderr, Some(Err(String::from("reset")))).unwrap_err();
    assert_eq!(error.code, ErrorCode::Internal);
    assert_eq!(error.message, "failed to read stderr: reset");
}

#[test]
fn wait_outcome_passes_the_status_on() {
    let status = ProcessExit { code: Some(3), signal: None };
    assert_eq!(wait_outcome(Ok(status)).unwrap(), status);
}

#[test]
fn wait_failure_is_an_internal_error() {
    let error = wait_outcome(Err(String::from("no child"))).unwrap_err();
    assert_eq!(error.code, ErrorCode::Internal);
    assert_eq!(error.message, "failed to wait for process: no child");
}
