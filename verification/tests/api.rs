use supervisor_webui::api::{plan_call, ApiMethod, RpcCall};
use supervisor_webui::request_params::{ParamShape, RequestParams};
use supervisor_webui::routing::resolve_method;

const ALL: [ApiMethod; 33] = [
    ApiMethod::GetApiVersion, ApiMethod::GetSupervisorVersion, ApiMethod::GetIdentification,
    ApiMethod::GetState, ApiMethod::GetPid, ApiMethod::ReadLog, ApiMethod::ClearLog,
    ApiMethod::Shutdown, ApiMethod::Restart, ApiMethod::GetProcessInfo,
    ApiMethod::GetAllProcessInfo, ApiMethod::GetAllConfigInfo, ApiMethod::StartProcess,
    ApiMethod::StartAllProcesses, ApiMethod::StartProcessGroup, ApiMethod::StopProcess,
    ApiMethod::StopAllProcesses, ApiMethod::StopProcessGroup, ApiMethod::SignalProcess,
    ApiMethod::SignalProcessGroup, ApiMethod::SignalAllProcesses, ApiMethod::SendProcessStdin,
    ApiMethod::SendRemoteCommEvent, ApiMethod::ReloadConfig, ApiMethod::AddProcessGroup,
    ApiMethod::RemoveProcessGroup, ApiMethod::ReadProcessLog, ApiMethod::ReadProcessStdoutLog,
    ApiMethod::ReadProcessStderrLog, ApiMethod::TailProcessStdoutLog,
    ApiMethod::TailProcessStderrLog, ApiMethod::ClearProcessLogs, ApiMethod::ClearAllProcessLogs,
];

#[test]
fn method_names_are_distinct_and_read_back() {
    for (i, m) in ALL.iter().enumerate() {
        assert_eq!(ApiMethod::from_name(&m.name().to_string()), Some(*m));
        for n in ALL.iter().skip(i + 1) {
            assert_ne!(m.name(), n.name());
        }
    }
}

#[test]
fn method_names_match_the_supervisor_interface() {
    assert_eq!(ApiMethod::ReadProcessLog.name(), "readprocesslog");
    assert_eq!(ApiMethod::TailProcessStderrLog.name(), "tailprocessstderrlog");
    assert_eq!(ApiMethod::SendRemoteCommEvent.name(), "sendremotecommevent");
    assert_eq!(ApiMethod::GetPid.name(), "getpid");
}

#[test]
fn unknown_names_designate_no_method() {
    assert_eq!(ApiMethod::from_name(&"getApiVersion".to_string()), None);
    assert_eq!(ApiMethod::from_name(&"".to_string()), None);
    assert_eq!(ApiMethod::from_name(&"getapiversio".to_string()), None);
    assert_eq!(resolve_method("noSuchMethod"), None);
}

#[test]
fn method_names_are_resolved_ignoring_case() {
    assert_eq!(resolve_method("getAPIVersion"), Some(ApiMethod::GetApiVersion));
    assert_eq!(resolve_method("GETAPIVERSION"), Some(ApiMethod::GetApiVersion));
    assert_eq!(resolve_method("tailProcessStdoutLog"), Some(ApiMethod::TailProcessStdoutLog));
    assert_eq!(resolve_method("getPID"), resolve_method("getpid"));
}

#[test]
fn shapes_of_some_methods() {
    assert_eq!(ApiMethod::ReadLog.shape(), ParamShape::I32I32);
    assert_eq!(ApiMethod::StartProcess.shape(), ParamShape::StringBool);
    assert_eq!(ApiMethod::StartAllProcesses.shape(), ParamShape::Flag);
    assert_eq!(ApiMethod::SignalProcess.shape(), ParamShape::StringString);
    assert_eq!(ApiMethod::ClearProcessLogs.shape(), ParamShape::Text);
    assert_eq!(ApiMethod::ReadProcessStderrLog.shape(), ParamShape::StringI32I32);
    assert_eq!(ApiMethod::Restart.shape(), ParamShape::Nothing);
}

#[test]
fn planned_calls_carry_the_parameters() {
    let c = plan_call(
        ApiMethod::TailProcessStdoutLog,
        RequestParams::StringI32I32 { a: "web".to_string(), b: 0, c: 4096 },
    );
    assert!(matches!(c, Ok(RpcCall::TailProcessStdoutLog { ref name, offset: 0, length: 4096 }) if name == "web"));
    let c = plan_call(ApiMethod::StopAllProcesses, RequestParams::Bool { a: true });
    assert!(matches!(c, Ok(RpcCall::StopAllProcesses { wait: true })));
    let c = plan_call(
        ApiMethod::SendRemoteCommEvent,
        RequestParams::StringString { a: "kind".to_string(), b: "data".to_string() },
    );
    assert!(matches!(c, Ok(RpcCall::SendRemoteCommEvent { ref kind, ref data }) if kind == "kind" && data == "data"));
    let c = plan_call(ApiMethod::ReadLog, RequestParams::I32I32 { a: -100, b: 0 });
    assert!(matches!(c, Ok(RpcCall::ReadLog { offset: -100, length: 0 })));
    let c = plan_call(ApiMethod::GetState, RequestParams::Empty {});
    assert!(matches!(c, Ok(RpcCall::GetState)));
}

#[test]
fn parameters_of_the_wrong_shape_are_a_bad_request() {
    let c = plan_call(ApiMethod::GetState, RequestParams::Bool { a: true });
    assert!(matches!(c, Err(ref e) if e == "Bad request"));
    let c = plan_call(ApiMethod::StartProcess, RequestParams::String { a: "x".to_string() });
    assert!(matches!(c, Err(ref e) if e == "Bad request"));
}

#[test]
fn lowering_a_name_first_resolves_alike() {
    for n in ["getState", "GETSTATE", "getstate", "readProcessStderrLog", "noSuchMethod", "ÉTAT"] {
        assert_eq!(resolve_method(n), resolve_method(&n.to_lowercase()));
    }
}
