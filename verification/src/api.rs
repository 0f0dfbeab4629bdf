//! The supervisor methods that the API exposes, and the planning of an API
//! request: which method it names and with which arguments it is called.

use vstd::prelude::*;
use vstd::string::*;
use crate::request_params::{RequestParams, ParamShape, bad_request_message};

verus! {

/// A method of supervisord's XML-RPC interface that the API can call.
#[derive(PartialEq, Eq, Structural, Clone, Copy, Debug)]
pub enum ApiMethod {
    GetApiVersion,
    GetSupervisorVersion,
    GetIdentification,
    GetState,
    GetPid,
    ReadLog,
    ClearLog,
    Shutdown,
    Restart,
    GetProcessInfo,
    GetAllProcessInfo,
    GetAllConfigInfo,
    StartProcess,
    StartAllProcesses,
    StartProcessGroup,
    StopProcess,
    StopAllProcesses,
    StopProcessGroup,
    SignalProcess,
    SignalProcessGroup,
    SignalAllProcesses,
    SendProcessStdin,
    SendRemoteCommEvent,
    ReloadConfig,
    AddProcessGroup,
    RemoveProcessGroup,
    ReadProcessLog,
    ReadProcessStdoutLog,
    ReadProcessStderrLog,
    TailProcessStdoutLog,
    TailProcessStderrLog,
    ClearProcessLogs,
    ClearAllProcessLogs,
}

impl ApiMethod {
    /// The name under which the API exposes the method (all lower case).
    pub open spec fn spec_name(&self) -> Seq<char> {
        match self {
            ApiMethod::GetApiVersion => "getapiversion"@,
            ApiMethod::GetSupervisorVersion => "getsupervisorversion"@,
            ApiMethod::GetIdentification => "getidentification"@,
            ApiMethod::GetState => "getstate"@,
            ApiMethod::GetPid => "getpid"@,
            ApiMethod::ReadLog => "readlog"@,
            ApiMethod::ClearLog => "clearlog"@,
            ApiMethod::Shutdown => "shutdown"@,
            ApiMethod::Restart => "restart"@,
            ApiMethod::GetProcessInfo => "getprocessinfo"@,
            ApiMethod::GetAllProcessInfo => "getallprocessinfo"@,
            ApiMethod::GetAllConfigInfo => "getallconfiginfo"@,
            ApiMethod::StartProcess => "startprocess"@,
            ApiMethod::StartAllProcesses => "startallprocesses"@,
            ApiMethod::StartProcessGroup => "startprocessgroup"@,
            ApiMethod::StopProcess => "stopprocess"@,
            ApiMethod::StopAllProcesses => "stopallprocesses"@,
            ApiMethod::StopProcessGroup => "stopprocessgroup"@,
            ApiMethod::SignalProcess => "signalprocess"@,
            ApiMethod::SignalProcessGroup => "signalprocessgroup"@,
            ApiMethod::SignalAllProcesses => "signalallprocesses"@,
            ApiMethod::SendProcessStdin => "sendprocessstdin"@,
            ApiMethod::SendRemoteCommEvent => "sendremotecommevent"@,
            ApiMethod::ReloadConfig => "reloadconfig"@,
            ApiMethod::AddProcessGroup => "addprocessgroup"@,
            ApiMethod::RemoveProcessGroup => "removeprocessgroup"@,
            ApiMethod::ReadProcessLog => "readprocesslog"@,
            ApiMethod::ReadProcessStdoutLog => "readprocessstdoutlog"@,
            ApiMethod::ReadProcessStderrLog => "readprocessstderrlog"@,
            ApiMethod::TailProcessStdoutLog => "tailprocessstdoutlog"@,
            ApiMethod::TailProcessStderrLog => "tailprocessstderrlog"@,
            ApiMethod::ClearProcessLogs => "clearprocesslogs"@,
            ApiMethod::ClearAllProcessLogs => "clearallprocesslogs"@,
        }
    }

    /// The shape of the parameters that the method takes.
    pub open spec fn spec_shape(&self) -> ParamShape {
        match self {
            ApiMethod::GetApiVersion => ParamShape::Nothing,
            ApiMethod::GetSupervisorVersion => ParamShape::Nothing,
            ApiMethod::GetIdentification => ParamShape::Nothing,
            ApiMethod::GetState => ParamShape::Nothing,
            ApiMethod::GetPid => ParamShape::Nothing,
            ApiMethod::ReadLog => ParamShape::I32I32,
            ApiMethod::ClearLog => ParamShape::Nothing,
            ApiMethod::Shutdown => ParamShape::Nothing,
            ApiMethod::Restart => ParamShape::Nothing,
            ApiMethod::GetProcessInfo => ParamShape::Text,
            ApiMethod::GetAllProcessInfo => ParamShape::Nothing,
            ApiMethod::GetAllConfigInfo => ParamShape::Nothing,
            ApiMethod::StartProcess => ParamShape::StringBool,
            ApiMethod::StartAllProcesses => ParamShape::Flag,
            ApiMethod::StartProcessGroup => ParamShape::StringBool,
            ApiMethod::StopProcess => ParamShape::StringBool,
            ApiMethod::StopAllProcesses => ParamShape::Flag,
            ApiMethod::StopProcessGroup => ParamShape::StringBool,
            ApiMethod::SignalProcess => ParamShape::StringString,
            ApiMethod::SignalProcessGroup => ParamShape::StringString,
            ApiMethod::SignalAllProcesses => ParamShape::Text,
            ApiMethod::SendProcessStdin => ParamShape::StringString,
            ApiMethod::SendRemoteCommEvent => ParamShape::StringString,
            ApiMethod::ReloadConfig => ParamShape::Nothing,
            ApiMethod::AddProcessGroup => ParamShape::Text,
            ApiMethod::RemoveProcessGroup => ParamShape::Text,
            ApiMethod::ReadProcessLog => ParamShape::StringI32I32,
            ApiMethod::ReadProcessStdoutLog => ParamShape::StringI32I32,
            ApiMethod::ReadProcessStderrLog => ParamShape::StringI32I32,
            ApiMethod::TailProcessStdoutLog => ParamShape::StringI32I32,
            ApiMethod::TailProcessStderrLog => ParamShape::StringI32I32,
            ApiMethod::ClearProcessLogs => ParamShape::Text,
            ApiMethod::ClearAllProcessLogs => ParamShape::Nothing,
        }
    }

    /// The name under which the API exposes the method.
    pub fn name(&self) -> (r: &'static str)
        ensures
            r@ == self.spec_name(),
    {
        match self {
            ApiMethod::GetApiVersion => "getapiversion",
            ApiMethod::GetSupervisorVersion => "getsupervisorversion",
            ApiMethod::GetIdentification => "getidentification",
            ApiMethod::GetState => "getstate",
            ApiMethod::GetPid => "getpid",
            ApiMethod::ReadLog => "readlog",
            ApiMethod::ClearLog => "clearlog",
            ApiMethod::Shutdown => "shutdown",
            ApiMethod::Restart => "restart",
            ApiMethod::GetProcessInfo => "getprocessinfo",
            ApiMethod::GetAllProcessInfo => "getallprocessinfo",
            ApiMethod::GetAllConfigInfo => "getallconfiginfo",
            ApiMethod::StartProcess => "startprocess",
            ApiMethod::StartAllProcesses => "startallprocesses",
            ApiMethod::StartProcessGroup => "startprocessgroup",
            ApiMethod::StopProcess => "stopprocess",
            ApiMethod::StopAllProcesses => "stopallprocesses",
            ApiMethod::StopProcessGroup => "stopprocessgroup",
            ApiMethod::SignalProcess => "signalprocess",
            ApiMethod::SignalProcessGroup => "signalprocessgroup",
            ApiMethod::SignalAllProcesses => "signalallprocesses",
            ApiMethod::SendProcessStdin => "sendprocessstdin",
            ApiMethod::SendRemoteCommEvent => "sendremotecommevent",
            ApiMethod::ReloadConfig => "reloadconfig",
            ApiMethod::AddProcessGroup => "addprocessgroup",
            ApiMethod::RemoveProcessGroup => "removeprocessgroup",
            ApiMethod::ReadProcessLog => "readprocesslog",
            ApiMethod::ReadProcessStdoutLog => "readprocessstdoutlog",
            ApiMethod::ReadProcessStderrLog => "readprocessstderrlog",
            ApiMethod::TailProcessStdoutLog => "tailprocessstdoutlog",
            ApiMethod::TailProcessStderrLog => "tailprocessstderrlog",
            ApiMethod::ClearProcessLogs => "clearprocesslogs",
            ApiMethod::ClearAllProcessLogs => "clearallprocesslogs",
        }
    }

    /// The shape of the parameters that the method takes.
    pub fn shape(&self) -> (r: ParamShape)
        ensures
            r == self.spec_shape(),
    {
        match self {
            ApiMethod::GetApiVersion => ParamShape::Nothing,
            ApiMethod::GetSupervisorVersion => ParamShape::Nothing,
            ApiMethod::GetIdentification => ParamShape::Nothing,
            ApiMethod::GetState => ParamShape::Nothing,
            ApiMethod::GetPid => ParamShape::Nothing,
            ApiMethod::ReadLog => ParamShape::I32I32,
            ApiMethod::ClearLog => ParamShape::Nothing,
            ApiMethod::Shutdown => ParamShape::Nothing,
            ApiMethod::Restart => ParamShape::Nothing,
            ApiMethod::GetProcessInfo => ParamShape::Text,
            ApiMethod::GetAllProcessInfo => ParamShape::Nothing,
            ApiMethod::GetAllConfigInfo => ParamShape::Nothing,
            ApiMethod::StartProcess => ParamShape::StringBool,
            ApiMethod::StartAllProcesses => ParamShape::Flag,
            ApiMethod::StartProcessGroup => ParamShape::StringBool,
            ApiMethod::StopProcess => ParamShape::StringBool,
            ApiMethod::StopAllProcesses => ParamShape::Flag,
            ApiMethod::StopProcessGroup => ParamShape::StringBool,
            ApiMethod::SignalProcess => ParamShape::StringString,
            ApiMethod::SignalProcessGroup => ParamShape::StringString,
            ApiMethod::SignalAllProcesses => ParamShape::Text,
            ApiMethod::SendProcessStdin => ParamShape::StringString,
            ApiMethod::SendRemoteCommEvent => ParamShape::StringString,
            ApiMethod::ReloadConfig => ParamShape::Nothing,
            ApiMethod::AddProcessGroup => ParamShape::Text,
            ApiMethod::RemoveProcessGroup => ParamShape::Text,
            ApiMethod::ReadProcessLog => ParamShape::StringI32I32,
            ApiMethod::ReadProcessStdoutLog => ParamShape::StringI32I32,
            ApiMethod::ReadProcessStderrLog => ParamShape::StringI32I32,
            ApiMethod::TailProcessStdoutLog => ParamShape::StringI32I32,
            ApiMethod::TailProcessStderrLog => ParamShape::StringI32I32,
            ApiMethod::ClearProcessLogs => ParamShape::Text,
            ApiMethod::ClearAllProcessLogs => ParamShape::Nothing,
        }
    }

    /// The method exposed under `name`, if any; `name` is compared exactly.
    pub fn from_name(name: &String) -> (r: Option<ApiMethod>)
        ensures
            r == method_named(name@),
    {

        if *name == String::from_str("getapiversion") {
            proof { lemma_method_named(ApiMethod::GetApiVersion); }
            return Some(ApiMethod::GetApiVersion);
        }
        if *name == String::from_str("getsupervisorversion") {
            proof { lemma_method_named(ApiMethod::GetSupervisorVersion); }
            return Some(ApiMethod::GetSupervisorVersion);
        }
        if *name == String::from_str("getidentification") {
            proof { lemma_method_named(ApiMethod::GetIdentification); }
            return Some(ApiMethod::GetIdentification);
        }
        if *name == String::from_str("getstate") {
            proof { lemma_method_named(ApiMethod::GetState); }
            return Some(ApiMethod::GetState);
        }
        if *name == String::from_str("getpid") {
            proof { lemma_method_named(ApiMethod::GetPid); }
            return Some(ApiMethod::GetPid);
        }
        if *name == String::from_str("readlog") {
            proof { lemma_method_named(ApiMethod::ReadLog); }
            return Some(ApiMethod::ReadLog);
        }
        if *name == String::from_str("clearlog") {
            proof { lemma_method_named(ApiMethod::ClearLog); }
            return Some(ApiMethod::ClearLog);
        }
        if *name == String::from_str("shutdown") {
            proof { lemma_method_named(ApiMethod::Shutdown); }
            return Some(ApiMethod::Shutdown);
        }
        if *name == String::from_str("restart") {
            proof { lemma_method_named(ApiMethod::Restart); }
            return Some(ApiMethod::Restart);
        }
        if *name == String::from_str("getprocessinfo") {
            proof { lemma_method_named(ApiMethod::GetProcessInfo); }
            return Some(ApiMethod::GetProcessInfo);
        }
        if *name == String::from_str("getallprocessinfo") {
            proof { lemma_method_named(ApiMethod::GetAllProcessInfo); }
            return Some(ApiMethod::GetAllProcessInfo);
        }
        if *name == String::from_str("getallconfiginfo") {
            proof { lemma_method_named(ApiMethod::GetAllConfigInfo); }
            return Some(ApiMethod::GetAllConfigInfo);
        }
        if *name == String::from_str("startprocess") {
            proof { lemma_method_named(ApiMethod::StartProcess); }
            return Some(ApiMethod::StartProcess);
        }
        if *name == String::from_str("startallprocesses") {
            proof { lemma_method_named(ApiMethod::StartAllProcesses); }
            return Some(ApiMethod::StartAllProcesses);
        }
        if *name == String::from_str("startprocessgroup") {
            proof { lemma_method_named(ApiMethod::StartProcessGroup); }
            return Some(ApiMethod::StartProcessGroup);
        }
        if *name == String::from_str("stopprocess") {
            proof { lemma_method_named(ApiMethod::StopProcess); }
            return Some(ApiMethod::StopProcess);
        }
        if *name == String::from_str("stopallprocesses") {
            proof { lemma_method_named(ApiMethod::StopAllProcesses); }
            return Some(ApiMethod::StopAllProcesses);
        }
        if *name == String::from_str("stopprocessgroup") {
            proof { lemma_method_named(ApiMethod::StopProcessGroup); }
            return Some(ApiMethod::StopProcessGroup);
        }
        if *name == String::from_str("signalprocess") {
            proof { lemma_method_named(ApiMethod::SignalProcess); }
            return Some(ApiMethod::SignalProcess);
        }
        if *name == String::from_str("signalprocessgroup") {
            proof { lemma_method_named(ApiMethod::SignalProcessGroup); }
            return Some(ApiMethod::SignalProcessGroup);
        }
        if *name == String::from_str("signalallprocesses") {
            proof { lemma_method_named(ApiMethod::SignalAllProcesses); }
            return Some(ApiMethod::SignalAllProcesses);
        }
        if *name == String::from_str("sendprocessstdin") {
            proof { lemma_method_named(ApiMethod::SendProcessStdin); }
            return Some(ApiMethod::SendProcessStdin);
        }
        if *name == String::from_str("sendremotecommevent") {
            proof { lemma_method_named(ApiMethod::SendRemoteCommEvent); }
            return Some(ApiMethod::SendRemoteCommEvent);
        }
        if *name == String::from_str("reloadconfig") {
            proof { lemma_method_named(ApiMethod::ReloadConfig); }
            return Some(ApiMethod::ReloadConfig);
        }
        if *name == String::from_str("addprocessgroup") {
            proof { lemma_method_named(ApiMethod::AddProcessGroup); }
            return Some(ApiMethod::AddProcessGroup);
        }
        if *name == String::from_str("removeprocessgroup") {
            proof { lemma_method_named(ApiMethod::RemoveProcessGroup); }
            return Some(ApiMethod::RemoveProcessGroup);
        }
        if *name == String::from_str("readprocesslog") {
            proof { lemma_method_named(ApiMethod::ReadProcessLog); }
            return Some(ApiMethod::ReadProcessLog);
        }
        if *name == String::from_str("readprocessstdoutlog") {
            proof { lemma_method_named(ApiMethod::ReadProcessStdoutLog); }
            return Some(ApiMethod::ReadProcessStdoutLog);
        }
        if *name == String::from_str("readprocessstderrlog") {
            proof { lemma_method_named(ApiMethod::ReadProcessStderrLog); }
            return Some(ApiMethod::ReadProcessStderrLog);
        }
        if *name == String::from_str("tailprocessstdoutlog") {
            proof { lemma_method_named(ApiMethod::TailProcessStdoutLog); }
            return Some(ApiMethod::TailProcessStdoutLog);
        }
        if *name == String::from_str("tailprocessstderrlog") {
            proof { lemma_method_named(ApiMethod::TailProcessStderrLog); }
            return Some(ApiMethod::TailProcessStderrLog);
        }
        if *name == String::from_str("clearprocesslogs") {
            proof { lemma_method_named(ApiMethod::ClearProcessLogs); }
            return Some(ApiMethod::ClearProcessLogs);
        }
        if *name == String::from_str("clearallprocesslogs") {
            proof { lemma_method_named(ApiMethod::ClearAllProcessLogs); }
            return Some(ApiMethod::ClearAllProcessLogs);
        }
        proof {
            assert forall|m: ApiMethod| m.spec_name() != name@ by {
                match m {
                    ApiMethod::GetApiVersion => {},
                    ApiMethod::GetSupervisorVersion => {},
                    ApiMethod::GetIdentification => {},
                    ApiMethod::GetState => {},
                    ApiMethod::GetPid => {},
                    ApiMethod::ReadLog => {},
                    ApiMethod::ClearLog => {},
                    ApiMethod::Shutdown => {},
                    ApiMethod::Restart => {},
                    ApiMethod::GetProcessInfo => {},
                    ApiMethod::GetAllProcessInfo => {},
                    ApiMethod::GetAllConfigInfo => {},
                    ApiMethod::StartProcess => {},
                    ApiMethod::StartAllProcesses => {},
                    ApiMethod::StartProcessGroup => {},
                    ApiMethod::StopProcess => {},
                    ApiMethod::StopAllProcesses => {},
                    ApiMethod::StopProcessGroup => {},
                    ApiMethod::SignalProcess => {},
                    ApiMethod::SignalProcessGroup => {},
                    ApiMethod::SignalAllProcesses => {},
                    ApiMethod::SendProcessStdin => {},
                    ApiMethod::SendRemoteCommEvent => {},
                    ApiMethod::ReloadConfig => {},
                    ApiMethod::AddProcessGroup => {},
                    ApiMethod::RemoveProcessGroup => {},
                    ApiMethod::ReadProcessLog => {},
                    ApiMethod::ReadProcessStdoutLog => {},
                    ApiMethod::ReadProcessStderrLog => {},
                    ApiMethod::TailProcessStdoutLog => {},
                    ApiMethod::TailProcessStderrLog => {},
                    ApiMethod::ClearProcessLogs => {},
                    ApiMethod::ClearAllProcessLogs => {},
                }
            }
        }
        None
    }
}

/// The method exposed under `name`, if any.
pub open spec fn method_named(name: Seq<char>) -> Option<ApiMethod> {
    if exists|m: ApiMethod| m.spec_name() == name {
        Some(choose|m: ApiMethod| m.spec_name() == name)
    } else {
        None
    }
}

/// A call of a supervisor method, with its arguments.
pub enum RpcCall {
    GetApiVersion,
    GetSupervisorVersion,
    GetIdentification,
    GetState,
    GetPid,
    ReadLog { offset: i32, length: i32 },
    ClearLog,
    Shutdown,
    Restart,
    GetProcessInfo { name: String },
    GetAllProcessInfo,
    GetAllConfigInfo,
    StartProcess { name: String, wait: bool },
    StartAllProcesses { wait: bool },
    StartProcessGroup { name: String, wait: bool },
    StopProcess { name: String, wait: bool },
    StopAllProcesses { wait: bool },
    StopProcessGroup { name: String, wait: bool },
    SignalProcess { name: String, signal: String },
    SignalProcessGroup { name: String, signal: String },
    SignalAllProcesses { signal: String },
    SendProcessStdin { name: String, chars: String },
    SendRemoteCommEvent { kind: String, data: String },
    ReloadConfig,
    AddProcessGroup { name: String },
    RemoveProcessGroup { name: String },
    ReadProcessLog { name: String, offset: i32, length: i32 },
    ReadProcessStdoutLog { name: String, offset: i32, length: i32 },
    ReadProcessStderrLog { name: String, offset: i32, length: i32 },
    TailProcessStdoutLog { name: String, offset: i32, length: i32 },
    TailProcessStderrLog { name: String, offset: i32, length: i32 },
    ClearProcessLogs { name: String },
    ClearAllProcessLogs,
}

impl RpcCall {
    /// The method that is called.
    pub open spec fn method(self) -> ApiMethod {
        match self {
            RpcCall::GetApiVersion  => ApiMethod::GetApiVersion,
            RpcCall::GetSupervisorVersion  => ApiMethod::GetSupervisorVersion,
            RpcCall::GetIdentification  => ApiMethod::GetIdentification,
            RpcCall::GetState  => ApiMethod::GetState,
            RpcCall::GetPid  => ApiMethod::GetPid,
            RpcCall::ReadLog { .. } => ApiMethod::ReadLog,
            RpcCall::ClearLog  => ApiMethod::ClearLog,
            RpcCall::Shutdown  => ApiMethod::Shutdown,
            RpcCall::Restart  => ApiMethod::Restart,
            RpcCall::GetProcessInfo { .. } => ApiMethod::GetProcessInfo,
            RpcCall::GetAllProcessInfo  => ApiMethod::GetAllProcessInfo,
            RpcCall::GetAllConfigInfo  => ApiMethod::GetAllConfigInfo,
            RpcCall::StartProcess { .. } => ApiMethod::StartProcess,
            RpcCall::StartAllProcesses { .. } => ApiMethod::StartAllProcesses,
            RpcCall::StartProcessGroup { .. } => ApiMethod::StartProcessGroup,
            RpcCall::StopProcess { .. } => ApiMethod::StopProcess,
            RpcCall::StopAllProcesses { .. } => ApiMethod::StopAllProcesses,
            RpcCall::StopProcessGroup { .. } => ApiMethod::StopProcessGroup,
            RpcCall::SignalProcess { .. } => ApiMethod::SignalProcess,
            RpcCall::SignalProcessGroup { .. } => ApiMethod::SignalProcessGroup,
            RpcCall::SignalAllProcesses { .. } => ApiMethod::SignalAllProcesses,
            RpcCall::SendProcessStdin { .. } => ApiMethod::SendProcessStdin,
            RpcCall::SendRemoteCommEvent { .. } => ApiMethod::SendRemoteCommEvent,
            RpcCall::ReloadConfig  => ApiMethod::ReloadConfig,
            RpcCall::AddProcessGroup { .. } => ApiMethod::AddProcessGroup,
            RpcCall::RemoveProcessGroup { .. } => ApiMethod::RemoveProcessGroup,
            RpcCall::ReadProcessLog { .. } => ApiMethod::ReadProcessLog,
            RpcCall::ReadProcessStdoutLog { .. } => ApiMethod::ReadProcessStdoutLog,
            RpcCall::ReadProcessStderrLog { .. } => ApiMethod::ReadProcessStderrLog,
            RpcCall::TailProcessStdoutLog { .. } => ApiMethod::TailProcessStdoutLog,
            RpcCall::TailProcessStderrLog { .. } => ApiMethod::TailProcessStderrLog,
            RpcCall::ClearProcessLogs { .. } => ApiMethod::ClearProcessLogs,
            RpcCall::ClearAllProcessLogs  => ApiMethod::ClearAllProcessLogs,
        }
    }

    /// The request parameters that carry the call's arguments.
    pub open spec fn params(self) -> RequestParams {
        match self {
            RpcCall::GetApiVersion  => RequestParams::Empty {},
            RpcCall::GetSupervisorVersion  => RequestParams::Empty {},
            RpcCall::GetIdentification  => RequestParams::Empty {},
            RpcCall::GetState  => RequestParams::Empty {},
            RpcCall::GetPid  => RequestParams::Empty {},
            RpcCall::ReadLog { offset, length } => RequestParams::I32I32 { a: offset, b: length },
            RpcCall::ClearLog  => RequestParams::Empty {},
            RpcCall::Shutdown  => RequestParams::Empty {},
            RpcCall::Restart  => RequestParams::Empty {},
            RpcCall::GetProcessInfo { name } => RequestParams::String { a: name },
            RpcCall::GetAllProcessInfo  => RequestParams::Empty {},
            RpcCall::GetAllConfigInfo  => RequestParams::Empty {},
            RpcCall::StartProcess { name, wait } => RequestParams::StringBool { a: name, b: wait },
            RpcCall::StartAllProcesses { wait } => RequestParams::Bool { a: wait },
            RpcCall::StartProcessGroup { name, wait } => RequestParams::StringBool { a: name, b: wait },
            RpcCall::StopProcess { name, wait } => RequestParams::StringBool { a: name, b: wait },
            RpcCall::StopAllProcesses { wait } => RequestParams::Bool { a: wait },
            RpcCall::StopProcessGroup { name, wait } => RequestParams::StringBool { a: name, b: wait },
            RpcCall::SignalProcess { name, signal } => RequestParams::StringString { a: name, b: signal },
            RpcCall::SignalProcessGroup { name, signal } => RequestParams::StringString { a: name, b: signal },
            RpcCall::SignalAllProcesses { signal } => RequestParams::String { a: signal },
            RpcCall::SendProcessStdin { name, chars } => RequestParams::StringString { a: name, b: chars },
            RpcCall::SendRemoteCommEvent { kind, data } => RequestParams::StringString { a: kind, b: data },
            RpcCall::ReloadConfig  => RequestParams::Empty {},
            RpcCall::AddProcessGroup { name } => RequestParams::String { a: name },
            RpcCall::RemoveProcessGroup { name } => RequestParams::String { a: name },
            RpcCall::ReadProcessLog { name, offset, length } => RequestParams::StringI32I32 { a: name, b: offset, c: length },
            RpcCall::ReadProcessStdoutLog { name, offset, length } => RequestParams::StringI32I32 { a: name, b: offset, c: length },
            RpcCall::ReadProcessStderrLog { name, offset, length } => RequestParams::StringI32I32 { a: name, b: offset, c: length },
            RpcCall::TailProcessStdoutLog { name, offset, length } => RequestParams::StringI32I32 { a: name, b: offset, c: length },
            RpcCall::TailProcessStderrLog { name, offset, length } => RequestParams::StringI32I32 { a: name, b: offset, c: length },
            RpcCall::ClearProcessLogs { name } => RequestParams::String { a: name },
            RpcCall::ClearAllProcessLogs  => RequestParams::Empty {},
        }
    }
}

/// The call that a request for `method` with `params` makes: the parameters
/// must have the shape that the method takes, or the request is refused as a
/// bad request.
pub fn plan_call(method: ApiMethod, params: RequestParams) -> (r: Result<RpcCall, String>)
    ensures
        r is Ok <==> params.shape() == method.spec_shape(),
        r matches Ok(c) ==> c.method() == method && c.params() == params,
        r matches Err(e) ==> e@ == bad_request_message(),
{
    match method {
        ApiMethod::GetApiVersion => match params.is_empty() {
            Ok(()) => Ok(RpcCall::GetApiVersion),
            Err(e) => Err(e),
        },
        ApiMethod::GetSupervisorVersion => match params.is_empty() {
            Ok(()) => Ok(RpcCall::GetSupervisorVersion),
            Err(e) => Err(e),
        },
        ApiMethod::GetIdentification => match params.is_empty() {
            Ok(()) => Ok(RpcCall::GetIdentification),
            Err(e) => Err(e),
        },
        ApiMethod::GetState => match params.is_empty() {
            Ok(()) => Ok(RpcCall::GetState),
            Err(e) => Err(e),
        },
        ApiMethod::GetPid => match params.is_empty() {
            Ok(()) => Ok(RpcCall::GetPid),
            Err(e) => Err(e),
        },
        ApiMethod::ReadLog => match params.to_i32_i32() {
            Ok(v) => Ok(RpcCall::ReadLog { offset: v.0, length: v.1 }),
            Err(e) => Err(e),
        },
        ApiMethod::ClearLog => match params.is_empty() {
            Ok(()) => Ok(RpcCall::ClearLog),
            Err(e) => Err(e),
        },
        ApiMethod::Shutdown => match params.is_empty() {
            Ok(()) => Ok(RpcCall::Shutdown),
            Err(e) => Err(e),
        },
        ApiMethod::Restart => match params.is_empty() {
            Ok(()) => Ok(RpcCall::Restart),
            Err(e) => Err(e),
        },
        ApiMethod::GetProcessInfo => match params.to_string() {
            Ok(v) => Ok(RpcCall::GetProcessInfo { name: v }),
            Err(e) => Err(e),
        },
        ApiMethod::GetAllProcessInfo => match params.is_empty() {
            Ok(()) => Ok(RpcCall::GetAllProcessInfo),
            Err(e) => Err(e),
        },
        ApiMethod::GetAllConfigInfo => match params.is_empty() {
            Ok(()) => Ok(RpcCall::GetAllConfigInfo),
            Err(e) => Err(e),
        },
        ApiMethod::StartProcess => match params.to_string_bool() {
            Ok(v) => Ok(RpcCall::StartProcess { name: v.0, wait: v.1 }),
            Err(e) => Err(e),
        },
        ApiMethod::StartAllProcesses => match params.to_bool() {
            Ok(v) => Ok(RpcCall::StartAllProcesses { wait: v }),
            Err(e) => Err(e),
        },
        ApiMethod::StartProcessGroup => match params.to_string_bool() {
            Ok(v) => Ok(RpcCall::StartProcessGroup { name: v.0, wait: v.1 }),
            Err(e) => Err(e),
        },
        ApiMethod::StopProcess => match params.to_string_bool() {
            Ok(v) => Ok(RpcCall::StopProcess { name: v.0, wait: v.1 }),
            Err(e) => Err(e),
        },
        ApiMethod::StopAllProcesses => match params.to_bool() {
            Ok(v) => Ok(RpcCall::StopAllProcesses { wait: v }),
            Err(e) => Err(e),
        },
        ApiMethod::StopProcessGroup => match params.to_string_bool() {
            Ok(v) => Ok(RpcCall::StopProcessGroup { name: v.0, wait: v.1 }),
            Err(e) => Err(e),
        },
        ApiMethod::SignalProcess => match params.to_string_string() {
            Ok(v) => Ok(RpcCall::SignalProcess { name: v.0, signal: v.1 }),
            Err(e) => Err(e),
        },
        ApiMethod::SignalProcessGroup => match params.to_string_string() {
            Ok(v) => Ok(RpcCall::SignalProcessGroup { name: v.0, signal: v.1 }),
            Err(e) => Err(e),
        },
        ApiMethod::SignalAllProcesses => match params.to_string() {
            Ok(v) => Ok(RpcCall::SignalAllProcesses { signal: v }),
            Err(e) => Err(e),
        },
        ApiMethod::SendProcessStdin => match params.to_string_string() {
            Ok(v) => Ok(RpcCall::SendProcessStdin { name: v.0, chars: v.1 }),
            Err(e) => Err(e),
        },
        ApiMethod::SendRemoteCommEvent => match params.to_string_string() {
            Ok(v) => Ok(RpcCall::SendRemoteCommEvent { kind: v.0, data: v.1 }),
            Err(e) => Err(e),
        },
        ApiMethod::ReloadConfig => match params.is_empty() {
            Ok(()) => Ok(RpcCall::ReloadConfig),
            Err(e) => Err(e),
        },
        ApiMethod::AddProcessGroup => match params.to_string() {
            Ok(v) => Ok(RpcCall::AddProcessGroup { name: v }),
            Err(e) => Err(e),
        },
        ApiMethod::RemoveProcessGroup => match params.to_string() {
            Ok(v) => Ok(RpcCall::RemoveProcessGroup { name: v }),
            Err(e) => Err(e),
        },
        ApiMethod::ReadProcessLog => match params.to_string_i32_i32() {
            Ok(v) => Ok(RpcCall::ReadProcessLog { name: v.0, offset: v.1, length: v.2 }),
            Err(e) => Err(e),
        },
        ApiMethod::ReadProcessStdoutLog => match params.to_string_i32_i32() {
            Ok(v) => Ok(RpcCall::ReadProcessStdoutLog { name: v.0, offset: v.1, length: v.2 }),
            Err(e) => Err(e),
        },
        ApiMethod::ReadProcessStderrLog => match params.to_string_i32_i32() {
            Ok(v) => Ok(RpcCall::ReadProcessStderrLog { name: v.0, offset: v.1, length: v.2 }),
            Err(e) => Err(e),
        },
        ApiMethod::TailProcessStdoutLog => match params.to_string_i32_i32() {
            Ok(v) => Ok(RpcCall::TailProcessStdoutLog { name: v.0, offset: v.1, length: v.2 }),
            Err(e) => Err(e),
        },
        ApiMethod::TailProcessStderrLog => match params.to_string_i32_i32() {
            Ok(v) => Ok(RpcCall::TailProcessStderrLog { name: v.0, offset: v.1, length: v.2 }),
            Err(e) => Err(e),
        },
        ApiMethod::ClearProcessLogs => match params.to_string() {
            Ok(v) => Ok(RpcCall::ClearProcessLogs { name: v }),
            Err(e) => Err(e),
        },
        ApiMethod::ClearAllProcessLogs => match params.is_empty() {
            Ok(()) => Ok(RpcCall::ClearAllProcessLogs),
            Err(e) => Err(e),
        },
    }
}

/// A few features of a name that tell the exposed names apart: its length and
/// two of its characters.
spec fn name_key(name: Seq<char>) -> (int, char, char) {
    (name.len() as int, name[2], if name.len() > 14 { name[14] } else { ' ' })
}

/// The method whose name has the features `k`.
spec fn method_with_key(k: (int, char, char)) -> ApiMethod {
    if k == (13int, 't', ' ') {
        ApiMethod::GetApiVersion
    } else if k == (20int, 't', 'e') {
        ApiMethod::GetSupervisorVersion
    } else if k == (17int, 't', 'i') {
        ApiMethod::GetIdentification
    } else if k == (8int, 't', ' ') {
        ApiMethod::GetState
    } else if k == (6int, 't', ' ') {
        ApiMethod::GetPid
    } else if k == (7int, 'a', ' ') {
        ApiMethod::ReadLog
    } else if k == (8int, 'e', ' ') {
        ApiMethod::ClearLog
    } else if k == (8int, 'u', ' ') {
        ApiMethod::Shutdown
    } else if k == (7int, 's', ' ') {
        ApiMethod::Restart
    } else if k == (14int, 't', ' ') {
        ApiMethod::GetProcessInfo
    } else if k == (17int, 't', 'n') {
        ApiMethod::GetAllProcessInfo
    } else if k == (16int, 't', 'f') {
        ApiMethod::GetAllConfigInfo
    } else if k == (12int, 'a', ' ') {
        ApiMethod::StartProcess
    } else if k == (17int, 'a', 's') {
        ApiMethod::StartAllProcesses
    } else if k == (17int, 'a', 'o') {
        ApiMethod::StartProcessGroup
    } else if k == (11int, 'o', ' ') {
        ApiMethod::StopProcess
    } else if k == (16int, 'o', 'e') {
        ApiMethod::StopAllProcesses
    } else if k == (16int, 'o', 'u') {
        ApiMethod::StopProcessGroup
    } else if k == (13int, 'g', ' ') {
        ApiMethod::SignalProcess
    } else if k == (18int, 'g', 'r') {
        ApiMethod::SignalProcessGroup
    } else if k == (18int, 'g', 's') {
        ApiMethod::SignalAllProcesses
    } else if k == (16int, 'n', 'i') {
        ApiMethod::SendProcessStdin
    } else if k == (19int, 'n', 'e') {
        ApiMethod::SendRemoteCommEvent
    } else if k == (12int, 'l', ' ') {
        ApiMethod::ReloadConfig
    } else if k == (15int, 'd', 'p') {
        ApiMethod::AddProcessGroup
    } else if k == (18int, 'm', 'r') {
        ApiMethod::RemoveProcessGroup
    } else if k == (14int, 'a', ' ') {
        ApiMethod::ReadProcessLog
    } else if k == (20int, 'a', 'o') {
        ApiMethod::ReadProcessStdoutLog
    } else if k == (20int, 'a', 'e') {
        ApiMethod::ReadProcessStderrLog
    } else if k == (20int, 'i', 'o') {
        ApiMethod::TailProcessStdoutLog
    } else if k == (20int, 'i', 'e') {
        ApiMethod::TailProcessStderrLog
    } else if k == (16int, 'e', 'g') {
        ApiMethod::ClearProcessLogs
    } else if k == (19int, 'e', 's') {
        ApiMethod::ClearAllProcessLogs
    } else {
        ApiMethod::GetApiVersion
    }
}

/// The features of a method's name identify the method.
proof fn lemma_key_identifies(m: ApiMethod)
    ensures
        method_with_key(name_key(m.spec_name())) == m,
{
    match m {
        ApiMethod::GetApiVersion => { reveal_strlit("getapiversion"); },
        ApiMethod::GetSupervisorVersion => { reveal_strlit("getsupervisorversion"); },
        ApiMethod::GetIdentification => { reveal_strlit("getidentification"); },
        ApiMethod::GetState => { reveal_strlit("getstate"); },
        ApiMethod::GetPid => { reveal_strlit("getpid"); },
        ApiMethod::ReadLog => { reveal_strlit("readlog"); },
        ApiMethod::ClearLog => { reveal_strlit("clearlog"); },
        ApiMethod::Shutdown => { reveal_strlit("shutdown"); },
        ApiMethod::Restart => { reveal_strlit("restart"); },
        ApiMethod::GetProcessInfo => { reveal_strlit("getprocessinfo"); },
        ApiMethod::GetAllProcessInfo => { reveal_strlit("getallprocessinfo"); },
        ApiMethod::GetAllConfigInfo => { reveal_strlit("getallconfiginfo"); },
        ApiMethod::StartProcess => { reveal_strlit("startprocess"); },
        ApiMethod::StartAllProcesses => { reveal_strlit("startallprocesses"); },
        ApiMethod::StartProcessGroup => { reveal_strlit("startprocessgroup"); },
        ApiMethod::StopProcess => { reveal_strlit("stopprocess"); },
        ApiMethod::StopAllProcesses => { reveal_strlit("stopallprocesses"); },
        ApiMethod::StopProcessGroup => { reveal_strlit("stopprocessgroup"); },
        ApiMethod::SignalProcess => { reveal_strlit("signalprocess"); },
        ApiMethod::SignalProcessGroup => { reveal_strlit("signalprocessgroup"); },
        ApiMethod::SignalAllProcesses => { reveal_strlit("signalallprocesses"); },
        ApiMethod::SendProcessStdin => { reveal_strlit("sendprocessstdin"); },
        ApiMethod::SendRemoteCommEvent => { reveal_strlit("sendremotecommevent"); },
        ApiMethod::ReloadConfig => { reveal_strlit("reloadconfig"); },
        ApiMethod::AddProcessGroup => { reveal_strlit("addprocessgroup"); },
        ApiMethod::RemoveProcessGroup => { reveal_strlit("removeprocessgroup"); },
        ApiMethod::ReadProcessLog => { reveal_strlit("readprocesslog"); },
        ApiMethod::ReadProcessStdoutLog => { reveal_strlit("readprocessstdoutlog"); },
        ApiMethod::ReadProcessStderrLog => { reveal_strlit("readprocessstderrlog"); },
        ApiMethod::TailProcessStdoutLog => { reveal_strlit("tailprocessstdoutlog"); },
        ApiMethod::TailProcessStderrLog => { reveal_strlit("tailprocessstderrlog"); },
        ApiMethod::ClearProcessLogs => { reveal_strlit("clearprocesslogs"); },
        ApiMethod::ClearAllProcessLogs => { reveal_strlit("clearallprocesslogs"); },
    }
}

/// Two methods exposed under one name are the same method.
pub proof fn lemma_method_names_distinct(a: ApiMethod, b: ApiMethod)
    requires
        a.spec_name() == b.spec_name(),
    ensures
        a == b,
{
    lemma_key_identifies(a);
    lemma_key_identifies(b);
}

/// Each method is the one exposed under its name.
pub proof fn lemma_method_named(m: ApiMethod)
    ensures
        method_named(m.spec_name()) == Some(m),
{
    let c = choose|x: ApiMethod| x.spec_name() == m.spec_name();
    lemma_method_names_distinct(c, m);
}

/// The names of the methods are written in small ASCII letters only.
pub proof fn lemma_method_names_ascii_lower(m: ApiMethod)
    ensures
        forall|i: int| 0 <= i < m.spec_name().len() ==> 'a' <= #[trigger] m.spec_name()[i] <= 'z',
{
    match m {
        ApiMethod::GetApiVersion => {
            reveal_strlit("getapiversion");
        },
        ApiMethod::GetSupervisorVersion => {
            reveal_strlit("getsupervisorversion");
        },
        ApiMethod::GetIdentification => {
            reveal_strlit("getidentification");
        },
        ApiMethod::GetState => {
            reveal_strlit("getstate");
        },
        ApiMethod::GetPid => {
            reveal_strlit("getpid");
        },
        ApiMethod::ReadLog => {
            reveal_strlit("readlog");
        },
        ApiMethod::ClearLog => {
            reveal_strlit("clearlog");
        },
        ApiMethod::Shutdown => {
            reveal_strlit("shutdown");
        },
        ApiMethod::Restart => {
            reveal_strlit("restart");
        },
        ApiMethod::GetProcessInfo => {
            reveal_strlit("getprocessinfo");
        },
        ApiMethod::GetAllProcessInfo => {
            reveal_strlit("getallprocessinfo");
        },
        ApiMethod::GetAllConfigInfo => {
            reveal_strlit("getallconfiginfo");
        },
        ApiMethod::StartProcess => {
            reveal_strlit("startprocess");
        },
        ApiMethod::StartAllProcesses => {
            reveal_strlit("startallprocesses");
        },
        ApiMethod::StartProcessGroup => {
            reveal_strlit("startprocessgroup");
        },
        ApiMethod::StopProcess => {
            reveal_strlit("stopprocess");
        },
        ApiMethod::StopAllProcesses => {
            reveal_strlit("stopallprocesses");
        },
        ApiMethod::StopProcessGroup => {
            reveal_strlit("stopprocessgroup");
        },
        ApiMethod::SignalProcess => {
            reveal_strlit("signalprocess");
        },
        ApiMethod::SignalProcessGroup => {
            reveal_strlit("signalprocessgroup");
        },
        ApiMethod::SignalAllProcesses => {
            reveal_strlit("signalallprocesses");
        },
        ApiMethod::SendProcessStdin => {
            reveal_strlit("sendprocessstdin");
        },
        ApiMethod::SendRemoteCommEvent => {
            reveal_strlit("sendremotecommevent");
        },
        ApiMethod::ReloadConfig => {
            reveal_strlit("reloadconfig");
        },
        ApiMethod::AddProcessGroup => {
            reveal_strlit("addprocessgroup");
        },
        ApiMethod::RemoveProcessGroup => {
            reveal_strlit("removeprocessgroup");
        },
        ApiMethod::ReadProcessLog => {
            reveal_strlit("readprocesslog");
        },
        ApiMethod::ReadProcessStdoutLog => {
            reveal_strlit("readprocessstdoutlog");
        },
        ApiMethod::ReadProcessStderrLog => {
            reveal_strlit("readprocessstderrlog");
        },
        ApiMethod::TailProcessStdoutLog => {
            reveal_strlit("tailprocessstdoutlog");
        },
        ApiMethod::TailProcessStderrLog => {
            reveal_strlit("tailprocessstderrlog");
        },
        ApiMethod::ClearProcessLogs => {
            reveal_strlit("clearprocesslogs");
        },
        ApiMethod::ClearAllProcessLogs => {
            reveal_strlit("clearallprocesslogs");
        },
    }
}

/// The exposed name of each method is the supervisor method's name in lower
/// case.
pub proof fn lemma_method_names_fixed()
    ensures
        ApiMethod::GetApiVersion.spec_name() == "getapiversion"@,
        ApiMethod::GetSupervisorVersion.spec_name() == "getsupervisorversion"@,
        ApiMethod::GetIdentification.spec_name() == "getidentification"@,
        ApiMethod::GetState.spec_name() == "getstate"@,
        ApiMethod::GetPid.spec_name() == "getpid"@,
        ApiMethod::ReadLog.spec_name() == "readlog"@,
        ApiMethod::ClearLog.spec_name() == "clearlog"@,
        ApiMethod::Shutdown.spec_name() == "shutdown"@,
        ApiMethod::Restart.spec_name() == "restart"@,
        ApiMethod::GetProcessInfo.spec_name() == "getprocessinfo"@,
        ApiMethod::GetAllProcessInfo.spec_name() == "getallprocessinfo"@,
        ApiMethod::GetAllConfigInfo.spec_name() == "getallconfiginfo"@,
        ApiMethod::StartProcess.spec_name() == "startprocess"@,
        ApiMethod::StartAllProcesses.spec_name() == "startallprocesses"@,
        ApiMethod::StartProcessGroup.spec_name() == "startprocessgroup"@,
        ApiMethod::StopProcess.spec_name() == "stopprocess"@,
        ApiMethod::StopAllProcesses.spec_name() == "stopallprocesses"@,
        ApiMethod::StopProcessGroup.spec_name() == "stopprocessgroup"@,
        ApiMethod::SignalProcess.spec_name() == "signalprocess"@,
        ApiMethod::SignalProcessGroup.spec_name() == "signalprocessgroup"@,
        ApiMethod::SignalAllProcesses.spec_name() == "signalallprocesses"@,
        ApiMethod::SendProcessStdin.spec_name() == "sendprocessstdin"@,
        ApiMethod::SendRemoteCommEvent.spec_name() == "sendremotecommevent"@,
        ApiMethod::ReloadConfig.spec_name() == "reloadconfig"@,
        ApiMethod::AddProcessGroup.spec_name() == "addprocessgroup"@,
        ApiMethod::RemoveProcessGroup.spec_name() == "removeprocessgroup"@,
        ApiMethod::ReadProcessLog.spec_name() == "readprocesslog"@,
        ApiMethod::ReadProcessStdoutLog.spec_name() == "readprocessstdoutlog"@,
        ApiMethod::ReadProcessStderrLog.spec_name() == "readprocessstderrlog"@,
        ApiMethod::TailProcessStdoutLog.spec_name() == "tailprocessstdoutlog"@,
        ApiMethod::TailProcessStderrLog.spec_name() == "tailprocessstderrlog"@,
        ApiMethod::ClearProcessLogs.spec_name() == "clearprocesslogs"@,
        ApiMethod::ClearAllProcessLogs.spec_name() == "clearallprocesslogs"@,
{
}

/// The parameters that each method takes: as many, and of the kinds, as the
/// supervisor method has arguments.
pub proof fn lemma_method_shapes()
    ensures
        ApiMethod::GetApiVersion.spec_shape() == ParamShape::Nothing,
        ApiMethod::GetSupervisorVersion.spec_shape() == ParamShape::Nothing,
        ApiMethod::GetIdentification.spec_shape() == ParamShape::Nothing,
        ApiMethod::GetState.spec_shape() == ParamShape::Nothing,
        ApiMethod::GetPid.spec_shape() == ParamShape::Nothing,
        ApiMethod::ReadLog.spec_shape() == ParamShape::I32I32,
        ApiMethod::ClearLog.spec_shape() == ParamShape::Nothing,
        ApiMethod::Shutdown.spec_shape() == ParamShape::Nothing,
        ApiMethod::Restart.spec_shape() == ParamShape::Nothing,
        ApiMethod::GetProcessInfo.spec_shape() == ParamShape::Text,
        ApiMethod::GetAllProcessInfo.spec_shape() == ParamShape::Nothing,
        ApiMethod::GetAllConfigInfo.spec_shape() == ParamShape::Nothing,
        ApiMethod::StartProcess.spec_shape() == ParamShape::StringBool,
        ApiMethod::StartAllProcesses.spec_shape() == ParamShape::Flag,
        ApiMethod::StartProcessGroup.spec_shape() == ParamShape::StringBool,
        ApiMethod::StopProcess.spec_shape() == ParamShape::StringBool,
        ApiMethod::StopAllProcesses.spec_shape() == ParamShape::Flag,
        ApiMethod::StopProcessGroup.spec_shape() == ParamShape::StringBool,
        ApiMethod::SignalProcess.spec_shape() == ParamShape::StringString,
        ApiMethod::SignalProcessGroup.spec_shape() == ParamShape::StringString,
        ApiMethod::SignalAllProcesses.spec_shape() == ParamShape::Text,
        ApiMethod::SendProcessStdin.spec_shape() == ParamShape::StringString,
        ApiMethod::SendRemoteCommEvent.spec_shape() == ParamShape::StringString,
        ApiMethod::ReloadConfig.spec_shape() == ParamShape::Nothing,
        ApiMethod::AddProcessGroup.spec_shape() == ParamShape::Text,
        ApiMethod::RemoveProcessGroup.spec_shape() == ParamShape::Text,
        ApiMethod::ReadProcessLog.spec_shape() == ParamShape::StringI32I32,
        ApiMethod::ReadProcessStdoutLog.spec_shape() == ParamShape::StringI32I32,
        ApiMethod::ReadProcessStderrLog.spec_shape() == ParamShape::StringI32I32,
        ApiMethod::TailProcessStdoutLog.spec_shape() == ParamShape::StringI32I32,
        ApiMethod::TailProcessStderrLog.spec_shape() == ParamShape::StringI32I32,
        ApiMethod::ClearProcessLogs.spec_shape() == ParamShape::Text,
        ApiMethod::ClearAllProcessLogs.spec_shape() == ParamShape::Nothing,
{
}

/// A call planned for `m` from the request parameters `p` (what `plan_call`
/// returns on success) passes the request's fields to the supervisor method in
/// order: the first field as the first argument, the second as the second, and
/// so on; a method without arguments takes an empty request.
pub proof fn lemma_planned_call_arguments(m: ApiMethod, p: RequestParams, c: RpcCall)
    requires
        c.method() == m,
        c.params() == p,
    ensures
        m == ApiMethod::GetApiVersion ==> p == (RequestParams::Empty {}) && c == RpcCall::GetApiVersion,
        m == ApiMethod::GetSupervisorVersion ==> p == (RequestParams::Empty {}) && c == RpcCall::GetSupervisorVersion,
        m == ApiMethod::GetIdentification ==> p == (RequestParams::Empty {}) && c == RpcCall::GetIdentification,
        m == ApiMethod::GetState ==> p == (RequestParams::Empty {}) && c == RpcCall::GetState,
        m == ApiMethod::GetPid ==> p == (RequestParams::Empty {}) && c == RpcCall::GetPid,
        m == ApiMethod::ReadLog ==> (p matches RequestParams::I32I32 { a: x, b: y } && c == (RpcCall::ReadLog { offset: x, length: y })),
        m == ApiMethod::ClearLog ==> p == (RequestParams::Empty {}) && c == RpcCall::ClearLog,
        m == ApiMethod::Shutdown ==> p == (RequestParams::Empty {}) && c == RpcCall::Shutdown,
        m == ApiMethod::Restart ==> p == (RequestParams::Empty {}) && c == RpcCall::Restart,
        m == ApiMethod::GetProcessInfo ==> (p matches RequestParams::String { a: x } && c == (RpcCall::GetProcessInfo { name: x })),
        m == ApiMethod::GetAllProcessInfo ==> p == (RequestParams::Empty {}) && c == RpcCall::GetAllProcessInfo,
        m == ApiMethod::GetAllConfigInfo ==> p == (RequestParams::Empty {}) && c == RpcCall::GetAllConfigInfo,
        m == ApiMethod::StartProcess ==> (p matches RequestParams::StringBool { a: x, b: y } && c == (RpcCall::StartProcess { name: x, wait: y })),
        m == ApiMethod::StartAllProcesses ==> (p matches RequestParams::Bool { a: x } && c == (RpcCall::StartAllProcesses { wait: x })),
        m == ApiMethod::StartProcessGroup ==> (p matches RequestParams::StringBool { a: x, b: y } && c == (RpcCall::StartProcessGroup { name: x, wait: y })),
        m == ApiMethod::StopProcess ==> (p matches RequestParams::StringBool { a: x, b: y } && c == (RpcCall::StopProcess { name: x, wait: y })),
        m == ApiMethod::StopAllProcesses ==> (p matches RequestParams::Bool { a: x } && c == (RpcCall::StopAllProcesses { wait: x })),
        m == ApiMethod::StopProcessGroup ==> (p matches RequestParams::StringBool { a: x, b: y } && c == (RpcCall::StopProcessGroup { name: x, wait: y })),
        m == ApiMethod::SignalProcess ==> (p matches RequestParams::StringString { a: x, b: y } && c == (RpcCall::SignalProcess { name: x, signal: y })),
        m == ApiMethod::SignalProcessGroup ==> (p matches RequestParams::StringString { a: x, b: y } && c == (RpcCall::SignalProcessGroup { name: x, signal: y })),
        m == ApiMethod::SignalAllProcesses ==> (p matches RequestParams::String { a: x } && c == (RpcCall::SignalAllProcesses { signal: x })),
        m == ApiMethod::SendProcessStdin ==> (p matches RequestParams::StringString { a: x, b: y } && c == (RpcCall::SendProcessStdin { name: x, chars: y })),
        m == ApiMethod::SendRemoteCommEvent ==> (p matches RequestParams::StringString { a: x, b: y } && c == (RpcCall::SendRemoteCommEvent { kind: x, data: y })),
        m == ApiMethod::ReloadConfig ==> p == (RequestParams::Empty {}) && c == RpcCall::ReloadConfig,
        m == ApiMethod::AddProcessGroup ==> (p matches RequestParams::String { a: x } && c == (RpcCall::AddProcessGroup { name: x })),
        m == ApiMethod::RemoveProcessGroup ==> (p matches RequestParams::String { a: x } && c == (RpcCall::RemoveProcessGroup { name: x })),
        m == ApiMethod::ReadProcessLog ==> (p matches RequestParams::StringI32I32 { a: x, b: y, c: z } && c == (RpcCall::ReadProcessLog { name: x, offset: y, length: z })),
        m == ApiMethod::ReadProcessStdoutLog ==> (p matches RequestParams::StringI32I32 { a: x, b: y, c: z } && c == (RpcCall::ReadProcessStdoutLog { name: x, offset: y, length: z })),
        m == ApiMethod::ReadProcessStderrLog ==> (p matches RequestParams::StringI32I32 { a: x, b: y, c: z } && c == (RpcCall::ReadProcessStderrLog { name: x, offset: y, length: z })),
        m == ApiMethod::TailProcessStdoutLog ==> (p matches RequestParams::StringI32I32 { a: x, b: y, c: z } && c == (RpcCall::TailProcessStdoutLog { name: x, offset: y, length: z })),
        m == ApiMethod::TailProcessStderrLog ==> (p matches RequestParams::StringI32I32 { a: x, b: y, c: z } && c == (RpcCall::TailProcessStderrLog { name: x, offset: y, length: z })),
        m == ApiMethod::ClearProcessLogs ==> (p matches RequestParams::String { a: x } && c == (RpcCall::ClearProcessLogs { name: x })),
        m == ApiMethod::ClearAllProcessLogs ==> p == (RequestParams::Empty {}) && c == RpcCall::ClearAllProcessLogs,
{
}

} // verus!
