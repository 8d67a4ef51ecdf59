//! Which operation of the prompting service a request path names, and what
//! is answered to a path that names none.

use vstd::prelude::*;
use crate::text::same_text;

verus! {

/// The operations of the prompting service.
#[derive(Clone, Copy, Debug, PartialEq, Eq, Structural, Hash)]
pub enum Method {
    GetCurrentPrompt,
    ReplyToPrompt,
    ResolveHomePatternType,
    SetLoggingLevel,
}

/// The name under which the service is registered.
pub fn service_name() -> (name: &'static str)
    ensures
        name@ == "apparmor_prompting.AppArmorPrompting"@,
{
    "apparmor_prompting.AppArmorPrompting"
}

impl Method {
    /// The request path of the operation.
    pub open spec fn path_of(self) -> Seq<char> {
        match self {
            Method::GetCurrentPrompt => "/apparmor_prompting.AppArmorPrompting/GetCurrentPrompt"@,
            Method::ReplyToPrompt => "/apparmor_prompting.AppArmorPrompting/ReplyToPrompt"@,
            Method::ResolveHomePatternType => "/apparmor_prompting.AppArmorPrompting/ResolveHomePatternType"@,
            Method::SetLoggingLevel => "/apparmor_prompting.AppArmorPrompting/SetLoggingLevel"@,
        }
    }

    /// The name of the operation within the service.
    pub open spec fn name_of(self) -> Seq<char> {
        match self {
            Method::GetCurrentPrompt => "GetCurrentPrompt"@,
            Method::ReplyToPrompt => "ReplyToPrompt"@,
            Method::ResolveHomePatternType => "ResolveHomePatternType"@,
            Method::SetLoggingLevel => "SetLoggingLevel"@,
        }
    }

    /// The operation that a request path names, if any.
    pub open spec fn with_path(path: Seq<char>) -> Option<Method> {
        if path == Method::GetCurrentPrompt.path_of() {
            Some(Method::GetCurrentPrompt)
        } else if path == Method::ReplyToPrompt.path_of() {
            Some(Method::ReplyToPrompt)
        } else if path == Method::ResolveHomePatternType.path_of() {
            Some(Method::ResolveHomePatternType)
        } else if path == Method::SetLoggingLevel.path_of() {
            Some(Method::SetLoggingLevel)
        } else {
            None
        }
    }

    /// The request path of the operation.
    pub fn path(&self) -> (path: &'static str)
        ensures
            path@ == self.path_of(),
    {
        match self {
            Method::GetCurrentPrompt => "/apparmor_prompting.AppArmorPrompting/GetCurrentPrompt",
            Method::ReplyToPrompt => "/apparmor_prompting.AppArmorPrompting/ReplyToPrompt",
            Method::ResolveHomePatternType => "/apparmor_prompting.AppArmorPrompting/ResolveHomePatternType",
            Method::SetLoggingLevel => "/apparmor_prompting.AppArmorPrompting/SetLoggingLevel",
        }
    }

    /// The name of the operation within the service.
    pub fn name(&self) -> (name: &'static str)
        ensures
            name@ == self.name_of(),
    {
        match self {
            Method::GetCurrentPrompt => "GetCurrentPrompt",
            Method::ReplyToPrompt => "ReplyToPrompt",
            Method::ResolveHomePatternType => "ResolveHomePatternType",
            Method::SetLoggingLevel => "SetLoggingLevel",
        }
    }

    /// The operation that a request path names, if any.
    pub fn from_path(path: &str) -> (method: Option<Method>)
        ensures
            method == Method::with_path(path@),
    {
        if same_text(path, Method::GetCurrentPrompt.path()) {
            Some(Method::GetCurrentPrompt)
        } else if same_text(path, Method::ReplyToPrompt.path()) {
            Some(Method::ReplyToPrompt)
        } else if same_text(path, Method::ResolveHomePatternType.path()) {
            Some(Method::ResolveHomePatternType)
        } else if same_text(path, Method::SetLoggingLevel.path()) {
            Some(Method::SetLoggingLevel)
        } else {
            None
        }
    }

    /// Each operation is the one that its own path names.
    pub proof fn lemma_path_names_method(self)
        ensures
            Method::with_path(self.path_of()) == Some(self),
    {
        reveal_strlit("/apparmor_prompting.AppArmorPrompting/GetCurrentPrompt");
        reveal_strlit("/apparmor_prompting.AppArmorPrompting/ReplyToPrompt");
        reveal_strlit("/apparmor_prompting.AppArmorPrompting/ResolveHomePatternType");
        reveal_strlit("/apparmor_prompting.AppArmorPrompting/SetLoggingLevel");
        assert("/apparmor_prompting.AppArmorPrompting/GetCurrentPrompt"@.len() == 54);
        assert("/apparmor_prompting.AppArmorPrompting/ReplyToPrompt"@.len() == 51);
        assert("/apparmor_prompting.AppArmorPrompting/ResolveHomePatternType"@.len() == 60);
    }
}

/// The gRPC status number that tonic gives to `Code::Unimplemented`.
///
/// Trusted: tonic declares the variant with the discriminant 12, the number
/// that the gRPC protocol assigns to "unimplemented".
#[verifier::external_body]
fn unimplemented_code() -> (code: i32)
    ensures
        code == 12,
{
    tonic::Code::Unimplemented as i32
}

/// The content type of gRPC messages, read from tonic's
/// `metadata::GRPC_CONTENT_TYPE`.
///
/// Trusted: tonic defines the constant as the header value
/// `application/grpc`.
#[verifier::external_body]
fn grpc_content_type() -> (value: String)
    ensures
        value@ == "application/grpc"@,
{
    tonic::metadata::GRPC_CONTENT_TYPE.to_str().unwrap_or_default().to_owned()
}

/// The answer to a request whose path names no operation, for the transport
/// to send.
#[derive(Clone, Debug, PartialEq, Eq)]
pub struct Unimplemented {
    /// The HTTP status of the response.
    pub http_status: u16,
    /// The value of the `grpc-status` header.
    pub grpc_status: i32,
    /// The value of the `content-type` header.
    pub content_type: String,
}

/// Where a request goes.
#[derive(Clone, Debug, PartialEq, Eq)]
pub enum Route {
    /// To the operation that the path names.
    Method(Method),
    /// Nowhere: the path names no operation.
    Unimplemented(Unimplemented),
}

/// Decides where a request with the given path goes. A path that names no
/// operation is answered with HTTP status 200 and the gRPC status
/// "unimplemented".
pub fn route(path: &str) -> (route: Route)
    ensures
        match route {
            Route::Method(method) => Method::with_path(path@) == Some(method),
            Route::Unimplemented(answer) => {
                &&& Method::with_path(path@) is None
                &&& answer.http_status == 200
                &&& answer.grpc_status == 12
                &&& answer.content_type@ == "application/grpc"@
            },
        },
{
    match Method::from_path(path) {
        Some(method) => Route::Method(method),
        None => Route::Unimplemented(
            Unimplemented {
                http_status: 200,
                grpc_status: unimplemented_code(),
                content_type: grpc_content_type(),
            },
        ),
    }
}

} // verus!
