//! Loading modules over the resource bridge: how specifiers are made
//! fully qualified, what is asked of the client, and what is made of its
//! answer.

use vstd::prelude::*;
use vstd::string::*;
use vstd::utf8::{encode_utf8, valid_utf8};
use tokio::sync::oneshot::Sender;
use crate::resources::{ResourceRequest, ResourceResponse};

verus! {

/// The reserved prefix that makes a bare specifier a fully qualified URL.
pub open spec fn module_base_url() -> Seq<char> {
    "https://isolator/"@
}

/// The kind under which module sources are asked for.
pub open spec fn module_kind() -> Seq<char> {
    "module"@
}

/// Why a specifier could not be resolved.
#[derive(Debug)]
pub enum ModuleResolutionError {
    /// A relative specifier that starts with neither `/`, `./` nor `../`.
    ImportPrefixMissing,
    /// Any other failure, with its text.
    Other(String),
}

/// What the resolver does after its first attempt at a specifier.
#[derive(Debug)]
pub enum ResolutionStep {
    /// The specifier resolved to this URL.
    Resolved(String),
    /// Resolve this fully qualified specifier instead; its outcome is
    /// final.
    Retry(String),
    /// The specifier cannot be resolved.
    Failed(ModuleResolutionError),
}

/// The specifier with the reserved prefix in front.
pub fn qualify_specifier(specifier: &str) -> (qualified: String)
    ensures
        qualified@ == module_base_url() + specifier@,
{
    let prefix: String = "https://isolator/".to_owned();
    prefix.concat(specifier)
}

/// Decides how the resolution of `specifier` goes on after the first
/// attempt. A URL is taken as it is. A specifier that only lacks an import
/// prefix is tried once more with the reserved prefix in front. Every
/// other failure stands.
pub fn make_module_specifier(
    specifier: &str,
    first_attempt: Result<String, ModuleResolutionError>,
) -> (step: ResolutionStep)
    ensures
        match first_attempt {
            Ok(url) => step == ResolutionStep::Resolved(url),
            Err(ModuleResolutionError::ImportPrefixMissing) => step matches ResolutionStep::Retry(
                qualified,
            ) && qualified@ == module_base_url() + specifier@,
            Err(other) => step == ResolutionStep::Failed(other),
        },
{
    match first_attempt {
        Ok(url) => ResolutionStep::Resolved(url),
        Err(ModuleResolutionError::ImportPrefixMissing) => ResolutionStep::Retry(
            qualify_specifier(specifier),
        ),
        Err(other) => ResolutionStep::Failed(other),
    }
}

/// The source of a module as the engine takes it.
#[derive(Debug)]
pub struct ModuleSource {
    pub code: String,
    pub module_url_specified: String,
    pub module_url_found: String,
}

/// Why a module could not be loaded.
#[derive(Clone, Copy, Debug, PartialEq, Eq, Structural)]
pub enum ModuleLoadError {
    /// The loader has no access to the state of the engine.
    OpStateUnavailable,
    /// The request could not be put on the bridge.
    RequestManagerUnavailable,
    /// The answer held no payload, or one that is not UTF-8.
    Failed,
}

impl ModuleLoadError {
    /// What stands in front of the specifier in the error's text.
    pub open spec fn prefix(self) -> Seq<char> {
        match self {
            ModuleLoadError::OpStateUnavailable => "OpState unavailable to load module: "@,
            ModuleLoadError::RequestManagerUnavailable =>
                "Request Manager unavailable to load module: "@,
            ModuleLoadError::Failed => "Failed to load module: "@,
        }
    }

    /// The text of the error for the module at `specifier`.
    pub fn message(self, specifier: &str) -> (text: String)
        ensures
            text@ == self.prefix() + specifier@,
    {
        let prefix: String = match self {
            ModuleLoadError::OpStateUnavailable => "OpState unavailable to load module: ".to_owned(),
            ModuleLoadError::RequestManagerUnavailable =>
                "Request Manager unavailable to load module: ".to_owned(),
            ModuleLoadError::Failed => "Failed to load module: ".to_owned(),
        };
        prefix.concat(specifier)
    }
}

/// Reads `bytes` as UTF-8 text with `String::from_utf8`: the text whose
/// encoding the bytes are, or nothing where they are no valid UTF-8.
#[verifier::external_body]
pub(crate) fn text_of_utf8(bytes: Vec<u8>) -> (text: Option<String>)
    ensures
        text is Some <==> valid_utf8(bytes@),
        text is Some ==> encode_utf8(text->0@) == bytes@,
{
    String::from_utf8(bytes).ok()
}

/// The request that asks the client for the source of the module at
/// `specifier`: of the module kind, with the specifier as payload, and
/// with a slot for the answer.
pub fn module_request(specifier: &str, response_sender: Sender<ResourceResponse>) -> (request:
    ResourceRequest)
    ensures
        request.kind@ == module_kind(),
        request.payload is Some,
        request.payload->0@ == encode_utf8(specifier@),
        request.response_sender == Some(response_sender),
{
    ResourceRequest {
        response_sender: Some(response_sender),
        kind: "module".to_owned(),
        payload: Some(specifier.as_bytes_vec()),
    }
}

/// Makes the source of the module at `specifier` from the client's
/// answer. The payload has to be there and to be UTF-8; it becomes the
/// code, and the specifier stands for both URLs.
pub fn module_source(specifier: &str, response: ResourceResponse) -> (outcome: Result<
    ModuleSource,
    ModuleLoadError,
>)
    ensures
        match outcome {
            Ok(source) => {
                &&& response.payload is Some
                &&& valid_utf8(response.payload->0@)
                &&& encode_utf8(source.code@) == response.payload->0@
                &&& source.module_url_found@ == specifier@
                &&& source.module_url_specified@ == specifier@
            },
            Err(e) => e == ModuleLoadError::Failed && (response.payload is None || !valid_utf8(
                response.payload->0@,
            )),
        },
{
    if let Some(payload) = response.payload {
        if let Some(code) = text_of_utf8(payload) {
            return Ok(
                ModuleSource {
                    code,
                    module_url_found: specifier.to_owned(),
                    module_url_specified: specifier.to_owned(),
                },
            );
        }
    }
    Err(ModuleLoadError::Failed)
}

} // verus!
