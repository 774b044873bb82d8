//! The registry's transfer-factory endpoint: the request it takes, where it
//! lives, and what its reply means.

use vstd::prelude::*;
use vstd::string::StringExecFns;
use crate::transfer::Transfer;

verus! {

/// Extension point for context handed to the registry; empty in this workflow.
#[derive(Debug)]
pub struct Context {
    pub values: Vec<(String, String)>,
}

/// Extension point for metadata handed to the registry; empty in this workflow.
#[derive(Debug)]
pub struct ExtraMeta {
    pub values: Vec<(String, String)>,
}

/// The extension points that accompany a transfer.
#[derive(Debug)]
pub struct ExtraArgs {
    pub context: Context,
    pub meta: ExtraMeta,
}

/// The arguments of the factory's choice: the transfer and who is expected to
/// administer its instrument.
#[derive(Debug)]
pub struct ChoiceArguments {
    pub expected_admin: String,
    pub transfer: Transfer,
    pub extra_args: ExtraArgs,
}

/// The body posted to the transfer factory.
#[derive(Debug)]
pub struct Request {
    pub choice_arguments: ChoiceArguments,
    pub exclude_debug_fields: bool,
}

impl Request {
    /// Wraps a transfer into the request body for the transfer factory: the
    /// instrument's administrator is the expected admin, and both extension
    /// points are empty.
    pub fn new(transfer: Transfer, exclude_debug_fields: bool) -> (request: Request)
        ensures
            request.choice_arguments.expected_admin == transfer.instrument_id.admin,
            request.choice_arguments.transfer == transfer,
            request.choice_arguments.extra_args.context.values@.len() == 0,
            request.choice_arguments.extra_args.meta.values@.len() == 0,
            request.exclude_debug_fields == exclude_debug_fields,
    {
        let expected_admin = transfer.instrument_id.admin.clone();
        Request {
            choice_arguments: ChoiceArguments {
                expected_admin,
                transfer,
                extra_args: ExtraArgs {
                    context: Context { values: Vec::new() },
                    meta: ExtraMeta { values: Vec::new() },
                },
            },
            exclude_debug_fields,
        }
    }
}

/// Where to post, and what.
#[derive(Debug)]
pub struct Params {
    pub registry_url: String,
    pub decentralized_party_id: String,
    pub request: Request,
}

/// What came back over the wire: the status code and the whole body.
#[derive(Debug)]
pub struct HttpReply {
    pub status: u16,
    pub body: String,
}

/// The registry's answer to an accepted request, as the JSON document it sent.
#[derive(Debug)]
pub struct Response {
    pub document: serde_json::Value,
}

/// Why a submission did not yield a response.
#[derive(Debug)]
pub enum SubmitError {
    /// The request never got an answer.
    Transport { reason: String },
    /// The registry answered with a status outside the success range.
    RegistrySubmission { status: u16, body: String },
    /// The registry answered with success, but the body is no JSON document.
    ResponseDecode { reason: String, body: String },
}

/// `serde_json::Value`, a parsed JSON document. Opaque here: it is carried
/// from the parser to the caller and never looked into.
#[verifier::external_type_specification]
#[verifier::external_body]
pub struct ExJsonValue(serde_json::Value);

/// `serde_json::Error`, the parser's account of why a text is no document.
#[verifier::external_type_specification]
#[verifier::external_body]
pub struct ExJsonError(serde_json::Error);

/// The document that `serde_json::from_str` reads from a text, or `None` where
/// it rejects the text.
pub uninterp spec fn json_document(text: Seq<char>) -> Option<serde_json::Value>;

/// Calls `serde_json::from_str` for a `serde_json::Value`. The parser is a
/// function of the text alone and returns an error rather than panic; the
/// contract names its outcome and claims nothing about which texts it accepts.
#[verifier::external_body]
fn parse_json(text: &str) -> (parsed: Result<serde_json::Value, serde_json::Error>)
    ensures
        match parsed {
            Ok(document) => json_document(text@) == Some(document),
            Err(_) => json_document(text@) is None,
        },
{
    serde_json::from_str::<serde_json::Value>(text)
}

/// Renders a `serde_json::Error` through its `Display` impl. Nothing is
/// claimed of the text.
#[verifier::external_body]
fn describe(error: &serde_json::Error) -> (reason: String) {
    error.to_string()
}

/// The path between the registry's base address and the party.
pub open spec fn registrars_prefix() -> Seq<char> {
    "/api/token-standard/v0/registrars/"@
}

/// The path that follows the party.
pub open spec fn factory_suffix() -> Seq<char> {
    "/registry/transfer-instruction/v1/transfer-factory"@
}

/// The address of the transfer factory of `party` at a registry.
pub open spec fn endpoint_of(registry_url: Seq<char>, party: Seq<char>) -> Seq<char> {
    registry_url + registrars_prefix() + party + factory_suffix()
}

/// Builds the address of the transfer factory of `party` at a registry. Both
/// parts are inserted as they are.
pub fn endpoint(registry_url: &str, party: &str) -> (url: String)
    ensures
        url@ == endpoint_of(registry_url@, party@),
{
    let mut url = String::from_str(registry_url);
    url.append("/api/token-standard/v0/registrars/");
    url.append(party);
    url.append("/registry/transfer-instruction/v1/transfer-factory");
    url
}

impl Params {
    /// The address these parameters post to.
    pub fn url(&self) -> (url: String)
        ensures
            url@ == endpoint_of(self.registry_url@, self.decentralized_party_id@),
    {
        endpoint(self.registry_url.as_str(), self.decentralized_party_id.as_str())
    }
}

/// The success range of HTTP status codes.
pub open spec fn is_success(status: u16) -> bool {
    200 <= status < 300
}

/// Whether a status code lies in the success range, 200 to 299.
pub fn status_is_success(status: u16) -> (ok: bool)
    ensures
        ok == is_success(status),
{
    200 <= status && status < 300
}

/// What a reply means. Outside the success range it is a submission error
/// with the status and the body as received; inside, the parsed document, or
/// a decode error that keeps the body.
pub open spec fn interprets(reply: HttpReply, outcome: Result<Response, SubmitError>) -> bool {
    if !is_success(reply.status) {
        outcome == Err::<Response, SubmitError>(
            SubmitError::RegistrySubmission { status: reply.status, body: reply.body },
        )
    } else {
        match json_document(reply.body@) {
            Some(document) => outcome == Ok::<Response, SubmitError>(Response { document }),
            None => outcome is Err && outcome->Err_0 is ResponseDecode
                && outcome->Err_0->ResponseDecode_body == reply.body,
        }
    }
}

/// What an exchange with the registry means: a transport failure is passed
/// on, a reply is interpreted.
pub open spec fn concludes(
    exchange: Result<HttpReply, String>,
    outcome: Result<Response, SubmitError>,
) -> bool {
    match exchange {
        Err(reason) => outcome == Err::<Response, SubmitError>(SubmitError::Transport { reason }),
        Ok(reply) => interprets(reply, outcome),
    }
}

/// Turns the parser's verdict on a body into the outcome of the submission:
/// the document as the response, or a decode error that keeps the body.
pub fn decode(parsed: Result<serde_json::Value, serde_json::Error>, body: String) -> (outcome:
    Result<Response, SubmitError>)
    ensures
        match parsed {
            Ok(document) => outcome == Ok::<Response, SubmitError>(Response { document }),
            Err(_) => outcome is Err && outcome->Err_0 is ResponseDecode
                && outcome->Err_0->ResponseDecode_body == body,
        },
{
    match parsed {
        Ok(document) => Ok(Response { document }),
        Err(error) => {
            let reason = describe(&error);
            Err(SubmitError::ResponseDecode { reason, body })
        },
    }
}

/// Interprets a reply. The status is judged first: outside the success range
/// the reply is an error that carries the status and the body untouched.
/// Otherwise the body must parse as a JSON document.
pub fn interpret(reply: HttpReply) -> (outcome: Result<Response, SubmitError>)
    ensures
        interprets(reply, outcome),
{
    if !status_is_success(reply.status) {
        return Err(SubmitError::RegistrySubmission { status: reply.status, body: reply.body });
    }
    let parsed = parse_json(reply.body.as_str());
    decode(parsed, reply.body)
}

/// Concludes a submission from what the transport reported: its failure, or
/// the reply it received.
pub fn conclude(exchange: Result<HttpReply, String>) -> (outcome: Result<Response, SubmitError>)
    ensures
        concludes(exchange, outcome),
{
    match exchange {
        Err(reason) => Err(SubmitError::Transport { reason }),
        Ok(reply) => interpret(reply),
    }
}

} // verus!
