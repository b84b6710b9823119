use crate::error::{DuneError, DuneRequestError};
use crate::parameters::Parameter;
use crate::text::{decimal, decimal_text};
use crate::wire::{encode_parameters, parameters_body};
use vstd::prelude::*;

verus! {

/// The root of every route of the API.
pub const BASE_URL: &'static str = "https://api.dune.com/api/v1";

/// The header that carries the API key on every request.
pub const API_KEY_HEADER: &'static str = "x-dune-api-key";

/// The two ways in which the API is asked.
#[derive(Debug, Clone, Copy, PartialEq, Eq, Structural)]
pub enum Method {
    Get,
    Post,
}

/// One request to the API, ready to be sent.
///
/// The key goes out under the header [`API_KEY_HEADER`]; the body, where
/// there is one, is JSON.
#[derive(Debug)]
pub struct Request {
    pub method: Method,
    pub url: String,
    pub api_key: String,
    pub body: Option<String>,
}

impl Request {
    /// Whether this is the GET request for a URL under a key: it has no
    /// body.
    pub open spec fn is_get(&self, url: Seq<char>, api_key: Seq<char>) -> bool {
        &&& self.method == Method::Get
        &&& self.url@ == url
        &&& self.api_key@ == api_key
        &&& self.body is None
    }

    /// Whether this is the POST request for a URL under a key, with the
    /// given body.
    pub open spec fn is_post(&self, url: Seq<char>, api_key: Seq<char>, body: Seq<char>) -> bool {
        &&& self.method == Method::Post
        &&& self.url@ == url
        &&& self.api_key@ == api_key
        &&& self.body matches Some(text) && text@ == body
    }
}

/// The URL of a route that is asked by POST.
pub open spec fn post_url(route: Seq<char>) -> Seq<char> {
    BASE_URL@ + "/"@ + route
}

/// The URL under which something is asked of an execution by GET.
pub open spec fn get_url(job_id: Seq<char>, command: Seq<char>) -> Seq<char> {
    BASE_URL@ + "/execution/"@ + job_id + "/"@ + command
}

/// The route that starts an execution of a query.
pub open spec fn execute_route(query_id: u32) -> Seq<char> {
    "query/"@ + decimal(query_id as nat) + "/execute"@
}

/// The route that cancels an execution.
pub open spec fn cancel_route(job_id: Seq<char>) -> Seq<char> {
    "execution/"@ + job_id + "/cancel"@
}

/// What the body of a response is to be read as.
#[derive(Debug, Clone, Copy, PartialEq, Eq, Structural)]
pub enum BodyKind {
    /// The answer that the request asked for.
    Payload,
    /// The envelope `{"error": ...}` in which the service reports a failure.
    ErrorEnvelope,
}

/// The body of a response, decoded as its status demands.
#[derive(Debug)]
pub enum ResponseBody<T> {
    /// The body of a response with a success status, decoded as the answer.
    Payload(Result<T, reqwest::Error>),
    /// The body of any other response, decoded as an error envelope.
    Failure(Result<DuneError, reqwest::Error>),
}

/// DuneClient provides an interface for interacting with the Dune Analytics
/// API. Official documentation:
/// [https://dune.com/docs/api/](https://dune.com/docs/api/).
///
/// Elementary routes (i.e. those provided by Dune)
/// - POST
///     - execute_query
///     - cancel_execution
/// - GET
///     - get_status
///     - get_results
///
/// Each of these methods builds the request; the caller sends it and hands
/// the decoded body of the response to [`DuneClient::parse_response`].
/// The convenience method `refresh` plans the whole of
/// 1. execute query,
/// 2. while execution status is not in a terminal state, sleep and check again,
/// 3. get and return execution results.
pub struct DuneClient {
    /// An essential value for request authentication.
    api_key: String,
}

impl DuneClient {
    /// The key under which this client asks.
    pub closed spec fn key(&self) -> Seq<char> {
        self.api_key@
    }

    /// Constructor
    pub fn new(api_key: &str) -> (client: DuneClient)
        ensures
            client.key() == api_key@,
    {
        DuneClient { api_key: api_key.to_owned() }
    }

    /// Builds the POST request for a route, with the parameters in its body.
    fn post(&self, route: &str, params: Option<Vec<Parameter>>) -> (request: Request)
        ensures
            request.is_post(post_url(route@), self.key(), parameters_body(params)),
    {
        let mut url = BASE_URL.to_owned();
        url.append("/");
        url.append(route);
        Request {
            method: Method::Post,
            url,
            api_key: self.api_key.clone(),
            body: Some(encode_parameters(params)),
        }
    }

    /// Builds the GET request that asks something of an execution.
    fn get(&self, job_id: &str, command: &str) -> (request: Request)
        ensures
            request.is_get(get_url(job_id@, command@), self.key()),
    {
        let mut url = BASE_URL.to_owned();
        url.append("/execution/");
        url.append(job_id);
        url.append("/");
        url.append(command);
        Request { method: Method::Get, url, api_key: self.api_key.clone(), body: None }
    }

    /// Whether a status code stands for success: the codes from 200 to 299.
    pub open spec fn spec_is_success(status: u16) -> bool {
        200 <= status <= 299
    }

    /// Tells whether a status code stands for success.
    #[verifier::when_used_as_spec(spec_is_success)]
    pub fn is_success(status: u16) -> (success: bool)
        ensures
            success == Self::spec_is_success(status),
    {
        200 <= status && status <= 299
    }

    /// Tells what the body of a response is to be decoded as: the answer
    /// where the status stands for success, an error envelope otherwise.
    pub fn body_kind(status: u16) -> (kind: BodyKind)
        ensures
            kind == if Self::spec_is_success(status) {
                BodyKind::Payload
            } else {
                BodyKind::ErrorEnvelope
            },
    {
        if Self::is_success(status) {
            BodyKind::Payload
        } else {
            BodyKind::ErrorEnvelope
        }
    }

    /// What a decoded body comes to.
    ///
    /// An answer is handed on. An error envelope becomes the error that the
    /// service reported. A body that could not be read or decoded becomes
    /// the error of that failure.
    pub open spec fn parsed<T>(body: ResponseBody<T>) -> Result<T, DuneRequestError> {
        match body {
            ResponseBody::Payload(Ok(answer)) => Ok(answer),
            ResponseBody::Payload(Err(failure)) => Err(DuneRequestError::of_failure(failure)),
            ResponseBody::Failure(Ok(envelope)) => Err(DuneRequestError::Dune(envelope.error)),
            ResponseBody::Failure(Err(failure)) => Err(DuneRequestError::of_failure(failure)),
        }
    }

    /// Turns the decoded body of a response into the answer or the error.
    /// Some "invalid" requests return response JSON, which is returned as
    /// an error.
    pub fn parse_response<T>(body: ResponseBody<T>) -> (outcome: Result<T, DuneRequestError>)
        ensures
            outcome == Self::parsed(body),
    {
        match body {
            ResponseBody::Payload(Ok(answer)) => Ok(answer),
            ResponseBody::Payload(Err(failure)) => Err(DuneRequestError::from(failure)),
            ResponseBody::Failure(Ok(envelope)) => Err(DuneRequestError::from(envelope)),
            ResponseBody::Failure(Err(failure)) => Err(DuneRequestError::from(failure)),
        }
    }

    /// Execute Query (with or without parameters)
    /// cf. [https://dune.com/docs/api/api-reference/execute-queries/execute-query-id/](https://dune.com/docs/api/api-reference/execute-queries/execute-query-id/)
    pub fn execute_query(&self, query_id: u32, params: Option<Vec<Parameter>>) -> (request: Request)
        ensures
            request.is_post(post_url(execute_route(query_id)), self.key(), parameters_body(params)),
    {
        let mut route = "query/".to_owned();
        route.append(decimal_text(query_id).as_str());
        route.append("/execute");
        self.post(route.as_str(), params)
    }

    /// Cancel Query Execution by `job_id`
    /// cf. [https://dune.com/docs/api/api-reference/execute-queries/cancel-execution/](https://dune.com/docs/api/api-reference/execute-queries/cancel-execution/)
    pub fn cancel_execution(&self, job_id: &str) -> (request: Request)
        ensures
            request.is_post(post_url(cancel_route(job_id@)), self.key(), parameters_body(None)),
    {
        let mut route = "execution/".to_owned();
        route.append(job_id);
        route.append("/cancel");
        self.post(route.as_str(), None)
    }

    /// Get Query Execution Status (by `job_id`)
    /// cf. [https://dune.com/docs/api/api-reference/get-results/execution-status/](https://dune.com/docs/api/api-reference/get-results/execution-status/)
    pub fn get_status(&self, job_id: &str) -> (request: Request)
        ensures
            request.is_get(get_url(job_id@, "status"@), self.key()),
    {
        self.get(job_id, "status")
    }

    /// Get Query Execution Results (by `job_id`)
    /// cf. [https://dune.com/docs/api/api-reference/get-results/execution-results/](https://dune.com/docs/api/api-reference/get-results/execution-results/)
    pub fn get_results(&self, job_id: &str) -> (request: Request)
        ensures
            request.is_get(get_url(job_id@, "results"@), self.key()),
    {
        self.get(job_id, "results")
    }
}

} // verus!
