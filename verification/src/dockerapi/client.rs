//! The runtime client: one request per operation of the control-plane API,
//! and the reading of a response's status. The client makes no connection
//! itself. It says what is to be sent to the socket it was made for, under a
//! host name that only fills the place of one.

use crate::dockerapi::create_container_args::CreateContainerArgs;
use crate::dockerapi::create_exec_args::CreateExecArgs;
use crate::dockerapi::start_exec_args::StartExecArgs;
use crate::encoding::{ascii_bytes, json_two_flags, two_flags_text, uri_accepted, uri_is_valid};
use crate::text::same_text;
use crate::error::SandboxError;
use vstd::prelude::*;

verus! {

/// The method of a request.
#[derive(Copy, Clone, Debug, PartialEq, Eq, Structural)]
pub enum Method {
    Get,
    Post,
    Delete,
}

/// The body of a request.
#[derive(Clone, Debug, PartialEq)]
pub enum Body {
    /// No body.
    Empty,
    /// A JSON text, as it is sent.
    Json(Vec<u8>),
    /// The parameters of a container, to be sent as JSON.
    CreateContainer(CreateContainerArgs),
    /// The parameters of a command, to be sent as JSON.
    CreateExec(CreateExecArgs),
    /// The parameters of a command's start, to be sent as JSON.
    StartExec(StartExecArgs),
}

/// A request to the runtime.
#[derive(Clone, Debug, PartialEq)]
pub struct Request {
    pub method: Method,
    /// The address, which `hyper::Uri` accepts.
    pub uri: String,
    /// Whether the request declares its content as `application/json`.
    pub json: bool,
    pub body: Body,
}

/// A client for the runtime behind one Unix domain socket.
#[derive(Clone, Debug, PartialEq)]
pub struct Client {
    socket: String,
}

/// The address of the operations on containers.
pub open spec fn containers_uri() -> Seq<char> {
    "http://localhost/containers/"@
}

/// The address of an operation on one container.
pub open spec fn container_uri(container_id: Seq<char>, operation: Seq<char>) -> Seq<char> {
    containers_uri() + container_id + operation
}

/// The address at which a command that was set up is started.
pub open spec fn exec_start_uri(exec_id: Seq<char>) -> Seq<char> {
    "http://localhost/exec/"@ + exec_id + "/start"@
}

/// The address of a listing with a query.
pub open spec fn list_uri(query: Seq<char>) -> Seq<char> {
    containers_uri() + "json?"@ + query
}

/// Whether `result` is the request of an operation with the given method,
/// address and content, and with some body, or, where the address is no URI,
/// the failure that says so.
pub open spec fn requests(
    result: Result<Request, SandboxError>,
    operation: Seq<char>,
    method: Method,
    uri: Seq<char>,
    json: bool,
) -> bool {
    match result {
        Ok(request) => {
            &&& uri_accepted(uri)
            &&& request.method == method
            &&& request.uri@ == uri
            &&& request.json == json
        },
        Err(failure) => {
            &&& !uri_accepted(uri)
            &&& failure matches SandboxError::InvalidUri { operation: o, uri: u }
            &&& o@ == operation
            &&& u@ == uri
        },
    }
}

/// The body of a removal: the JSON object of its two flags,
/// `{"force":..,"remove_anonymouse_volumes":..}`.
pub open spec fn removal_body(force: bool, remove_volumes: bool) -> Seq<u8> {
    ascii_bytes(two_flags_text("force"@, force, "remove_anonymouse_volumes"@, remove_volumes))
}

/// Whether a status reports success.
pub open spec fn is_success(status: u16) -> bool {
    200 <= status < 300
}

/// Whether a status is no failure of an operation: a success is none, and
/// neither is 304 as the answer to a start, which says that the container
/// runs already.
pub open spec fn accepted(operation: Seq<char>, status: u16) -> bool {
    is_success(status) || (operation == "start_container"@ && status == 304)
}

/// The request of an operation, where its address is a URI.
fn request(operation: &str, method: Method, uri: String, json: bool, body: Body) -> (result: Result<
    Request,
    SandboxError,
>)
    ensures
        requests(result, operation@, method, uri@, json),
        result matches Ok(request) ==> request.body == body,
{
    if uri_is_valid(uri.as_str()) {
        Ok(Request { method, uri, json, body })
    } else {
        Err(SandboxError::InvalidUri { operation: String::from_str(operation), uri })
    }
}

/// The address of an operation on one container.
fn container_address(container_id: &str, operation: &str) -> (uri: String)
    ensures
        uri@ == container_uri(container_id@, operation@),
{
    let mut uri = String::from_str("http://localhost/containers/");
    uri.append(container_id);
    uri.append(operation);
    uri
}

impl Client {
    /// The path of the socket that the client is for.
    pub closed spec fn socket(&self) -> Seq<char> {
        self.socket@
    }

    /// A client for the runtime behind the socket at `path`.
    pub fn local(path: &str) -> (client: Client)
        ensures
            client.socket() == path@,
    {
        Client { socket: String::from_str(path) }
    }

    /// The path of the socket that the client is for.
    pub fn socket_path(&self) -> (path: &str)
        ensures
            path@ == self.socket(),
    {
        self.socket.as_str()
    }

    /// Attaches to a container's output, which then streams in frames from
    /// all three standard streams.
    pub fn attach(&self, container_id: &str) -> (result: Result<Request, SandboxError>)
        ensures
            requests(
                result,
                "attach"@,
                Method::Post,
                container_uri(container_id@, "/attach?stream=1&stdout=1&stdin=1&stderr=1"@),
                false,
            ),
            result matches Ok(request) ==> request.body == Body::Empty,
    {
        let uri = container_address(container_id, "/attach?stream=1&stdout=1&stdin=1&stderr=1");
        request("attach", Method::Post, uri, false, Body::Empty)
    }

    /// Creates a container.
    pub fn create_container(&self, args: CreateContainerArgs) -> (result: Result<
        Request,
        SandboxError,
    >)
        ensures
            requests(
                result,
                "create_container"@,
                Method::Post,
                containers_uri() + "create"@,
                true,
            ),
            result matches Ok(request) ==> request.body == Body::CreateContainer(args),
    {
        let mut uri = String::from_str("http://localhost/containers/");
        uri.append("create");
        request("create_container", Method::Post, uri, true, Body::CreateContainer(args))
    }

    /// Removes a container, by force where `force` is set, and with its
    /// anonymous volumes where `remove_anonymouse_volumes` is set. The two
    /// flags are the members of the body.
    pub fn remove_container(
        &self,
        container_id: String,
        force: bool,
        remove_anonymouse_volumes: bool,
    ) -> (result: Result<Request, SandboxError>)
        ensures
            requests(
                result,
                "remove_container"@,
                Method::Delete,
                containers_uri() + container_id@,
                true,
            ),
            result matches Ok(request) ==> request.body matches Body::Json(body) && body@
                == removal_body(force, remove_anonymouse_volumes),
    {
        let mut uri = String::from_str("http://localhost/containers/");
        uri.append(container_id.as_str());
        if !uri_is_valid(uri.as_str()) {
            return Err(
                SandboxError::InvalidUri { operation: String::from_str("remove_container"), uri },
            );
        }
        proof {
            reveal_strlit("force");
            reveal_strlit("remove_anonymouse_volumes");
        }
        match json_two_flags("force", force, "remove_anonymouse_volumes", remove_anonymouse_volumes) {
            Ok(body) => Ok(Request { method: Method::Delete, uri, json: true, body: Body::Json(body) }),
            Err(_) => Err(
                SandboxError::Encoding { operation: String::from_str("remove_container") },
            ),
        }
    }

    /// Starts a container.
    pub fn start_container(&self, container_id: &str) -> (result: Result<Request, SandboxError>)
        ensures
            requests(
                result,
                "start_container"@,
                Method::Post,
                container_uri(container_id@, "/start"@),
                false,
            ),
            result matches Ok(request) ==> request.body == Body::Empty,
    {
        let uri = container_address(container_id, "/start");
        request("start_container", Method::Post, uri, false, Body::Empty)
    }

    /// Stops a container by killing it.
    pub fn stop_container(&self, container_id: &str) -> (result: Result<Request, SandboxError>)
        ensures
            requests(
                result,
                "stop_container"@,
                Method::Post,
                container_uri(container_id@, "/kill"@),
                true,
            ),
            result matches Ok(request) ==> request.body == Body::Empty,
    {
        let uri = container_address(container_id, "/kill");
        request("stop_container", Method::Post, uri, true, Body::Empty)
    }

    /// Waits for a container to exit: the response comes when it has.
    pub fn wait(&self, container_id: String) -> (result: Result<Request, SandboxError>)
        ensures
            requests(result, "wait"@, Method::Post, container_uri(container_id@, "/wait"@), false),
            result matches Ok(request) ==> request.body == Body::Empty,
    {
        let uri = container_address(container_id.as_str(), "/wait");
        request("wait", Method::Post, uri, false, Body::Empty)
    }

    /// Executes a command in a running container: the request that sets the
    /// command up, and how it is then started under the id that the runtime
    /// answers with, attached and without a terminal.
    pub fn exec(&self, container_id: String, args: CreateExecArgs) -> (result: Result<
        (Request, StartExecArgs),
        SandboxError,
    >)
        ensures
            requests(
                match result {
                    Ok(plan) => Ok(plan.0),
                    Err(failure) => Err(failure),
                },
                "create_exec"@,
                Method::Post,
                container_uri(container_id@, "/exec"@),
                true,
            ),
            result matches Ok(plan) ==> plan.0.body == Body::CreateExec(args) && plan.1 == (
            StartExecArgs { detach: false, tty: false }),
    {
        match self.create_exec(container_id, args) {
            Ok(request) => Ok((request, StartExecArgs { detach: false, tty: false })),
            Err(failure) => Err(failure),
        }
    }

    /// Sets up a command in a running container.
    pub fn create_exec(&self, container_id: String, args: CreateExecArgs) -> (result: Result<
        Request,
        SandboxError,
    >)
        ensures
            requests(
                result,
                "create_exec"@,
                Method::Post,
                container_uri(container_id@, "/exec"@),
                true,
            ),
            result matches Ok(request) ==> request.body == Body::CreateExec(args),
    {
        let uri = container_address(container_id.as_str(), "/exec");
        request("create_exec", Method::Post, uri, true, Body::CreateExec(args))
    }

    /// Starts a command that was set up; its output then streams in frames.
    pub fn start_exec(&self, exec_id: &str, args: StartExecArgs) -> (result: Result<
        Request,
        SandboxError,
    >)
        ensures
            requests(result, "start_exec"@, Method::Post, exec_start_uri(exec_id@), true),
            result matches Ok(request) ==> request.body == Body::StartExec(args),
    {
        let mut uri = String::from_str("http://localhost/exec/");
        uri.append(exec_id);
        uri.append("/start");
        request("start_exec", Method::Post, uri, true, Body::StartExec(args))
    }

    /// Lists the containers that a query selects. The query is the text
    /// that follows the question mark.
    pub fn list_containers(&self, query: &str) -> (result: Result<Request, SandboxError>)
        ensures
            requests(result, "list_containers"@, Method::Get, list_uri(query@), false),
            result matches Ok(request) ==> request.body == Body::Empty,
    {
        let mut uri = String::from_str("http://localhost/containers/");
        uri.append("json?");
        uri.append(query);
        request("list_containers", Method::Get, uri, false, Body::Empty)
    }

    /// Whether a status reports success: 200 to 299 do.
    pub fn succeeded(status: u16) -> (success: bool)
        ensures
            success == is_success(status),
    {
        200 <= status && status < 300
    }

    /// Whether a status is no failure of an operation: 200 to 299 are none,
    /// and neither is 304 where the operation is `start_container`.
    pub fn accepts(operation: &str, status: u16) -> (accepted: bool)
        ensures
            accepted == self::accepted(operation@, status),
    {
        Client::succeeded(status) || (status == 304 && same_text(operation, "start_container"))
    }

    /// Reads the status of a response. A status that is no failure of the
    /// operation lets the body through: a start that is answered with 304 has
    /// found the container running, which is no error. Any other status makes
    /// the body the runtime's rejection of the operation, as it came.
    pub fn accept(operation: &str, status: u16, body: Vec<u8>) -> (result: Result<
        Vec<u8>,
        SandboxError,
    >)
        ensures
            accepted(operation@, status) ==> result == Ok::<Vec<u8>, SandboxError>(body),
            !accepted(operation@, status) ==> {
                &&& result matches Err(SandboxError::Rejection { operation: o, status: s, body: b })
                &&& o@ == operation@
                &&& s == status
                &&& b == body
            },
    {
        if Client::accepts(operation, status) {
            Ok(body)
        } else {
            Err(SandboxError::Rejection { operation: String::from_str(operation), status, body })
        }
    }
}

/// The capacity to read a body into: the upper bound of its size where one
/// is known, and else the lower bound, but at least 16.
pub fn body_size_hint(lower: usize, upper: Option<usize>) -> (capacity: usize)
    ensures
        capacity == match upper {
            Some(bound) => bound,
            None => if lower > 16 {
                lower
            } else {
                16
            },
        },
{
    match upper {
        Some(bound) => bound,
        None => if lower > 16 {
            lower
        } else {
            16
        },
    }
}

} // verus!
