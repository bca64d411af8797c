use cargo_sandbox::dockerapi::client::{body_size_hint, Body, Client, Method, Request};
use cargo_sandbox::dockerapi::create_container_args::CreateContainerArgs;
use cargo_sandbox::dockerapi::create_exec_args::CreateExecArgs;
use cargo_sandbox::dockerapi::start_exec_args::StartExecArgs;
use cargo_sandbox::error::SandboxError;

fn docker() -> Client {
    Client::local("/var/run/docker.sock")
}

fn exec_args() -> CreateExecArgs {
    CreateExecArgs {
        attach_stdin: false,
        attach_stdout: true,
        attach_stderr: true,
        detach_keys: String::new(),
        tty: false,
        cmd: vec!["cargo".to_string(), "test".to_string()],
        env: vec!["CARGO_BUILD_JOBS=2".to_string()],
    }
}

#[test]
fn client_keeps_its_socket_path() {
    assert_eq!(docker().socket_path(), "/var/run/docker.sock");
    assert_eq!(docker().clone(), docker());
}

#[test]
fn attach_request_streams_all_three_streams() {
    assert_eq!(
        docker().attach("abc123"),
        Ok(Request {
            method: Method::Post,
            uri: "http://localhost/containers/abc123/attach?stream=1&stdout=1&stdin=1&stderr=1"
                .to_string(),
            json: false,
            body: Body::Empty,
        })
    );
}

#[test]
fn create_request_carries_the_parameters() {
    let args = CreateContainerArgs { image: "img".to_string(), ..CreateContainerArgs::default() };
    assert_eq!(
        docker().create_container(args.clone()),
        Ok(Request {
            method: Method::Post,
            uri: "http://localhost/containers/create".to_string(),
            json: true,
            body: Body::CreateContainer(args),
        })
    );
}

#[test]
fn remove_request_carries_both_flags() {
    assert_eq!(
        docker().remove_container("abc123".to_string(), true, true),
        Ok(Request {
            method: Method::Delete,
            uri: "http://localhost/containers/abc123".to_string(),
            json: true,
            body: Body::Json(b"{\"force\":true,\"remove_anonymouse_volumes\":true}".to_vec()),
        })
    );
    assert_eq!(
        docker().remove_container("abc123".to_string(), false, true).unwrap().body,
        Body::Json(b"{\"force\":false,\"remove_anonymouse_volumes\":true}".to_vec())
    );
    assert_eq!(
        docker().remove_container("abc123".to_string(), true, false).unwrap().body,
        Body::Json(b"{\"force\":true,\"remove_anonymouse_volumes\":false}".to_vec())
    );
    assert_eq!(
        docker().remove_container("abc123".to_string(), false, false).unwrap().body,
        Body::Json(b"{\"force\":false,\"remove_anonymouse_volumes\":false}".to_vec())
    );
}

#[test]
fn start_request_has_no_body() {
    assert_eq!(
        docker().start_container("abc123"),
        Ok(Request {
            method: Method::Post,
            uri: "http://localhost/containers/abc123/start".to_string(),
            json: false,
            body: Body::Empty,
        })
    );
}

#[test]
fn stop_request_kills() {
    assert_eq!(
        docker().stop_container("abc123"),
        Ok(Request {
            method: Method::Post,
            uri: "http://localhost/containers/abc123/kill".to_string(),
            json: true,
            body: Body::Empty,
        })
    );
}

#[test]
fn wait_request_has_no_body() {
    assert_eq!(
        docker().wait("abc123".to_string()),
        Ok(Request {
            method: Method::Post,
            uri: "http://localhost/containers/abc123/wait".to_string(),
            json: false,
            body: Body::Empty,
        })
    );
}

#[test]
fn create_exec_request_carries_the_command() {
    assert_eq!(
        docker().create_exec("abc123".to_string(), exec_args()),
        Ok(Request {
            method: Method::Post,
            uri: "http://localhost/containers/abc123/exec".to_string(),
            json: true,
            body: Body::CreateExec(exec_args()),
        })
    );
}

#[test]
fn exec_sets_up_and_then_starts_attached() {
    let (request, start) = docker().exec("abc123".to_string(), exec_args()).unwrap();
    assert_eq!(Ok(request), docker().create_exec("abc123".to_string(), exec_args()));
    assert_eq!(start, StartExecArgs { detach: false, tty: false });
}

#[test]
fn start_exec_request_carries_its_flags() {
    let args = StartExecArgs { detach: false, tty: false };
    assert_eq!(
        docker().start_exec("e1", args),
        Ok(Request {
            method: Method::Post,
            uri: "http://localhost/exec/e1/start".to_string(),
            json: true,
            body: Body::StartExec(args),
        })
    );
}

#[test]
fn list_request_carries_the_query() {
    assert_eq!(
        docker().list_containers("all=true&limit=1"),
        Ok(Request {
            method: Method::Get,
            uri: "http://localhost/containers/json?all=true&limit=1".to_string(),
            json: false,
            body: Body::Empty,
        })
    );
}

#[test]
fn id_that_makes_no_uri_is_refused() {
    assert_eq!(
        docker().start_container("not an id"),
        Err(SandboxError::InvalidUri {
            operation: "start_container".to_string(),
            uri: "http://localhost/containers/not an id/start".to_string(),
        })
    );
    assert_eq!(
        docker().remove_container("a b".to_string(), true, true),
        Err(SandboxError::InvalidUri {
            operation: "remove_container".to_string(),
            uri: "http://localhost/containers/a b".to_string(),
        })
    );
    assert!(matches!(docker().attach("a\nb"), Err(SandboxError::InvalidUri { .. })));
    assert_eq!(
        docker().start_exec("e 1", StartExecArgs { detach: false, tty: false }),
        Err(SandboxError::InvalidUri {
            operation: "start_exec".to_string(),
            uri: "http://localhost/exec/e 1/start".to_string(),
        })
    );
}

#[test]
fn success_statuses_let_the_body_through() {
    assert_eq!(Client::accept("start_container", 204, Vec::new()), Ok(Vec::new()));
    assert_eq!(Client::accept("create_container", 201, b"{}".to_vec()), Ok(b"{}".to_vec()));
    assert_eq!(Client::accept("list_containers", 200, b"[]".to_vec()), Ok(b"[]".to_vec()));
    assert_eq!(Client::accept("wait", 299, Vec::new()), Ok(Vec::new()));
}

#[test]
fn other_statuses_are_rejections_with_the_body_as_it_came() {
    let body = b"{\"message\":\"No such image: nope\"}".to_vec();
    assert_eq!(
        Client::accept("create_container", 404, body.clone()),
        Err(SandboxError::Rejection {
            operation: "create_container".to_string(),
            status: 404,
            body,
        })
    );
    for status in [100, 199, 300, 303, 305, 409, 500] {
        assert!(matches!(
            Client::accept("start_container", status, Vec::new()),
            Err(SandboxError::Rejection { .. })
        ));
    }
}

#[test]
fn start_of_a_running_container_is_no_error() {
    assert_eq!(Client::accept("start_container", 304, Vec::new()), Ok(Vec::new()));
    assert_eq!(Client::accept("start_container", 304, b"kept".to_vec()), Ok(b"kept".to_vec()));
    assert!(Client::accepts("start_container", 304));
    assert!(Client::accepts("start_container", 204));
    assert!(!Client::accepts("start_container", 404));
}

#[test]
fn not_modified_is_a_rejection_of_every_other_operation() {
    for operation in [
        "attach",
        "create_container",
        "remove_container",
        "stop_container",
        "wait",
        "create_exec",
        "start_exec",
        "list_containers",
        "start_containers",
        "",
    ] {
        assert!(!Client::accepts(operation, 304));
        assert_eq!(
            Client::accept(operation, 304, b"no".to_vec()),
            Err(SandboxError::Rejection {
                operation: operation.to_string(),
                status: 304,
                body: b"no".to_vec(),
            })
        );
    }
}

#[test]
fn statuses_from_200_to_299_are_successes() {
    for status in [200, 201, 204, 299] {
        assert!(Client::succeeded(status));
    }
    for status in [0, 101, 199, 300, 404, 500, u16::MAX] {
        assert!(!Client::succeeded(status));
    }
}

#[test]
fn body_capacity_follows_the_size_hint() {
    assert_eq!(body_size_hint(0, None), 16);
    assert_eq!(body_size_hint(16, None), 16);
    assert_eq!(body_size_hint(17, None), 17);
    assert_eq!(body_size_hint(4096, Some(10)), 10);
    assert_eq!(body_size_hint(0, Some(0)), 0);
}
