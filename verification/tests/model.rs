use cargo_sandbox::config::{Cli, Command};
use cargo_sandbox::container_type::ContainerType;
use cargo_sandbox::dockerapi::create_container_args::CreateContainerArgs;
use cargo_sandbox::dockerapi::endpoint_ipam_config::EndpointIpamConfig;
use cargo_sandbox::dockerapi::list_containers::ListContainersArgs;
use cargo_sandbox::dockerapi::port::{Port, Type};
use cargo_sandbox::dockerapi::stream::StreamError;
use cargo_sandbox::error::{ErrorKind, SandboxError};
use cargo_sandbox::sandbox::Settings;

#[test]
fn purposes_have_their_names() {
    assert_eq!(ContainerType::Build.as_str(), "build");
    assert_eq!(ContainerType::Publish.as_str(), "publish");
}

#[test]
fn new_port_is_not_mapped() {
    let port = Port::new(8080, Type::Tcp);
    assert_eq!(port, Port { ip: None, private_port: 8080, public_port: None, _type: Type::Tcp });
}

#[test]
fn default_listing_is_unfiltered() {
    let args = ListContainersArgs::default();
    assert!(!args.all_containers);
    assert_eq!(args.limit, None);
    assert!(!args.size);
    assert_eq!(args.filters, None);
    assert_eq!(args.before, None);
    assert_eq!(args.since, None);
    assert_eq!(args.status, None);
    assert_eq!(args.label, None);
}

#[test]
fn default_container_is_empty() {
    let args = CreateContainerArgs::default();
    assert_eq!(args.image, "");
    assert!(args.cmd.is_empty());
    assert!(args.labels.is_empty());
    assert!(args.binds.is_empty());
    assert!(!args.attach_stdout);
    assert_eq!(args.network_disabled, None);
}

#[test]
fn default_ipam_config_is_unset() {
    assert_eq!(
        EndpointIpamConfig::default(),
        EndpointIpamConfig { ipv4_address: None, ipv6_address: None, link_local_ips: None }
    );
}

#[test]
fn default_settings_name_the_sandbox() {
    let settings = Settings::default();
    assert_eq!(settings.namespace, "cargo-sandbox");
    assert_eq!(settings.image_prefix, "cargo-sandbox");
    assert_eq!(settings.user, "cargo-sandbox-user");
    assert_eq!(settings.version, None);
}

#[test]
fn commands_become_cargo_arguments() {
    assert_eq!(Command::Check {}.args(), vec!["check".to_string()]);
    assert_eq!(Command::Build {}.args(), vec!["build".to_string()]);
    let cli = Cli { command: Command::Publish { token: "SECRET-REDACTED".to_string() } };
    assert_eq!(
        cli.command.args(),
        vec!["publish".to_string(), "--token".to_string(), "SECRET-REDACTED".to_string()]
    );
}

#[test]
fn failures_fall_into_four_kinds() {
    let op = || "attach".to_string();
    assert_eq!(
        SandboxError::Connection { operation: op(), cause: "refused".to_string() }.kind(),
        ErrorKind::Connection
    );
    assert_eq!(
        SandboxError::Protocol { operation: op(), cause: "bad json".to_string() }.kind(),
        ErrorKind::Protocol
    );
    assert_eq!(
        SandboxError::InvalidUri { operation: op(), uri: "a b".to_string() }.kind(),
        ErrorKind::Protocol
    );
    assert_eq!(SandboxError::Encoding { operation: op() }.kind(), ErrorKind::Protocol);
    assert_eq!(SandboxError::InvalidTag { operation: op(), tag: 9 }.kind(), ErrorKind::Protocol);
    assert_eq!(
        SandboxError::Rejection { operation: op(), status: 404, body: Vec::new() }.kind(),
        ErrorKind::Rejection
    );
    assert_eq!(SandboxError::TruncatedStream { operation: op() }.kind(), ErrorKind::TruncatedStream);
    assert_eq!(SandboxError::ContainerMissing.kind(), ErrorKind::Protocol);
    assert_eq!(SandboxError::UnexpectedEvent.kind(), ErrorKind::Protocol);
}

#[test]
fn stream_errors_become_failures_of_the_operation() {
    assert_eq!(
        SandboxError::from_stream("attach".to_string(), StreamError::InvalidTag(5)),
        SandboxError::InvalidTag { operation: "attach".to_string(), tag: 5 }
    );
    assert_eq!(
        SandboxError::from_stream("attach".to_string(), StreamError::Truncated),
        SandboxError::TruncatedStream { operation: "attach".to_string() }
    );
}
