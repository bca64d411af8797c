use vstd::prelude::*;

verus! {

/// The parameters with which a container is created.
#[derive(Clone, Debug, PartialEq)]
pub struct CreateContainerArgs {
    /// The hostname to use for the container, as a valid RFC 1123 hostname.
    pub hostname: String,
    /// The domain name to use for the container.
    pub domainname: String,
    /// The user that commands are run as inside the container.
    pub user: String,
    /// Whether to attach to stdin
    pub attach_stdin: bool,
    /// Whether to attach to stdout
    pub attach_stdout: bool,
    /// Whether to attach to stderr
    pub attach_stderr: bool,
    /// Attach standard streams to a TTY, including stdin if it is not closed
    pub tty: bool,
    /// Open stdin
    pub open_stdin: bool,
    /// Close stdin after one attached client disconnects
    pub stdin_once: bool,
    /// A list of environment variables in the form ["VAR=value", ...]
    /// A variable without `=` is removed from the environment, rather than to have an empty value.
    pub env: Vec<String>,
    /// Command to run specified as an array of strings.
    pub cmd: Vec<String>,
    pub entrypoint: String,
    /// The name (or reference) of the image to use when creating the container.
    pub image: String,
    /// User-defined metadata, each key with its value. No key occurs twice:
    /// see [`CreateContainerArgs::wf`].
    pub labels: Vec<(String, String)>,
    /// The mount point paths inside the container.
    pub volumes: Vec<String>,
    /// A list of volume bindings for this container, each in the form
    /// `hostpath:containerpath:options`.
    pub binds: Vec<String>,
    /// The working directory for commands to run in.
    pub working_dir: String,
    /// Disable networking for the container.
    pub network_disabled: Option<bool>,
    /// MAC address of the container.
    pub mac_address: Option<String>,
    /// The exposed ports, each in the form `<port>/<tcp|udp|sctp>`.
    pub exposed_ports: Vec<String>,
}

impl CreateContainerArgs {
    /// No label key occurs twice.
    pub open spec fn labels_distinct(self) -> bool {
        forall|i: int, j: int|
            0 <= i < j < self.labels@.len() ==> #[trigger] self.labels@[i].0@ != #[trigger] self.labels@[j].0@
    }

    /// No mount point occurs twice.
    pub open spec fn volumes_distinct(self) -> bool {
        forall|i: int, j: int|
            0 <= i < j < self.volumes@.len() ==> #[trigger] self.volumes@[i]@ != #[trigger] self.volumes@[j]@
    }

    /// No exposed port occurs twice.
    pub open spec fn exposed_ports_distinct(self) -> bool {
        forall|i: int, j: int|
            0 <= i < j < self.exposed_ports@.len() ==> #[trigger] self.exposed_ports@[i]@
                != #[trigger] self.exposed_ports@[j]@
    }

    /// The parameters are well formed: the labels, the volumes and the exposed
    /// ports are mappings by their keys, so that none of these occurs twice.
    pub open spec fn wf(self) -> bool {
        &&& self.labels_distinct()
        &&& self.volumes_distinct()
        &&& self.exposed_ports_distinct()
    }
}

impl Default for CreateContainerArgs {
    /// Every text and list empty, every flag off, every option unset.
    fn default() -> (args: CreateContainerArgs)
        ensures
            args.wf(),
            args.hostname@.len() == 0,
            args.domainname@.len() == 0,
            args.user@.len() == 0,
            !args.attach_stdin,
            !args.attach_stdout,
            !args.attach_stderr,
            !args.tty,
            !args.open_stdin,
            !args.stdin_once,
            args.env@.len() == 0,
            args.cmd@.len() == 0,
            args.entrypoint@.len() == 0,
            args.image@.len() == 0,
            args.labels@.len() == 0,
            args.volumes@.len() == 0,
            args.binds@.len() == 0,
            args.working_dir@.len() == 0,
            args.network_disabled is None,
            args.mac_address is None,
            args.exposed_ports@.len() == 0,
    {
        CreateContainerArgs {
            hostname: String::new(),
            domainname: String::new(),
            user: String::new(),
            attach_stdin: false,
            attach_stdout: false,
            attach_stderr: false,
            tty: false,
            open_stdin: false,
            stdin_once: false,
            env: Vec::new(),
            cmd: Vec::new(),
            entrypoint: String::new(),
            image: String::new(),
            labels: Vec::new(),
            volumes: Vec::new(),
            binds: Vec::new(),
            working_dir: String::new(),
            network_disabled: None,
            mac_address: None,
            exposed_ports: Vec::new(),
        }
    }
}

} // verus!
