//! What a sandbox is: the container that an invocation asks for, and how the
//! container of a project is found again.

use crate::container_type::ContainerType;
use crate::dockerapi::container_summary::ContainerSummary;
use crate::dockerapi::create_container_args::CreateContainerArgs;
use crate::dockerapi::list_containers::ListContainersArgs;
use crate::encoding::{json_lists_object, json_lists_object_text};
use crate::text::same_text;
use vstd::prelude::*;

verus! {

/// The names under which sandboxes are provisioned.
#[derive(Clone, Debug, PartialEq)]
pub struct Settings {
    /// The prefix of the discovery labels' keys.
    pub namespace: String,
    /// The prefix of the images' names; the purpose follows it.
    pub image_prefix: String,
    /// The user that commands run as inside a container.
    pub user: String,
    /// The version that created containers are labelled with, if any.
    pub version: Option<String>,
}

impl Default for Settings {
    fn default() -> (settings: Settings)
        ensures
            settings.namespace@ == "cargo-sandbox"@,
            settings.image_prefix@ == "cargo-sandbox"@,
            settings.user@ == "cargo-sandbox-user"@,
            settings.version is None,
    {
        Settings {
            namespace: String::from_str("cargo-sandbox"),
            image_prefix: String::from_str("cargo-sandbox"),
            user: String::from_str("cargo-sandbox-user"),
            version: None,
        }
    }
}

impl Settings {
    /// The key of the label that holds the project's name.
    pub open spec fn project_key(self) -> Seq<char> {
        self.namespace@ + ".project-name"@
    }

    /// The key of the label that holds the container's purpose.
    pub open spec fn purpose_key(self) -> Seq<char> {
        self.namespace@ + ".container-type"@
    }

    /// The key of the label that holds the version.
    pub open spec fn version_key(self) -> Seq<char> {
        self.namespace@ + ".version"@
    }

    /// The home of a project inside its container.
    pub open spec fn project_home(self, project_name: Seq<char>) -> Seq<char> {
        "/home/"@ + self.user@ + "/"@ + project_name
    }

    /// The labels of a project's container for a purpose: the two by which it
    /// is found again, then the version where there is one.
    pub open spec fn labels(self, project_name: Seq<char>, purpose: ContainerType) -> Seq<
        (Seq<char>, Seq<char>),
    > {
        let found_by = seq![(self.project_key(), project_name), (self.purpose_key(), purpose.name())];
        match self.version {
            Some(version) => found_by.push((self.version_key(), version@)),
            None => found_by,
        }
    }

    /// The label selectors that only a project's container for a purpose
    /// matches, each a key, `=` and the value.
    pub open spec fn selectors(self, project_name: Seq<char>, purpose: ContainerType) -> Seq<
        Seq<char>,
    > {
        seq![
            self.project_key() + "="@ + project_name,
            self.purpose_key() + "="@ + purpose.name(),
        ]
    }
}

/// The text of a label key: the namespace and a suffix.
fn label_key(settings: &Settings, suffix: &str) -> (key: String)
    ensures
        key@ == settings.namespace@ + suffix@,
{
    let mut key = settings.namespace.clone();
    key.append(suffix);
    key
}

/// The home of a project inside its container.
fn project_home(settings: &Settings, project_name: &str) -> (home: String)
    ensures
        home@ == settings.project_home(project_name@),
{
    let mut home = String::from_str("/home/");
    home.append(settings.user.as_str());
    home.append("/");
    home.append(project_name);
    home
}

/// Whether `args` creates the sandbox of a project for a purpose: the image
/// of that purpose, the command, the project's directory bound to the
/// project's home in the container, which is also the working directory, the
/// labels of [`Settings::labels`], all three standard streams attached
/// without a terminal, and everything else as in the default.
pub open spec fn creates_sandbox(
    args: CreateContainerArgs,
    settings: Settings,
    project_dir: Seq<char>,
    project_name: Seq<char>,
    purpose: ContainerType,
    command: Seq<Seq<char>>,
    network_disabled: bool,
) -> bool {
    &&& args.hostname@ == Seq::<char>::empty()
    &&& args.domainname@ == Seq::<char>::empty()
    &&& args.user@ == settings.user@
    &&& args.attach_stdin
    &&& args.attach_stdout
    &&& args.attach_stderr
    &&& !args.tty
    &&& !args.open_stdin
    &&& !args.stdin_once
    &&& args.env@ == Seq::<String>::empty()
    &&& args.cmd.deep_view() == command
    &&& args.entrypoint@ == Seq::<char>::empty()
    &&& args.image@ == settings.image_prefix@ + "-"@ + purpose.name()
    &&& args.labels.deep_view() == settings.labels(project_name, purpose)
    &&& args.volumes@ == Seq::<String>::empty()
    &&& args.binds.deep_view() == seq![
        project_dir + "/:"@ + settings.project_home(project_name) + ":cached"@,
    ]
    &&& args.working_dir@ == settings.project_home(project_name)
    &&& args.network_disabled == Some(network_disabled)
    &&& args.mac_address is None
    &&& args.exposed_ports@ == Seq::<String>::empty()
}

/// The parameters that create the sandbox of a project for a purpose.
pub fn create_container(
    settings: &Settings,
    project_dir: &str,
    project_name: &str,
    container_type: ContainerType,
    command: Vec<String>,
    network_disabled: bool,
) -> (args: CreateContainerArgs)
    ensures
        creates_sandbox(
            args,
            *settings,
            project_dir@,
            project_name@,
            container_type,
            command.deep_view(),
            network_disabled,
        ),
        args.wf(),
{
    let home = project_home(settings, project_name);

    let mut bind = String::from_str(project_dir);
    bind.append("/:");
    bind.append(home.as_str());
    bind.append(":cached");
    let mut binds: Vec<String> = Vec::new();
    binds.push(bind);

    let mut image = settings.image_prefix.clone();
    image.append("-");
    image.append(container_type.as_str());

    let mut labels: Vec<(String, String)> = Vec::new();
    labels.push((label_key(settings, ".project-name"), String::from_str(project_name)));
    labels.push(
        (label_key(settings, ".container-type"), String::from_str(container_type.as_str())),
    );
    match &settings.version {
        Some(version) => {
            labels.push((label_key(settings, ".version"), version.clone()));
        },
        None => {},
    }

    let args = CreateContainerArgs {
        hostname: String::new(),
        domainname: String::new(),
        user: settings.user.clone(),
        attach_stdin: true,
        attach_stdout: true,
        attach_stderr: true,
        tty: false,
        open_stdin: false,
        stdin_once: false,
        env: Vec::new(),
        cmd: command,
        entrypoint: String::new(),
        image,
        labels,
        volumes: Vec::new(),
        binds,
        working_dir: home,
        network_disabled: Some(network_disabled),
        mac_address: None,
        exposed_ports: Vec::new(),
    };
    proof {
        reveal_strlit(".project-name");
        reveal_strlit(".container-type");
        reveal_strlit(".version");
        assert(".project-name"@.len() == 13);
        assert(".container-type"@.len() == 15);
        assert(".version"@.len() == 8);
        assert(args.labels@[0].0@.len() == settings.namespace@.len() + 13);
        assert(args.labels@[1].0@.len() == settings.namespace@.len() + 15);
        assert(args.labels@.len() == 3 ==> args.labels@[2].0@.len() == settings.namespace@.len() + 8);
        assert(args.labels.deep_view() =~= settings.labels(project_name@, container_type));
        assert(args.binds.deep_view() =~= seq![
            project_dir@ + "/:"@ + settings.project_home(project_name@) + ":cached"@,
        ]);
    }
    args
}

/// Whether `args` lists the containers of a project for a purpose: those
/// that carry both discovery labels, running or not, and of them at most one.
pub open spec fn locates(
    args: ListContainersArgs,
    settings: Settings,
    project_name: Seq<char>,
    purpose: ContainerType,
) -> bool {
    &&& args.all_containers
    &&& args.limit == Some(1i32)
    &&& !args.size
    &&& args.filters matches Some(filters) && filters@ == json_lists_object_text(
        seq![("label"@, settings.selectors(project_name, purpose))],
    )
    &&& args.before is None
    &&& args.since is None
    &&& args.status is None
    &&& args.label is None
}

/// The listing that finds the container of a project for a purpose. The
/// pair of discovery labels is all that identifies it.
pub fn find_container(settings: &Settings, project_name: &str, container_type: ContainerType) -> (args:
    ListContainersArgs)
    ensures
        locates(args, *settings, project_name@, container_type),
{
    let mut by_project = label_key(settings, ".project-name");
    by_project.append("=");
    by_project.append(project_name);
    let mut by_purpose = label_key(settings, ".container-type");
    by_purpose.append("=");
    by_purpose.append(container_type.as_str());

    let mut selectors: Vec<String> = Vec::new();
    selectors.push(by_project);
    selectors.push(by_purpose);
    let mut members: Vec<(String, Vec<String>)> = Vec::new();
    members.push((String::from_str("label"), selectors));
    proof {
        assert(selectors.deep_view() =~= settings.selectors(project_name@, container_type));
        assert(members.deep_view() =~= seq![
            ("label"@, settings.selectors(project_name@, container_type)),
        ]);
    }
    let filters = json_lists_object(&members);
    ListContainersArgs {
        all_containers: true,
        limit: Some(1),
        size: false,
        filters: Some(filters),
        before: None,
        since: None,
        status: None,
        label: None,
    }
}

/// The container that a listing found: the first of the listing, whatever
/// follows it, or none where the listing is empty. More than one match is no
/// error; the runtime's order decides.
pub fn first_container(containers: Vec<ContainerSummary>) -> (found: Option<ContainerSummary>)
    ensures
        found == if containers@.len() > 0 {
            Some(containers@[0])
        } else {
            None
        },
{
    let mut containers = containers;
    if containers.len() > 0 {
        Some(containers.remove(0))
    } else {
        None
    }
}

/// What a container's state asks for before it can run a command.
#[derive(Copy, Clone, Debug, PartialEq, Eq, Structural)]
pub enum StartDecision {
    /// The container is not running and can be started.
    Start,
    /// The container is running already.
    AlreadyRunning,
    /// The state is none that is known: nothing is done.
    Unknown,
}

/// The decision for a state: `created`, `dead`, `exited` and `paused` are
/// started, `running` is left as it is, and so is anything else.
pub open spec fn start_decision(state: Seq<char>) -> StartDecision {
    if state == "created"@ || state == "dead"@ || state == "exited"@ || state == "paused"@ {
        StartDecision::Start
    } else if state == "running"@ {
        StartDecision::AlreadyRunning
    } else {
        StartDecision::Unknown
    }
}

/// Decides from a container's state whether it is to be started.
pub fn start_container(container: &ContainerSummary) -> (decision: StartDecision)
    ensures
        decision == start_decision(container.state@),
{
    let state = container.state.as_str();
    if same_text(state, "created") || same_text(state, "dead") || same_text(state, "exited")
        || same_text(state, "paused") {
        StartDecision::Start
    } else if same_text(state, "running") {
        StartDecision::AlreadyRunning
    } else {
        StartDecision::Unknown
    }
}

} // verus!
