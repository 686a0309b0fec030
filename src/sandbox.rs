//! The two execution modes: a pre-built image run by logical name with
//! command-line arguments, and an ad-hoc script run against a fixed
//! interpreter image with file-based input and output.

use vstd::prelude::*;
use crate::naming::{container_name, image_tag, is_token, make_container_name, make_image_tag, fresh_token};
use crate::registry::{ImageRegistry, UnknownImageError};
use crate::runner::{ContainerConfig, ContainerRun, RunModel};

verus! {

/// The time budget of every run, in milliseconds.
pub const RUN_TIMEOUT_MS: u64 = 5000;

/// The image that script runs use.
pub open spec fn interpreter_image() -> Seq<char> {
    "python:latest"@
}

/// The image of the greeting run.
pub open spec fn greeting_image() -> Seq<char> {
    "hello-world"@
}

/// Where a script run's workspace is mounted inside the container.
pub open spec fn mount_point() -> Seq<char> {
    "/sandbox"@
}

/// The shell line of a script run: the interpreter reads the source from
/// the mounted workspace and writes its standard output to the output file
/// there.
pub open spec fn script_shell_line() -> Seq<char> {
    "python3 /sandbox/python-code.py > /sandbox/output.txt"@
}

/// The bind mount that puts workspace `dir` read-write at the mount point.
pub open spec fn workspace_bind(dir: Seq<char>) -> Seq<char> {
    dir + ":/sandbox:rw"@
}

/// `command` has the shell run the script shell line.
pub open spec fn is_script_command(command: Seq<String>) -> bool {
    &&& command.len() == 3
    &&& command[0]@ == "sh"@
    &&& command[1]@ == "-c"@
    &&& command[2]@ == script_shell_line()
}

/// The command vector of a script run.
pub fn script_command() -> (r: Vec<String>)
    ensures
        is_script_command(r@),
{
    let mut command: Vec<String> = Vec::new();
    command.push(String::from_str("sh"));
    command.push(String::from_str("-c"));
    command.push(String::from_str("python3 /sandbox/python-code.py > /sandbox/output.txt"));
    command
}

/// The run of the image registered under `name` with `args` as its
/// command, in a container named with `token`.
pub fn named_image_config(registry: &ImageRegistry, name: &str, args: Vec<String>, token: &str) -> (r:
    Result<ContainerConfig, UnknownImageError>)
    requires
        registry.wf(),
    ensures
        match registry.image_for(name@) {
            Some(image) => r is Ok && {
                let c = r->Ok_0;
                &&& c.name@ == container_name(name@, token@)
                &&& c.image@ == image.tag@
                &&& c.command@ == args@
                &&& c.binds@.len() == 0
                &&& c.timeout_ms == RUN_TIMEOUT_MS
            },
            None => r is Err && r->Err_0.name@ == name@,
        },
{
    match registry.lookup(name) {
        Ok(image) => Ok(
            ContainerConfig {
                name: make_container_name(name, token),
                image: image.tag.clone(),
                command: args,
                binds: Vec::new(),
                timeout_ms: RUN_TIMEOUT_MS,
            },
        ),
        Err(e) => Err(e),
    }
}

/// The run of a script whose workspace is `dir`, in a container named
/// with `token`.
pub fn script_config(dir: &str, token: &str) -> (r: ContainerConfig)
    ensures
        r.name@ == container_name("python"@, token@),
        r.image@ == interpreter_image(),
        is_script_command(r.command@),
        r.binds@.len() == 1,
        r.binds@[0]@ == workspace_bind(dir@),
        r.timeout_ms == RUN_TIMEOUT_MS,
{
    let mut binds: Vec<String> = Vec::new();
    binds.push(String::from_str(dir).concat(":/sandbox:rw"));
    ContainerConfig {
        name: make_container_name("python", token),
        image: String::from_str("python:latest"),
        command: script_command(),
        binds,
        timeout_ms: RUN_TIMEOUT_MS,
    }
}

/// The run of the greeting image with its default command, in a container
/// named with `token`.
pub fn hello_config(token: &str) -> (r: ContainerConfig)
    ensures
        r.name@ == container_name("hello-world"@, token@),
        r.image@ == greeting_image(),
        r.command@.len() == 0,
        r.binds@.len() == 0,
        r.timeout_ms == RUN_TIMEOUT_MS,
{
    ContainerConfig {
        name: make_container_name("hello-world", token),
        image: String::from_str("hello-world"),
        command: Vec::new(),
        binds: Vec::new(),
        timeout_ms: RUN_TIMEOUT_MS,
    }
}

/// Starts a run of the image registered under `name`, in a freshly named
/// container; fails exactly when no image has that name.
pub fn start_named_run(registry: &ImageRegistry, name: &str, args: Vec<String>) -> (r: Result<
    ContainerRun,
    UnknownImageError,
>)
    requires
        registry.wf(),
    ensures
        match registry.image_for(name@) {
            Some(image) => r is Ok && {
                let run = r->Ok_0;
                &&& run@ == RunModel::initial(RUN_TIMEOUT_MS)
                &&& exists|t: Seq<char>|
                    is_token(t) && run.config().name@ == #[trigger] container_name(name@, t)
                &&& run.config().image@ == image.tag@
                &&& run.config().command@ == args@
                &&& run.config().binds@.len() == 0
            },
            None => r is Err && r->Err_0.name@ == name@,
        },
{
    let token = fresh_token();
    match named_image_config(registry, name, args, token.as_str()) {
        Ok(config) => Ok(ContainerRun::new(config)),
        Err(e) => Err(e),
    }
}

/// Starts a run of the greeting image in a freshly named container.
pub fn start_hello_run() -> (r: ContainerRun)
    ensures
        r@ == RunModel::initial(RUN_TIMEOUT_MS),
        exists|t: Seq<char>|
            is_token(t) && r.config().name@ == #[trigger] container_name("hello-world"@, t),
        r.config().image@ == greeting_image(),
        r.config().command@.len() == 0,
{
    let token = fresh_token();
    ContainerRun::new(hello_config(token.as_str()))
}

/// A fresh tag for building the image of `name`.
pub fn fresh_image_tag(name: &str) -> (r: String)
    ensures
        exists|t: Seq<char>| is_token(t) && r@ == #[trigger] image_tag(name@, t),
{
    let token = fresh_token();
    make_image_tag(name, token.as_str())
}

} // verus!
