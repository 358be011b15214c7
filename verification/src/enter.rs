//! Entering a running (or stopped) container: computing the working
//! directory inside the container from the caller's current directory, and
//! the `exec` command that takes the caller there.

use vstd::prelude::*;

use crate::args::EnterArgs;
use crate::commands::{container_inspect_args, container_start_args, push_string, push_word};
use crate::config::Context;

verus! {

/// The fixed fallback command run inside a container when no shell was
/// chosen: it looks the entered user's shell up in the container's user
/// database and execs it, falling back to `/bin/bash` or `/bin/sh`.
pub const DEFAULT_SHELL_PROBE: &'static str = r###"USER=$(id -un)
SHELL_PATH=$(awk -F: -v u="$USER" '$1==u {print $7}' /etc/passwd)

if [ -z "$SHELL_PATH" ]; then
    if command -v /bin/bash >/dev/null 2>&1; then
        SHELL_PATH="/bin/bash"
    else
        SHELL_PATH="/bin/sh"
    fi
fi

export SHELL="$SHELL_PATH"
exec "$SHELL_PATH""###;

/// The default in-container command: a shell running the probe above.
pub open spec fn default_shell_model() -> Seq<Seq<char>> {
    seq!["/bin/sh"@, "-c"@, DEFAULT_SHELL_PROBE@]
}

/// Builds the default in-container command.
pub fn default_shell_command() -> (r: Vec<String>)
    ensures
        r.deep_view() == default_shell_model(),
{
    let mut v: Vec<String> = Vec::new();
    push_word(&mut v, "/bin/sh");
    push_word(&mut v, "-c");
    push_word(&mut v, DEFAULT_SHELL_PROBE);
    proof {
        assert(v.deep_view() =~= default_shell_model());
    }
    v
}

/// What a container's recorded primary mount and the caller's current
/// directory say about where to land inside the container: the current
/// directory's path relative to the mount source, or nothing when the
/// current directory does not lie inside the mount source (entering then
/// lands at the mount root rather than failing). Paths are compared as
/// recorded, without a trailing separator.
pub open spec fn rel_subpath(source: Seq<char>, cwd: Seq<char>) -> Seq<char> {
    if cwd == source {
        Seq::empty()
    } else if source.len() < cwd.len() && cwd.subrange(0, source.len() as int) == source && cwd[
        source.len() as int
    ] == '/' {
        cwd.skip(source.len() as int + 1)
    } else {
        Seq::empty()
    }
}

/// Computes the in-container subpath, as `rel_subpath` describes.
pub fn relative_subpath(mount_source: &str, current_dir: &str) -> (r: String)
    ensures
        r@ == rel_subpath(mount_source@, current_dir@),
{
    let ns = mount_source.unicode_len();
    let nc = current_dir.unicode_len();
    let src_owned = mount_source.to_owned();
    let cwd_owned = current_dir.to_owned();
    if src_owned.eq(&cwd_owned) {
        return String::new();
    }
    if ns < nc {
        let prefix = current_dir.substring_char(0, ns).to_owned();
        if prefix.eq(&src_owned) && current_dir.get_char(ns) == '/' {
            let rest = current_dir.substring_char(ns + 1, nc).to_owned();
            proof {
                assert(current_dir@.subrange(ns + 1, nc as int) =~= current_dir@.skip(ns + 1));
            }
            return rest;
        }
    }
    String::new()
}

/// What a container inspection reports, as far as entering needs it: the
/// source of its first recorded mount, whether it is running, and its
/// configured user.
pub struct ContainerInfo {
    pub mount_source: String,
    pub running: bool,
    pub user: String,
}

/// Everything the enter operation will do, synthesized ahead of execution:
/// inspect, start when the container is not running, then exec.
pub struct EnterPlan {
    pub inspect_command: Vec<String>,
    pub start_command: Vec<String>,
    pub enter_command: Vec<String>,
    pub needs_start: bool,
}

/// The user entered as: an explicitly requested one, else the container's
/// configured user.
pub open spec fn chosen_user(requested: Option<Seq<char>>, configured: Seq<char>) -> Seq<char> {
    if requested is Some {
        requested->0
    } else {
        configured
    }
}

/// The in-container command: explicitly appended arguments win, then a
/// chosen shell, then the default shell probe.
pub open spec fn chosen_shell_command(
    append: Seq<Seq<char>>,
    shell: Option<Seq<char>>,
) -> Seq<Seq<char>> {
    if append.len() > 0 {
        append
    } else if shell is Some {
        seq![shell->0]
    } else {
        default_shell_model()
    }
}

/// Arguments of the interactive `exec` that enters a container: the working
/// directory is the mount root plus the relative subpath.
pub open spec fn enter_args(
    sudo: Seq<char>,
    user: Seq<char>,
    name: Seq<char>,
    relative_path: Seq<char>,
    exec_command: Seq<Seq<char>>,
) -> Seq<Seq<char>> {
    seq![
        sudo,
        "podman"@,
        "exec"@,
        "-it"@,
        "-w"@,
        "/mount/"@ + relative_path,
        "--user"@,
        user,
        name,
    ] + exec_command
}

impl Context {
    /// The interactive `exec` command entering a named container as a given
    /// user, in the given subdirectory of the mount root, running the given
    /// command.
    pub fn generate_container_enter_command(
        &self,
        user: &str,
        name: &str,
        exec_command: Vec<String>,
        relative_path: &str,
    ) -> (r: Vec<String>)
        ensures
            r.deep_view() == enter_args(
                self.config@.sudo_command,
                user@,
                name@,
                relative_path@,
                exec_command.deep_view(),
            ),
    {
        let mut dir = "/mount/".to_owned();
        dir.append(relative_path);
        let mut v: Vec<String> = Vec::new();
        push_string(&mut v, self.config.sudo_command.clone());
        push_word(&mut v, "podman");
        push_word(&mut v, "exec");
        push_word(&mut v, "-it");
        push_word(&mut v, "-w");
        push_string(&mut v, dir);
        push_word(&mut v, "--user");
        push_word(&mut v, user);
        push_word(&mut v, name);
        let ghost head = v.deep_view();
        let ghost cmd = exec_command.deep_view();
        let mut exec_command = exec_command;
        v.append(&mut exec_command);
        proof {
            assert(v.deep_view() =~= head + cmd);
            assert(v.deep_view() =~= enter_args(
                self.config@.sudo_command,
                user@,
                name@,
                relative_path@,
                cmd,
            ));
        }
        v
    }

    /// Synthesizes the whole enter operation from what inspection reported:
    /// the container is started first exactly when it is not running, and
    /// the exec lands in the caller's subdirectory of the mount (or at the
    /// mount root when the caller stands outside it), as the resolved user,
    /// running the appended arguments, the chosen shell, or the default
    /// probe, in that order of preference.
    pub fn enter_container(
        &self,
        name: &str,
        username: Option<&String>,
        shell: Option<&String>,
        info: &ContainerInfo,
        current_dir: &str,
        append_args: Vec<String>,
    ) -> (r: EnterPlan)
        ensures
            r.inspect_command.deep_view() == container_inspect_args(
                self.config@.sudo_command,
                name@,
            ),
            r.start_command.deep_view() == container_start_args(self.config@.sudo_command, name@),
            r.needs_start == !info.running,
            r.enter_command.deep_view() == enter_args(
                self.config@.sudo_command,
                chosen_user(username.deep_view(), info.user@),
                name@,
                rel_subpath(info.mount_source@, current_dir@),
                chosen_shell_command(append_args.deep_view(), shell.deep_view()),
            ),
    {
        let shell_command: Vec<String> = if append_args.len() > 0 {
            append_args
        } else {
            match shell {
                Some(s) => {
                    let mut v: Vec<String> = Vec::new();
                    push_string(&mut v, s.clone());
                    proof {
                        assert(v.deep_view() =~= seq![s@]);
                    }
                    v
                },
                None => default_shell_command(),
            }
        };
        let inspect_command = self.generate_container_inspect_command(name);
        let start_command = self.generate_container_start_command(name);
        let rel = relative_subpath(info.mount_source.as_str(), current_dir);
        let user: String = match username {
            Some(u) => u.clone(),
            None => info.user.clone(),
        };
        let enter_command = self.generate_container_enter_command(
            user.as_str(),
            name,
            shell_command,
            rel.as_str(),
        );
        EnterPlan { inspect_command, start_command, enter_command, needs_start: !info.running }
    }

    /// The enter command's whole plan: `enter_container` with nothing
    /// appended.
    pub fn handle_enter(&self, args: &EnterArgs, info: &ContainerInfo, current_dir: &str) -> (r:
        EnterPlan)
        ensures
            r.inspect_command.deep_view() == container_inspect_args(
                self.config@.sudo_command,
                args.name@,
            ),
            r.start_command.deep_view() == container_start_args(
                self.config@.sudo_command,
                args.name@,
            ),
            r.needs_start == !info.running,
            r.enter_command.deep_view() == enter_args(
                self.config@.sudo_command,
                chosen_user(args.user.deep_view(), info.user@),
                args.name@,
                rel_subpath(info.mount_source@, current_dir@),
                chosen_shell_command(Seq::empty(), args.shell.deep_view()),
            ),
    {
        let append: Vec<String> = Vec::new();
        proof {
            assert(append.deep_view() =~= Seq::<Seq<char>>::empty());
        }
        self.enter_container(
            args.name.as_str(),
            args.user.as_ref(),
            args.shell.as_ref(),
            info,
            current_dir,
            append,
        )
    }
}

} // verus!
