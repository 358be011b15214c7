//! Whole-operation plans: everything a command will run, synthesized before
//! anything runs. The caller executes the commands in order (or, on a dry
//! run, renders them and runs nothing).

use vstd::prelude::*;

use crate::args::{CreateArgs, RemoveArgs, RestartArgs, TempArgs};
use crate::commands::{
    container_delete_args, container_inspect_args, container_start_args, container_stop_args,
    create_args, decided_gid, decided_uid, mount_pairs, pass_words, push_string, push_word,
    CreateCommand,
};
use crate::config::{resolved_image, Context};
use crate::enter::{chosen_shell_command, default_shell_command};
use crate::errors::Error;
use crate::identity::UidGidDecision;
use crate::script::{create_initial_enter_script, enter_script_model};
use crate::text::split_char;

verus! {

/// The account name created inside a container when none exists yet.
pub const NEW_USER_USERNAME: &'static str = "user";

/// The plan of the persistent-create command: check for a name collision by
/// inspecting, create the container (its command ends with the detached
/// `/bin/sh`), then enter it as root running the parameterized entry script
/// (no script in root mode, where no user is set up).
pub struct CreatePlan {
    pub inspect_command: Vec<String>,
    pub create: CreateCommand,
    pub initial_enter_args: Vec<String>,
}

/// The plan of the ephemeral-create command: one auto-removing run whose
/// foreground command is the parameterized entry script, or the chosen (or
/// default) shell in root mode.
pub struct TempPlan {
    pub create: CreateCommand,
}

impl Context {
    /// Synthesizes the persistent-create plan. Fails as the create-command
    /// synthesis does: when no image can be determined, or on the first
    /// malformed mount specifier.
    pub fn handle_create(
        &self,
        args: &CreateArgs,
        identity: &UidGidDecision,
        current_dir: &str,
        script_template: &str,
    ) -> (r: Result<CreatePlan, Error>)
        ensures
            resolved_image(args.common.image.deep_view(), self.config@.image) is None <==> (r
                matches Err(e) && e == Error::NoImage),
            r matches Err(Error::MountFormat { index }) ==> ({
                let specs = args.common.volume.deep_view();
                &&& resolved_image(args.common.image.deep_view(), self.config@.image) is Some
                &&& 0 <= index < specs.len()
                &&& split_char(specs[index as int], ':').len() != 2
                &&& forall|j: int|
                    0 <= j < index ==> split_char(#[trigger] specs[j], ':').len() == 2
            }),
            (resolved_image(args.common.image.deep_view(), self.config@.image) is Some && (forall|
                j: int,
            |
                0 <= j < args.common.volume.deep_view().len() ==> split_char(
                    #[trigger] args.common.volume.deep_view()[j],
                    ':',
                ).len() == 2)) <==> r is Ok,
            r matches Ok(p) ==> ({
                let resolved = resolved_image(args.common.image.deep_view(), self.config@.image);
                &&& resolved is Some
                &&& p.inspect_command.deep_view() == container_inspect_args(
                    self.config@.sudo_command,
                    args.name@,
                )
                &&& p.create.image@ == resolved->0
                &&& p.create.create_user == (!args.common.root && identity is CreateUser)
                &&& p.create.container_uid as int == decided_uid(args.common.root, *identity)
                &&& p.create.container_gid as int == decided_gid(args.common.root, *identity)
                &&& p.create.arguments.deep_view() == create_args(
                    self.config@.sudo_command,
                    resolved->0,
                    args.name@,
                    args.common.root,
                    false,
                    p.create.host_uid as int,
                    p.create.host_gid as int,
                    p.create.container_uid as int,
                    p.create.container_gid as int,
                    pass_words(args.common.pass_through.deep_view()),
                    current_dir@,
                    args.common.no_dir,
                    mount_pairs(args.common.volume.deep_view()),
                ).push("/bin/sh"@)
                &&& p.initial_enter_args.deep_view() == (if args.common.root {
                    Seq::<Seq<char>>::empty()
                } else {
                    seq![
                        "/bin/sh"@,
                        "-c"@,
                        enter_script_model(
                            script_template@,
                            p.create.create_user,
                            NEW_USER_USERNAME@,
                            p.create.container_uid as int,
                            self.config@.unsafe_setup_passwordless_sudo,
                            self.config@.no_password,
                            self.config@.install_sudo,
                            args.common.shell.deep_view(),
                            args.all.verbose,
                        ),
                    ]
                })
            }),
    {
        let image_opt: Option<String> = match &args.common.image {
            Some(x) => Some(x.clone()),
            None => None,
        };
        let mut create = match self.generate_create_container_command(
            image_opt,
            args.name.as_str(),
            args.common.root,
            false,
            args.common.pass_through.as_ref(),
            current_dir,
            args.common.no_dir,
            &args.common.volume,
            identity,
        ) {
            Ok(c) => c,
            Err(e) => {
                return Err(e);
            },
        };
        push_word(&mut create.arguments, "/bin/sh");
        let inspect_command = self.generate_container_inspect_command(args.name.as_str());
        let initial_enter_args: Vec<String> = if !args.common.root {
            let script = create_initial_enter_script(
                script_template,
                create.create_user,
                NEW_USER_USERNAME,
                create.container_uid,
                self.config.unsafe_setup_passwordless_sudo,
                self.config.no_password,
                self.config.install_sudo,
                args.common.shell.as_ref(),
                args.all.verbose,
            );
            let mut v: Vec<String> = Vec::new();
            push_word(&mut v, "/bin/sh");
            push_word(&mut v, "-c");
            push_string(&mut v, script);
            proof {
                assert(v.deep_view() =~= seq![
                    "/bin/sh"@,
                    "-c"@,
                    enter_script_model(
                        script_template@,
                        create.create_user,
                        NEW_USER_USERNAME@,
                        create.container_uid as int,
                        self.config@.unsafe_setup_passwordless_sudo,
                        self.config@.no_password,
                        self.config@.install_sudo,
                        args.common.shell.deep_view(),
                        args.all.verbose,
                    ),
                ]);
            }
            v
        } else {
            let v: Vec<String> = Vec::new();
            proof {
                assert(v.deep_view() =~= Seq::<Seq<char>>::empty());
            }
            v
        };
        Ok(CreatePlan { inspect_command, create, initial_enter_args })
    }

    /// Synthesizes the ephemeral-create plan: the create command (unnamed,
    /// auto-removing) with the in-container foreground command appended —
    /// the parameterized entry script, or in root mode the chosen shell or
    /// the default probe. Fails as the create-command synthesis does.
    pub fn handle_temp(
        &self,
        args: &TempArgs,
        identity: &UidGidDecision,
        current_dir: &str,
        script_template: &str,
    ) -> (r: Result<TempPlan, Error>)
        ensures
            resolved_image(args.common.image.deep_view(), self.config@.image) is None <==> (r
                matches Err(e) && e == Error::NoImage),
            r matches Err(Error::MountFormat { index }) ==> ({
                let specs = args.common.volume.deep_view();
                &&& resolved_image(args.common.image.deep_view(), self.config@.image) is Some
                &&& 0 <= index < specs.len()
                &&& split_char(specs[index as int], ':').len() != 2
                &&& forall|j: int|
                    0 <= j < index ==> split_char(#[trigger] specs[j], ':').len() == 2
            }),
            (resolved_image(args.common.image.deep_view(), self.config@.image) is Some && (forall|
                j: int,
            |
                0 <= j < args.common.volume.deep_view().len() ==> split_char(
                    #[trigger] args.common.volume.deep_view()[j],
                    ':',
                ).len() == 2)) <==> r is Ok,
            r matches Ok(p) ==> ({
                let resolved = resolved_image(args.common.image.deep_view(), self.config@.image);
                &&& resolved is Some
                &&& p.create.image@ == resolved->0
                &&& p.create.create_user == (!args.common.root && identity is CreateUser)
                &&& p.create.container_uid as int == decided_uid(args.common.root, *identity)
                &&& p.create.container_gid as int == decided_gid(args.common.root, *identity)
                &&& p.create.arguments.deep_view() == create_args(
                    self.config@.sudo_command,
                    resolved->0,
                    ""@,
                    args.common.root,
                    true,
                    p.create.host_uid as int,
                    p.create.host_gid as int,
                    p.create.container_uid as int,
                    p.create.container_gid as int,
                    pass_words(args.common.pass_through.deep_view()),
                    current_dir@,
                    args.common.no_dir,
                    mount_pairs(args.common.volume.deep_view()),
                ) + (if args.common.root {
                    chosen_shell_command(Seq::empty(), args.common.shell.deep_view())
                } else {
                    seq![
                        "/bin/sh"@,
                        "-c"@,
                        enter_script_model(
                            script_template@,
                            p.create.create_user,
                            NEW_USER_USERNAME@,
                            p.create.container_uid as int,
                            self.config@.unsafe_setup_passwordless_sudo,
                            self.config@.no_password,
                            self.config@.install_sudo,
                            args.common.shell.deep_view(),
                            args.all.verbose,
                        ),
                    ]
                })
            }),
    {
        let image_opt: Option<String> = match &args.common.image {
            Some(x) => Some(x.clone()),
            None => None,
        };
        let empty_name = "";
        proof {
            reveal_strlit("");
            assert(empty_name@ =~= Seq::<char>::empty());
            assert(""@ =~= Seq::<char>::empty());
        }
        let mut create = match self.generate_create_container_command(
            image_opt,
            empty_name,
            args.common.root,
            true,
            args.common.pass_through.as_ref(),
            current_dir,
            args.common.no_dir,
            &args.common.volume,
            identity,
        ) {
            Ok(c) => c,
            Err(e) => {
                return Err(e);
            },
        };
        let ghost base = create.arguments.deep_view();
        let mut user_command: Vec<String> = if !args.common.root {
            let script = create_initial_enter_script(
                script_template,
                create.create_user,
                NEW_USER_USERNAME,
                create.container_uid,
                self.config.unsafe_setup_passwordless_sudo,
                self.config.no_password,
                self.config.install_sudo,
                args.common.shell.as_ref(),
                args.all.verbose,
            );
            let mut v: Vec<String> = Vec::new();
            push_word(&mut v, "/bin/sh");
            push_word(&mut v, "-c");
            push_string(&mut v, script);
            v
        } else {
            match &args.common.shell {
                Some(s) => {
                    let mut v: Vec<String> = Vec::new();
                    push_string(&mut v, s.clone());
                    proof {
                        assert(v.deep_view() =~= seq![s@]);
                    }
                    v
                },
                None => default_shell_command(),
            }
        };
        let ghost tail = user_command.deep_view();
        create.arguments.append(&mut user_command);
        proof {
            assert(create.arguments.deep_view() =~= base + tail);
        }
        Ok(TempPlan { create })
    }

    /// The remove command's plan: for each name, stop (kill) it, then
    /// delete it forcibly.
    pub fn handle_remove(&self, args: &RemoveArgs) -> (r: Vec<(Vec<String>, Vec<String>)>)
        ensures
            r@.len() == args.names@.len(),
            forall|i: int|
                0 <= i < r@.len() ==> (#[trigger] r@[i]).0.deep_view() == container_stop_args(
                    self.config@.sudo_command,
                    args.names.deep_view()[i],
                ) && r@[i].1.deep_view() == container_delete_args(
                    self.config@.sudo_command,
                    args.names.deep_view()[i],
                ),
    {
        let n = args.names.len();
        let mut r: Vec<(Vec<String>, Vec<String>)> = Vec::new();
        let mut i: usize = 0;
        while i < n
            invariant
                0 <= i <= n == args.names@.len(),
                r@.len() == i,
                forall|j: int|
                    0 <= j < i ==> (#[trigger] r@[j]).0.deep_view() == container_stop_args(
                        self.config@.sudo_command,
                        args.names.deep_view()[j],
                    ) && r@[j].1.deep_view() == container_delete_args(
                        self.config@.sudo_command,
                        args.names.deep_view()[j],
                    ),
            decreases n - i,
        {
            let name = &args.names[i];
            let stop = self.generate_container_stop_command(name.as_str());
            let delete = self.generate_container_delete_command(name.as_str());
            r.push((stop, delete));
            i = i + 1;
        }
        r
    }

    /// The restart command's plan: for each name, stop (kill) it, then
    /// start it again.
    pub fn handle_restart(&self, args: &RestartArgs) -> (r: Vec<(Vec<String>, Vec<String>)>)
        ensures
            r@.len() == args.names@.len(),
            forall|i: int|
                0 <= i < r@.len() ==> (#[trigger] r@[i]).0.deep_view() == container_stop_args(
                    self.config@.sudo_command,
                    args.names.deep_view()[i],
                ) && r@[i].1.deep_view() == container_start_args(
                    self.config@.sudo_command,
                    args.names.deep_view()[i],
                ),
    {
        let n = args.names.len();
        let mut r: Vec<(Vec<String>, Vec<String>)> = Vec::new();
        let mut i: usize = 0;
        while i < n
            invariant
                0 <= i <= n == args.names@.len(),
                r@.len() == i,
                forall|j: int|
                    0 <= j < i ==> (#[trigger] r@[j]).0.deep_view() == container_stop_args(
                        self.config@.sudo_command,
                        args.names.deep_view()[j],
                    ) && r@[j].1.deep_view() == container_start_args(
                        self.config@.sudo_command,
                        args.names.deep_view()[j],
                    ),
            decreases n - i,
        {
            let name = &args.names[i];
            let stop = self.generate_container_stop_command(name.as_str());
            let start = self.generate_container_start_command(name.as_str());
            r.push((stop, start));
            i = i + 1;
        }
        r
    }
}

} // verus!
