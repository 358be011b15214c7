use seabox::args::{
    AllCommandArgs, CreateAndTempSharedArgs, CreateArgs, RemoveArgs, RestartArgs, TempArgs,
};
use seabox::commands::render_command;
use seabox::config::{BaseConfig, ConfigFileData, Context};
use seabox::identity::UidGidDecision;

fn sparse() -> BaseConfig {
    BaseConfig {
        image: None,
        sudo_command: None,
        install_sudo: None,
        no_password: None,
        unsafe_setup_passwordless_sudo: None,
    }
}

fn context() -> Context {
    Context::new(ConfigFileData { base: sparse(), image_specific: vec![] }, sparse())
}

fn shared(image: Option<&str>, root: bool, shell: Option<&str>) -> CreateAndTempSharedArgs {
    CreateAndTempSharedArgs {
        image: image.map(|s| s.to_string()),
        shell: shell.map(|s| s.to_string()),
        directory: None,
        no_dir: false,
        volume: vec![],
        pass_through: None,
        root,
        install_sudo: None,
        no_password: None,
        unsafe_setup_passwordless_sudo: None,
    }
}

const TEMPLATE: &str = "create=INSERT_CREATE_USER id=INSERT_CONTAINER_ID";

#[test]
fn create_plan_checks_collisions_then_creates_then_enters() {
    let ctx = context();
    let args = CreateArgs {
        name: "box".to_string(),
        common: shared(Some("img"), false, None),
        all: AllCommandArgs { dry_run: false, verbose: false },
    };
    let plan = ctx
        .handle_create(&args, &UidGidDecision::Known { uid: 1042, gid: 1042 }, "/w", TEMPLATE)
        .unwrap();
    assert_eq!(plan.inspect_command, vec!["sudo", "podman", "container", "inspect", "box"]);
    assert_eq!(plan.create.arguments.last().unwrap(), "/bin/sh");
    assert!(plan.create.arguments.contains(&"-d".to_string()));
    assert_eq!(plan.initial_enter_args.len(), 3);
    assert_eq!(plan.initial_enter_args[0], "/bin/sh");
    assert_eq!(plan.initial_enter_args[1], "-c");
    assert_eq!(plan.initial_enter_args[2], "create= id=1042");
}

#[test]
fn create_plan_for_missing_user_parameterizes_creation() {
    let ctx = context();
    let args = CreateArgs {
        name: "box".to_string(),
        common: shared(Some("img"), false, None),
        all: AllCommandArgs { dry_run: false, verbose: false },
    };
    let plan = ctx
        .handle_create(&args, &UidGidDecision::CreateUser, "/w", TEMPLATE)
        .unwrap();
    assert!(plan.create.create_user);
    assert_eq!(plan.create.container_uid, 1000);
    assert_eq!(plan.initial_enter_args[2], "create=1 id=1000");
}

#[test]
fn root_create_plan_skips_the_entry_script() {
    let ctx = context();
    let args = CreateArgs {
        name: "box".to_string(),
        common: shared(Some("img"), true, None),
        all: AllCommandArgs { dry_run: false, verbose: false },
    };
    let plan = ctx
        .handle_create(&args, &UidGidDecision::CreateUser, "/w", TEMPLATE)
        .unwrap();
    assert!(plan.initial_enter_args.is_empty());
    assert_eq!(plan.create.container_uid, 0);
    assert_eq!(plan.create.container_gid, 0);
}

#[test]
fn temp_plan_runs_the_script_in_the_foreground() {
    let ctx = context();
    let args = TempArgs {
        common: shared(Some("img"), false, None),
        all: AllCommandArgs { dry_run: false, verbose: false },
    };
    let plan = ctx
        .handle_temp(&args, &UidGidDecision::CreateUser, "/w", TEMPLATE)
        .unwrap();
    let n = plan.create.arguments.len();
    assert_eq!(plan.create.arguments[n - 3], "/bin/sh");
    assert_eq!(plan.create.arguments[n - 2], "-c");
    assert_eq!(plan.create.arguments[n - 1], "create=1 id=1000");
    assert!(plan.create.arguments.contains(&"--rm".to_string()));
    // The ephemeral container is unnamed: `--name` is followed by the empty
    // name, then the image.
    let name_pos = plan.create.arguments.iter().position(|a| a == "--name").unwrap();
    assert_eq!(plan.create.arguments[name_pos + 1], "");
    assert_eq!(plan.create.arguments[name_pos + 2], "img");
}

#[test]
fn root_temp_plan_runs_the_chosen_shell() {
    let ctx = context();
    let args = TempArgs {
        common: shared(Some("img"), true, Some("/bin/zsh")),
        all: AllCommandArgs { dry_run: false, verbose: false },
    };
    let plan = ctx
        .handle_temp(&args, &UidGidDecision::CreateUser, "/w", TEMPLATE)
        .unwrap();
    assert_eq!(plan.create.arguments.last().unwrap(), "/bin/zsh");
}

#[test]
fn root_temp_plan_without_shell_runs_the_probe() {
    let ctx = context();
    let args = TempArgs {
        common: shared(Some("img"), true, None),
        all: AllCommandArgs { dry_run: false, verbose: false },
    };
    let plan = ctx
        .handle_temp(&args, &UidGidDecision::CreateUser, "/w", TEMPLATE)
        .unwrap();
    let n = plan.create.arguments.len();
    assert_eq!(plan.create.arguments[n - 3], "/bin/sh");
    assert_eq!(plan.create.arguments[n - 2], "-c");
    assert_eq!(plan.create.arguments[n - 1], seabox::enter::DEFAULT_SHELL_PROBE);
}

#[test]
fn remove_plan_stops_then_deletes_each_name() {
    let ctx = context();
    let args = RemoveArgs {
        names: vec!["a".to_string(), "b".to_string()],
        all: AllCommandArgs { dry_run: false, verbose: false },
    };
    let plan = ctx.handle_remove(&args);
    assert_eq!(plan.len(), 2);
    assert_eq!(plan[0].0, vec!["sudo", "podman", "kill", "a"]);
    assert_eq!(plan[0].1, vec!["sudo", "podman", "container", "rm", "--force", "a"]);
    assert_eq!(plan[1].0, vec!["sudo", "podman", "kill", "b"]);
    assert_eq!(plan[1].1, vec!["sudo", "podman", "container", "rm", "--force", "b"]);
}

#[test]
fn restart_plan_stops_then_starts_each_name() {
    let ctx = context();
    let args = RestartArgs {
        names: vec!["a".to_string()],
        all: AllCommandArgs { dry_run: false, verbose: false },
    };
    let plan = ctx.handle_restart(&args);
    assert_eq!(plan.len(), 1);
    assert_eq!(plan[0].0, vec!["sudo", "podman", "kill", "a"]);
    assert_eq!(plan[0].1, vec!["sudo", "podman", "start", "a"]);
}

#[test]
fn dry_run_renders_the_exact_synthesized_vectors() {
    // A dry run only renders: every printed line is the shell-quoted form of
    // a synthesized argument vector, nothing else.
    let ctx = context();
    let args = CreateArgs {
        name: "box".to_string(),
        common: shared(Some("img"), true, None),
        all: AllCommandArgs { dry_run: true, verbose: false },
    };
    let plan = ctx
        .handle_create(&args, &UidGidDecision::CreateUser, "/my dir", TEMPLATE)
        .unwrap();
    let rendered = render_command(&plan.create.arguments).unwrap();
    let direct = shlex::try_join(plan.create.arguments.iter().map(|s| s.as_str())).unwrap();
    assert_eq!(rendered, direct);
    assert!(rendered.contains("source=/my dir,destination=/mount/"));
}

#[test]
fn cli_config_layer_carries_only_configuration_fields() {
    let mut common = shared(Some("img"), false, Some("/bin/zsh"));
    common.install_sudo = Some(true);
    common.no_password = Some(false);
    let cfg = common.config_layer();
    assert_eq!(cfg.image.as_deref(), Some("img"));
    assert_eq!(cfg.sudo_command, None);
    assert_eq!(cfg.install_sudo, Some(true));
    assert_eq!(cfg.no_password, Some(false));
    assert_eq!(cfg.unsafe_setup_passwordless_sudo, None);
}
