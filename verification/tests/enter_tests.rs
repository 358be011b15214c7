use seabox::args::{AllCommandArgs, EnterArgs};
use seabox::config::{BaseConfig, ConfigFileData, Context};
use seabox::enter::{relative_subpath, ContainerInfo, DEFAULT_SHELL_PROBE};

fn sparse() -> BaseConfig {
    BaseConfig {
        image: None,
        sudo_command: None,
        install_sudo: None,
        no_password: None,
        unsafe_setup_passwordless_sudo: None,
    }
}

fn context() -> Context {
    Context::new(ConfigFileData { base: sparse(), image_specific: vec![] }, sparse())
}

#[test]
fn subdirectory_yields_its_relative_path() {
    assert_eq!(relative_subpath("/home/u/proj", "/home/u/proj/sub"), "sub");
    assert_eq!(relative_subpath("/home/u/proj", "/home/u/proj/sub/deeper"), "sub/deeper");
}

#[test]
fn unrelated_directory_yields_the_empty_path() {
    assert_eq!(relative_subpath("/home/u/proj", "/tmp/elsewhere"), "");
}

#[test]
fn the_mount_source_itself_yields_the_empty_path() {
    assert_eq!(relative_subpath("/home/u/proj", "/home/u/proj"), "");
}

#[test]
fn a_sibling_with_a_shared_name_prefix_is_not_inside() {
    assert_eq!(relative_subpath("/home/u/pro", "/home/u/proj"), "");
    assert_eq!(relative_subpath("/home/u/proj", "/home/u/project/sub"), "");
}

#[test]
fn default_shell_command_is_the_probe() {
    let cmd = seabox::enter::default_shell_command();
    assert_eq!(cmd.len(), 3);
    assert_eq!(cmd[0], "/bin/sh");
    assert_eq!(cmd[1], "-c");
    assert_eq!(cmd[2], DEFAULT_SHELL_PROBE);
}

#[test]
fn enter_command_lands_in_the_callers_subdirectory() {
    let ctx = context();
    let info = ContainerInfo {
        mount_source: "/home/u/proj".to_string(),
        running: true,
        user: "dev".to_string(),
    };
    let args = EnterArgs {
        name: "box".to_string(),
        user: None,
        shell: None,
        all: AllCommandArgs { dry_run: false, verbose: false },
    };
    let plan = ctx.handle_enter(&args, &info, "/home/u/proj/sub");
    assert!(!plan.needs_start);
    assert_eq!(plan.inspect_command, vec!["sudo", "podman", "container", "inspect", "box"]);
    assert_eq!(plan.start_command, vec!["sudo", "podman", "start", "box"]);
    let expected_head = vec![
        "sudo",
        "podman",
        "exec",
        "-it",
        "-w",
        "/mount/sub",
        "--user",
        "dev",
        "box",
        "/bin/sh",
        "-c",
    ];
    assert_eq!(&plan.enter_command[..11], &expected_head[..]);
    assert_eq!(plan.enter_command[11], DEFAULT_SHELL_PROBE);
}

#[test]
fn enter_prefers_requested_user_and_shell() {
    let ctx = context();
    let info = ContainerInfo {
        mount_source: "/p".to_string(),
        running: false,
        user: "dev".to_string(),
    };
    let args = EnterArgs {
        name: "box".to_string(),
        user: Some("root".to_string()),
        shell: Some("/bin/zsh".to_string()),
        all: AllCommandArgs { dry_run: false, verbose: false },
    };
    let plan = ctx.handle_enter(&args, &info, "/elsewhere");
    assert!(plan.needs_start);
    assert_eq!(
        plan.enter_command,
        vec!["sudo", "podman", "exec", "-it", "-w", "/mount/", "--user", "root", "box", "/bin/zsh"]
    );
}

#[test]
fn appended_arguments_replace_the_shell() {
    let ctx = context();
    let info = ContainerInfo {
        mount_source: "/p".to_string(),
        running: true,
        user: "dev".to_string(),
    };
    let plan = ctx.enter_container(
        "box",
        Some(&"root".to_string()),
        Some(&"/bin/zsh".to_string()),
        &info,
        "/p",
        vec!["/bin/sh".to_string(), "-c".to_string(), "echo hi".to_string()],
    );
    assert_eq!(
        plan.enter_command,
        vec![
            "sudo", "podman", "exec", "-it", "-w", "/mount/", "--user", "root", "box", "/bin/sh",
            "-c", "echo hi"
        ]
    );
}
