use seabox::commands::{idmap_expression, parse_mount_specifier, render_command};
use seabox::config::{BaseConfig, ConfigFileData, Context};
use seabox::errors::Error;
use seabox::identity::UidGidDecision;

fn sparse() -> BaseConfig {
    BaseConfig {
        image: None,
        sudo_command: None,
        install_sudo: None,
        no_password: None,
        unsafe_setup_passwordless_sudo: None,
    }
}

fn context() -> Context {
    Context::new(ConfigFileData { base: sparse(), image_specific: vec![] }, sparse())
}

#[test]
fn simple_commands_are_exact() {
    let ctx = context();
    assert_eq!(
        ctx.generate_container_inspect_command("box"),
        vec!["sudo", "podman", "container", "inspect", "box"]
    );
    assert_eq!(
        ctx.generate_image_inspect_command("img"),
        vec!["sudo", "podman", "image", "inspect", "img"]
    );
    assert_eq!(ctx.generate_image_pull_command("img"), vec!["sudo", "podman", "pull", "img"]);
    assert_eq!(
        ctx.generate_cat_etc_password_command("img"),
        vec!["sudo", "podman", "run", "--rm", "--entrypoint", "cat", "img", "/etc/passwd"]
    );
    assert_eq!(
        ctx.generate_list_containers_command(),
        vec!["sudo", "podman", "ps", "--all", "--filter", "label=seabox=true"]
    );
    assert_eq!(ctx.generate_container_stop_command("box"), vec!["sudo", "podman", "kill", "box"]);
    assert_eq!(
        ctx.generate_container_delete_command("box"),
        vec!["sudo", "podman", "container", "rm", "--force", "box"]
    );
    assert_eq!(ctx.generate_container_start_command("box"), vec!["sudo", "podman", "start", "box"]);
}

#[test]
fn configured_sudo_command_prefixes_commands() {
    let mut base = sparse();
    base.sudo_command = Some("doas".to_string());
    let ctx = Context::new(ConfigFileData { base, image_specific: vec![] }, sparse());
    assert_eq!(ctx.generate_image_pull_command("img"), vec!["doas", "podman", "pull", "img"]);
}

#[test]
fn root_idmap_is_the_fixed_wide_mapping() {
    assert_eq!(idmap_expression(true, 7, 8, 9, 10), "0-0-2000;gids=0-0-2000");
}

#[test]
fn non_root_idmap_maps_host_to_container_ids() {
    assert_eq!(
        idmap_expression(false, 1001, 1042, 1001, 1042),
        "1001-1042-1#0-0-1;gids=1001-1042-1#0-0-1"
    );
}

#[test]
fn mount_specifier_needs_exactly_two_fields() {
    let (host, container) = parse_mount_specifier("/a/b:/c/d").unwrap();
    assert_eq!(host, "/a/b");
    assert_eq!(container, "/c/d");
    assert_eq!(parse_mount_specifier("/a/b"), None);
    assert_eq!(parse_mount_specifier("/a:/b:/c"), None);
    // Exactly two fields is the whole rule: empty fields pass it.
    assert_eq!(parse_mount_specifier("a:"), Some(("a".to_string(), "".to_string())));
    assert_eq!(parse_mount_specifier(":"), Some(("".to_string(), "".to_string())));
}

#[test]
fn create_command_is_exact_for_known_identity() {
    let ctx = context();
    let created = ctx
        .generate_create_container_command(
            Some("img".to_string()),
            "test",
            false,
            false,
            None,
            "/work",
            false,
            &vec!["/a/b:/c/d".to_string()],
            &UidGidDecision::Known { uid: 1042, gid: 1042 },
        )
        .unwrap();
    assert!(!created.create_user);
    assert_eq!(created.container_uid, 1042);
    assert_eq!(created.container_gid, 1042);
    assert_eq!(created.image, "img");
    let idmap = format!(
        "{}-1042-1#0-0-1;gids={}-1042-1#0-0-1",
        created.host_uid, created.host_gid
    );
    let expected: Vec<String> = vec![
        "sudo".to_string(),
        "podman".to_string(),
        "run".to_string(),
        "--label".to_string(),
        "seabox=true".to_string(),
        "--privileged".to_string(),
        "-it".to_string(),
        "-d".to_string(),
        "--network".to_string(),
        "host".to_string(),
        "--hostname".to_string(),
        "seabox-test".to_string(),
        "--add-host".to_string(),
        "seabox-test:127.0.0.1".to_string(),
        "-u".to_string(),
        "1042:1042".to_string(),
        "--passwd=false".to_string(),
        "-w".to_string(),
        "/mount/".to_string(),
        "--mount".to_string(),
        format!("type=bind,source=/work,destination=/mount/,idmap=uids={}", idmap),
        "--mount".to_string(),
        format!("type=bind,source=/a/b,destination=/c/d,idmap=uids={}", idmap),
        "--name".to_string(),
        "test".to_string(),
        "img".to_string(),
    ];
    assert_eq!(created.arguments, expected);
}

#[test]
fn additional_mount_shares_the_primary_idmap() {
    let ctx = context();
    let created = ctx
        .generate_create_container_command(
            Some("img".to_string()),
            "t",
            true,
            false,
            None,
            "/w",
            false,
            &vec!["/a/b:/c/d".to_string()],
            &UidGidDecision::CreateUser,
        )
        .unwrap();
    let mounts: Vec<&String> = created
        .arguments
        .iter()
        .filter(|a| a.starts_with("type=bind,"))
        .collect();
    assert_eq!(mounts.len(), 2);
    assert_eq!(
        mounts[0].as_str(),
        "type=bind,source=/w,destination=/mount/,idmap=uids=0-0-2000;gids=0-0-2000"
    );
    assert_eq!(
        mounts[1].as_str(),
        "type=bind,source=/a/b,destination=/c/d,idmap=uids=0-0-2000;gids=0-0-2000"
    );
}

#[test]
fn malformed_mount_aborts_creation() {
    let ctx = context();
    let r = ctx.generate_create_container_command(
        Some("img".to_string()),
        "t",
        true,
        false,
        None,
        "/w",
        false,
        &vec!["/ok:/fine".to_string(), "bad".to_string()],
        &UidGidDecision::CreateUser,
    );
    match r {
        Err(Error::MountFormat { index }) => assert_eq!(index, 1),
        _ => panic!("a one-field mount specifier must be rejected"),
    }
}

#[test]
fn missing_image_aborts_creation() {
    let ctx = context();
    let r = ctx.generate_create_container_command(
        None,
        "t",
        true,
        false,
        None,
        "/w",
        false,
        &vec![],
        &UidGidDecision::CreateUser,
    );
    match r {
        Err(e) => assert_eq!(e, Error::NoImage),
        Ok(_) => panic!("creation without any image must fail"),
    }
}

#[test]
fn temp_runs_auto_remove_as_root_id() {
    let ctx = context();
    let created = ctx
        .generate_create_container_command(
            Some("img".to_string()),
            "",
            false,
            true,
            None,
            "/w",
            false,
            &vec![],
            &UidGidDecision::Known { uid: 1042, gid: 1042 },
        )
        .unwrap();
    assert!(created.arguments.contains(&"--rm".to_string()));
    assert!(!created.arguments.contains(&"-d".to_string()));
    let upos = created.arguments.iter().position(|a| a == "-u").unwrap();
    assert_eq!(created.arguments[upos + 1], "0:0");
}

#[test]
fn no_dir_omits_the_primary_mount() {
    let ctx = context();
    let created = ctx
        .generate_create_container_command(
            Some("img".to_string()),
            "t",
            true,
            false,
            None,
            "/w",
            true,
            &vec![],
            &UidGidDecision::CreateUser,
        )
        .unwrap();
    assert!(created.arguments.iter().all(|a| !a.starts_with("type=bind,")));
}

#[test]
fn pass_through_words_are_spliced_verbatim() {
    let ctx = context();
    let pt = "--pidfile /tmp/pidfile --cidfile '/tmp/my cidfile'".to_string();
    let created = ctx
        .generate_create_container_command(
            Some("img".to_string()),
            "t",
            true,
            false,
            Some(&pt),
            "/w",
            false,
            &vec![],
            &UidGidDecision::CreateUser,
        )
        .unwrap();
    let mode_pos = created.arguments.iter().position(|a| a == "-d").unwrap();
    assert_eq!(created.arguments[mode_pos + 1], "--pidfile");
    assert_eq!(created.arguments[mode_pos + 2], "/tmp/pidfile");
    assert_eq!(created.arguments[mode_pos + 3], "--cidfile");
    assert_eq!(created.arguments[mode_pos + 4], "/tmp/my cidfile");
    assert_eq!(created.arguments[mode_pos + 5], "--network");
}

#[test]
fn unsplittable_pass_through_contributes_nothing() {
    let ctx = context();
    let pt = "an 'unclosed quote".to_string();
    let created = ctx
        .generate_create_container_command(
            Some("img".to_string()),
            "t",
            true,
            false,
            Some(&pt),
            "/w",
            false,
            &vec![],
            &UidGidDecision::CreateUser,
        )
        .unwrap();
    let mode_pos = created.arguments.iter().position(|a| a == "-d").unwrap();
    assert_eq!(created.arguments[mode_pos + 1], "--network");
}

#[test]
fn rendering_matches_shell_joining() {
    let command = vec!["echo".to_string(), "two words".to_string(), "plain".to_string()];
    let rendered = render_command(&command).unwrap();
    let direct = shlex::try_join(command.iter().map(|s| s.as_str())).unwrap();
    assert_eq!(rendered, direct);
    assert_eq!(render_command(&vec!["echo".to_string(), "hi".to_string()]).unwrap(), "echo hi");
}

#[test]
fn rendering_rejects_nul_bytes() {
    assert_eq!(render_command(&vec!["a\0b".to_string()]), None);
}

#[test]
fn decimal_text_round_trips() {
    assert_eq!(seabox::text::u64_to_string(0), "0");
    assert_eq!(seabox::text::u64_to_string(1042), "1042");
    assert_eq!(seabox::text::u64_to_string(u64::MAX), "18446744073709551615");
    assert_eq!(seabox::text::parse_u64("0"), Some(0));
    assert_eq!(seabox::text::parse_u64("1500"), Some(1500));
    assert_eq!(seabox::text::parse_u64("18446744073709551615"), Some(u64::MAX));
    assert_eq!(seabox::text::parse_u64("18446744073709551616"), None);
    assert_eq!(seabox::text::parse_u64(""), None);
    assert_eq!(seabox::text::parse_u64("12 "), None);
    assert_eq!(seabox::text::parse_u64("+5"), None);
}

#[test]
fn splitting_keeps_empty_segments() {
    assert_eq!(seabox::text::split_str("a:b::c", ':'), vec!["a", "b", "", "c"]);
    assert_eq!(seabox::text::split_str("", ':'), vec![""]);
    assert_eq!(seabox::text::split_str(":", ':'), vec!["", ""]);
}
