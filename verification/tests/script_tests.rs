use seabox::script::create_initial_enter_script;
use seabox::text::replace_all_str;

const TEMPLATE: &str = "create=INSERT_CREATE_USER user=INSERT_NEW_USERNAME \
id=INSERT_CONTAINER_ID sudo=INSERT_SUDO_INSTALL pls=INSERT_PASSWORDLESS_SUDO \
np=INSERT_CREATE_PASSWORD verbose=INSERT_VERBOSE shell=INSERT_SHELL";

#[test]
fn every_placeholder_is_substituted() {
    let shell = "/bin/zsh".to_string();
    let script = create_initial_enter_script(
        TEMPLATE,
        true,
        "user",
        1042,
        true,
        true,
        Some(true),
        Some(&shell),
        true,
    );
    assert_eq!(
        script,
        "create=1 user=user id=1042 sudo=install pls=1 np=1 verbose=1 shell=/bin/zsh"
    );
}

#[test]
fn absent_flags_become_empty_markers() {
    let script = create_initial_enter_script(
        TEMPLATE,
        false,
        "user",
        1000,
        false,
        false,
        Some(false),
        None,
        false,
    );
    assert_eq!(
        script,
        "create= user=user id=1000 sudo=no_install pls= np= verbose= shell="
    );
}

#[test]
fn unset_sudo_choice_becomes_prompt() {
    let script =
        create_initial_enter_script(TEMPLATE, false, "user", 1000, false, false, None, None, false);
    assert!(script.contains("sudo=prompt"));
}

#[test]
fn repeated_placeholders_are_all_replaced() {
    let script = create_initial_enter_script(
        "INSERT_VERBOSE INSERT_VERBOSE INSERT_VERBOSE",
        false,
        "user",
        1,
        false,
        false,
        None,
        None,
        true,
    );
    assert_eq!(script, "1 1 1");
}

#[test]
fn replacement_is_leftmost_and_does_not_rescan() {
    assert_eq!(replace_all_str("aaa", "aa", "b"), "ba");
    assert_eq!(replace_all_str("abcabc", "b", "xy"), "axycaxyc");
    assert_eq!(replace_all_str("abc", "z", "y"), "abc");
    assert_eq!(replace_all_str("aba", "a", "ab"), "abbab");
}
