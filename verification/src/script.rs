//! Parameterization of the fixed in-container entry script (the script that
//! creates a user account and configures sudo). The script's text is an
//! opaque asset handed in by the caller; only the substitution of its
//! placeholder tokens is this library's business, and that substitution is
//! stated exactly.

use vstd::prelude::*;

use crate::text::{dec_str, replace_all, replace_all_str, u64_to_string};

verus! {

/// The token the three-state sudo-installation choice becomes.
pub open spec fn sudo_install_token(install_sudo: Option<bool>) -> Seq<char> {
    match install_sudo {
        Some(true) => "install"@,
        Some(false) => "no_install"@,
        None => "prompt"@,
    }
}

/// The token a boolean flag becomes: presence (`1`) or absence (empty).
pub open spec fn flag_token(b: bool) -> Seq<char> {
    if b {
        "1"@
    } else {
        Seq::empty()
    }
}

/// The entry script with every placeholder substituted, in the fixed order
/// of the placeholders below.
pub open spec fn enter_script_model(
    template: Seq<char>,
    create_user: bool,
    username: Seq<char>,
    container_user_id: int,
    passwordless_sudo: bool,
    no_password: bool,
    install_sudo: Option<bool>,
    shell: Option<Seq<char>>,
    verbose: bool,
) -> Seq<char> {
    let s = replace_all(template, "INSERT_CREATE_USER"@, flag_token(create_user));
    let s = replace_all(s, "INSERT_NEW_USERNAME"@, username);
    let s = replace_all(s, "INSERT_CONTAINER_ID"@, dec_str(container_user_id));
    let s = replace_all(s, "INSERT_SUDO_INSTALL"@, sudo_install_token(install_sudo));
    let s = replace_all(s, "INSERT_PASSWORDLESS_SUDO"@, flag_token(passwordless_sudo));
    let s = replace_all(s, "INSERT_CREATE_PASSWORD"@, flag_token(no_password));
    let s = replace_all(s, "INSERT_VERBOSE"@, flag_token(verbose));
    replace_all(
        s,
        "INSERT_SHELL"@,
        match shell {
            Some(sh) => sh,
            None => Seq::empty(),
        },
    )
}

fn flag_str(b: bool) -> (r: &'static str)
    ensures
        r@ == flag_token(b),
{
    if b {
        let r = "1";
        proof {
            reveal_strlit("1");
        }
        r
    } else {
        let r = "";
        proof {
            reveal_strlit("");
            assert(r@ =~= Seq::<char>::empty());
        }
        r
    }
}

/// Fills the entry-script template in, as `enter_script_model` describes:
/// the user-creation, passwordless-sudo, password and verbosity flags become
/// presence markers, the sudo choice becomes one of `install`, `no_install`
/// and `prompt`, the container user id is rendered in decimal, and the
/// chosen shell is inserted verbatim (empty meaning auto-detection).
pub fn create_initial_enter_script(
    template: &str,
    create_user: bool,
    username: &str,
    container_user_id: u64,
    passwordless_sudo: bool,
    no_password: bool,
    install_sudo: Option<bool>,
    shell: Option<&String>,
    verbose: bool,
) -> (r: String)
    ensures
        r@ == enter_script_model(
            template@,
            create_user,
            username@,
            container_user_id as int,
            passwordless_sudo,
            no_password,
            install_sudo,
            shell.deep_view(),
            verbose,
        ),
{
    proof {
        reveal_strlit("INSERT_CREATE_USER");
        reveal_strlit("INSERT_NEW_USERNAME");
        reveal_strlit("INSERT_CONTAINER_ID");
        reveal_strlit("INSERT_SUDO_INSTALL");
        reveal_strlit("INSERT_PASSWORDLESS_SUDO");
        reveal_strlit("INSERT_CREATE_PASSWORD");
        reveal_strlit("INSERT_VERBOSE");
        reveal_strlit("INSERT_SHELL");
    }
    let sudo_choice: &str = match install_sudo {
        Some(true) => "install",
        Some(false) => "no_install",
        None => "prompt",
    };
    proof {
        assert(sudo_choice@ == sudo_install_token(install_sudo));
    }
    let id_text = u64_to_string(container_user_id);
    let shell_text: &str = match shell {
        Some(sh) => sh.as_str(),
        None => {
            let e = "";
            proof {
                reveal_strlit("");
                assert(e@ =~= Seq::<char>::empty());
            }
            e
        },
    };
    let s = replace_all_str(template, "INSERT_CREATE_USER", flag_str(create_user));
    let s = replace_all_str(s.as_str(), "INSERT_NEW_USERNAME", username);
    let s = replace_all_str(s.as_str(), "INSERT_CONTAINER_ID", id_text.as_str());
    let s = replace_all_str(s.as_str(), "INSERT_SUDO_INSTALL", sudo_choice);
    let s = replace_all_str(s.as_str(), "INSERT_PASSWORDLESS_SUDO", flag_str(passwordless_sudo));
    let s = replace_all_str(s.as_str(), "INSERT_CREATE_PASSWORD", flag_str(no_password));
    let s = replace_all_str(s.as_str(), "INSERT_VERBOSE", flag_str(verbose));
    let s = replace_all_str(s.as_str(), "INSERT_SHELL", shell_text);
    s
}

} // verus!
