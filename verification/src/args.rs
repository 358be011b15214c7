//! The per-command inputs, as plain values. Parsing a command line into
//! these lives outside the library.

use vstd::prelude::*;

use crate::config::BaseConfig;

verus! {

/// Flags every command takes.
pub struct AllCommandArgs {
    pub dry_run: bool,
    pub verbose: bool,
}

/// The inputs shared by the persistent-create and ephemeral-create commands.
pub struct CreateAndTempSharedArgs {
    pub image: Option<String>,
    pub shell: Option<String>,
    pub directory: Option<String>,
    pub no_dir: bool,
    pub volume: Vec<String>,
    pub pass_through: Option<String>,
    pub root: bool,
    pub install_sudo: Option<bool>,
    pub no_password: Option<bool>,
    pub unsafe_setup_passwordless_sudo: Option<bool>,
}

impl CreateAndTempSharedArgs {
    /// The sparse configuration layer these flags form: only the fields that
    /// are configuration (image and the sudo/password policies) take part in
    /// resolution.
    pub fn config_layer(&self) -> (r: BaseConfig)
        ensures
            r@.image == self.image.deep_view(),
            r@.sudo_command is None,
            r@.install_sudo == self.install_sudo,
            r@.no_password == self.no_password,
            r@.unsafe_setup_passwordless_sudo == self.unsafe_setup_passwordless_sudo,
    {
        BaseConfig {
            image: match &self.image {
                Some(x) => Some(x.clone()),
                None => None,
            },
            sudo_command: None,
            install_sudo: self.install_sudo,
            no_password: self.no_password,
            unsafe_setup_passwordless_sudo: self.unsafe_setup_passwordless_sudo,
        }
    }
}

/// Inputs of the persistent-create command.
pub struct CreateArgs {
    pub name: String,
    pub common: CreateAndTempSharedArgs,
    pub all: AllCommandArgs,
}

/// Inputs of the enter command.
pub struct EnterArgs {
    pub name: String,
    pub user: Option<String>,
    pub shell: Option<String>,
    pub all: AllCommandArgs,
}

/// Inputs of the remove command.
pub struct RemoveArgs {
    pub names: Vec<String>,
    pub all: AllCommandArgs,
}

/// Inputs of the restart command.
pub struct RestartArgs {
    pub names: Vec<String>,
    pub all: AllCommandArgs,
}

/// Inputs of the ephemeral-create command.
pub struct TempArgs {
    pub common: CreateAndTempSharedArgs,
    pub all: AllCommandArgs,
}

/// Inputs of the list command.
pub struct ListArgs {
    pub all: AllCommandArgs,
}

} // verus!
