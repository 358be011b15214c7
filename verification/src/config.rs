//! Layered configuration resolution.
//!
//! An effective configuration is merged from four sparse layers, lowest
//! precedence first: built-in defaults, the config file's global section, a
//! per-image profile (selected once the target image is known), environment
//! overrides, and command-line overrides. A sparse layer only overrides a
//! field it explicitly sets. Because the image name is itself subject to this
//! precedence, resolution runs in two passes: the first pass (without any
//! per-image profile) yields a provisional image name; if a profile is keyed
//! by that name, the layers are re-merged with the profile inserted between
//! the global section and the environment.

use vstd::prelude::*;

verus! {

/// One sparse configuration layer: every field optional, absence meaning
/// "inherit from the next lower layer".
pub struct BaseConfig {
    pub image: Option<String>,
    pub sudo_command: Option<String>,
    pub install_sudo: Option<bool>,
    pub no_password: Option<bool>,
    pub unsafe_setup_passwordless_sudo: Option<bool>,
}

/// The mathematical value of a `BaseConfig`.
pub struct ProfileModel {
    pub image: Option<Seq<char>>,
    pub sudo_command: Option<Seq<char>>,
    pub install_sudo: Option<bool>,
    pub no_password: Option<bool>,
    pub unsafe_setup_passwordless_sudo: Option<bool>,
}

impl View for BaseConfig {
    type V = ProfileModel;

    open spec fn view(&self) -> ProfileModel {
        ProfileModel {
            image: self.image.deep_view(),
            sudo_command: self.sudo_command.deep_view(),
            install_sudo: self.install_sudo,
            no_password: self.no_password,
            unsafe_setup_passwordless_sudo: self.unsafe_setup_passwordless_sudo,
        }
    }
}

/// A fully resolved configuration: no field is missing. `image` may still be
/// `None`, meaning that no image was configured anywhere; `install_sudo`
/// keeps three states (yes, no, and unset meaning "prompt").
#[derive(Debug)]
pub struct Config {
    pub image: Option<String>,
    pub sudo_command: String,
    pub install_sudo: Option<bool>,
    pub no_password: bool,
    pub unsafe_setup_passwordless_sudo: bool,
}

/// The mathematical value of a `Config`.
pub struct ConfigModel {
    pub image: Option<Seq<char>>,
    pub sudo_command: Seq<char>,
    pub install_sudo: Option<bool>,
    pub no_password: bool,
    pub unsafe_setup_passwordless_sudo: bool,
}

impl View for Config {
    type V = ConfigModel;

    open spec fn view(&self) -> ConfigModel {
        ConfigModel {
            image: self.image.deep_view(),
            sudo_command: self.sudo_command@,
            install_sudo: self.install_sudo,
            no_password: self.no_password,
            unsafe_setup_passwordless_sudo: self.unsafe_setup_passwordless_sudo,
        }
    }
}

/// The built-in defaults, the lowest layer of every resolution.
pub open spec fn default_config_model() -> ConfigModel {
    ConfigModel {
        image: None,
        sudo_command: "sudo"@,
        install_sudo: None,
        no_password: false,
        unsafe_setup_passwordless_sudo: false,
    }
}

/// The default privilege-escalation command.
pub fn get_default_sudo_path() -> (r: String)
    ensures
        r@ == default_config_model().sudo_command,
{
    "sudo".to_owned()
}

/// The built-in default configuration.
pub fn default_config() -> (r: Config)
    ensures
        r@ == default_config_model(),
{
    Config {
        image: None,
        sudo_command: get_default_sudo_path(),
        install_sudo: None,
        no_password: false,
        unsafe_setup_passwordless_sudo: false,
    }
}

/// One merge step: every field that `layer` sets overrides the value below;
/// every field it leaves unset is inherited.
pub open spec fn apply_layer(below: ConfigModel, layer: ProfileModel) -> ConfigModel {
    ConfigModel {
        image: if layer.image is Some {
            layer.image
        } else {
            below.image
        },
        sudo_command: if layer.sudo_command is Some {
            layer.sudo_command->0
        } else {
            below.sudo_command
        },
        install_sudo: if layer.install_sudo is Some {
            layer.install_sudo
        } else {
            below.install_sudo
        },
        no_password: if layer.no_password is Some {
            layer.no_password->0
        } else {
            below.no_password
        },
        unsafe_setup_passwordless_sudo: if layer.unsafe_setup_passwordless_sudo is Some {
            layer.unsafe_setup_passwordless_sudo->0
        } else {
            below.unsafe_setup_passwordless_sudo
        },
    }
}

fn clone_opt_string(s: &Option<String>) -> (r: Option<String>)
    ensures
        r.deep_view() == s.deep_view(),
{
    match s {
        Some(x) => Some(x.clone()),
        None => None,
    }
}

/// Merges one sparse layer over a resolved configuration.
pub fn merge_layer(below: &Config, layer: &BaseConfig) -> (r: Config)
    ensures
        r@ == apply_layer(below@, layer@),
{
    Config {
        image: match &layer.image {
            Some(x) => Some(x.clone()),
            None => clone_opt_string(&below.image),
        },
        sudo_command: match &layer.sudo_command {
            Some(x) => x.clone(),
            None => below.sudo_command.clone(),
        },
        install_sudo: match &layer.install_sudo {
            Some(x) => Some(*x),
            None => below.install_sudo,
        },
        no_password: match &layer.no_password {
            Some(x) => *x,
            None => below.no_password,
        },
        unsafe_setup_passwordless_sudo: match &layer.unsafe_setup_passwordless_sudo {
            Some(x) => *x,
            None => below.unsafe_setup_passwordless_sudo,
        },
    }
}

/// The parsed config file: a global section plus per-image profiles, keyed by
/// image name, in the order they were read. Keys are expected to be unique
/// (the on-disk format cannot repeat a key); the first matching entry wins.
pub struct ConfigFileData {
    pub base: BaseConfig,
    pub image_specific: Vec<(String, BaseConfig)>,
}

/// The mathematical value of a `ConfigFileData`.
pub struct ConfigFileModel {
    pub base: ProfileModel,
    pub image_specific: Seq<(Seq<char>, ProfileModel)>,
}

impl View for ConfigFileData {
    type V = ConfigFileModel;

    open spec fn view(&self) -> ConfigFileModel {
        ConfigFileModel {
            base: self.base@,
            image_specific: Seq::new(
                self.image_specific@.len(),
                |i: int| (self.image_specific@[i].0@, self.image_specific@[i].1@),
            ),
        }
    }
}

/// The first profile keyed by `img`, if any.
pub open spec fn find_profile(profiles: Seq<(Seq<char>, ProfileModel)>, img: Seq<char>) -> Option<
    ProfileModel,
>
    decreases profiles.len(),
{
    if profiles.len() == 0 {
        None
    } else if profiles[0].0 == img {
        Some(profiles[0].1)
    } else {
        find_profile(profiles.skip(1), img)
    }
}

/// The first resolution pass: defaults, global section, environment and
/// command line, with no per-image profile.
pub open spec fn provisional_config(
    file: ConfigFileModel,
    env: ProfileModel,
    cli: ProfileModel,
) -> ConfigModel {
    apply_layer(apply_layer(apply_layer(default_config_model(), file.base), env), cli)
}

/// The full two-pass resolution. If the provisional image name selects a
/// per-image profile, the layers are re-merged with that profile between the
/// global section and the environment; otherwise the provisional result is
/// final.
pub open spec fn resolve_model(
    file: ConfigFileModel,
    env: ProfileModel,
    cli: ProfileModel,
) -> ConfigModel {
    let provisional = provisional_config(file, env, cli);
    match provisional.image {
        None => provisional,
        Some(img) => match find_profile(file.image_specific, img) {
            None => provisional,
            Some(p) => apply_layer(
                apply_layer(apply_layer(apply_layer(default_config_model(), file.base), p), env),
                cli,
            ),
        },
    }
}

/// The per-invocation state: the configuration resolved so far, the parsed
/// config file, and the environment overrides read at process start.
pub struct Context {
    pub config: Config,
    pub parsed_config_file: ConfigFileData,
    pub env_overrides: BaseConfig,
}

impl Context {
    /// Before any command-line flags are merged, `config` is the first-pass
    /// merge of defaults, global section and environment.
    pub open spec fn initial(&self) -> bool {
        self.config@ == apply_layer(
            apply_layer(default_config_model(), self.parsed_config_file@.base),
            self.env_overrides@,
        )
    }

    /// Builds the state for one invocation from the parsed config file and
    /// the environment overrides.
    pub fn new(parsed_config_file: ConfigFileData, env_overrides: BaseConfig) -> (r: Context)
        ensures
            r.initial(),
            r.parsed_config_file == parsed_config_file,
            r.env_overrides == env_overrides,
    {
        let base = default_config();
        let with_file = merge_layer(&base, &parsed_config_file.base);
        let config = merge_layer(&with_file, &env_overrides);
        Context { config, parsed_config_file, env_overrides }
    }

    fn find_image_profile<'a>(&'a self, img: &String) -> (r: Option<&'a BaseConfig>)
        ensures
            r is Some <==> find_profile(self.parsed_config_file@.image_specific, img@) is Some,
            r matches Some(p) ==> Some(p@) == find_profile(
                self.parsed_config_file@.image_specific,
                img@,
            ),
    {
        let n = self.parsed_config_file.image_specific.len();
        let mut i: usize = 0;
        proof {
            assert(self.parsed_config_file@.image_specific.skip(0)
                =~= self.parsed_config_file@.image_specific);
        }
        while i < n
            invariant
                0 <= i <= n == self.parsed_config_file.image_specific.len(),
                find_profile(self.parsed_config_file@.image_specific, img@) == find_profile(
                    self.parsed_config_file@.image_specific.skip(i as int),
                    img@,
                ),
            decreases n - i,
        {
            let entry = &self.parsed_config_file.image_specific[i];
            proof {
                let profs = self.parsed_config_file@.image_specific;
                assert(profs.skip(i as int)[0] == profs[i as int]);
                assert(profs.skip(i as int).skip(1) =~= profs.skip(i + 1));
            }
            if entry.0.eq(img) {
                proof {
                    let profs = self.parsed_config_file@.image_specific;
                    assert(entry.0@ == profs[i as int].0);
                    assert(find_profile(profs.skip(i as int), img@) == Some(profs[i as int].1));
                }
                return Some(&entry.1);
            }
            i = i + 1;
        }
        proof {
            assert(self.parsed_config_file@.image_specific.skip(n as int) =~= Seq::<
                (Seq<char>, ProfileModel),
            >::empty());
        }
        None
    }

    /// The two-pass merge of command-line flags into the configuration, as
    /// `resolve_model` describes: a provisional merge resolves the image
    /// name; a per-image profile keyed by that name, if any, is then inserted
    /// below the environment and the merge is redone.
    pub fn resolve_config_args_create_tmp(&mut self, cli_config_args: &BaseConfig)
        requires
            old(self).initial(),
        ensures
            final(self).config@ == resolve_model(
                old(self).parsed_config_file@,
                old(self).env_overrides@,
                cli_config_args@,
            ),
            final(self).parsed_config_file == old(self).parsed_config_file,
            final(self).env_overrides == old(self).env_overrides,
    {
        let provisional = merge_layer(&self.config, cli_config_args);
        match &provisional.image {
            None => {
                self.config = provisional;
            },
            Some(img) => {
                match self.find_image_profile(img) {
                    None => {
                        self.config = provisional;
                    },
                    Some(profile) => {
                        let base = default_config();
                        let with_file = merge_layer(&base, &self.parsed_config_file.base);
                        let with_profile = merge_layer(&with_file, profile);
                        let with_env = merge_layer(&with_profile, &self.env_overrides);
                        self.config = merge_layer(&with_env, cli_config_args);
                    },
                }
            },
        }
    }

    /// The image to use: an explicitly passed name wins; otherwise the
    /// configured image, unless it is absent or empty.
    pub fn resolve_image(&self, image: Option<String>) -> (r: Option<String>)
        ensures
            r.deep_view() == resolved_image(image.deep_view(), self.config@.image),
    {
        match image {
            Some(i) => Some(i),
            None => {
                match &self.config.image {
                    Some(x) => {
                        if x.unicode_len() != 0 {
                            Some(x.clone())
                        } else {
                            None
                        }
                    },
                    None => None,
                }
            },
        }
    }
}

/// The image-selection rule of `Context::resolve_image`.
pub open spec fn resolved_image(passed: Option<Seq<char>>, configured: Option<Seq<char>>) -> Option<
    Seq<char>,
> {
    if passed is Some {
        passed
    } else if configured is Some && configured->0.len() > 0 {
        configured
    } else {
        None
    }
}

/// The empty layer: a profile that sets nothing.
pub open spec fn empty_profile() -> ProfileModel {
    ProfileModel {
        image: None,
        sudo_command: None,
        install_sudo: None,
        no_password: None,
        unsafe_setup_passwordless_sudo: None,
    }
}

/// The per-image profile that resolution ends up applying: the one keyed by
/// the provisional image name, or the empty layer when none matches.
pub open spec fn selected_profile(
    file: ConfigFileModel,
    env: ProfileModel,
    cli: ProfileModel,
) -> ProfileModel {
    match provisional_config(file, env, cli).image {
        None => empty_profile(),
        Some(img) => match find_profile(file.image_specific, img) {
            None => empty_profile(),
            Some(p) => p,
        },
    }
}

/// The first of the optional values, in order of decreasing precedence, or
/// the default when none is set.
pub open spec fn highest<T>(
    cli: Option<T>,
    env: Option<T>,
    profile: Option<T>,
    global: Option<T>,
    dflt: T,
) -> T {
    if cli is Some {
        cli->0
    } else if env is Some {
        env->0
    } else if profile is Some {
        profile->0
    } else if global is Some {
        global->0
    } else {
        dflt
    }
}

/// Like `highest`, for a field whose resolved value stays optional.
pub open spec fn highest_opt<T>(
    cli: Option<T>,
    env: Option<T>,
    profile: Option<T>,
    global: Option<T>,
) -> Option<T> {
    if cli is Some {
        cli
    } else if env is Some {
        env
    } else if profile is Some {
        profile
    } else {
        global
    }
}

/// Precedence law: whatever combination of layers sets a field, its effective
/// value comes from the highest-precedence layer that sets it — command line
/// over environment over the matched per-image profile over the global
/// section over the built-in default.
pub proof fn lemma_field_precedence(file: ConfigFileModel, env: ProfileModel, cli: ProfileModel)
    ensures
        ({
            let r = resolve_model(file, env, cli);
            let p = selected_profile(file, env, cli);
            let g = file.base;
            let d = default_config_model();
            &&& r.sudo_command == highest(
                cli.sudo_command,
                env.sudo_command,
                p.sudo_command,
                g.sudo_command,
                d.sudo_command,
            )
            &&& r.install_sudo == highest_opt(
                cli.install_sudo,
                env.install_sudo,
                p.install_sudo,
                g.install_sudo,
            )
            &&& r.no_password == highest(
                cli.no_password,
                env.no_password,
                p.no_password,
                g.no_password,
                d.no_password,
            )
            &&& r.unsafe_setup_passwordless_sudo == highest(
                cli.unsafe_setup_passwordless_sudo,
                env.unsafe_setup_passwordless_sudo,
                p.unsafe_setup_passwordless_sudo,
                g.unsafe_setup_passwordless_sudo,
                d.unsafe_setup_passwordless_sudo,
            )
            &&& r.image == highest_opt(cli.image, env.image, p.image, g.image)
        }),
{
}

/// Second-pass law: when the provisional image name (which is only known
/// after the first pass) is the key of a per-image profile, the final
/// configuration is the full re-merge with that profile inserted between the
/// global section and the environment.
pub proof fn lemma_second_pass_applies_profile(
    file: ConfigFileModel,
    env: ProfileModel,
    cli: ProfileModel,
    img: Seq<char>,
    p: ProfileModel,
)
    requires
        provisional_config(file, env, cli).image == Some(img),
        find_profile(file.image_specific, img) == Some(p),
    ensures
        resolve_model(file, env, cli) == apply_layer(
            apply_layer(apply_layer(apply_layer(default_config_model(), file.base), p), env),
            cli,
        ),
{
}

/// First-pass law: when no per-image profile is keyed by the provisional
/// image name, the provisional configuration is final.
pub proof fn lemma_no_profile_keeps_provisional(
    file: ConfigFileModel,
    env: ProfileModel,
    cli: ProfileModel,
)
    requires
        provisional_config(file, env, cli).image matches Some(img) ==> find_profile(
            file.image_specific,
            img,
        ) is None,
    ensures
        resolve_model(file, env, cli) == provisional_config(file, env, cli),
{
}

} // verus!
