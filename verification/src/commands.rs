//! Synthesis of the argument vectors handed to the container runtime. Every
//! function here only builds data; executing a command (or rendering it, on a
//! dry run) is the caller's business.

use vstd::prelude::*;

use crate::config::Context;
use crate::errors::Error;
use crate::identity::UidGidDecision;
use crate::text::{dec_str, split_char, split_str, u64_to_string};

verus! {

/// What shell word-splitting makes of a string; `None` when the string is
/// erroneous (e.g. an unclosed quote).
pub uninterp spec fn shell_split_words(s: Seq<char>) -> Option<Seq<Seq<char>>>;

/// Relies on shlex::split: shell-like word splitting of a string, a function
/// of the string alone, `None` exactly on erroneous input.
#[verifier::external_body]
fn shlex_split(s: &str) -> (r: Option<Vec<String>>)
    ensures
        r.deep_view() == shell_split_words(s@),
{
    shlex::split(s)
}

/// What quoting every word and joining with single spaces makes of a word
/// list.
pub uninterp spec fn shell_joined_line(words: Seq<Seq<char>>) -> Seq<char>;

/// Relies on shlex::try_join: quotes each word as a shell argument and joins
/// them with single spaces, a function of the words alone; it fails exactly
/// when a word holds a nul character.
#[verifier::external_body]
fn shlex_join(words: &Vec<String>) -> (r: Option<String>)
    ensures
        r matches Some(line) ==> line@ == shell_joined_line(words.deep_view()),
        (forall|i: int|
            0 <= i < words.deep_view().len() ==> !(#[trigger] words.deep_view()[i]).contains(
                '\0',
            )) <==> r is Some,
{
    shlex::try_join(words.iter().map(|w| w.as_str())).ok()
}

/// Renders an argument vector as one shell-quoted command line, the form a
/// dry run prints; `None` when an argument holds a nul character.
pub fn render_command(command: &Vec<String>) -> (r: Option<String>)
    ensures
        r matches Some(line) ==> line@ == shell_joined_line(command.deep_view()),
        (forall|i: int|
            0 <= i < command.deep_view().len() ==> !(#[trigger] command.deep_view()[i]).contains(
                '\0',
            )) <==> r is Some,
{
    shlex_join(command)
}

/// Relies on nix::unistd::geteuid (POSIX geteuid, which always succeeds):
/// the effective user id of this process. The value depends on the process,
/// so nothing is promised of it.
#[verifier::external_body]
fn host_effective_uid() -> u64 {
    nix::unistd::geteuid().as_raw() as u64
}

/// Relies on nix::unistd::getegid (POSIX getegid, which always succeeds):
/// the effective group id of this process. The value depends on the process,
/// so nothing is promised of it.
#[verifier::external_body]
fn host_effective_gid() -> u64 {
    nix::unistd::getegid().as_raw() as u64
}

/// The id-remapping directive attached to every bind mount. Root-equivalent
/// runs identity-map the wide range `[0, 2000)` for UIDs and GIDs alike;
/// non-root runs map the one host id to the one container id and
/// identity-map root, exposing no other host id.
pub open spec fn idmap_expr(
    root: bool,
    host_uid: int,
    container_uid: int,
    host_gid: int,
    container_gid: int,
) -> Seq<char> {
    if root {
        "0-0-2000;gids=0-0-2000"@
    } else {
        dec_str(host_uid) + "-"@ + dec_str(container_uid) + "-1#0-0-1;gids="@ + dec_str(host_gid)
            + "-"@ + dec_str(container_gid) + "-1#0-0-1"@
    }
}

/// Builds the id-remapping directive, as `idmap_expr` describes; in root
/// mode it is always the same wide identity mapping.
pub fn idmap_expression(
    root: bool,
    host_uid: u64,
    container_uid: u64,
    host_gid: u64,
    container_gid: u64,
) -> (r: String)
    ensures
        r@ == idmap_expr(
            root,
            host_uid as int,
            container_uid as int,
            host_gid as int,
            container_gid as int,
        ),
        root ==> r@ == "0-0-2000;gids=0-0-2000"@,
{
    if root {
        "0-0-2000;gids=0-0-2000".to_owned()
    } else {
        let mut s = u64_to_string(host_uid);
        s.append("-");
        s.append(u64_to_string(container_uid).as_str());
        s.append("-1#0-0-1;gids=");
        s.append(u64_to_string(host_gid).as_str());
        s.append("-");
        s.append(u64_to_string(container_gid).as_str());
        s.append("-1#0-0-1");
        proof {
            assert(s@ =~= idmap_expr(
                false,
                host_uid as int,
                container_uid as int,
                host_gid as int,
                container_gid as int,
            ));
        }
        s
    }
}

/// One bind-mount argument: source, destination and the id-remapping
/// directive.
pub open spec fn mount_arg(
    source: Seq<char>,
    destination: Seq<char>,
    idmap: Seq<char>,
) -> Seq<char> {
    "type=bind,source="@ + source + ",destination="@ + destination + ",idmap=uids="@ + idmap
}

fn mount_argument(source: &str, destination: &str, idmap: &str) -> (r: String)
    ensures
        r@ == mount_arg(source@, destination@, idmap@),
{
    let mut s = "type=bind,source=".to_owned();
    s.append(source);
    s.append(",destination=");
    s.append(destination);
    s.append(",idmap=uids=");
    s.append(idmap);
    proof {
        assert(s@ =~= mount_arg(source@, destination@, idmap@));
    }
    s
}

/// Splits a user-supplied mount specifier into its host and container paths.
/// A specifier must consist of exactly two `:`-separated fields; anything
/// else is rejected.
pub fn parse_mount_specifier(s: &str) -> (r: Option<(String, String)>)
    ensures
        r is Some <==> split_char(s@, ':').len() == 2,
        r matches Some(p) ==> seq![p.0@, p.1@] == split_char(s@, ':'),
{
    let mut fields = split_str(s, ':');
    if fields.len() != 2 {
        return None;
    }
    let second = match fields.pop() {
        Some(x) => x,
        None => {
            return None;
        },
    };
    let first = match fields.pop() {
        Some(x) => x,
        None => {
            return None;
        },
    };
    proof {
        assert(seq![first@, second@] =~= split_char(s@, ':'));
    }
    Some((first, second))
}

/// Arguments of `container inspect` for a named container.
pub open spec fn container_inspect_args(sudo: Seq<char>, name: Seq<char>) -> Seq<Seq<char>> {
    seq![sudo, "podman"@, "container"@, "inspect"@, name]
}

/// Arguments of `image inspect` for an image.
pub open spec fn image_inspect_args(sudo: Seq<char>, image: Seq<char>) -> Seq<Seq<char>> {
    seq![sudo, "podman"@, "image"@, "inspect"@, image]
}

/// Arguments of `pull` for an image.
pub open spec fn image_pull_args(sudo: Seq<char>, image: Seq<char>) -> Seq<Seq<char>> {
    seq![sudo, "podman"@, "pull"@, image]
}

/// Arguments of the throwaway run that dumps an image's user database.
pub open spec fn cat_etc_passwd_args(sudo: Seq<char>, image: Seq<char>) -> Seq<Seq<char>> {
    seq![sudo, "podman"@, "run"@, "--rm"@, "--entrypoint"@, "cat"@, image, "/etc/passwd"@]
}

/// Arguments of `ps` restricted to containers carrying this tool's label.
pub open spec fn list_containers_args(sudo: Seq<char>) -> Seq<Seq<char>> {
    seq![sudo, "podman"@, "ps"@, "--all"@, "--filter"@, "label=seabox=true"@]
}

/// Arguments of `kill` for a named container.
pub open spec fn container_stop_args(sudo: Seq<char>, name: Seq<char>) -> Seq<Seq<char>> {
    seq![sudo, "podman"@, "kill"@, name]
}

/// Arguments of forced `container rm` for a named container.
pub open spec fn container_delete_args(sudo: Seq<char>, name: Seq<char>) -> Seq<Seq<char>> {
    seq![sudo, "podman"@, "container"@, "rm"@, "--force"@, name]
}

/// Arguments of `start` for a named container.
pub open spec fn container_start_args(sudo: Seq<char>, name: Seq<char>) -> Seq<Seq<char>> {
    seq![sudo, "podman"@, "start"@, name]
}

/// The pass-through words a free-form string contributes: its shell words,
/// or nothing when it is absent or unsplittable.
pub open spec fn pass_words(pt: Option<Seq<char>>) -> Seq<Seq<char>> {
    match pt {
        None => Seq::empty(),
        Some(s) => match shell_split_words(s) {
            Some(ws) => ws,
            None => Seq::empty(),
        },
    }
}

/// The host and container paths of each (well-formed) mount specifier.
pub open spec fn mount_pairs(specs: Seq<Seq<char>>) -> Seq<(Seq<char>, Seq<char>)> {
    Seq::new(specs.len(), |i: int| (split_char(specs[i], ':')[0], split_char(specs[i], ':')[1]))
}

/// The `--mount` argument pairs for the user-supplied mounts, each carrying
/// the same id-remapping directive.
pub open spec fn mount_pair_args(
    pairs: Seq<(Seq<char>, Seq<char>)>,
    idmap: Seq<char>,
) -> Seq<Seq<char>>
    decreases pairs.len(),
{
    if pairs.len() == 0 {
        Seq::empty()
    } else {
        seq!["--mount"@, mount_arg(pairs[0].0, pairs[0].1, idmap)] + mount_pair_args(
            pairs.skip(1),
            idmap,
        )
    }
}

proof fn lemma_mount_pair_args_snoc(
    pairs: Seq<(Seq<char>, Seq<char>)>,
    p: (Seq<char>, Seq<char>),
    idmap: Seq<char>,
)
    ensures
        mount_pair_args(pairs.push(p), idmap) == mount_pair_args(pairs, idmap) + seq![
            "--mount"@,
            mount_arg(p.0, p.1, idmap),
        ],
    decreases pairs.len(),
{
    if pairs.len() == 0 {
        assert(pairs.push(p)[0] == p);
        assert(pairs.push(p).skip(1) =~= Seq::<(Seq<char>, Seq<char>)>::empty());
        assert(mount_pair_args(Seq::<(Seq<char>, Seq<char>)>::empty(), idmap) == Seq::<
            Seq<char>,
        >::empty());
        assert(mount_pair_args(pairs.push(p), idmap) =~= mount_pair_args(pairs, idmap) + seq![
            "--mount"@,
            mount_arg(p.0, p.1, idmap),
        ]);
    } else {
        let pushed = pairs.push(p);
        let elem = seq!["--mount"@, mount_arg(p.0, p.1, idmap)];
        let head = seq!["--mount"@, mount_arg(pairs[0].0, pairs[0].1, idmap)];
        assert(pushed[0] == pairs[0]);
        assert(pushed.skip(1) =~= pairs.skip(1).push(p));
        assert(mount_pair_args(pushed, idmap) == head + mount_pair_args(pushed.skip(1), idmap));
        lemma_mount_pair_args_snoc(pairs.skip(1), p, idmap);
        assert(mount_pair_args(pushed.skip(1), idmap) == mount_pair_args(pairs.skip(1), idmap)
            + elem);
        assert(mount_pair_args(pairs, idmap) == head + mount_pair_args(pairs.skip(1), idmap));
        assert(head + (mount_pair_args(pairs.skip(1), idmap) + elem) =~= (head + mount_pair_args(
            pairs.skip(1),
            idmap,
        )) + elem);
    }
}

/// The container UID a run uses: root-equivalent runs use 0; otherwise the
/// resolved identity, falling back to the fixed default 1000 when a user
/// must be created.
pub open spec fn decided_uid(root: bool, identity: UidGidDecision) -> int {
    if root {
        0
    } else {
        match identity {
            UidGidDecision::Known { uid, gid } => uid as int,
            UidGidDecision::CreateUser => 1000,
        }
    }
}

/// The container GID a run uses, like `decided_uid`.
pub open spec fn decided_gid(root: bool, identity: UidGidDecision) -> int {
    if root {
        0
    } else {
        match identity {
            UidGidDecision::Known { uid, gid } => gid as int,
            UidGidDecision::CreateUser => 1000,
        }
    }
}

/// The full argument vector of a container-creating `run` command, without
/// the trailing in-container command.
pub open spec fn create_args(
    sudo: Seq<char>,
    image: Seq<char>,
    name: Seq<char>,
    root: bool,
    temp: bool,
    host_uid: int,
    host_gid: int,
    container_uid: int,
    container_gid: int,
    pass_through: Seq<Seq<char>>,
    directory: Seq<char>,
    no_dir: bool,
    mounts: Seq<(Seq<char>, Seq<char>)>,
) -> Seq<Seq<char>> {
    let hostname = "seabox-"@ + name;
    let idmap = idmap_expr(root, host_uid, container_uid, host_gid, container_gid);
    let user_string = if temp {
        "0:0"@
    } else {
        dec_str(container_uid) + ":"@ + dec_str(container_gid)
    };
    seq![sudo, "podman"@, "run"@, "--label"@, "seabox=true"@, "--privileged"@, "-it"@] + (if temp {
        seq!["--rm"@]
    } else {
        seq!["-d"@]
    }) + pass_through + seq![
        "--network"@,
        "host"@,
        "--hostname"@,
        hostname,
        "--add-host"@,
        hostname + ":127.0.0.1"@,
        "-u"@,
        user_string,
        "--passwd=false"@,
        "-w"@,
        "/mount/"@,
    ] + (if no_dir {
        Seq::<Seq<char>>::empty()
    } else {
        seq!["--mount"@, mount_arg(directory, "/mount/"@, idmap)]
    }) + mount_pair_args(mounts, idmap) + seq!["--name"@, name, image]
}

fn build_mount_args(additional_mounts: &Vec<String>, idmap: &str) -> (r: Result<Vec<String>, usize>)
    ensures
        (forall|j: int|
            0 <= j < additional_mounts.deep_view().len() ==> split_char(
                #[trigger] additional_mounts.deep_view()[j],
                ':',
            ).len() == 2) <==> r is Ok,
        r matches Ok(v) ==> v.deep_view() == mount_pair_args(
            mount_pairs(additional_mounts.deep_view()),
            idmap@,
        ),
        r matches Err(index) ==> ({
            let specs = additional_mounts.deep_view();
            &&& 0 <= index < specs.len()
            &&& split_char(specs[index as int], ':').len() != 2
            &&& forall|j: int| 0 <= j < index ==> split_char(#[trigger] specs[j], ':').len() == 2
        }),
{
    let ghost specs = additional_mounts.deep_view();
    let mut mount_args: Vec<String> = Vec::new();
    let n = additional_mounts.len();
    let mut i: usize = 0;
    proof {
        assert(mount_pairs(specs.take(0)) =~= Seq::<(Seq<char>, Seq<char>)>::empty());
        assert(mount_args.deep_view() =~= mount_pair_args(mount_pairs(specs.take(0)), idmap@));
    }
    while i < n
        invariant
            0 <= i <= n == additional_mounts@.len(),
            specs == additional_mounts.deep_view(),
            mount_args.deep_view() =~= mount_pair_args(mount_pairs(specs.take(i as int)), idmap@),
            forall|j: int| 0 <= j < i ==> split_char(#[trigger] specs[j], ':').len() == 2,
        decreases n - i,
    {
        let spec_str = &additional_mounts[i];
        proof {
            assert(spec_str@ == specs[i as int]);
        }
        match parse_mount_specifier(spec_str.as_str()) {
            None => {
                proof {
                    assert(split_char(specs[i as int], ':').len() != 2);
                }
                return Err(i);
            },
            Some(pair) => {
                let marg = mount_argument(pair.0.as_str(), pair.1.as_str(), idmap);
                push_word(&mut mount_args, "--mount");
                push_string(&mut mount_args, marg);
                proof {
                    let p = (split_char(specs[i as int], ':')[0], split_char(
                        specs[i as int],
                        ':',
                    )[1]);
                    lemma_mount_pair_args_snoc(mount_pairs(specs.take(i as int)), p, idmap@);
                    assert(mount_pairs(specs.take(i + 1)) =~= mount_pairs(
                        specs.take(i as int),
                    ).push(p));
                    assert(mount_args.deep_view() =~= mount_pair_args(
                        mount_pairs(specs.take(i + 1)),
                        idmap@,
                    ));
                }
            },
        }
        i = i + 1;
    }
    proof {
        assert(specs.take(n as int) =~= specs);
    }
    Ok(mount_args)
}

/// A synthesized container-creating command, with the identity facts the
/// caller needs afterwards: whether a user must still be created inside the
/// container, the container ids used, the image, and the host ids the
/// id-remapping was built for.
pub struct CreateCommand {
    pub arguments: Vec<String>,
    pub create_user: bool,
    pub container_uid: u64,
    pub container_gid: u64,
    pub image: String,
    pub host_uid: u64,
    pub host_gid: u64,
}

pub(crate) fn push_word(v: &mut Vec<String>, s: &str)
    ensures
        final(v).deep_view() == old(v).deep_view().push(s@),
{
    v.push(s.to_owned());
    proof {
        assert(v.deep_view() =~= old(v).deep_view().push(s@));
    }
}

pub(crate) fn push_string(v: &mut Vec<String>, s: String)
    ensures
        final(v).deep_view() == old(v).deep_view().push(s@),
{
    let ghost sv = s@;
    v.push(s);
    proof {
        assert(v.deep_view() =~= old(v).deep_view().push(sv));
    }
}

impl Context {
    /// Synthesizes the `run` command that creates a container, together with
    /// the identity it settled on: the resolved image (an explicit name, or
    /// the configured one), the tool's label, auto-removal for ephemeral
    /// runs or detachment for persistent ones, the pass-through words, the
    /// network and hostname setup, the run user (ephemeral runs start as
    /// root and defer the identity switch to the entry script), the primary
    /// mount of `directory` unless `no_dir`, and one bind mount per
    /// user-supplied specifier. Fails when no image can be determined, or on
    /// the first malformed mount specifier.
    #[verifier::rlimit(60)]
    pub fn generate_create_container_command(
        &self,
        image: Option<String>,
        name: &str,
        root: bool,
        temp: bool,
        passthrough: Option<&String>,
        directory: &str,
        no_dir: bool,
        additional_mounts: &Vec<String>,
        identity: &UidGidDecision,
    ) -> (r: Result<CreateCommand, Error>)
        ensures
            crate::config::resolved_image(image.deep_view(), self.config@.image) is None <==> r
                == Result::<CreateCommand, Error>::Err(Error::NoImage),
            r matches Err(Error::MountFormat { index }) ==> ({
                let specs = additional_mounts.deep_view();
                &&& crate::config::resolved_image(image.deep_view(), self.config@.image) is Some
                &&& 0 <= index < specs.len()
                &&& split_char(specs[index as int], ':').len() != 2
                &&& forall|j: int|
                    0 <= j < index ==> split_char(#[trigger] specs[j], ':').len() == 2
            }),
            (crate::config::resolved_image(image.deep_view(), self.config@.image) is Some && (
            forall|j: int|
                0 <= j < additional_mounts.deep_view().len() ==> split_char(
                    #[trigger] additional_mounts.deep_view()[j],
                    ':',
                ).len() == 2)) <==> r is Ok,
            r matches Ok(c) ==> ({
                let resolved = crate::config::resolved_image(image.deep_view(), self.config@.image);
                &&& resolved is Some
                &&& c.image@ == resolved->0
                &&& c.create_user == (!root && identity is CreateUser)
                &&& c.container_uid as int == decided_uid(root, *identity)
                &&& c.container_gid as int == decided_gid(root, *identity)
                &&& c.arguments.deep_view() == create_args(
                    self.config@.sudo_command,
                    resolved->0,
                    name@,
                    root,
                    temp,
                    c.host_uid as int,
                    c.host_gid as int,
                    c.container_uid as int,
                    c.container_gid as int,
                    pass_words(passthrough.deep_view()),
                    directory@,
                    no_dir,
                    mount_pairs(additional_mounts.deep_view()),
                )
            }),
    {
        let image_name = match self.resolve_image(image) {
            Some(x) => x,
            None => {
                return Err(Error::NoImage);
            },
        };
        let host_uid = host_effective_uid();
        let host_gid = host_effective_gid();
        let (container_uid, container_gid, create_user): (u64, u64, bool) = if root {
            (0, 0, false)
        } else {
            match *identity {
                UidGidDecision::Known { uid, gid } => (uid, gid, false),
                UidGidDecision::CreateUser => (1000, 1000, true),
            }
        };
        let idmap = idmap_expression(root, host_uid, container_uid, host_gid, container_gid);
        let ghost idmap_model = idmap@;
        let ghost specs = additional_mounts.deep_view();

        let mut mount_args: Vec<String> = match build_mount_args(additional_mounts, idmap.as_str()) {
            Ok(v) => v,
            Err(index) => {
                return Err(Error::MountFormat { index });
            },
        };

        let mut args: Vec<String> = Vec::new();
        push_string(&mut args, self.config.sudo_command.clone());
        push_word(&mut args, "podman");
        push_word(&mut args, "run");
        push_word(&mut args, "--label");
        push_word(&mut args, "seabox=true");
        push_word(&mut args, "--privileged");
        push_word(&mut args, "-it");
        let ghost seg_head = args.deep_view();
        proof {
            assert(seg_head =~= seq![
                self.config@.sudo_command,
                "podman"@,
                "run"@,
                "--label"@,
                "seabox=true"@,
                "--privileged"@,
                "-it"@,
            ]);
        }
        if temp {
            push_word(&mut args, "--rm");
        } else {
            push_word(&mut args, "-d");
        }
        let ghost seg_mode = args.deep_view();
        proof {
            assert(seg_mode =~= seg_head + (if temp {
                seq!["--rm"@]
            } else {
                seq!["-d"@]
            }));
        }

        let mut pass_through_args: Vec<String> = match passthrough {
            Some(pt) => match shlex_split(pt.as_str()) {
                Some(ws) => ws,
                None => Vec::new(),
            },
            None => Vec::new(),
        };
        proof {
            assert(pass_through_args.deep_view() =~= pass_words(passthrough.deep_view()));
        }
        let ghost ptw = pass_through_args.deep_view();
        args.append(&mut pass_through_args);
        let ghost seg_pass = args.deep_view();
        proof {
            assert(seg_pass =~= seg_mode + ptw);
        }

        let mut hostname = "seabox-".to_owned();
        hostname.append(name);
        let add_host = hostname.clone().concat(":127.0.0.1");
        let ghost hostname_model = hostname@;
        let user_string: String = if temp {
            "0:0".to_owned()
        } else {
            let mut u = u64_to_string(container_uid);
            u.append(":");
            u.append(u64_to_string(container_gid).as_str());
            u
        };
        proof {
            assert(hostname_model =~= "seabox-"@ + name@);
            assert(add_host@ =~= hostname_model + ":127.0.0.1"@);
            if !temp {
                assert(user_string@ =~= dec_str(container_uid as int) + ":"@ + dec_str(
                    container_gid as int,
                ));
            }
        }
        let ghost user_model = user_string@;
        push_word(&mut args, "--network");
        push_word(&mut args, "host");
        push_word(&mut args, "--hostname");
        push_string(&mut args, hostname);
        push_word(&mut args, "--add-host");
        push_string(&mut args, add_host);
        push_word(&mut args, "-u");
        push_string(&mut args, user_string);
        push_word(&mut args, "--passwd=false");
        push_word(&mut args, "-w");
        push_word(&mut args, "/mount/");
        let ghost seg_net = args.deep_view();
        proof {
            assert(seg_net =~= seg_pass + seq![
                "--network"@,
                "host"@,
                "--hostname"@,
                hostname_model,
                "--add-host"@,
                hostname_model + ":127.0.0.1"@,
                "-u"@,
                user_model,
                "--passwd=false"@,
                "-w"@,
                "/mount/"@,
            ]);
        }

        if !no_dir {
            let primary = mount_argument(directory, "/mount/", idmap.as_str());
            push_word(&mut args, "--mount");
            push_string(&mut args, primary);
        }
        let ghost seg_dir = args.deep_view();
        proof {
            assert(seg_dir =~= seg_net + (if no_dir {
                Seq::<Seq<char>>::empty()
            } else {
                seq!["--mount"@, mount_arg(directory@, "/mount/"@, idmap_model)]
            }));
        }

        let ghost mount_model = mount_args.deep_view();
        args.append(&mut mount_args);
        push_word(&mut args, "--name");
        push_word(&mut args, name);
        push_string(&mut args, image_name.clone());
        proof {
            assert(args.deep_view() =~= seg_dir + mount_model + seq![
                "--name"@,
                name@,
                image_name@,
            ]);
            assert(args.deep_view() =~= create_args(
                self.config@.sudo_command,
                image_name@,
                name@,
                root,
                temp,
                host_uid as int,
                host_gid as int,
                container_uid as int,
                container_gid as int,
                pass_words(passthrough.deep_view()),
                directory@,
                no_dir,
                mount_pairs(specs),
            ));
        }
        Ok(
            CreateCommand {
                arguments: args,
                create_user,
                container_uid,
                container_gid,
                image: image_name,
                host_uid,
                host_gid,
            },
        )
    }

    /// The `container inspect` command for a named container.
    pub fn generate_container_inspect_command(&self, name: &str) -> (r: Vec<String>)
        ensures
            r.deep_view() == container_inspect_args(self.config@.sudo_command, name@),
    {
        let mut v: Vec<String> = Vec::new();
        push_string(&mut v, self.config.sudo_command.clone());
        push_word(&mut v, "podman");
        push_word(&mut v, "container");
        push_word(&mut v, "inspect");
        push_word(&mut v, name);
        proof {
            assert(v.deep_view() =~= container_inspect_args(self.config@.sudo_command, name@));
        }
        v
    }

    /// The `image inspect` command for an image.
    pub fn generate_image_inspect_command(&self, image: &str) -> (r: Vec<String>)
        ensures
            r.deep_view() == image_inspect_args(self.config@.sudo_command, image@),
    {
        let mut v: Vec<String> = Vec::new();
        push_string(&mut v, self.config.sudo_command.clone());
        push_word(&mut v, "podman");
        push_word(&mut v, "image");
        push_word(&mut v, "inspect");
        push_word(&mut v, image);
        proof {
            assert(v.deep_view() =~= image_inspect_args(self.config@.sudo_command, image@));
        }
        v
    }

    /// The `pull` command for an image.
    pub fn generate_image_pull_command(&self, image: &str) -> (r: Vec<String>)
        ensures
            r.deep_view() == image_pull_args(self.config@.sudo_command, image@),
    {
        let mut v: Vec<String> = Vec::new();
        push_string(&mut v, self.config.sudo_command.clone());
        push_word(&mut v, "podman");
        push_word(&mut v, "pull");
        push_word(&mut v, image);
        proof {
            assert(v.deep_view() =~= image_pull_args(self.config@.sudo_command, image@));
        }
        v
    }

    /// The throwaway, auto-removed run of an image that dumps its user
    /// database file.
    pub fn generate_cat_etc_password_command(&self, image: &str) -> (r: Vec<String>)
        ensures
            r.deep_view() == cat_etc_passwd_args(self.config@.sudo_command, image@),
    {
        let mut v: Vec<String> = Vec::new();
        push_string(&mut v, self.config.sudo_command.clone());
        push_word(&mut v, "podman");
        push_word(&mut v, "run");
        push_word(&mut v, "--rm");
        push_word(&mut v, "--entrypoint");
        push_word(&mut v, "cat");
        push_word(&mut v, image);
        push_word(&mut v, "/etc/passwd");
        proof {
            assert(v.deep_view() =~= cat_etc_passwd_args(self.config@.sudo_command, image@));
        }
        v
    }

    /// The `ps` command listing every container this tool created.
    pub fn generate_list_containers_command(&self) -> (r: Vec<String>)
        ensures
            r.deep_view() == list_containers_args(self.config@.sudo_command),
    {
        let mut v: Vec<String> = Vec::new();
        push_string(&mut v, self.config.sudo_command.clone());
        push_word(&mut v, "podman");
        push_word(&mut v, "ps");
        push_word(&mut v, "--all");
        push_word(&mut v, "--filter");
        push_word(&mut v, "label=seabox=true");
        proof {
            assert(v.deep_view() =~= list_containers_args(self.config@.sudo_command));
        }
        v
    }

    /// The `kill` command for a named container.
    pub fn generate_container_stop_command(&self, name: &str) -> (r: Vec<String>)
        ensures
            r.deep_view() == container_stop_args(self.config@.sudo_command, name@),
    {
        let mut v: Vec<String> = Vec::new();
        push_string(&mut v, self.config.sudo_command.clone());
        push_word(&mut v, "podman");
        push_word(&mut v, "kill");
        push_word(&mut v, name);
        proof {
            assert(v.deep_view() =~= container_stop_args(self.config@.sudo_command, name@));
        }
        v
    }

    /// The forced `container rm` command for a named container.
    pub fn generate_container_delete_command(&self, name: &str) -> (r: Vec<String>)
        ensures
            r.deep_view() == container_delete_args(self.config@.sudo_command, name@),
    {
        let mut v: Vec<String> = Vec::new();
        push_string(&mut v, self.config.sudo_command.clone());
        push_word(&mut v, "podman");
        push_word(&mut v, "container");
        push_word(&mut v, "rm");
        push_word(&mut v, "--force");
        push_word(&mut v, name);
        proof {
            assert(v.deep_view() =~= container_delete_args(self.config@.sudo_command, name@));
        }
        v
    }

    /// The `start` command for a named container.
    pub fn generate_container_start_command(&self, name: &str) -> (r: Vec<String>)
        ensures
            r.deep_view() == container_start_args(self.config@.sudo_command, name@),
    {
        let mut v: Vec<String> = Vec::new();
        push_string(&mut v, self.config.sudo_command.clone());
        push_word(&mut v, "podman");
        push_word(&mut v, "start");
        push_word(&mut v, name);
        proof {
            assert(v.deep_view() =~= container_start_args(self.config@.sudo_command, name@));
        }
        v
    }
}

} // verus!
