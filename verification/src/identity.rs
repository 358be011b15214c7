//! Container-identity resolution: what UID and GID a new process inside a
//! given image should run as.
//!
//! The evidence is consulted in a fixed order, first hit wins: an explicit
//! image label carrying a pre-selected UID; otherwise a dump of the image's
//! user database, from which the entry with the largest UID in the
//! conventional first-normal-user band `[1000, 2000)` is taken. With no
//! evidence at all, the caller must create a user inside the container.
//!
//! Running the runtime commands involved (image inspect, pull, the passwd
//! dump) is outside this library; the decision each observed outcome leads
//! to is made here.

use vstd::prelude::*;

use crate::config::Context;
use crate::errors::Error;
use crate::text::{dec_val, is_dec_string, parse_u64, split_char, split_str};

verus! {

/// The result of identity resolution: either a known container UID/GID, or
/// the finding that the image has no usable user, so one must be created
/// (the caller then falls back to a fixed default identity until the created
/// user exists).
#[derive(Clone, Copy, Debug, PartialEq, Eq, Structural)]
pub enum UidGidDecision {
    Known { uid: u64, gid: u64 },
    CreateUser,
}

/// One line of a user database dump: `name:...:uid:gid:...`.
pub struct PasswdEntry {
    pub name: String,
    pub uid: u64,
    pub gid: u64,
}

/// The mathematical value of a `PasswdEntry`.
pub struct PasswdEntryModel {
    pub name: Seq<char>,
    pub uid: int,
    pub gid: int,
}

impl View for PasswdEntry {
    type V = PasswdEntryModel;

    open spec fn view(&self) -> PasswdEntryModel {
        PasswdEntryModel { name: self.name@, uid: self.uid as int, gid: self.gid as int }
    }
}

impl DeepView for PasswdEntry {
    type V = PasswdEntryModel;

    open spec fn deep_view(&self) -> PasswdEntryModel {
        self@
    }
}

/// A line without its trailing carriage return, if it has one.
pub open spec fn strip_cr(line: Seq<char>) -> Seq<char> {
    if line.len() > 0 && line.last() == '\r' {
        line.drop_last()
    } else {
        line
    }
}

/// The lines of a text: segments between newlines, without a final empty
/// segment after a trailing newline, and each without a trailing carriage
/// return.
pub open spec fn split_lines(s: Seq<char>) -> Seq<Seq<char>> {
    let raw = split_char(s, '\n');
    let trimmed = if raw.len() > 0 && raw.last().len() == 0 {
        raw.drop_last()
    } else {
        raw
    };
    trimmed.map_values(|l: Seq<char>| strip_cr(l))
}

/// What one user database line means: its first field is the name, its third
/// and fourth are the UID and GID, both unsigned decimal numbers. Anything
/// else is malformed.
pub open spec fn passwd_entry_of(line: Seq<char>) -> Option<PasswdEntryModel> {
    let f = split_char(line, ':');
    if f.len() >= 4 && is_dec_string(f[2]) && dec_val(f[2]) <= u64::MAX && is_dec_string(f[3])
        && dec_val(f[3]) <= u64::MAX {
        Some(PasswdEntryModel { name: f[0], uid: dec_val(f[2]), gid: dec_val(f[3]) })
    } else {
        None
    }
}

fn strip_cr_str(line: &String) -> (r: String)
    ensures
        r@ == strip_cr(line@),
{
    let n = line.as_str().unicode_len();
    if n > 0 && line.as_str().get_char(n - 1) == '\r' {
        let r = line.as_str().substring_char(0, n - 1).to_owned();
        proof {
            assert(line@.subrange(0, n - 1) =~= line@.drop_last());
        }
        r
    } else {
        line.clone()
    }
}

/// Parses a user database dump into its entries; any malformed line is a
/// fatal parse error, the decision being security-relevant.
pub fn parse_passwd(text: &str) -> (r: Result<Vec<PasswdEntry>, Error>)
    ensures
        r is Ok <==> (forall|i: int|
            0 <= i < split_lines(text@).len() ==> passwd_entry_of(
                #[trigger] split_lines(text@)[i],
            ) is Some),
        r matches Ok(v) ==> {
            &&& v@.len() == split_lines(text@).len()
            &&& forall|i: int|
                0 <= i < v@.len() ==> Some(#[trigger] v@[i]@) == passwd_entry_of(
                    split_lines(text@)[i],
                )
        },
        r is Err ==> r == Result::<Vec<PasswdEntry>, Error>::Err(Error::MalformedPasswd),
    {
    let mut lines = split_str(text, '\n');
    proof {
        crate::text::lemma_split_char_len(text@, '\n');
    }
    if lines.len() > 0 && lines[lines.len() - 1].as_str().is_empty() {
        let _ = lines.pop();
        proof {
            assert(lines.deep_view() =~= split_char(text@, '\n').drop_last());
        }
    }
    let ghost line_models = split_lines(text@);
    proof {
        assert(line_models =~= lines.deep_view().map_values(|l: Seq<char>| strip_cr(l)));
    }
    let n = lines.len();
    let mut out: Vec<PasswdEntry> = Vec::new();
    let mut i: usize = 0;
    while i < n
        invariant
            0 <= i <= n == lines@.len(),
            line_models == split_lines(text@),
            line_models == lines.deep_view().map_values(|l: Seq<char>| strip_cr(l)),
            out@.len() == i,
            forall|j: int|
                0 <= j < i ==> Some(#[trigger] out@[j]@) == passwd_entry_of(line_models[j]),
        decreases n - i,
    {
        let stripped = strip_cr_str(&lines[i]);
        proof {
            assert(line_models[i as int] == strip_cr(lines.deep_view()[i as int]));
            assert(stripped@ == line_models[i as int]);
        }
        let fields = split_str(stripped.as_str(), ':');
        if fields.len() < 4 {
            proof {
                assert(split_lines(text@)[i as int] == stripped@);
                assert(fields.deep_view() == split_char(stripped@, ':'));
                assert(split_char(stripped@, ':').len() == fields@.len());
                assert(passwd_entry_of(split_lines(text@)[i as int]) is None);
            }
            return Err(Error::MalformedPasswd);
        }
        let uid = match parse_u64(fields[2].as_str()) {
            Some(x) => x,
            None => {
                proof {
                    assert(fields@[2]@ == split_char(stripped@, ':')[2]);
                    assert(passwd_entry_of(split_lines(text@)[i as int]) is None);
                }
                return Err(Error::MalformedPasswd);
            },
        };
        let gid = match parse_u64(fields[3].as_str()) {
            Some(x) => x,
            None => {
                proof {
                    assert(fields@[3]@ == split_char(stripped@, ':')[3]);
                    assert(passwd_entry_of(split_lines(text@)[i as int]) is None);
                }
                return Err(Error::MalformedPasswd);
            },
        };
        let entry = PasswdEntry { name: fields[0].clone(), uid, gid };
        proof {
            assert(Some(entry@) == passwd_entry_of(line_models[i as int]));
        }
        out.push(entry);
        i = i + 1;
    }
    proof {
        assert forall|j: int| 0 <= j < split_lines(text@).len() implies passwd_entry_of(
            #[trigger] split_lines(text@)[j],
        ) is Some by {
            assert(Some(out@[j]@) == passwd_entry_of(line_models[j]));
        }
    }
    Ok(out)
}

/// The conventional band of "first normal user" UIDs. System accounts lie
/// below it; dynamically allocated ids lie above it.
pub open spec fn in_band(uid: int) -> bool {
    1000 <= uid < 2000
}

/// The entry identity resolution picks from a user database: the one with
/// the largest UID inside the band, later entries winning ties.
pub open spec fn best_entry(s: Seq<PasswdEntryModel>) -> Option<PasswdEntryModel>
    decreases s.len(),
{
    if s.len() == 0 {
        None
    } else {
        let prev = best_entry(s.drop_last());
        let last = s.last();
        if !in_band(last.uid) {
            prev
        } else {
            match prev {
                None => Some(last),
                Some(p) => if last.uid >= p.uid {
                    Some(last)
                } else {
                    Some(p)
                },
            }
        }
    }
}

/// What `best_entry` picks, spelled out: nothing exactly when no entry's UID
/// lies in the band; otherwise one of the entries, inside the band, with no
/// in-band entry above it.
pub proof fn lemma_best_entry(s: Seq<PasswdEntryModel>)
    ensures
        best_entry(s) is None <==> (forall|i: int| 0 <= i < s.len() ==> !in_band(#[trigger] s[i].uid)),
        best_entry(s) matches Some(b) ==> {
            &&& in_band(b.uid)
            &&& exists|i: int| 0 <= i < s.len() && s[i] == b
            &&& forall|i: int| 0 <= i < s.len() && in_band(#[trigger] s[i].uid) ==> s[i].uid <= b.uid
        },
    decreases s.len(),
{
    if s.len() > 0 {
        lemma_best_entry(s.drop_last());
        assert forall|i: int| 0 <= i < s.len() - 1 implies s.drop_last()[i] == s[i] by {}
        let picked = best_entry(s);
        if picked is Some {
            let b = picked->0;
            if s.last() == b {
                assert(s[s.len() - 1] == b);
            }
        }
    }
}

/// Picks the entry with the largest in-band UID, as `best_entry` describes;
/// `None` when no entry lies in the band.
pub fn select_passwd_user(entries: &Vec<PasswdEntry>) -> (r: Option<(u64, u64)>)
    ensures
        match r {
            None => best_entry(entries.deep_view()) is None,
            Some(p) => best_entry(entries.deep_view()) == Some(
                PasswdEntryModel { name: best_entry(entries.deep_view())->0.name, uid: p.0 as int, gid: p.1 as int },
            ),
        },
{
    let n = entries.len();
    let mut best: Option<(u64, u64)> = None;
    let mut i: usize = 0;
    proof {
        assert(entries.deep_view().take(0) =~= Seq::<PasswdEntryModel>::empty());
    }
    while i < n
        invariant
            0 <= i <= n == entries@.len(),
            match best {
                None => best_entry(entries.deep_view().take(i as int)) is None,
                Some(p) => best_entry(entries.deep_view().take(i as int)) == Some(
                    PasswdEntryModel {
                        name: best_entry(entries.deep_view().take(i as int))->0.name,
                        uid: p.0 as int,
                        gid: p.1 as int,
                    },
                ),
            },
        decreases n - i,
    {
        let e = &entries[i];
        proof {
            assert(entries.deep_view().take(i + 1).drop_last() =~= entries.deep_view().take(
                i as int,
            ));
            assert(entries.deep_view().take(i + 1).last() == entries.deep_view()[i as int]);
            assert(entries.deep_view()[i as int] == e@);
        }
        if e.uid >= 1000 && e.uid < 2000 {
            match best {
                None => {
                    best = Some((e.uid, e.gid));
                },
                Some(p) => {
                    if e.uid >= p.0 {
                        best = Some((e.uid, e.gid));
                    }
                },
            }
        }
        i = i + 1;
    }
    proof {
        assert(entries.deep_view().take(n as int) =~= entries.deep_view());
    }
    best
}

impl Context {
    /// The identity a pre-selected user-id label dictates: the labelled UID
    /// for both UID and GID, with no user creation and no passwd scan; a
    /// label that is not an unsigned decimal number is fatal.
    pub fn decide_from_label(&self, label_value: &str) -> (r: Result<UidGidDecision, Error>)
        ensures
            r is Ok <==> is_dec_string(label_value@) && dec_val(label_value@) <= u64::MAX,
            (is_dec_string(label_value@) && dec_val(label_value@) <= u64::MAX) <==> (r matches Ok(
                UidGidDecision::Known { uid, gid },
            ) && uid == dec_val(label_value@) && gid == dec_val(label_value@)),
            r is Err ==> r == Result::<UidGidDecision, Error>::Err(Error::MalformedLabel),
            r is Ok ==> r->Ok_0 is Known,
    {
        match parse_u64(label_value) {
            Some(uid) => Ok(UidGidDecision::Known { uid, gid: uid }),
            None => Err(Error::MalformedLabel),
        }
    }

    /// The identity a user database dump dictates: the entry `best_entry`
    /// picks, or the finding that a user must be created when the dump could
    /// not be read at all or holds no in-band entry. A malformed dump is
    /// fatal.
    pub fn decide_from_passwd(&self, passwd_text: Option<&String>) -> (r: Result<
        UidGidDecision,
        Error,
    >)
        ensures
            passwd_text is None ==> r == Result::<UidGidDecision, Error>::Ok(
                UidGidDecision::CreateUser,
            ),
            passwd_text matches Some(t) ==> {
                &&& r is Err <==> (exists|i: int|
                    0 <= i < split_lines(t@).len() && passwd_entry_of(
                        #[trigger] split_lines(t@)[i],
                    ) is None)
                &&& r is Err ==> r == Result::<UidGidDecision, Error>::Err(Error::MalformedPasswd)
                &&& r is Ok ==> {
                    let picked = best_entry(entry_models(t@));
                    match picked {
                        None => r == Result::<UidGidDecision, Error>::Ok(UidGidDecision::CreateUser),
                        Some(b) => r == Result::<UidGidDecision, Error>::Ok(
                            UidGidDecision::Known { uid: b.uid as u64, gid: b.gid as u64 },
                        ),
                    }
                }
            },
    {
        let text = match passwd_text {
            None => {
                return Ok(UidGidDecision::CreateUser);
            },
            Some(t) => t,
        };
        let entries = match parse_passwd(text.as_str()) {
            Ok(v) => v,
            Err(e) => {
                return Err(e);
            },
        };
        proof {
            assert(entries.deep_view() =~= entry_models(text@));
        }
        match select_passwd_user(&entries) {
            Some(p) => {
                proof {
                    lemma_best_entry(entries.deep_view());
                }
                Ok(UidGidDecision::Known { uid: p.0, gid: p.1 })
            },
            None => Ok(UidGidDecision::CreateUser),
        }
    }
}

/// What identity resolution asks its caller to do next: run one more
/// runtime command and report its outcome, stop with a decision, or stop
/// with a fatal error.
pub enum IdentityOutcome {
    Run { command: Vec<String> },
    Decided { decision: UidGidDecision },
    Failed { error: Error },
}

impl Context {
    /// The step after the caller tried `image inspect`: `found` says whether
    /// the image is present locally, `label_value` carries its user-id label
    /// when it has one, and `after_pull` says whether a pull already
    /// happened. A present label decides immediately — no passwd scan is
    /// asked for; an image without a label gets its user database dumped; a
    /// missing image is pulled first, unless this is a dry run (which cannot
    /// pull, and stops) or the pull already happened (fatal).
    pub fn identity_on_image_info(
        &self,
        image: &str,
        dry_run: bool,
        after_pull: bool,
        found: bool,
        label_value: Option<&String>,
    ) -> (r: IdentityOutcome)
        ensures
            !found && !after_pull && dry_run ==> r == (IdentityOutcome::Failed { error: Error::PullNeededInDryRun }),
            !found && !after_pull && !dry_run ==> (r matches IdentityOutcome::Run { command }
                && command.deep_view() == crate::commands::image_pull_args(
                self.config@.sudo_command,
                image@,
            )),
            !found && after_pull ==> r == (IdentityOutcome::Failed { error: Error::ImageUnavailable }),
            found ==> (label_value matches Some(v) ==> {
                &&& !(r is Run)
                &&& is_dec_string(v@) && dec_val(v@) <= u64::MAX ==> r
                    == (IdentityOutcome::Decided {
                    decision: UidGidDecision::Known {
                        uid: dec_val(v@) as u64,
                        gid: dec_val(v@) as u64,
                    },
                })
                &&& !(is_dec_string(v@) && dec_val(v@) <= u64::MAX) ==> r
                    == (IdentityOutcome::Failed { error: Error::MalformedLabel })
            }),
            found && label_value is None ==> (r matches IdentityOutcome::Run { command }
                && command.deep_view() == crate::commands::cat_etc_passwd_args(
                self.config@.sudo_command,
                image@,
            )),
    {
        if !found {
            if after_pull {
                IdentityOutcome::Failed { error: Error::ImageUnavailable }
            } else if dry_run {
                IdentityOutcome::Failed { error: Error::PullNeededInDryRun }
            } else {
                IdentityOutcome::Run { command: self.generate_image_pull_command(image) }
            }
        } else {
            match label_value {
                Some(v) => {
                    proof {
                        if is_dec_string(v@) {
                            crate::text::lemma_dec_val_nonneg(v@);
                        }
                    }
                    match self.decide_from_label(v.as_str()) {
                        Ok(decision) => IdentityOutcome::Decided { decision },
                        Err(error) => IdentityOutcome::Failed { error },
                    }
                },
                None => {
                    IdentityOutcome::Run { command: self.generate_cat_etc_password_command(image) }
                },
            }
        }
    }

    /// The step after the caller pulled the image: a failed pull is fatal;
    /// after a successful one the image is inspected again.
    pub fn identity_on_pull(&self, image: &str, ok: bool) -> (r: IdentityOutcome)
        ensures
            !ok ==> r == (IdentityOutcome::Failed { error: Error::PullFailed }),
            ok ==> (r matches IdentityOutcome::Run { command } && command.deep_view()
                == crate::commands::image_inspect_args(self.config@.sudo_command, image@)),
    {
        if ok {
            IdentityOutcome::Run { command: self.generate_image_inspect_command(image) }
        } else {
            IdentityOutcome::Failed { error: Error::PullFailed }
        }
    }

    /// The step after the caller dumped the image's user database (`None`
    /// when the dump could not be run): what `decide_from_passwd` says.
    pub fn identity_on_passwd(&self, passwd_text: Option<&String>) -> (r: IdentityOutcome)
        ensures
            passwd_text is None ==> r == (IdentityOutcome::Decided {
                decision: UidGidDecision::CreateUser,
            }),
            passwd_text matches Some(t) ==> {
                &&& (exists|i: int|
                    0 <= i < split_lines(t@).len() && passwd_entry_of(
                        #[trigger] split_lines(t@)[i],
                    ) is None) <==> r == (IdentityOutcome::Failed { error: Error::MalformedPasswd })
                &&& !(r is Failed) ==> {
                    match best_entry(entry_models(t@)) {
                        None => r == (IdentityOutcome::Decided {
                            decision: UidGidDecision::CreateUser,
                        }),
                        Some(b) => r == (IdentityOutcome::Decided {
                            decision: UidGidDecision::Known { uid: b.uid as u64, gid: b.gid as u64 },
                        }),
                    }
                }
            },
    {
        match self.decide_from_passwd(passwd_text) {
            Ok(decision) => IdentityOutcome::Decided { decision },
            Err(error) => IdentityOutcome::Failed { error },
        }
    }
}

/// The entries a well-formed user database dump holds.
pub open spec fn entry_models(s: Seq<char>) -> Seq<PasswdEntryModel> {
    split_lines(s).map_values(|l: Seq<char>| passwd_entry_of(l)->0)
}

} // verus!
