//! The runtime resolver: a state machine that decides, step by step, how a
//! usable runtime binary is found or provisioned.  The host performs each
//! requested [`Action`] and answers with an [`Event`]; every decision lives
//! here and is verified against [`transition`].

use vstd::prelude::*;
use vstd::string::*;

use crate::platform::{Arch, ArchiveKind, Os};
use crate::platform::{archive_kind, asset_name, binary_path, version_dir};
use crate::platform::{spec_archive_kind, spec_asset_name, spec_binary_path, spec_version_dir};

verus! {

/// Installation progress reported to the host while a resolve runs.
#[derive(Clone, Copy, PartialEq, Eq, Structural, Debug)]
pub enum Status {
    Idle,
    CheckingForUpdate,
    Downloading,
    Failed,
    Ready,
}

/// One downloadable archive attached to a published runtime version.
pub struct ReleaseAsset {
    pub name: String,
    pub download_url: String,
}

/// The latest published runtime version together with its assets.
pub struct Release {
    pub version: String,
    pub assets: Vec<ReleaseAsset>,
}

/// Where a resolve session stands: which answer from the host it waits for,
/// and what it has computed so far.
pub enum Phase {
    /// No session is running.
    Idle,
    /// Waiting for the PATH lookup's answer.
    AwaitWhich { os: Os, arch: Arch },
    /// Waiting to hear whether the cached path is still a regular file.
    AwaitCacheCheck { os: Os, arch: Arch },
    /// Waiting for the release index's answer.
    AwaitRelease { os: Os, arch: Arch },
    /// Waiting to hear whether the target binary already exists on disk.
    AwaitBinaryCheck { os: Os, binary_path: String, url: String, version_dir: String },
    /// Waiting for the download-and-extract helper to finish.
    AwaitDownload { binary_path: String, version_dir: String },
    /// Waiting for the working directory's entry listing.
    AwaitEntries { binary_path: String, version_dir: String },
    /// Waiting for the best-effort renames to be attempted.
    AwaitRenames { outcome: Result<String, String> },
}

/// What the host reports back after performing an [`Action`].
pub enum Event {
    /// Start a session for the given platform.
    Resolve { os: Os, arch: Arch },
    /// The PATH lookup's answer.
    Which { found: Option<String> },
    /// Whether the path the machine asked about is a regular file.
    FileStat { is_file: bool },
    /// The release index answered with the latest qualifying release.
    ReleaseReady { release: Release },
    /// The release index failed; its error message.
    ReleaseFailed { error: String },
    /// The download-and-extract helper succeeded.
    Downloaded,
    /// The download-and-extract helper failed; the underlying cause.
    DownloadFailed { error: String },
    /// The working directory's entries: each one a file name, or the cause
    /// of a failed entry read.
    Entries { entries: Vec<Result<String, String>> },
    /// Listing the working directory itself failed; the underlying cause.
    EntriesFailed { error: String },
    /// The requested renames were attempted (failures silently ignored).
    Renamed,
}

/// What the machine asks the host to do next.
pub enum Action {
    /// Look the runtime up on the execution PATH.
    FindOnPath,
    /// Check whether `path` is a regular file.
    CheckFile { path: String },
    /// Report `status`, then query the release index for the latest
    /// published version that has assets and is not a pre-release.
    FetchLatestRelease { status: Status },
    /// Report `status`, then download `url` and extract it into `directory`
    /// as an archive of kind `kind`.
    Download { url: String, directory: String, kind: ArchiveKind, status: Status },
    /// List the working directory's immediate entries.
    ListWorkDir,
    /// Best-effort: rename each of `sources` to `destination`, ignoring
    /// failures.
    RenameAll { sources: Vec<String>, destination: String },
    /// The session is over; hand `result` to the caller.
    Finish { result: Result<String, String> },
}

/// The resolver: the in-memory cache of a previously resolved binary path,
/// and the phase of the session in flight, if any.
pub struct Resolver {
    pub cached_node_binary: Option<String>,
    pub phase: Phase,
}

/// `p` is a prefix of `s`.
pub open spec fn spec_has_prefix(s: Seq<char>, p: Seq<char>) -> bool {
    p.len() <= s.len() && s.take(p.len() as int) == p
}

/// A directory entry was read and its name carries the runtime's
/// conventional name prefix, so the post-extract normalization renames it.
pub open spec fn entry_qualifies(e: Result<String, String>) -> bool {
    e is Ok && spec_has_prefix(e->Ok_0@, "node-"@)
}

/// The names, in order, of the qualifying entries of `entries`.
pub open spec fn spec_sources(entries: Seq<Result<String, String>>) -> Seq<Seq<char>>
    decreases entries.len(),
{
    if entries.len() == 0 {
        Seq::empty()
    } else {
        spec_sources(entries.drop_last()) + if entry_qualifies(entries.last()) {
            seq![entries.last()->Ok_0@]
        } else {
            Seq::empty()
        }
    }
}

/// The views of a sequence of strings.
pub open spec fn views_of(v: Seq<String>) -> Seq<Seq<char>> {
    v.map_values(|s: String| s@)
}

/// `i` is the position of the first unreadable entry, or the length of
/// `entries` when every entry was read.
pub open spec fn is_first_err(entries: Seq<Result<String, String>>, i: int) -> bool {
    &&& 0 <= i <= entries.len()
    &&& forall|j: int| 0 <= j < i ==> entries[j] is Ok
    &&& i < entries.len() ==> entries[i] is Err
}

/// `i` is the position of the first asset named `name`.
pub open spec fn is_first_match(assets: Seq<ReleaseAsset>, name: Seq<char>, i: int) -> bool {
    &&& 0 <= i < assets.len()
    &&& assets[i].name@ == name
    &&& forall|j: int| 0 <= j < i ==> assets[j].name@ != name
}

/// The error reported when no asset carries the expected name.
pub open spec fn spec_no_asset_message(name: Seq<char>) -> Seq<char> {
    "no asset found matching \""@ + name + "\""@
}

/// Decides whether `p` is a prefix of `s`.
pub fn has_prefix(s: &str, p: &str) -> (r: bool)
    ensures
        r == spec_has_prefix(s@, p@),
{
    let sl = s.unicode_len();
    let pl = p.unicode_len();
    if pl > sl {
        return false;
    }
    let mut i: usize = 0;
    while i < pl
        invariant
            i <= pl,
            pl <= sl,
            sl == s@.len(),
            pl == p@.len(),
            forall|j: int| 0 <= j < i ==> s@[j] == p@[j],
        decreases pl - i,
    {
        if s.get_char(i) != p.get_char(i) {
            proof {
                assert(s@.take(pl as int)[i as int] != p@[i as int]);
            }
            return false;
        }
        i += 1;
    }
    proof {
        assert(s@.take(pl as int) =~= p@);
    }
    true
}

/// Finds the first asset whose name is exactly `name`, as the asset search
/// does: `Some` of the first matching position, `None` when no asset
/// matches.
pub fn find_asset(assets: &Vec<ReleaseAsset>, name: &String) -> (r: Option<usize>)
    ensures
        match r {
            Some(i) => is_first_match(assets@, name@, i as int),
            None => forall|j: int| 0 <= j < assets@.len() ==> assets@[j].name@ != name@,
        },
{
    let mut i: usize = 0;
    while i < assets.len()
        invariant
            i <= assets@.len(),
            forall|j: int| 0 <= j < i ==> assets@[j].name@ != name@,
        decreases assets@.len() - i,
    {
        if assets[i].name == *name {
            return Some(i);
        }
        i += 1;
    }
    None
}

/// Builds `prefix` followed by `cause`: the shape of every descriptive
/// error this machine reports about a failed host operation.
pub fn prefixed_message(prefix: &str, cause: &str) -> (r: String)
    ensures
        r@ == prefix@ + cause@,
{
    let mut r = String::from_str(prefix);
    r.append(cause);
    r
}

/// A session only ever waits for the cache check when a cached path exists.
impl Resolver {
    pub open spec fn wf(self) -> bool {
        self.phase is AwaitCacheCheck ==> self.cached_node_binary is Some
    }
}

/// Which event answers the question the machine asked: the host always
/// reports the outcome of the action it was handed.
pub open spec fn accepts(phase: Phase, e: Event) -> bool {
    match (phase, e) {
        (Phase::Idle, Event::Resolve { .. }) => true,
        (Phase::AwaitWhich { .. }, Event::Which { .. }) => true,
        (Phase::AwaitCacheCheck { .. }, Event::FileStat { .. }) => true,
        (Phase::AwaitRelease { .. }, Event::ReleaseReady { .. }) => true,
        (Phase::AwaitRelease { .. }, Event::ReleaseFailed { .. }) => true,
        (Phase::AwaitBinaryCheck { .. }, Event::FileStat { .. }) => true,
        (Phase::AwaitDownload { .. }, Event::Downloaded) => true,
        (Phase::AwaitDownload { .. }, Event::DownloadFailed { .. }) => true,
        (Phase::AwaitEntries { .. }, Event::Entries { .. }) => true,
        (Phase::AwaitEntries { .. }, Event::EntriesFailed { .. }) => true,
        (Phase::AwaitRenames { .. }, Event::Renamed) => true,
        _ => false,
    }
}

/// The machine's one-step behaviour: what the next state and the next
/// action are for each phase and each answer the host can give.
pub open spec fn transition(pre: Resolver, e: Event, post: Resolver, a: Action) -> bool {
    match (pre.phase, e) {
        (Phase::Idle, Event::Resolve { os, arch }) => {
            &&& post == (Resolver {
                cached_node_binary: pre.cached_node_binary,
                phase: Phase::AwaitWhich { os, arch },
            })
            &&& a == (Action::FindOnPath)
        },
        (Phase::AwaitWhich { .. }, Event::Which { found: Some(path) }) => {
            &&& post == (Resolver {
                cached_node_binary: pre.cached_node_binary,
                phase: Phase::Idle,
            })
            &&& a == (Action::Finish { result: Ok(path) })
        },
        (Phase::AwaitWhich { os, arch }, Event::Which { found: None }) => {
            match pre.cached_node_binary {
                Some(cached) => {
                    &&& post == (Resolver {
                        cached_node_binary: pre.cached_node_binary,
                        phase: Phase::AwaitCacheCheck { os, arch },
                    })
                    &&& a == (Action::CheckFile { path: cached })
                },
                None => {
                    &&& post == (Resolver {
                        cached_node_binary: pre.cached_node_binary,
                        phase: Phase::AwaitRelease { os, arch },
                    })
                    &&& a == (Action::FetchLatestRelease { status: Status::CheckingForUpdate })
                },
            }
        },
        (Phase::AwaitCacheCheck { os, arch }, Event::FileStat { is_file }) => {
            match pre.cached_node_binary {
                Some(cached) => {
                    if is_file {
                        &&& post == (Resolver {
                            cached_node_binary: pre.cached_node_binary,
                            phase: Phase::Idle,
                        })
                        &&& a == (Action::Finish { result: Ok(cached) })
                    } else {
                        &&& post == (Resolver {
                            cached_node_binary: pre.cached_node_binary,
                            phase: Phase::AwaitRelease { os, arch },
                        })
                        &&& a == (Action::FetchLatestRelease {
                            status: Status::CheckingForUpdate,
                        })
                    }
                },
                None => false,
            }
        },
        (Phase::AwaitRelease { .. }, Event::ReleaseFailed { error }) => {
            &&& post == (Resolver {
                cached_node_binary: pre.cached_node_binary,
                phase: Phase::Idle,
            })
            &&& a == (Action::Finish { result: Err(error) })
        },
        (Phase::AwaitRelease { os, arch }, Event::ReleaseReady { release }) => {
            let name = spec_asset_name(release.version@, os, arch);
            if exists|i: int| is_first_match(release.assets@, name, i) {
                &&& post.cached_node_binary == pre.cached_node_binary
                &&& post.phase matches Phase::AwaitBinaryCheck {
                    os: os2,
                    binary_path: bp,
                    url,
                    version_dir: vd,
                } && os2 == os && bp@ == spec_binary_path(release.version@, os) && vd@
                    == spec_version_dir(release.version@) && (exists|i: int|
                    is_first_match(release.assets@, name, i) && url
                        == release.assets@[i].download_url) && (a matches Action::CheckFile {
                    path,
                } && path == bp)
            } else {
                &&& post == (Resolver {
                    cached_node_binary: pre.cached_node_binary,
                    phase: Phase::Idle,
                })
                &&& a matches Action::Finish { result: Err(m) } && m@ == spec_no_asset_message(
                    name,
                )
            }
        },
        (
            Phase::AwaitBinaryCheck { os, binary_path, url, version_dir },
            Event::FileStat { is_file },
        ) => {
            if is_file {
                &&& post == (Resolver {
                    cached_node_binary: Some(binary_path),
                    phase: Phase::Idle,
                })
                &&& a == (Action::Finish { result: Ok(binary_path) })
            } else {
                &&& post == (Resolver {
                    cached_node_binary: pre.cached_node_binary,
                    phase: Phase::AwaitDownload { binary_path, version_dir },
                })
                &&& a == (Action::Download {
                    url,
                    directory: version_dir,
                    kind: spec_archive_kind(os),
                    status: Status::Downloading,
                })
            }
        },
        (Phase::AwaitDownload { binary_path, version_dir }, Event::Downloaded) => {
            &&& post == (Resolver {
                cached_node_binary: pre.cached_node_binary,
                phase: Phase::AwaitEntries { binary_path, version_dir },
            })
            &&& a == (Action::ListWorkDir)
        },
        (Phase::AwaitDownload { .. }, Event::DownloadFailed { error }) => {
            &&& post == (Resolver {
                cached_node_binary: pre.cached_node_binary,
                phase: Phase::Idle,
            })
            &&& a matches Action::Finish { result: Err(m) } && m@ == "failed to download file: "@
                + error@
        },
        (Phase::AwaitEntries { .. }, Event::EntriesFailed { error }) => {
            &&& post == (Resolver {
                cached_node_binary: pre.cached_node_binary,
                phase: Phase::Idle,
            })
            &&& a matches Action::Finish { result: Err(m) } && m@
                == "failed to list working directory "@ + error@
        },
        (Phase::AwaitEntries { binary_path, version_dir }, Event::Entries { entries }) => {
            &&& post.cached_node_binary == pre.cached_node_binary
            &&& exists|i: int|
                #![trigger is_first_err(entries@, i)]
                {
                    &&& is_first_err(entries@, i)
                    &&& a matches Action::RenameAll { sources, destination } && views_of(sources@)
                        == spec_sources(entries@.take(i)) && destination == version_dir
                    &&& post.phase matches Phase::AwaitRenames { outcome } && (if i
                        == entries@.len() {
                        outcome == Ok::<String, String>(binary_path)
                    } else {
                        outcome matches Err(m) && m@ == "failed to load directory entry "@
                            + entries@[i]->Err_0@
                    })
                }
        },
        (Phase::AwaitRenames { outcome: Ok(path) }, Event::Renamed) => {
            &&& post == (Resolver { cached_node_binary: Some(path), phase: Phase::Idle })
            &&& a == (Action::Finish { result: Ok(path) })
        },
        (Phase::AwaitRenames { outcome: Err(m) }, Event::Renamed) => {
            &&& post == (Resolver {
                cached_node_binary: pre.cached_node_binary,
                phase: Phase::Idle,
            })
            &&& a == (Action::Finish { result: Err(m) })
        },
        _ => false,
    }
}

/// Builds the error reported when no asset carries the expected name; the
/// message quotes that exact name.
pub fn no_asset_message(name: &String) -> (r: String)
    ensures
        r@ == spec_no_asset_message(name@),
{
    let mut r = String::from_str("no asset found matching \"");
    r.append(name.as_str());
    r.append("\"");
    proof {
        assert(r@ =~= spec_no_asset_message(name@));
    }
    r
}

impl Resolver {
    /// A fresh resolver: nothing cached, no session running.
    pub fn new() -> (r: Resolver)
        ensures
            r.cached_node_binary is None,
            r.phase is Idle,
            r.wf(),
    {
        Resolver { cached_node_binary: None, phase: Phase::Idle }
    }

    /// One step of a resolve session: consumes the host's answer to the
    /// last action and decides the next state and the next action.
    pub fn step(self, e: Event) -> (r: (Resolver, Action))
        requires
            self.wf(),
            accepts(self.phase, e),
        ensures
            transition(self, e, r.0, r.1),
            r.0.wf(),
    {
        let Resolver { cached_node_binary, phase } = self;
        match (phase, e) {
            (Phase::Idle, Event::Resolve { os, arch }) => (
                Resolver { cached_node_binary, phase: Phase::AwaitWhich { os, arch } },
                Action::FindOnPath,
            ),
            (Phase::AwaitWhich { .. }, Event::Which { found: Some(path) }) => (
                Resolver { cached_node_binary, phase: Phase::Idle },
                Action::Finish { result: Ok(path) },
            ),
            (Phase::AwaitWhich { os, arch }, Event::Which { found: None }) => {
                match cached_node_binary {
                    Some(cached) => {
                        let path = cached.clone();
                        (
                            Resolver {
                                cached_node_binary: Some(cached),
                                phase: Phase::AwaitCacheCheck { os, arch },
                            },
                            Action::CheckFile { path },
                        )
                    },
                    None => (
                        Resolver {
                            cached_node_binary: None,
                            phase: Phase::AwaitRelease { os, arch },
                        },
                        Action::FetchLatestRelease { status: Status::CheckingForUpdate },
                    ),
                }
            },
            (Phase::AwaitCacheCheck { os, arch }, Event::FileStat { is_file }) => {
                match cached_node_binary {
                    Some(cached) => {
                        if is_file {
                            let path = cached.clone();
                            (
                                Resolver { cached_node_binary: Some(cached), phase: Phase::Idle },
                                Action::Finish { result: Ok(path) },
                            )
                        } else {
                            (
                                Resolver {
                                    cached_node_binary: Some(cached),
                                    phase: Phase::AwaitRelease { os, arch },
                                },
                                Action::FetchLatestRelease { status: Status::CheckingForUpdate },
                            )
                        }
                    },
                    None => {
                        // Unreachable: the cache check is only awaited while
                        // a cached path exists.
                        proof {
                            assert(false);
                        }
                        (
                            Resolver { cached_node_binary: None, phase: Phase::Idle },
                            Action::FindOnPath,
                        )
                    },
                }
            },
            (Phase::AwaitRelease { .. }, Event::ReleaseFailed { error }) => (
                Resolver { cached_node_binary, phase: Phase::Idle },
                Action::Finish { result: Err(error) },
            ),
            (Phase::AwaitRelease { os, arch }, Event::ReleaseReady { release }) => {
                let name = asset_name(release.version.as_str(), os, arch);
                match find_asset(&release.assets, &name) {
                    Some(idx) => {
                        let url = release.assets[idx].download_url.clone();
                        let vd = version_dir(release.version.as_str());
                        let bp = binary_path(release.version.as_str(), os);
                        let path = bp.clone();
                        (
                            Resolver {
                                cached_node_binary,
                                phase: Phase::AwaitBinaryCheck {
                                    os,
                                    binary_path: bp,
                                    url,
                                    version_dir: vd,
                                },
                            },
                            Action::CheckFile { path },
                        )
                    },
                    None => {
                        let msg = no_asset_message(&name);
                        (
                            Resolver { cached_node_binary, phase: Phase::Idle },
                            Action::Finish { result: Err(msg) },
                        )
                    },
                }
            },
            (
                Phase::AwaitBinaryCheck { os, binary_path, url, version_dir },
                Event::FileStat { is_file },
            ) => {
                if is_file {
                    let path = binary_path.clone();
                    (
                        Resolver { cached_node_binary: Some(binary_path), phase: Phase::Idle },
                        Action::Finish { result: Ok(path) },
                    )
                } else {
                    let directory = version_dir.clone();
                    let kind = archive_kind(os);
                    (
                        Resolver {
                            cached_node_binary,
                            phase: Phase::AwaitDownload { binary_path, version_dir },
                        },
                        Action::Download { url, directory, kind, status: Status::Downloading },
                    )
                }
            },
            (Phase::AwaitDownload { binary_path, version_dir }, Event::Downloaded) => (
                Resolver {
                    cached_node_binary,
                    phase: Phase::AwaitEntries { binary_path, version_dir },
                },
                Action::ListWorkDir,
            ),
            (Phase::AwaitDownload { .. }, Event::DownloadFailed { error }) => {
                let msg = prefixed_message("failed to download file: ", error.as_str());
                (
                    Resolver { cached_node_binary, phase: Phase::Idle },
                    Action::Finish { result: Err(msg) },
                )
            },
            (Phase::AwaitEntries { .. }, Event::EntriesFailed { error }) => {
                let msg = prefixed_message("failed to list working directory ", error.as_str());
                (
                    Resolver { cached_node_binary, phase: Phase::Idle },
                    Action::Finish { result: Err(msg) },
                )
            },
            (Phase::AwaitEntries { binary_path, version_dir }, Event::Entries { entries }) => {
                let mut sources: Vec<String> = Vec::new();
                let mut idx: usize = 0;
                let mut failure: Option<String> = None;
                while idx < entries.len()
                    invariant_except_break
                        failure is None,
                    invariant
                        idx <= entries@.len(),
                        forall|j: int| 0 <= j < idx ==> entries@[j] is Ok,
                        views_of(sources@) == spec_sources(entries@.take(idx as int)),
                    ensures
                        idx <= entries@.len(),
                        forall|j: int| 0 <= j < idx ==> entries@[j] is Ok,
                        views_of(sources@) == spec_sources(entries@.take(idx as int)),
                        match failure {
                            None => idx == entries@.len(),
                            Some(m) => idx < entries@.len() && entries@[idx as int] is Err && m@
                                == "failed to load directory entry "@ + entries@[
                                idx as int
                            ]->Err_0@,
                        },
                    decreases entries@.len() - idx,
                {
                    match &entries[idx] {
                        Err(cause) => {
                            failure = Some(
                                prefixed_message(
                                    "failed to load directory entry ",
                                    cause.as_str(),
                                ),
                            );
                            break ;
                        },
                        Ok(entry_name) => {
                            if has_prefix(entry_name.as_str(), "node-") {
                                sources.push(entry_name.clone());
                            }
                        },
                    }
                    proof {
                        assert(entries@.take(idx as int + 1).drop_last() =~= entries@.take(
                            idx as int,
                        ));
                        assert(entries@.take(idx as int + 1).last() == entries@[idx as int]);
                        assert(views_of(sources@) =~~= spec_sources(entries@.take(idx as int + 1)));
                    }
                    idx += 1;
                }
                match failure {
                    None => {
                        proof {
                            assert(entries@.take(entries@.len() as int) =~= entries@);
                            assert(is_first_err(entries@, entries@.len() as int));
                        }
                        (
                            Resolver {
                                cached_node_binary,
                                phase: Phase::AwaitRenames { outcome: Ok(binary_path) },
                            },
                            Action::RenameAll { sources, destination: version_dir },
                        )
                    },
                    Some(m) => {
                        proof {
                            assert(is_first_err(entries@, idx as int));
                        }
                        (
                            Resolver {
                                cached_node_binary,
                                phase: Phase::AwaitRenames { outcome: Err(m) },
                            },
                            Action::RenameAll { sources, destination: version_dir },
                        )
                    },
                }
            },
            (Phase::AwaitRenames { outcome: Ok(path) }, Event::Renamed) => {
                let ret = path.clone();
                (
                    Resolver { cached_node_binary: Some(path), phase: Phase::Idle },
                    Action::Finish { result: Ok(ret) },
                )
            },
            (Phase::AwaitRenames { outcome: Err(m) }, Event::Renamed) => (
                Resolver { cached_node_binary, phase: Phase::Idle },
                Action::Finish { result: Err(m) },
            ),
            _ => {
                // Unreachable: the host answers the question the machine
                // asked.
                proof {
                    assert(false);
                }
                (Resolver { cached_node_binary: None, phase: Phase::Idle }, Action::FindOnPath)
            },
        }
    }
}

/// A runtime found on the PATH ends the session in that very step: the
/// machine hands the found path straight back, asks for no release-index
/// query, no download and no further filesystem work, and leaves the cache
/// as it was.
pub proof fn lemma_path_hit_short_circuits(
    pre: Resolver,
    e: Event,
    post: Resolver,
    a: Action,
    path: String,
)
    requires
        transition(pre, e, post, a),
        pre.phase matches Phase::AwaitWhich { .. },
        e == (Event::Which { found: Some(path) }),
    ensures
        a == (Action::Finish { result: Ok(path) }),
        post.phase is Idle,
        post.cached_node_binary == pre.cached_node_binary,
{
}

/// A cached path that the filesystem confirms to be a regular file is
/// returned as it stands: the session ends without a release-index query or
/// a download, and the cache is unchanged.
pub proof fn lemma_cache_hit_short_circuits(
    pre: Resolver,
    e: Event,
    post: Resolver,
    a: Action,
    cached: String,
)
    requires
        transition(pre, e, post, a),
        pre.phase matches Phase::AwaitCacheCheck { .. },
        pre.cached_node_binary == Some(cached),
        e == (Event::FileStat { is_file: true }),
    ensures
        a == (Action::Finish { result: Ok(cached) }),
        post.phase is Idle,
        post.cached_node_binary == pre.cached_node_binary,
{
}

/// A cached path that is no longer a regular file is not trusted: the
/// machine proceeds through full discovery, reporting a version check and
/// querying the release index.
pub proof fn lemma_stale_cache_rediscovers(pre: Resolver, e: Event, post: Resolver, a: Action)
    requires
        transition(pre, e, post, a),
        pre.phase matches Phase::AwaitCacheCheck { .. },
        pre.cached_node_binary is Some,
        e == (Event::FileStat { is_file: false }),
    ensures
        a == (Action::FetchLatestRelease { status: Status::CheckingForUpdate }),
        post.phase is AwaitRelease,
        post.cached_node_binary == pre.cached_node_binary,
{
}

/// When the release carries no asset with the expected name, the session
/// fails, and the error message quotes that exact expected asset name.
pub proof fn lemma_no_matching_asset_fails(
    pre: Resolver,
    e: Event,
    post: Resolver,
    a: Action,
    os: Os,
    arch: Arch,
    release: Release,
)
    requires
        transition(pre, e, post, a),
        pre.phase == (Phase::AwaitRelease { os, arch }),
        e == (Event::ReleaseReady { release }),
        forall|j: int|
            0 <= j < release.assets@.len() ==> release.assets@[j].name@ != spec_asset_name(
                release.version@,
                os,
                arch,
            ),
    ensures
        post.phase is Idle,
        post.cached_node_binary == pre.cached_node_binary,
        a matches Action::Finish { result: Err(m) } && m@ == spec_no_asset_message(
            spec_asset_name(release.version@, os, arch),
        ),
{
}

/// A target binary already present on disk skips the download entirely,
/// even on a cold cache: the session ends at the existence check, and the
/// path is both cached and returned.
pub proof fn lemma_existing_binary_skips_download(
    pre: Resolver,
    e: Event,
    post: Resolver,
    a: Action,
    bp: String,
)
    requires
        transition(pre, e, post, a),
        pre.phase matches Phase::AwaitBinaryCheck { binary_path, .. } && binary_path == bp,
        e == (Event::FileStat { is_file: true }),
    ensures
        a == (Action::Finish { result: Ok(bp) }),
        post.phase is Idle,
        post.cached_node_binary == Some(bp),
{
}

} // verus!
