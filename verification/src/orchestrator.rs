//! The per-package download state machine.
//!
//! A package moves through link resolution, metadata fetch, approval
//! checking and file enumeration into the download phase, and ends in
//! `Done`, `Blocked` or `Failed`. The machine only decides: every network
//! effect is handed out as an `Action` and its result comes back as an
//! `Event`, so the whole policy — what is retried, what is fatal, and
//! that an unapproved package never downloads — is verified here while
//! the I/O stays outside.
//!
//! Retry policy: only `Transient` failures are retried, with exponential
//! backoff and a bounded attempt count; every other error is final for
//! its file or package. A blocked package is terminal and is reported,
//! not retried.

use vstd::prelude::*;
use crate::errors::SsError;
use crate::link::{link_valid, parse_link, spec_parse_link, PackageLink};
use crate::names::assign_names;
use crate::sendsafely::{spec_pending, pending_recipients, FileRef, Package};
use crate::signer::{package_url, spec_package_url};

verus! {

/// Where a package currently stands in its pipeline.
#[derive(Clone, Copy, PartialEq, Eq, Structural, Debug)]
pub enum Phase {
    ResolvingLink,
    FetchingMetadata,
    CheckingApproval,
    EnumeratingFiles,
    Downloading,
    Done,
    Blocked,
    Failed,
}

/// Where a single file of the package stands.
#[derive(Clone, Copy, PartialEq, Eq, Structural, Debug)]
pub enum FileState {
    /// A download has been requested and its outcome is awaited.
    InFlight,
    /// Downloaded, decrypted, size-verified and written.
    Delivered,
    /// Finally failed with the given error.
    Failed(SsError),
}

/// What the surrounding I/O layer reports back to the machine.
pub enum Event {
    /// Begin processing the configured link.
    Start,
    /// The response to `FetchMetadata`.
    Metadata(Result<Package, SsError>),
    /// The response to `Confirm`.
    Confirmed(Result<(), SsError>),
    /// The response to `ListFiles`.
    FilesListed(Result<Vec<FileRef>, SsError>),
    /// The final outcome of one requested file download.
    FileOutcome(usize, Result<(), SsError>),
}

/// What the machine asks the surrounding I/O layer to do.
pub enum Action {
    /// Fetch package metadata from the URL, after the given delay in ms.
    FetchMetadata(String, u64),
    /// Acknowledge package access with a signed POST to the URL, after
    /// the given delay in ms.
    Confirm(String, u64),
    /// Fetch the package's file list from the URL, after the delay in ms.
    ListFiles(String, u64),
    /// Download, decrypt and store the file at the index, after the
    /// delay in ms.
    DownloadFile(usize, u64),
}

/// Tuning of one package run.
pub struct RunConfig {
    pub base_url: String,
    pub max_attempts: u8,
    pub backoff_base_ms: u64,
}

impl RunConfig {
    /// Sane bounds: at least one attempt, and a backoff base that cannot
    /// overflow when doubled through every allowed retry.
    pub open spec fn wf(self) -> bool {
        &&& 1 <= self.max_attempts <= 20
        &&& self.backoff_base_ms <= 1_000_000
    }
}

/// `2` to the power `e`.
pub open spec fn pow2n(e: nat) -> nat
    decreases e,
{
    if e == 0 {
        1
    } else {
        2 * pow2n((e - 1) as nat)
    }
}

proof fn lemma_pow2n_mono(a: nat, b: nat)
    requires
        a <= b,
    ensures
        pow2n(a) <= pow2n(b),
    decreases b,
{
    if a < b {
        lemma_pow2n_mono(a, (b - 1) as nat);
    }
}

proof fn lemma_pow2n_values()
    ensures
        pow2n(19) == 524288,
        pow2n(20) == 1048576,
{
    assert(pow2n(0) == 1);
    assert(pow2n(1) == 2);
    assert(pow2n(2) == 4);
    assert(pow2n(3) == 8);
    assert(pow2n(4) == 16);
    assert(pow2n(5) == 32);
    assert(pow2n(6) == 64);
    assert(pow2n(7) == 128);
    assert(pow2n(8) == 256);
    assert(pow2n(9) == 512);
    assert(pow2n(10) == 1024);
    assert(pow2n(11) == 2048);
    assert(pow2n(12) == 4096);
    assert(pow2n(13) == 8192);
    assert(pow2n(14) == 16384);
    assert(pow2n(15) == 32768);
    assert(pow2n(16) == 65536);
    assert(pow2n(17) == 131072);
    assert(pow2n(18) == 262144);
    assert(pow2n(19) == 524288);
    assert(pow2n(20) == 1048576);
}

/// The delay before retry number `attempt`: the base doubled once per
/// prior attempt.
pub fn backoff_ms(base: u64, attempt: u8) -> (r: u64)
    requires
        base <= 1_000_000,
        attempt <= 20,
    ensures
        r as int == base as int * pow2n(attempt as nat),
{
    let mut r = base;
    let mut i: u8 = 0;
    proof {
        assert(pow2n(0) == 1);
    }
    while i < attempt
        invariant
            i <= attempt <= 20,
            base <= 1_000_000,
            r as int == base as int * pow2n(i as nat),
        decreases attempt - i,
    {
        proof {
            lemma_pow2n_mono(i as nat, 19);
            lemma_pow2n_values();
            let p = pow2n(i as nat) as int;
            assert(base as int * p * 2 <= 1_000_000 * 524288 * 2) by (nonlinear_arith)
                requires
                    0 <= base as int <= 1_000_000,
                    0 <= p <= 524288,
            ;
            assert(pow2n((i + 1) as nat) == 2 * pow2n(i as nat));
            assert(base as int * (2 * p) == (base as int * p) * 2) by (nonlinear_arith);
        }
        r = r * 2;
        i = i + 1;
    }
    r
}

/// The error class of an HTTP status: success in the 2xx range, the
/// documented specific statuses, `Transient` for every 5xx, and
/// `Protocol` for anything else the API should not produce.
pub open spec fn spec_classify(status: int) -> Result<(), SsError> {
    if 200 <= status < 300 {
        Ok(())
    } else if status == 404 {
        Err(SsError::NotFound)
    } else if status == 401 || status == 403 {
        Err(SsError::Auth)
    } else if 500 <= status < 600 {
        Err(SsError::Transient)
    } else {
        Err(SsError::Protocol)
    }
}

/// Maps an HTTP status to the pipeline's error taxonomy.
pub fn classify_status(status: u16) -> (r: Result<(), SsError>)
    ensures
        r == spec_classify(status as int),
{
    if 200 <= status && status < 300 {
        Ok(())
    } else if status == 404 {
        Err(SsError::NotFound)
    } else if status == 401 || status == 403 {
        Err(SsError::Auth)
    } else if 500 <= status && status < 600 {
        Err(SsError::Transient)
    } else {
        Err(SsError::Protocol)
    }
}

/// The full state of one package run.
pub struct Run {
    pub config: RunConfig,
    pub url: String,
    pub phase: Phase,
    pub link: Option<PackageLink>,
    pub meta: Option<Package>,
    pub confirmed: bool,
    pub stage_attempts: u8,
    pub files: Vec<FileRef>,
    pub names: Vec<String>,
    pub states: Vec<FileState>,
    pub attempts: Vec<u8>,
    pub failure: Option<SsError>,
    pub pending: Vec<String>,
}

impl Run {
    /// The approval gate has been passed: either the package needs no
    /// approval, or its access was successfully confirmed.
    pub open spec fn approval_passed(self) -> bool {
        self.meta matches Some(m) && (!m.needs_approval || self.confirmed)
    }

    /// The machine's invariant, preserved by every step.
    pub open spec fn wf(self) -> bool {
        &&& self.config.wf()
        &&& self.states@.len() == self.files@.len()
        &&& self.names@.len() == self.files@.len()
        &&& self.attempts@.len() == self.files@.len()
        &&& (forall|i: int, j: int|
            0 <= i < j < self.names@.len() ==> self.names@[i]@ != self.names@[j]@)
        &&& (forall|i: int|
            0 <= i < self.attempts@.len() ==> self.attempts@[i] <= self.config.max_attempts)
        &&& self.stage_attempts <= self.config.max_attempts
        &&& (self.phase == Phase::FetchingMetadata ==> self.link is Some)
        &&& (self.phase == Phase::CheckingApproval ==> self.meta is Some)
        &&& (self.phase == Phase::EnumeratingFiles ==> self.approval_passed())
        &&& (self.phase == Phase::Downloading ==> self.approval_passed())
        &&& (self.phase == Phase::Failed ==> self.failure is Some)
    }
}

/// A fresh run for one link, ready to start resolving.
pub fn init(config: RunConfig, url: String) -> (r: Run)
    requires
        config.wf(),
    ensures
        r.wf(),
        r.phase == Phase::ResolvingLink,
        r.config == config,
        r.url == url,
        r.link is None,
        r.meta is None,
        !r.confirmed,
        r.stage_attempts == 0,
        r.files@.len() == 0,
        r.failure is None,
        r.pending@.len() == 0,
{
    Run {
        config,
        url,
        phase: Phase::ResolvingLink,
        link: None,
        meta: None,
        confirmed: false,
        stage_attempts: 0,
        files: Vec::new(),
        names: Vec::new(),
        states: Vec::new(),
        attempts: Vec::new(),
        failure: None,
        pending: Vec::new(),
    }
}

/// Nothing happened: the state is untouched and nothing is requested.
pub open spec fn unchanged_no_acts(pre: Run, post: Run, acts: Seq<Action>) -> bool {
    post == pre && acts.len() == 0
}

/// What never changes across a step.
pub open spec fn frame_ok(pre: Run, post: Run) -> bool {
    post.config == pre.config && post.url == pre.url
}

/// The per-file bookkeeping is untouched.
pub open spec fn files_frame(pre: Run, post: Run) -> bool {
    &&& post.files == pre.files
    &&& post.names == pre.names
    &&& post.states == pre.states
    &&& post.attempts == pre.attempts
}

/// The failure reason and the blocked-approval report are untouched.
pub open spec fn report_frame(pre: Run, post: Run) -> bool {
    post.failure == pre.failure && post.pending == pre.pending
}

/// The transition out of `ResolvingLink` on `Start`: a parsed link moves
/// on to the metadata fetch; anything else fails with `InvalidLink`.
pub open spec fn start_post(pre: Run, post: Run, acts: Seq<Action>) -> bool {
    &&& frame_ok(pre, post)
    &&& files_frame(pre, post)
    &&& post.confirmed == pre.confirmed
    &&& if link_valid(pre.url@) {
        &&& post.phase == Phase::FetchingMetadata
        &&& (post.link matches Some(pl) && pl.package_code@ == spec_parse_link(pre.url@).unwrap().0
            && pl.keycode_fragment@ == spec_parse_link(pre.url@).unwrap().1)
        &&& post.meta == pre.meta
        &&& post.stage_attempts == 0
        &&& report_frame(pre, post)
        &&& acts.len() == 1
        &&& (acts[0] matches Action::FetchMetadata(u, d) && u@ == spec_package_url(
            pre.config.base_url@,
            spec_parse_link(pre.url@).unwrap().0,
        ) && d == 0)
    } else {
        &&& post.phase == Phase::Failed
        &&& post.failure == Some(SsError::InvalidLink)
        &&& post.pending == pre.pending
        &&& acts.len() == 0
    }
}

/// The transition out of `FetchingMetadata`: metadata moves on to the
/// approval gate (or straight to enumeration), a transient failure is
/// retried with backoff up to the bound, anything else is fatal.
pub open spec fn metadata_post(
    pre: Run,
    res: Result<Package, SsError>,
    post: Run,
    acts: Seq<Action>,
) -> bool {
    &&& frame_ok(pre, post)
    &&& files_frame(pre, post)
    &&& match res {
        Ok(pkg) => {
            &&& post.meta == Some(pkg)
            &&& post.link == pre.link
            &&& post.confirmed == pre.confirmed
            &&& post.stage_attempts == 0
            &&& report_frame(pre, post)
            &&& if pkg.needs_approval {
                &&& post.phase == Phase::CheckingApproval
                &&& acts.len() == 1
                &&& (acts[0] matches Action::Confirm(u, d) && u@ == spec_package_url(
                    pre.config.base_url@,
                    pkg.package_id@,
                ) && d == 0)
            } else {
                &&& post.phase == Phase::EnumeratingFiles
                &&& acts.len() == 1
                &&& (acts[0] matches Action::ListFiles(u, d) && u@ == spec_package_url(
                    pre.config.base_url@,
                    pkg.package_id@,
                ) && d == 0)
            }
        },
        Err(e) => {
            if e == SsError::Transient && pre.stage_attempts < pre.config.max_attempts {
                &&& post.phase == Phase::FetchingMetadata
                &&& post.link == pre.link
                &&& post.meta == pre.meta
                &&& post.confirmed == pre.confirmed
                &&& post.stage_attempts == pre.stage_attempts + 1
                &&& report_frame(pre, post)
                &&& acts.len() == 1
                &&& (pre.link matches Some(pl) && acts[0] matches Action::FetchMetadata(u, d)
                    && u@ == spec_package_url(pre.config.base_url@, pl.package_code@)
                    && d as int == pre.config.backoff_base_ms as int * pow2n(
                    (pre.stage_attempts + 1) as nat,
                ))
            } else {
                &&& post.phase == Phase::Failed
                &&& post.failure == Some(e)
                &&& post.pending == pre.pending
                &&& acts.len() == 0
            }
        },
    }
}

/// The transition out of `CheckingApproval`: a successful confirmation
/// opens enumeration; a transient failure retries the confirmation with
/// backoff up to the bound; every other failure — and a transient one
/// once the bound is reached — blocks the package for good and reports
/// whose approval is pending.
pub open spec fn confirmed_post(
    pre: Run,
    res: Result<(), SsError>,
    post: Run,
    acts: Seq<Action>,
) -> bool {
    &&& frame_ok(pre, post)
    &&& files_frame(pre, post)
    &&& match res {
        Ok(_) => {
            &&& post.phase == Phase::EnumeratingFiles
            &&& post.confirmed
            &&& post.meta == pre.meta
            &&& post.link == pre.link
            &&& post.stage_attempts == 0
            &&& report_frame(pre, post)
            &&& acts.len() == 1
            &&& (pre.meta matches Some(m) && acts[0] matches Action::ListFiles(u, d) && u@
                == spec_package_url(pre.config.base_url@, m.package_id@) && d == 0)
        },
        Err(e) => {
            if e == SsError::Transient && pre.stage_attempts < pre.config.max_attempts {
                &&& post.phase == Phase::CheckingApproval
                &&& post.meta == pre.meta
                &&& post.link == pre.link
                &&& post.confirmed == pre.confirmed
                &&& post.stage_attempts == pre.stage_attempts + 1
                &&& report_frame(pre, post)
                &&& acts.len() == 1
                &&& (pre.meta matches Some(m) && acts[0] matches Action::Confirm(u, d) && u@
                    == spec_package_url(pre.config.base_url@, m.package_id@) && d as int
                    == pre.config.backoff_base_ms as int * pow2n((pre.stage_attempts + 1) as nat))
            } else {
                &&& post.phase == Phase::Blocked
                &&& post.meta == pre.meta
                &&& post.link == pre.link
                &&& post.failure == pre.failure
                &&& (pre.meta matches Some(m) && post.pending@.map_values(|s: String| s@)
                    == spec_pending(m.recipients@))
                &&& acts.len() == 0
            }
        },
    }
}

/// The transition out of `EnumeratingFiles`: a file list starts every
/// download at once under collision-free names (an empty package is
/// simply done); a transient failure is retried; anything else is fatal.
pub open spec fn files_post(
    pre: Run,
    res: Result<Vec<FileRef>, SsError>,
    post: Run,
    acts: Seq<Action>,
) -> bool {
    &&& frame_ok(pre, post)
    &&& match res {
        Ok(fs) => {
            &&& post.files == fs
            &&& post.meta == pre.meta
            &&& post.link == pre.link
            &&& post.confirmed == pre.confirmed
            &&& post.stage_attempts == 0
            &&& report_frame(pre, post)
            &&& post.names@.len() == fs@.len()
            &&& post.states@.len() == fs@.len()
            &&& post.attempts@.len() == fs@.len()
            &&& (forall|i: int, j: int|
                0 <= i < j < post.names@.len() ==> post.names@[i]@ != post.names@[j]@)
            &&& (forall|i: int|
                0 <= i < post.names@.len() ==> ((forall|j: int|
                    0 <= j < i ==> fs@[i].file_name@ != post.names@[j]@) ==> post.names@[i]@
                    == fs@[i].file_name@))
            &&& (forall|i: int| 0 <= i < post.states@.len() ==> post.states@[i] == FileState::InFlight)
            &&& (forall|i: int| 0 <= i < post.attempts@.len() ==> post.attempts@[i] == 1)
            &&& if fs@.len() == 0 {
                post.phase == Phase::Done && acts.len() == 0
            } else {
                &&& post.phase == Phase::Downloading
                &&& acts.len() == fs@.len()
                &&& (forall|i: int|
                    0 <= i < acts.len() ==> (#[trigger] acts[i] matches Action::DownloadFile(x, d)
                        && x as int == i && d == 0))
            }
        },
        Err(e) => {
            if e == SsError::Transient && pre.stage_attempts < pre.config.max_attempts {
                &&& post.phase == Phase::EnumeratingFiles
                &&& files_frame(pre, post)
                &&& post.meta == pre.meta
                &&& post.link == pre.link
                &&& post.confirmed == pre.confirmed
                &&& post.stage_attempts == pre.stage_attempts + 1
                &&& report_frame(pre, post)
                &&& acts.len() == 1
                &&& (pre.meta matches Some(m) && acts[0] matches Action::ListFiles(u, d) && u@
                    == spec_package_url(pre.config.base_url@, m.package_id@) && d as int
                    == pre.config.backoff_base_ms as int * pow2n((pre.stage_attempts + 1) as nat))
            } else {
                &&& post.phase == Phase::Failed
                &&& files_frame(pre, post)
                &&& post.failure == Some(e)
                &&& post.pending == pre.pending
                &&& acts.len() == 0
            }
        },
    }
}

/// The transition inside `Downloading` for one file's outcome: success
/// settles the file, a transient failure under the bound requests the
/// same file again after backoff, anything else settles it as failed.
/// The run is done exactly when no file is in flight any more.
pub open spec fn file_outcome_post(
    pre: Run,
    idx: int,
    res: Result<(), SsError>,
    post: Run,
    acts: Seq<Action>,
) -> bool {
    if !(0 <= idx < pre.states@.len()) || !(pre.states@[idx] is InFlight) {
        unchanged_no_acts(pre, post, acts)
    } else {
        &&& frame_ok(pre, post)
        &&& post.files == pre.files
        &&& post.names == pre.names
        &&& post.meta == pre.meta
        &&& post.link == pre.link
        &&& post.confirmed == pre.confirmed
        &&& post.stage_attempts == pre.stage_attempts
        &&& report_frame(pre, post)
        &&& post.states@.len() == pre.states@.len()
        &&& post.attempts@.len() == pre.attempts@.len()
        &&& (forall|j: int|
            0 <= j < post.states@.len() && j != idx ==> post.states@[j] == pre.states@[j])
        &&& (forall|j: int|
            0 <= j < post.attempts@.len() && j != idx ==> post.attempts@[j] == pre.attempts@[j])
        &&& match res {
            Ok(_) => {
                &&& post.states@[idx] == FileState::Delivered
                &&& post.attempts@[idx] == pre.attempts@[idx]
                &&& acts.len() == 0
            },
            Err(e) => {
                if e == SsError::Transient && pre.attempts@[idx] < pre.config.max_attempts {
                    &&& post.states@[idx] == FileState::InFlight
                    &&& post.attempts@[idx] == pre.attempts@[idx] + 1
                    &&& acts.len() == 1
                    &&& (acts[0] matches Action::DownloadFile(x, d) && x as int == idx && d as int
                        == pre.config.backoff_base_ms as int * pow2n(
                        (pre.attempts@[idx] + 1) as nat,
                    ))
                } else {
                    &&& post.states@[idx] == FileState::Failed(e)
                    &&& post.attempts@[idx] == pre.attempts@[idx]
                    &&& acts.len() == 0
                }
            },
        }
        &&& ((post.phase == Phase::Done) <==> !(exists|j: int|
            0 <= j < post.states@.len() && post.states@[j] is InFlight))
        &&& (post.phase == Phase::Done || post.phase == Phase::Downloading)
    }
}

/// The whole transition relation of the machine: terminal phases absorb
/// every event, each working phase answers exactly its own event kind,
/// and every other event leaves the state untouched.
pub open spec fn step_rel(pre: Run, ev: Event, post: Run, acts: Seq<Action>) -> bool {
    match pre.phase {
        Phase::Done | Phase::Blocked | Phase::Failed => unchanged_no_acts(pre, post, acts),
        Phase::ResolvingLink => match ev {
            Event::Start => start_post(pre, post, acts),
            _ => unchanged_no_acts(pre, post, acts),
        },
        Phase::FetchingMetadata => match ev {
            Event::Metadata(res) => metadata_post(pre, res, post, acts),
            _ => unchanged_no_acts(pre, post, acts),
        },
        Phase::CheckingApproval => match ev {
            Event::Confirmed(res) => confirmed_post(pre, res, post, acts),
            _ => unchanged_no_acts(pre, post, acts),
        },
        Phase::EnumeratingFiles => match ev {
            Event::FilesListed(res) => files_post(pre, res, post, acts),
            _ => unchanged_no_acts(pre, post, acts),
        },
        Phase::Downloading => match ev {
            Event::FileOutcome(i, res) => file_outcome_post(pre, i as int, res, post, acts),
            _ => unchanged_no_acts(pre, post, acts),
        },
    }
}

fn on_start(run: &mut Run) -> (acts: Vec<Action>)
    requires
        old(run).wf(),
        old(run).phase == Phase::ResolvingLink,
    ensures
        final(run).wf(),
        start_post(*old(run), *final(run), acts@),
{
    let mut acts: Vec<Action> = Vec::new();
    match parse_link(run.url.as_str()) {
        Ok(pl) => {
            let u = package_url(run.config.base_url.as_str(), pl.package_code.as_str());
            run.link = Some(pl);
            run.phase = Phase::FetchingMetadata;
            run.stage_attempts = 0;
            acts.push(Action::FetchMetadata(u, 0));
        },
        Err(e) => {
            run.phase = Phase::Failed;
            run.failure = Some(e);
        },
    }
    acts
}

fn on_metadata(run: &mut Run, res: Result<Package, SsError>) -> (acts: Vec<Action>)
    requires
        old(run).wf(),
        old(run).phase == Phase::FetchingMetadata,
    ensures
        final(run).wf(),
        metadata_post(*old(run), res, *final(run), acts@),
{
    let mut acts: Vec<Action> = Vec::new();
    match res {
        Ok(pkg) => {
            let u = package_url(run.config.base_url.as_str(), pkg.package_id.as_str());
            let needs = pkg.needs_approval;
            run.meta = Some(pkg);
            run.stage_attempts = 0;
            if needs {
                run.phase = Phase::CheckingApproval;
                acts.push(Action::Confirm(u, 0));
            } else {
                run.phase = Phase::EnumeratingFiles;
                acts.push(Action::ListFiles(u, 0));
            }
        },
        Err(e) => {
            let retryable = crate::errors::is_retryable(&e);
            if retryable && run.stage_attempts < run.config.max_attempts {
                run.stage_attempts = run.stage_attempts + 1;
                let d = backoff_ms(run.config.backoff_base_ms, run.stage_attempts);
                let u = match &run.link {
                    Some(pl) => package_url(run.config.base_url.as_str(), pl.package_code.as_str()),
                    None => {
                        proof {
                            assert(false);
                        }
                        String::new()
                    },
                };
                acts.push(Action::FetchMetadata(u, d));
            } else {
                run.phase = Phase::Failed;
                run.failure = Some(e);
            }
        },
    }
    acts
}

fn on_confirmed(run: &mut Run, res: Result<(), SsError>) -> (acts: Vec<Action>)
    requires
        old(run).wf(),
        old(run).phase == Phase::CheckingApproval,
    ensures
        final(run).wf(),
        confirmed_post(*old(run), res, *final(run), acts@),
{
    let mut acts: Vec<Action> = Vec::new();
    match res {
        Ok(_) => {
            let u = match &run.meta {
                Some(m) => package_url(run.config.base_url.as_str(), m.package_id.as_str()),
                None => {
                    proof {
                        assert(false);
                    }
                    String::new()
                },
            };
            run.confirmed = true;
            run.phase = Phase::EnumeratingFiles;
            run.stage_attempts = 0;
            acts.push(Action::ListFiles(u, 0));
        },
        Err(e) => {
            let retryable = crate::errors::is_retryable(&e);
            if retryable && run.stage_attempts < run.config.max_attempts {
                run.stage_attempts = run.stage_attempts + 1;
                let d = backoff_ms(run.config.backoff_base_ms, run.stage_attempts);
                let u = match &run.meta {
                    Some(m) => package_url(run.config.base_url.as_str(), m.package_id.as_str()),
                    None => {
                        proof {
                            assert(false);
                        }
                        String::new()
                    },
                };
                acts.push(Action::Confirm(u, d));
            } else {
                let pending = match &run.meta {
                    Some(m) => pending_recipients(m),
                    None => {
                        proof {
                            assert(false);
                        }
                        Vec::new()
                    },
                };
                run.pending = pending;
                run.phase = Phase::Blocked;
            }
        },
    }
    acts
}

fn on_files(run: &mut Run, res: Result<Vec<FileRef>, SsError>) -> (acts: Vec<Action>)
    requires
        old(run).wf(),
        old(run).phase == Phase::EnumeratingFiles,
    ensures
        final(run).wf(),
        files_post(*old(run), res, *final(run), acts@),
{
    let mut acts: Vec<Action> = Vec::new();
    match res {
        Ok(fs) => {
            let n = fs.len();
            let mut decl: Vec<String> = Vec::new();
            let mut i: usize = 0;
            while i < n
                invariant
                    i <= n,
                    n == fs@.len(),
                    decl@.len() == i,
                    forall|k: int| 0 <= k < i ==> decl@[k]@ == fs@[k].file_name@,
                decreases n - i,
            {
                decl.push(fs[i].file_name.clone());
                i = i + 1;
            }
            let names = assign_names(&decl);
            let mut states: Vec<FileState> = Vec::new();
            let mut attempts: Vec<u8> = Vec::new();
            let mut j: usize = 0;
            while j < n
                invariant
                    j <= n,
                    states@.len() == j,
                    attempts@.len() == j,
                    forall|k: int| 0 <= k < j ==> states@[k] == FileState::InFlight,
                    forall|k: int| 0 <= k < j ==> attempts@[k] == 1,
                decreases n - j,
            {
                states.push(FileState::InFlight);
                attempts.push(1);
                j = j + 1;
            }
            let mut k: usize = 0;
            if n == 0 {
                run.phase = Phase::Done;
            } else {
                run.phase = Phase::Downloading;
                while k < n
                    invariant
                        k <= n,
                        acts@.len() == k,
                        forall|t: int|
                            0 <= t < k ==> (#[trigger] acts@[t] matches Action::DownloadFile(x, d)
                                && x as int == t && d == 0),
                    decreases n - k,
                {
                    acts.push(Action::DownloadFile(k, 0));
                    k = k + 1;
                }
            }
            run.files = fs;
            run.names = names;
            run.states = states;
            run.attempts = attempts;
            run.stage_attempts = 0;
        },
        Err(e) => {
            let retryable = crate::errors::is_retryable(&e);
            if retryable && run.stage_attempts < run.config.max_attempts {
                run.stage_attempts = run.stage_attempts + 1;
                let d = backoff_ms(run.config.backoff_base_ms, run.stage_attempts);
                let u = match &run.meta {
                    Some(m) => package_url(run.config.base_url.as_str(), m.package_id.as_str()),
                    None => {
                        proof {
                            assert(false);
                        }
                        String::new()
                    },
                };
                acts.push(Action::ListFiles(u, d));
            } else {
                run.phase = Phase::Failed;
                run.failure = Some(e);
            }
        },
    }
    acts
}

fn on_file_outcome(run: &mut Run, idx: usize, res: Result<(), SsError>) -> (acts: Vec<Action>)
    requires
        old(run).wf(),
        old(run).phase == Phase::Downloading,
    ensures
        final(run).wf(),
        file_outcome_post(*old(run), idx as int, res, *final(run), acts@),
{
    let mut acts: Vec<Action> = Vec::new();
    if idx >= run.states.len() {
        return acts;
    }
    let in_flight = run.states[idx] == FileState::InFlight;
    if !in_flight {
        return acts;
    }
    match res {
        Ok(_) => {
            run.states.set(idx, FileState::Delivered);
        },
        Err(e) => {
            let retryable = crate::errors::is_retryable(&e);
            let att = run.attempts[idx];
            if retryable && att < run.config.max_attempts {
                run.attempts.set(idx, att + 1);
                let d = backoff_ms(run.config.backoff_base_ms, att + 1);
                acts.push(Action::DownloadFile(idx, d));
            } else {
                run.states.set(idx, FileState::Failed(e));
            }
        },
    }
    let n = run.states.len();
    let mut any_in_flight = false;
    let mut j: usize = 0;
    while j < n
        invariant
            j <= n,
            n == run.states@.len(),
            any_in_flight <==> (exists|t: int| 0 <= t < j && run.states@[t] is InFlight),
        decreases n - j,
    {
        if run.states[j] == FileState::InFlight {
            any_in_flight = true;
        }
        j = j + 1;
    }
    if !any_in_flight {
        run.phase = Phase::Done;
    }
    acts
}

/// Advances the machine by one event, returning what the I/O layer must
/// do next. The machine panics on nothing: terminal phases absorb every
/// event, and an event that does not belong to the current phase leaves
/// the state untouched.
pub fn step(run: &mut Run, ev: Event) -> (acts: Vec<Action>)
    requires
        old(run).wf(),
    ensures
        final(run).wf(),
        step_rel(*old(run), ev, *final(run), acts@),
{
    match run.phase {
        Phase::Done | Phase::Blocked | Phase::Failed => Vec::new(),
        Phase::ResolvingLink => match ev {
            Event::Start => on_start(run),
            _ => Vec::new(),
        },
        Phase::FetchingMetadata => match ev {
            Event::Metadata(res) => on_metadata(run, res),
            _ => Vec::new(),
        },
        Phase::CheckingApproval => match ev {
            Event::Confirmed(res) => on_confirmed(run, res),
            _ => Vec::new(),
        },
        Phase::EnumeratingFiles => match ev {
            Event::FilesListed(res) => on_files(run, res),
            _ => Vec::new(),
        },
        Phase::Downloading => match ev {
            Event::FileOutcome(i, res) => on_file_outcome(run, i, res),
            _ => Vec::new(),
        },
    }
}

/// A package that needs approval never proceeds while unconfirmed: a
/// failed confirmation either blocks the package for good — on every
/// non-transient refusal, and on a transient one once the retry bound is
/// reached — or retries the confirmation itself after backoff. Either
/// way the step requests no download and opens no later phase.
pub proof fn lemma_unconfirmed_approval_blocks(
    pre: Run,
    e: SsError,
    post: Run,
    acts: Seq<Action>,
)
    requires
        pre.wf(),
        pre.phase == Phase::CheckingApproval,
        step_rel(pre, Event::Confirmed(Err(e)), post, acts),
    ensures
        e != SsError::Transient || pre.stage_attempts >= pre.config.max_attempts ==> post.phase
            == Phase::Blocked && acts.len() == 0,
        e == SsError::Transient && pre.stage_attempts < pre.config.max_attempts ==> post.phase
            == Phase::CheckingApproval && acts.len() == 1 && acts[0] is Confirm,
        post.phase == Phase::CheckingApproval || post.phase == Phase::Blocked,
        forall|i: int| 0 <= i < acts.len() ==> !(#[trigger] acts[i] is DownloadFile),
{
}

/// A blocked package is terminal: every further event leaves it blocked
/// and requests nothing — in particular, no download is ever attempted.
pub proof fn lemma_blocked_terminal(pre: Run, ev: Event, post: Run, acts: Seq<Action>)
    requires
        pre.phase == Phase::Blocked,
        step_rel(pre, ev, post, acts),
    ensures
        post == pre,
        post.phase == Phase::Blocked,
        acts.len() == 0,
{
}

/// A download is only ever requested out of a state that has passed the
/// approval gate: whenever a step emits `DownloadFile`, the package
/// needed no approval or was successfully confirmed.
pub proof fn lemma_download_needs_approval(
    pre: Run,
    ev: Event,
    post: Run,
    acts: Seq<Action>,
    i: int,
)
    requires
        pre.wf(),
        step_rel(pre, ev, post, acts),
        0 <= i < acts.len(),
        acts[i] is DownloadFile,
    ensures
        pre.approval_passed(),
{
    match pre.phase {
        Phase::EnumeratingFiles => {},
        Phase::Downloading => {},
        _ => {},
    }
}

/// How one finished package is reported.
#[derive(Clone, Copy, PartialEq, Eq, Structural, Debug)]
pub enum Outcome {
    Succeeded,
    Blocked,
    Failed,
}

/// Every file of the pass was delivered.
pub open spec fn all_delivered(states: Seq<FileState>) -> bool {
    forall|i: int| 0 <= i < states.len() ==> states[i] is Delivered
}

/// The report for one terminal run: blocked runs are reported as
/// blocked, a completed pass succeeded exactly when every file was
/// delivered, and everything else failed.
pub fn run_outcome(run: &Run) -> (r: Outcome)
    requires
        run.phase == Phase::Done || run.phase == Phase::Blocked || run.phase == Phase::Failed,
    ensures
        (r == Outcome::Blocked) <==> (run.phase == Phase::Blocked),
        (r == Outcome::Succeeded) <==> (run.phase == Phase::Done && all_delivered(run.states@)),
{
    match run.phase {
        Phase::Blocked => Outcome::Blocked,
        Phase::Done => {
            let n = run.states.len();
            let mut ok = true;
            let mut j: usize = 0;
            while j < n
                invariant
                    j <= n,
                    n == run.states@.len(),
                    ok <==> (forall|t: int| 0 <= t < j ==> run.states@[t] is Delivered),
                decreases n - j,
            {
                let delivered = run.states[j] == FileState::Delivered;
                if !delivered {
                    proof {
                        assert(!(run.states@[j as int] is Delivered));
                    }
                    ok = false;
                }
                j = j + 1;
            }
            if ok {
                Outcome::Succeeded
            } else {
                Outcome::Failed
            }
        },
        _ => Outcome::Failed,
    }
}

/// True exactly when this package failed on rejected credentials. Such a
/// failure is fatal for the whole run: the caller stops processing the
/// remaining packages, since they would be rejected the same way.
pub fn fatal_for_run(run: &Run) -> (r: bool)
    ensures
        r == (run.phase == Phase::Failed && run.failure == Some(SsError::Auth)),
{
    run.phase == Phase::Failed && match run.failure {
        Some(e) => e == SsError::Auth,
        None => false,
    }
}

/// The process exit code for a set of package outcomes: zero unless
/// every requested package failed (an empty request also exits zero).
pub fn exit_code(outcomes: &Vec<Outcome>) -> (r: i32)
    ensures
        r == 0 || r == 1,
        (r == 0) <==> (outcomes@.len() == 0 || exists|i: int|
            0 <= i < outcomes@.len() && outcomes@[i] != Outcome::Failed),
{
    let n = outcomes.len();
    if n == 0 {
        return 0;
    }
    let mut j: usize = 0;
    while j < n
        invariant
            j <= n,
            n == outcomes@.len(),
            forall|t: int| 0 <= t < j ==> outcomes@[t] == Outcome::Failed,
        decreases n - j,
    {
        let failed = outcomes[j] == Outcome::Failed;
        if !failed {
            return 0;
        }
        j = j + 1;
    }
    1
}

} // verus!
