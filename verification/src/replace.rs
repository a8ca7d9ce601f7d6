//! The self-replacement protocol: plan, choreography, and its simulated
//! execution.
//!
//! Replacing a running executable takes a detached helper, so the real
//! steps — download, write the helper, spawn it, exit — are performed by
//! the unverified shell. This module decides everything the shell does:
//! it derives the install filename from the download address, lays out
//! the scratch and target paths, drives the step order through a state
//! machine, and proves the replace routine itself over a simulated file
//! store.

use vstd::prelude::*;
use crate::errors::UpdateError;
use crate::text::to_chars;

verus! {

// ---------------------------------------------------------------------------
// Filename derivation.
// ---------------------------------------------------------------------------

/// Start of the last `'/'`-separated segment of `u`: the position right
/// after the last `'/'`, or zero if there is none.
pub open spec fn seg_start(u: Seq<char>) -> nat
    decreases u.len(),
{
    if u.len() == 0 {
        0
    } else if u[u.len() - 1] == '/' {
        u.len()
    } else {
        seg_start(u.drop_last())
    }
}

/// Position of the first `'?'` in `u`, or `u.len()` if there is none.
pub open spec fn query_pos(u: Seq<char>) -> nat
    decreases u.len(),
{
    if u.len() == 0 {
        0
    } else if u[0] == '?' {
        0
    } else {
        1 + query_pos(u.drop_first())
    }
}

/// The install filename an address yields: its last `'/'`-separated
/// segment, cut before any `'?'`.
pub open spec fn derived_filename(u: Seq<char>) -> Seq<char> {
    let seg = u.subrange(seg_start(u) as int, u.len() as int);
    seg.subrange(0, query_pos(seg) as int)
}

proof fn lemma_seg_start(u: Seq<char>)
    ensures
        seg_start(u) <= u.len(),
        seg_start(u) > 0 ==> u[seg_start(u) - 1] == '/',
        forall|k: int| seg_start(u) <= k < u.len() ==> u[k] != '/',
    decreases u.len(),
{
    if u.len() > 0 && u[u.len() - 1] != '/' {
        lemma_seg_start(u.drop_last());
        assert forall|k: int| seg_start(u) <= k < u.len() implies u[k] != '/' by {
            if k < u.len() - 1 {
                assert(u[k] == u.drop_last()[k]);
            }
        }
        if seg_start(u) > 0 {
            assert(u[seg_start(u) - 1] == u.drop_last()[seg_start(u.drop_last()) - 1]);
        }
    }
}

proof fn lemma_query_pos(u: Seq<char>)
    ensures
        query_pos(u) <= u.len(),
        forall|k: int| 0 <= k < query_pos(u) ==> u[k] != '?',
        query_pos(u) < u.len() ==> u[query_pos(u) as int] == '?',
    decreases u.len(),
{
    if u.len() > 0 && u[0] != '?' {
        lemma_query_pos(u.drop_first());
        assert forall|k: int| 0 <= k < query_pos(u) implies u[k] != '?' by {
            if k > 0 {
                assert(u[k] == u.drop_first()[k - 1]);
            }
        }
        if query_pos(u) < u.len() {
            assert(u[query_pos(u) as int] == u.drop_first()[query_pos(u.drop_first()) as int]);
        }
    }
}

/// Derives the on-disk filename for the downloaded binary from its
/// download address, so the installed binary keeps the upstream release's
/// filename.
pub fn derive_install_filename(url: &str) -> (r: String)
    ensures
        r@ == derived_filename(url@),
{
    let cs = to_chars(url);
    let len = cs.len();
    proof {
        lemma_seg_start(url@);
    }
    let mut s: usize = len;
    while s > 0 && cs[s - 1] != '/'
        invariant
            s <= len,
            len == url@.len(),
            cs@ == url@,
            forall|k: int| s <= k < len ==> url@[k] != '/',
        decreases s,
    {
        s = s - 1;
    }
    proof {
        assert(seg_start(url@) == s);
    }
    let ghost seg = url@.subrange(s as int, len as int);
    proof {
        lemma_query_pos(seg);
    }
    let mut q: usize = s;
    while q < len && cs[q] != '?'
        invariant
            s <= q <= len,
            len == url@.len(),
            cs@ == url@,
            forall|k: int| s <= k < q ==> url@[k] != '?',
        decreases len - q,
    {
        q = q + 1;
    }
    proof {
        assert forall|k: int| 0 <= k < q - s implies seg[k] != '?' by {
            assert(seg[k] == url@[k + s]);
        }
        if q < len {
            assert(seg[q - s] == url@[q as int]);
        }
        assert(query_pos(seg) == q - s);
        assert(seg.subrange(0, query_pos(seg) as int) =~= url@.subrange(s as int, q as int));
    }
    url.substring_char(s, q).to_owned()
}

// ---------------------------------------------------------------------------
// The update plan: where everything goes.
// ---------------------------------------------------------------------------

/// A directory joined with one more component, in the platform's notation.
pub open spec fn joined(dir: Seq<char>, name: Seq<char>) -> Seq<char> {
    dir + "\\"@ + name
}

/// Joins a directory path with one more component.
pub fn join_path(dir: &str, name: &str) -> (r: String)
    ensures
        r@ == joined(dir@, name@),
{
    let mut s = dir.to_owned();
    s.append("\\");
    s.append(name);
    s
}

/// The paths of one self-replacement run: everything the helper needs.
#[derive(Debug, Clone, PartialEq, Eq)]
pub struct UpdatePlan {
    /// The running executable, to be replaced.
    pub current_exe: String,
    /// The scratch directory that holds the staged files.
    pub update_dir: String,
    /// The helper script, inside the scratch directory.
    pub script_path: String,
    /// The launcher for the helper, inside the scratch directory.
    pub batch_path: String,
    /// Where the downloaded binary is staged.
    pub staged_path: String,
    /// Where the new binary finally goes.
    pub target_path: String,
    /// Where the old binary is backed up.
    pub backup_path: String,
    /// The directory the new binary is launched from.
    pub install_dir: String,
}

/// The scratch directory's name under the system temporary directory.
pub open spec fn scratch_dir_name() -> Seq<char> {
    "spicetify_installer_update"@
}

/// Lays the paths of one self-replacement run out: a scratch directory
/// under the temporary directory, the staged binary and helper files
/// inside it, and the target next to the running executable, named after
/// the download address's last segment.
pub fn plan_update(
    download_url: &str,
    current_exe: &str,
    exe_dir: &str,
    temp_dir: &str,
    backup_name: &str,
) -> (plan: UpdatePlan)
    ensures
        plan.current_exe@ == current_exe@,
        plan.install_dir@ == exe_dir@,
        plan.update_dir@ == joined(temp_dir@, scratch_dir_name()),
        plan.script_path@ == joined(plan.update_dir@, "updater.ps1"@),
        plan.batch_path@ == joined(plan.update_dir@, "run_updater.bat"@),
        plan.staged_path@ == joined(plan.update_dir@, derived_filename(download_url@)),
        plan.target_path@ == joined(exe_dir@, derived_filename(download_url@)),
        plan.backup_path@ == joined(temp_dir@, backup_name@),
{
    let filename = derive_install_filename(download_url);
    let update_dir = join_path(temp_dir, "spicetify_installer_update");
    let script_path = join_path(update_dir.as_str(), "updater.ps1");
    let batch_path = join_path(update_dir.as_str(), "run_updater.bat");
    let staged_path = join_path(update_dir.as_str(), filename.as_str());
    let target_path = join_path(exe_dir, filename.as_str());
    let backup_path = join_path(temp_dir, backup_name);
    UpdatePlan {
        current_exe: current_exe.to_owned(),
        update_dir,
        script_path,
        batch_path,
        staged_path,
        target_path,
        backup_path,
        install_dir: exe_dir.to_owned(),
    }
}

// ---------------------------------------------------------------------------
// The choreography: a state machine the shell runs step by step.
// ---------------------------------------------------------------------------

/// Where one self-replacement run stands.
#[derive(Clone, Copy, Debug, PartialEq, Eq, Structural)]
pub enum UpdateStage {
    /// Resolving the executable's path and laying out the plan.
    Preparing,
    /// Fetching the new binary into the scratch directory.
    Downloading,
    /// Writing the helper script and its launcher.
    WritingHelper,
    /// Spawning the helper as a detached process.
    Spawning,
    /// Waiting a short fixed delay, then leaving the process.
    Exiting,
    /// The process is gone; the helper owns the rest.
    Done,
    /// A step failed; nothing further happens.
    Failed,
}

/// What the shell reports back after performing one step.
#[derive(Clone, Copy, Debug, PartialEq, Eq, Structural)]
pub enum FlowEvent {
    Succeeded,
    Failed,
}

/// What the shell must do next.
#[derive(Clone, Copy, Debug, PartialEq, Eq, Structural)]
pub enum FlowStep {
    /// Fetch the new binary to the staged path.
    Download,
    /// Write the helper script and its launcher to the scratch directory.
    WriteHelper,
    /// Spawn the helper, detached from this process.
    SpawnHelper,
    /// Wait the fixed delay, then end this process.
    DelayAndExit,
    /// Surface the failure; generate nothing, end nothing.
    Abort,
    /// Nothing: the run is over.
    Rest,
}

/// The transition relation of one self-replacement run: what each report
/// of the shell moves the run to, and what the shell must do next.
pub open spec fn spec_step(s: UpdateStage, ev: FlowEvent) -> (UpdateStage, FlowStep) {
    match ev {
        FlowEvent::Failed => match s {
            UpdateStage::Done => (UpdateStage::Done, FlowStep::Rest),
            UpdateStage::Failed => (UpdateStage::Failed, FlowStep::Rest),
            _ => (UpdateStage::Failed, FlowStep::Abort),
        },
        FlowEvent::Succeeded => match s {
            UpdateStage::Preparing => (UpdateStage::Downloading, FlowStep::Download),
            UpdateStage::Downloading => (UpdateStage::WritingHelper, FlowStep::WriteHelper),
            UpdateStage::WritingHelper => (UpdateStage::Spawning, FlowStep::SpawnHelper),
            UpdateStage::Spawning => (UpdateStage::Exiting, FlowStep::DelayAndExit),
            UpdateStage::Exiting => (UpdateStage::Done, FlowStep::Rest),
            UpdateStage::Done => (UpdateStage::Done, FlowStep::Rest),
            UpdateStage::Failed => (UpdateStage::Failed, FlowStep::Rest),
        },
    }
}

/// One self-replacement run, driven step by step from outside.
pub struct UpdateFlow {
    pub stage: UpdateStage,
}

impl UpdateFlow {
    /// A fresh run, about to resolve paths and lay out the plan.
    pub fn new() -> (f: Self)
        ensures
            f.stage == UpdateStage::Preparing,
    {
        UpdateFlow { stage: UpdateStage::Preparing }
    }

    /// Takes the shell's report on the step just performed and says what
    /// to do next; exactly the transition relation.
    pub fn step(&mut self, ev: FlowEvent) -> (next: FlowStep)
        ensures
            (final(self).stage, next) == spec_step(old(self).stage, ev),
    {
        let (stage, next) = match (self.stage, ev) {
            (UpdateStage::Done, _) => (UpdateStage::Done, FlowStep::Rest),
            (UpdateStage::Failed, _) => (UpdateStage::Failed, FlowStep::Rest),
            (_, FlowEvent::Failed) => (UpdateStage::Failed, FlowStep::Abort),
            (UpdateStage::Preparing, FlowEvent::Succeeded) => (
                UpdateStage::Downloading,
                FlowStep::Download,
            ),
            (UpdateStage::Downloading, FlowEvent::Succeeded) => (
                UpdateStage::WritingHelper,
                FlowStep::WriteHelper,
            ),
            (UpdateStage::WritingHelper, FlowEvent::Succeeded) => (
                UpdateStage::Spawning,
                FlowStep::SpawnHelper,
            ),
            (UpdateStage::Spawning, FlowEvent::Succeeded) => (
                UpdateStage::Exiting,
                FlowStep::DelayAndExit,
            ),
            (UpdateStage::Exiting, FlowEvent::Succeeded) => (UpdateStage::Done, FlowStep::Rest),
        };
        self.stage = stage;
        next
    }
}

// ---------------------------------------------------------------------------
// The simulated file store and the dry run of the replace routine.
// ---------------------------------------------------------------------------

/// One file of the simulated store.
pub struct SimFile {
    pub path: String,
    pub data: Vec<u8>,
}

/// The paths of an entry list are pairwise distinct.
pub open spec fn paths_distinct(s: Seq<SimFile>) -> bool {
    forall|i: int, j: int|
        0 <= i < s.len() && 0 <= j < s.len() && i != j ==> s[i].path@ != s[j].path@
}

/// A simulated file store: path to content, one entry per path.
pub struct SimFs {
    files: Vec<SimFile>,
}

impl SimFs {
    /// Every path names at most one file.
    pub closed spec fn wf(&self) -> bool {
        paths_distinct(self.files@)
    }

    /// Some file sits at path `p`.
    pub closed spec fn contains_path(&self, p: Seq<char>) -> bool {
        exists|i: int| 0 <= i < self.files@.len() && self.files@[i].path@ == p
    }

    /// The file at path `p` holds exactly the bytes `d`.
    pub closed spec fn has_file(&self, p: Seq<char>, d: Seq<u8>) -> bool {
        exists|i: int|
            0 <= i < self.files@.len() && self.files@[i].path@ == p && self.files@[i].data@ == d
    }

    /// An empty store.
    pub fn new() -> (fs: SimFs)
        ensures
            fs.wf(),
            forall|p: Seq<char>| !fs.contains_path(p),
            forall|p: Seq<char>, d: Seq<u8>| !fs.has_file(p, d),
    {
        SimFs { files: Vec::new() }
    }

    /// The position of the entry at `path`, if any.
    fn find(&self, path: &str) -> (r: Option<usize>)
        ensures
            r matches Some(i) ==> i < self.files@.len() && self.files@[i as int].path@ == path@,
            r is None ==> !self.contains_path(path@),
    {
        let mut i: usize = 0;
        while i < self.files.len()
            invariant
                i <= self.files@.len(),
                forall|k: int| 0 <= k < i ==> self.files@[k].path@ != path@,
            decreases self.files@.len() - i,
        {
            if crate::text::str_eq(self.files[i].path.as_str(), path) {
                return Some(i);
            }
            i = i + 1;
        }
        None
    }

    /// Whether some file sits at `path`.
    pub fn exists_file(&self, path: &str) -> (b: bool)
        ensures
            b == self.contains_path(path@),
    {
        match self.find(path) {
            Some(_) => true,
            None => false,
        }
    }

    /// The bytes at `path`, if a file sits there.
    pub fn read(&self, path: &str) -> (r: Option<&Vec<u8>>)
        ensures
            r matches Some(d) ==> self.contains_path(path@) && self.has_file(path@, d@),
            r is None ==> !self.contains_path(path@),
    {
        match self.find(path) {
            Some(i) => Some(&self.files[i].data),
            None => None,
        }
    }

    /// Removes the file at `path`, if any; every other path keeps its file.
    pub fn remove_file(&mut self, path: &str)
        requires
            old(self).wf(),
        ensures
            final(self).wf(),
            !final(self).contains_path(path@),
            forall|q: Seq<char>|
                q != path@ ==> (final(self).contains_path(q) <==> old(self).contains_path(q)),
            forall|q: Seq<char>, e: Seq<u8>|
                q != path@ ==> (final(self).has_file(q, e) <==> old(self).has_file(q, e)),
    {
        let ghost old_files = self.files@;
        match self.find(path) {
            None => {
            },
            Some(i) => {
                self.files.remove(i);
                proof {
                    assert forall|k1: int, k2: int|
                        0 <= k1 < self.files@.len() && 0 <= k2 < self.files@.len() && k1
                            != k2 implies self.files@[k1].path@ != self.files@[k2].path@ by {
                        let o1: int = if k1 < i {
                            k1
                        } else {
                            k1 + 1
                        };
                        let o2: int = if k2 < i {
                            k2
                        } else {
                            k2 + 1
                        };
                        assert(self.files@[k1] == old_files[o1]);
                        assert(self.files@[k2] == old_files[o2]);
                    }
                    assert forall|k: int|
                        0 <= k < self.files@.len() implies self.files@[k].path@ != path@ by {
                        let o: int = if k < i {
                            k
                        } else {
                            k + 1
                        };
                        assert(self.files@[k] == old_files[o]);
                        assert(old_files[o].path@ != old_files[i as int].path@);
                    }
                    assert forall|q: Seq<char>|
                        q != path@ implies (self.contains_path(q) <==> old(
                        self,
                    ).contains_path(q)) by {
                        if self.contains_path(q) {
                            let k = choose|k: int|
                                0 <= k < self.files@.len() && self.files@[k].path@ == q;
                            let o: int = if k < i {
                                k
                            } else {
                                k + 1
                            };
                            assert(old_files[o] == self.files@[k]);
                        }
                        if old(self).contains_path(q) {
                            let o = choose|o: int| 0 <= o < old_files.len() && old_files[o].path@
                                == q;
                            let k: int = if o < i {
                                o
                            } else {
                                o - 1
                            };
                            assert(self.files@[k] == old_files[o]);
                        }
                    }
                    assert forall|q: Seq<char>, e: Seq<u8>|
                        q != path@ implies (self.has_file(q, e) <==> old(self).has_file(q, e)) by {
                        if self.has_file(q, e) {
                            let k = choose|k: int|
                                0 <= k < self.files@.len() && self.files@[k].path@ == q
                                    && self.files@[k].data@ == e;
                            let o: int = if k < i {
                                k
                            } else {
                                k + 1
                            };
                            assert(old_files[o] == self.files@[k]);
                        }
                        if old(self).has_file(q, e) {
                            let o = choose|o: int|
                                0 <= o < old_files.len() && old_files[o].path@ == q
                                    && old_files[o].data@ == e;
                            let k: int = if o < i {
                                o
                            } else {
                                o - 1
                            };
                            assert(self.files@[k] == old_files[o]);
                        }
                    }
                }
            },
        }
    }

    /// Puts `data` at `path`, replacing what sat there; every other path
    /// keeps its file.
    pub fn write(&mut self, path: &str, data: Vec<u8>)
        requires
            old(self).wf(),
        ensures
            final(self).wf(),
            final(self).contains_path(path@),
            final(self).has_file(path@, data@),
            forall|q: Seq<char>|
                q != path@ ==> (final(self).contains_path(q) <==> old(self).contains_path(q)),
            forall|q: Seq<char>, e: Seq<u8>|
                q != path@ ==> (final(self).has_file(q, e) <==> old(self).has_file(q, e)),
    {
        self.remove_file(path);
        let ghost mid = *self;
        self.files.push(SimFile { path: path.to_owned(), data });
        proof {
            let n = self.files@.len() - 1;
            assert forall|k1: int, k2: int|
                0 <= k1 < self.files@.len() && 0 <= k2 < self.files@.len() && k1
                    != k2 implies self.files@[k1].path@ != self.files@[k2].path@ by {
                if k1 < n && k2 < n {
                    assert(self.files@[k1] == mid.files@[k1]);
                    assert(self.files@[k2] == mid.files@[k2]);
                } else if k1 == n {
                    assert(self.files@[k2] == mid.files@[k2]);
                    assert(mid.files@[k2].path@ != path@) by {
                        if mid.files@[k2].path@ == path@ {
                            assert(mid.contains_path(path@));
                        }
                    }
                } else {
                    assert(self.files@[k1] == mid.files@[k1]);
                    assert(mid.files@[k1].path@ != path@) by {
                        if mid.files@[k1].path@ == path@ {
                            assert(mid.contains_path(path@));
                        }
                    }
                }
            }
            assert(self.files@[n].path@ == path@ && self.files@[n].data@ == data@);
            assert forall|q: Seq<char>|
                q != path@ implies (self.contains_path(q) <==> mid.contains_path(q)) by {
                if self.contains_path(q) {
                    let k = choose|k: int| 0 <= k < self.files@.len() && self.files@[k].path@ == q;
                    assert(k != n);
                    assert(mid.files@[k] == self.files@[k]);
                }
                if mid.contains_path(q) {
                    let k = choose|k: int|
                        0 <= k < mid.files@.len() && mid.files@[k].path@ == q;
                    assert(self.files@[k] == mid.files@[k]);
                }
            }
            assert forall|q: Seq<char>, e: Seq<u8>|
                q != path@ implies (self.has_file(q, e) <==> mid.has_file(q, e)) by {
                if self.has_file(q, e) {
                    let k = choose|k: int|
                        0 <= k < self.files@.len() && self.files@[k].path@ == q
                            && self.files@[k].data@ == e;
                    assert(k != n);
                    assert(mid.files@[k] == self.files@[k]);
                }
                if mid.has_file(q, e) {
                    let k = choose|k: int|
                        0 <= k < mid.files@.len() && mid.files@[k].path@ == q && mid.files@[k].data@
                            == e;
                    assert(self.files@[k] == mid.files@[k]);
                }
            }
        }
    }
}

/// A path that holds bytes is an occupied path.
pub proof fn lemma_has_file_contains(fs: &SimFs, p: Seq<char>, d: Seq<u8>)
    requires
        fs.has_file(p, d),
    ensures
        fs.contains_path(p),
{
}

/// An occupied path holds some bytes.
pub proof fn lemma_contains_has_some(fs: &SimFs, p: Seq<char>)
    requires
        fs.contains_path(p),
    ensures
        exists|d: Seq<u8>| fs.has_file(p, d),
{
    let i = choose|i: int| 0 <= i < fs.files@.len() && fs.files@[i].path@ == p;
    assert(fs.has_file(p, fs.files@[i].data@));
}

/// With one entry per path, a path determines its file's bytes.
pub proof fn lemma_file_unique(fs: &SimFs, p: Seq<char>, d1: Seq<u8>, d2: Seq<u8>)
    requires
        fs.wf(),
        fs.has_file(p, d1),
        fs.has_file(p, d2),
    ensures
        d1 == d2,
{
    let i1 = choose|i: int|
        0 <= i < fs.files@.len() && fs.files@[i].path@ == p && fs.files@[i].data@ == d1;
    let i2 = choose|i: int|
        0 <= i < fs.files@.len() && fs.files@[i].path@ == p && fs.files@[i].data@ == d2;
    assert(i1 == i2);
}

/// A fresh copy of a byte vector.
pub fn copy_bytes(v: &Vec<u8>) -> (r: Vec<u8>)
    ensures
        r@ == v@,
{
    let mut r: Vec<u8> = Vec::new();
    let mut i: usize = 0;
    while i < v.len()
        invariant
            i <= v@.len(),
            r@ == v@.subrange(0, i as int),
        decreases v@.len() - i,
    {
        r.push(v[i]);
        assert(r@ =~= v@.subrange(0, i + 1));
        i = i + 1;
    }
    assert(r@ =~= v@);
    r
}

/// The plan's scratch paths collide with its target paths; the dry run
/// refuses such a plan.
pub open spec fn plan_clash(plan: UpdatePlan) -> bool {
    ||| plan.staged_path@ == plan.target_path@
    ||| plan.staged_path@ == plan.backup_path@
    ||| plan.staged_path@ == plan.current_exe@
    ||| plan.backup_path@ == plan.target_path@
    ||| plan.backup_path@ == plan.current_exe@
}

/// Decides whether the plan's paths collide.
pub fn check_plan_clash(plan: &UpdatePlan) -> (b: bool)
    ensures
        b == plan_clash(*plan),
{
    crate::text::str_eq(plan.staged_path.as_str(), plan.target_path.as_str())
        || crate::text::str_eq(plan.staged_path.as_str(), plan.backup_path.as_str())
        || crate::text::str_eq(plan.staged_path.as_str(), plan.current_exe.as_str())
        || crate::text::str_eq(plan.backup_path.as_str(), plan.target_path.as_str())
        || crate::text::str_eq(plan.backup_path.as_str(), plan.current_exe.as_str())
}

/// The helper's replace routine, run dry over a simulated store: verify
/// the staged binary exists and has content, back the old binary up,
/// copy the staged binary into place, drop the old binary only where its
/// path differs from the target, and clean the staged copy up.
pub fn apply_replace(fs: &mut SimFs, plan: &UpdatePlan) -> (r: Result<(), UpdateError>)
    requires
        old(fs).wf(),
    ensures
        final(fs).wf(),
        plan_clash(*plan) ==> r == Err::<(), UpdateError>(UpdateError::PlanPathsClash) && *final(fs)
            == *old(fs),
        !plan_clash(*plan) && !old(fs).contains_path(plan.staged_path@) ==> r == Err::<
            (),
            UpdateError,
        >(UpdateError::StagedInstallerMissing) && *final(fs) == *old(fs),
        !plan_clash(*plan) ==> forall|d: Seq<u8>|
            #[trigger] old(fs).has_file(plan.staged_path@, d) ==> if d.len() == 0 {
                r == Err::<(), UpdateError>(UpdateError::StagedInstallerEmpty) && *final(fs)
                    == *old(fs)
            } else {
                &&& r == Ok::<(), UpdateError>(())
                &&& final(fs).has_file(plan.target_path@, d)
                &&& plan.current_exe@ != plan.target_path@ ==> !final(fs).contains_path(
                    plan.current_exe@,
                )
                &&& !final(fs).contains_path(plan.staged_path@) || plan.staged_path@
                    == plan.target_path@
                &&& (forall|cd: Seq<u8>|
                    old(fs).has_file(plan.current_exe@, cd) ==> final(fs).has_file(
                        plan.backup_path@,
                        cd,
                    ))
                &&& !old(fs).contains_path(plan.current_exe@) ==> (forall|e: Seq<u8>|
                    final(fs).has_file(plan.backup_path@, e) <==> old(fs).has_file(
                        plan.backup_path@,
                        e,
                    ))
                &&& forall|q: Seq<char>, e: Seq<u8>|
                    q != plan.staged_path@ && q != plan.target_path@ && q != plan.current_exe@ && q
                        != plan.backup_path@ ==> (final(fs).has_file(q, e) <==> old(fs).has_file(
                        q,
                        e,
                    ))
            },
{
    if check_plan_clash(plan) {
        return Err(UpdateError::PlanPathsClash);
    }
    let staged_data: Vec<u8> = match fs.read(plan.staged_path.as_str()) {
        None => {
            return Err(UpdateError::StagedInstallerMissing);
        },
        Some(d) => copy_bytes(d),
    };
    proof {
        assert forall|d: Seq<u8>|
            old(fs).has_file(plan.staged_path@, d) implies d == staged_data@ by {
            lemma_file_unique(fs, plan.staged_path@, d, staged_data@);
        }
    }
    if staged_data.len() == 0 {
        return Err(UpdateError::StagedInstallerEmpty);
    }
    let cur_data: Option<Vec<u8>> = match fs.read(plan.current_exe.as_str()) {
        Some(d) => Some(copy_bytes(d)),
        None => None,
    };
    let ghost fs0 = *fs;
    match cur_data {
        Some(cd) => {
            fs.write(plan.backup_path.as_str(), cd);
        },
        None => {
        },
    }
    let ghost fs1 = *fs;
    fs.write(plan.target_path.as_str(), staged_data);
    let ghost fs2 = *fs;
    let same_path = crate::text::str_eq(plan.current_exe.as_str(), plan.target_path.as_str());
    if !same_path {
        fs.remove_file(plan.current_exe.as_str());
    }
    let ghost fs3 = *fs;
    fs.remove_file(plan.staged_path.as_str());
    Ok(())
}

/// Law: when the download step fails, the run aborts at once — the helper
/// script is never ordered written and the process exit is never ordered —
/// and no later report revives it.
pub proof fn lemma_download_failure_stops(ev: FlowEvent)
    ensures
        spec_step(UpdateStage::Downloading, FlowEvent::Failed) == (
            UpdateStage::Failed,
            FlowStep::Abort,
        ),
        spec_step(UpdateStage::Failed, ev).0 == UpdateStage::Failed,
        spec_step(UpdateStage::Failed, ev).1 != FlowStep::WriteHelper,
        spec_step(UpdateStage::Failed, ev).1 != FlowStep::DelayAndExit,
        spec_step(UpdateStage::Failed, ev).1 != FlowStep::SpawnHelper,
{
}

} // verus!
