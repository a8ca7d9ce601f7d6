//! The command dispatcher's decision rules.
//!
//! The dispatcher receives a command string from the UI and routes it to
//! one of four fixed handlers or a generic passthrough; each handler runs
//! a script as a subprocess and reports a synthetic progress sequence on
//! a fixed cadence. The subprocess and timer work stays in the unverified
//! shell; this module decides the routing, the progress sequences, the
//! result summarising, and the diagnostics the version check reports.

use vstd::prelude::*;
use crate::text::to_chars;
use crate::text::has_substring;
use crate::text::starts_with;
use crate::text::chars_contain;
use crate::text::chars_eq;
use crate::text::chars_start_with;

verus! {

// ---------------------------------------------------------------------------
// Routing.
// ---------------------------------------------------------------------------

/// The handler a command routes to.
#[derive(Clone, Copy, Debug, PartialEq, Eq, Structural)]
pub enum CommandKind {
    /// The direct installation script.
    InstallDirect,
    /// The uninstall sequence.
    Uninstall,
    /// The repair sequence.
    Repair,
    /// The backup step.
    Backup,
    /// Any other command, wrapped and passed through.
    Generic,
}

/// The routing rule: fixed substring and whole-string patterns, tried in
/// order.
pub open spec fn spec_classify(c: Seq<char>) -> CommandKind {
    if has_substring(c, "spicetify-cli/master/install.ps1"@) {
        CommandKind::InstallDirect
    } else if has_substring(c, "spicetify restore"@) && has_substring(c, "Remove-Item"@) {
        CommandKind::Uninstall
    } else if c == "spicetify restore backup apply"@ {
        CommandKind::Repair
    } else if c == "spicetify backup"@ {
        CommandKind::Backup
    } else {
        CommandKind::Generic
    }
}

/// Routes a command string to its handler.
pub fn classify_command(command: &str) -> (k: CommandKind)
    ensures
        k == spec_classify(command@),
{
    let c = to_chars(command);
    let install_marker = to_chars("spicetify-cli/master/install.ps1");
    let restore_marker = to_chars("spicetify restore");
    let remove_marker = to_chars("Remove-Item");
    let repair_cmd = to_chars("spicetify restore backup apply");
    let backup_cmd = to_chars("spicetify backup");
    if chars_contain(&c, &install_marker) {
        CommandKind::InstallDirect
    } else if chars_contain(&c, &restore_marker) && chars_contain(&c, &remove_marker) {
        CommandKind::Uninstall
    } else if chars_eq(&c, &repair_cmd) {
        CommandKind::Repair
    } else if chars_eq(&c, &backup_cmd) {
        CommandKind::Backup
    } else {
        CommandKind::Generic
    }
}

// ---------------------------------------------------------------------------
// The synthetic progress sequences.
// ---------------------------------------------------------------------------

/// The percentage sequence a handler's timer reports. It is cosmetic: it
/// races the subprocess and carries no information about real progress.
pub open spec fn spec_progress_schedule(k: CommandKind) -> Seq<u32> {
    match k {
        CommandKind::InstallDirect => seq![10u32, 15u32, 20u32, 30u32, 50u32, 70u32, 80u32, 90u32, 95u32],
        CommandKind::Uninstall => seq![20u32, 40u32, 60u32, 80u32, 90u32],
        CommandKind::Repair => seq![20u32, 30u32, 50u32, 70u32, 90u32],
        CommandKind::Backup => seq![30u32, 50u32, 70u32, 90u32],
        CommandKind::Generic => seq![10u32, 20u32, 30u32, 40u32, 50u32, 60u32, 70u32, 80u32, 90u32, 100u32],
    }
}

/// The tick length of a handler's timer, in milliseconds.
pub open spec fn spec_progress_interval_ms(k: CommandKind) -> u64 {
    match k {
        CommandKind::InstallDirect => 800,
        CommandKind::Uninstall => 500,
        CommandKind::Repair => 500,
        CommandKind::Backup => 400,
        CommandKind::Generic => 300,
    }
}

/// The percentage sequence the shell's timer reports for this handler.
pub fn progress_schedule(k: CommandKind) -> (s: Vec<u32>)
    ensures
        s@ == spec_progress_schedule(k),
{
    let mut s: Vec<u32> = Vec::new();
    match k {
        CommandKind::InstallDirect => {
            s.push(10);
            s.push(15);
            s.push(20);
            s.push(30);
            s.push(50);
            s.push(70);
            s.push(80);
            s.push(90);
            s.push(95);
        },
        CommandKind::Uninstall => {
            s.push(20);
            s.push(40);
            s.push(60);
            s.push(80);
            s.push(90);
        },
        CommandKind::Repair => {
            s.push(20);
            s.push(30);
            s.push(50);
            s.push(70);
            s.push(90);
        },
        CommandKind::Backup => {
            s.push(30);
            s.push(50);
            s.push(70);
            s.push(90);
        },
        CommandKind::Generic => {
            s.push(10);
            s.push(20);
            s.push(30);
            s.push(40);
            s.push(50);
            s.push(60);
            s.push(70);
            s.push(80);
            s.push(90);
            s.push(100);
        },
    }
    assert(s@ =~= spec_progress_schedule(k));
    s
}

/// The tick length of the shell's timer for this handler.
pub fn progress_interval_ms(k: CommandKind) -> (ms: u64)
    ensures
        ms == spec_progress_interval_ms(k),
{
    match k {
        CommandKind::InstallDirect => 800,
        CommandKind::Uninstall => 500,
        CommandKind::Repair => 500,
        CommandKind::Backup => 400,
        CommandKind::Generic => 300,
    }
}

// ---------------------------------------------------------------------------
// Result summarising.
// ---------------------------------------------------------------------------

/// Folds a finished subprocess into the dispatcher's result: on success
/// the captured output streams, concatenated; on failure an error line
/// carrying the exit status and the error stream.
pub fn summarize_output(success: bool, status: &str, stdout: &str, stderr: &str) -> (r: Result<
    String,
    String,
>)
    ensures
        success ==> (r matches Ok(s) && s@ == stdout@ + "\n"@ + stderr@),
        !success ==> (r matches Err(e) && e@ == "Command failed with status code "@ + status@
            + ": "@ + stderr@),
{
    if success {
        let mut s = stdout.to_owned();
        s.append("\n");
        s.append(stderr);
        Ok(s)
    } else {
        let mut e = "Command failed with status code ".to_owned();
        e.append(status);
        e.append(": ");
        e.append(stderr);
        Err(e)
    }
}

/// Folds a finished handler subprocess into the dispatcher's result, as
/// each handler words it: the uninstall sequence reports its output
/// whatever the exit status; the others report their output on success
/// and an error line embedding the error stream on failure.
pub fn handler_result(k: CommandKind, success: bool, status: &str, stdout: &str, stderr: &str) -> (r:
    Result<String, String>)
    ensures
        k == CommandKind::Uninstall ==> (r matches Ok(s) && s@ == stdout@),
        k == CommandKind::Repair && success ==> (r matches Ok(s) && s@ == stdout@),
        k == CommandKind::Repair && !success ==> (r matches Err(e) && e@ == "Repair failed: "@
            + stderr@),
        k == CommandKind::Backup && success ==> (r matches Ok(s) && s@ == stdout@),
        k == CommandKind::Backup && !success ==> (r matches Err(e) && e@ == "Backup failed: "@
            + stderr@),
        k == CommandKind::InstallDirect && success ==> (r matches Ok(s) && s@
            == "Spicetify installation completed successfully.\n"@ + stdout@ + "\n"@ + stderr@),
        k == CommandKind::InstallDirect && !success ==> (r matches Err(e) && e@
            == "Spicetify installation failed: "@ + stderr@ + "\n"@ + stdout@),
        k == CommandKind::Generic && success ==> (r matches Ok(s) && s@ == stdout@ + "\n"@
            + stderr@),
        k == CommandKind::Generic && !success ==> (r matches Err(e) && e@
            == "Command failed with status code "@ + status@ + ": "@ + stderr@),
{
    match k {
        CommandKind::Uninstall => Ok(stdout.to_owned()),
        CommandKind::Repair => {
            if success {
                Ok(stdout.to_owned())
            } else {
                let mut e = "Repair failed: ".to_owned();
                e.append(stderr);
                Err(e)
            }
        },
        CommandKind::Backup => {
            if success {
                Ok(stdout.to_owned())
            } else {
                let mut e = "Backup failed: ".to_owned();
                e.append(stderr);
                Err(e)
            }
        },
        CommandKind::InstallDirect => {
            if success {
                let mut s = "Spicetify installation completed successfully.\n".to_owned();
                s.append(stdout);
                s.append("\n");
                s.append(stderr);
                Ok(s)
            } else {
                let mut e = "Spicetify installation failed: ".to_owned();
                e.append(stderr);
                e.append("\n");
                e.append(stdout);
                Err(e)
            }
        },
        CommandKind::Generic => summarize_output(success, status, stdout, stderr),
    }
}

// ---------------------------------------------------------------------------
// Reading the tool's version out of the probe results.
// ---------------------------------------------------------------------------

/// A probe yielded a usable version: it ran and printed something.
pub open spec fn probe_valid(p: Option<String>) -> bool {
    p matches Some(s) && s@.len() > 0
}

/// Position `i` holds the first usable probe result.
pub open spec fn is_first_valid_probe(probes: Seq<Option<String>>, i: int) -> bool {
    &&& 0 <= i < probes.len()
    &&& probe_valid(probes[i])
    &&& forall|j: int| 0 <= j < i ==> !probe_valid(probes[j])
}

/// No probe yielded a usable version.
pub open spec fn no_probe_valid(probes: Seq<Option<String>>) -> bool {
    forall|j: int| 0 <= j < probes.len() ==> !probe_valid(probes[j])
}

/// Picks the first usable result out of the version probes, tried in
/// their given order.
pub fn select_probe_version(probes: &Vec<Option<String>>) -> (r: Option<String>)
    ensures
        r matches Some(s) ==> exists|i: int|
            #[trigger] is_first_valid_probe(probes@, i) && s@ == probes@[i]->Some_0@,
        r is None ==> no_probe_valid(probes@),
{
    let mut i: usize = 0;
    while i < probes.len()
        invariant
            i <= probes@.len(),
            forall|j: int| 0 <= j < i ==> !probe_valid(probes@[j]),
        decreases probes@.len() - i,
    {
        match &probes[i] {
            Some(s) => {
                if !s.as_str().is_empty() {
                    proof {
                        assert(is_first_valid_probe(probes@, i as int));
                    }
                    return Some(s.clone());
                }
            },
            None => {
            },
        }
        i = i + 1;
    }
    None
}

// ---------------------------------------------------------------------------
// The location diagnostics.
// ---------------------------------------------------------------------------

/// The common locations probed for the tool, in probe order.
pub open spec fn spec_probe_locations() -> Seq<Seq<char>> {
    seq!["%LOCALAPPDATA%\\spicetify"@, "%USERPROFILE%\\spicetify-cli"@, "%APPDATA%\\spicetify"@]
}

/// The common locations probed for the tool, in probe order.
pub fn probe_locations() -> (v: Vec<&'static str>)
    ensures
        v@.len() == 3,
        v@[0]@ == spec_probe_locations()[0],
        v@[1]@ == spec_probe_locations()[1],
        v@[2]@ == spec_probe_locations()[2],
{
    let mut v: Vec<&'static str> = Vec::new();
    v.push("%LOCALAPPDATA%\\spicetify");
    v.push("%USERPROFILE%\\spicetify-cli");
    v.push("%APPDATA%\\spicetify");
    v
}

/// What probing the search path for the tool yielded.
#[derive(Debug, Clone, PartialEq, Eq)]
pub enum PathProbe {
    /// The tool was found on the search path, at this location.
    Found(String),
    /// The tool is not on the search path.
    NotFound,
    /// The probe itself failed, with this report.
    ProbeFailed(String),
}

/// The report lines for one probed location.
pub open spec fn location_line(loc: Seq<char>, exists: bool) -> Seq<char> {
    "Checking: "@ + loc + "\n"@ + (if exists {
        "FOUND: "@ + loc + "\n"@
    } else {
        "Not found: "@ + loc + "\n"@
    })
}

/// The report lines for a list of probed locations, in order.
pub open spec fn location_lines(entries: Seq<(String, bool)>) -> Seq<char>
    decreases entries.len(),
{
    if entries.len() == 0 {
        Seq::empty()
    } else {
        location_line(entries[0].0@, entries[0].1) + location_lines(entries.drop_first())
    }
}

/// The report line for the search-path probe.
pub open spec fn path_probe_line(p: PathProbe) -> Seq<char> {
    match p {
        PathProbe::Found(loc) => "Spicetify found in PATH: "@ + loc@ + "\n"@,
        PathProbe::NotFound => "Spicetify NOT found in PATH\n"@,
        PathProbe::ProbeFailed(e) => "Error checking PATH: "@ + e@ + "\n"@,
    }
}

/// The whole location report.
pub open spec fn spec_location_report(entries: Seq<(String, bool)>, p: PathProbe) -> Seq<char> {
    "Checking for Spicetify in common locations:\n"@ + location_lines(entries)
        + "\nChecking PATH for spicetify:\n"@ + path_probe_line(p)
}

proof fn lemma_location_lines_push(entries: Seq<(String, bool)>, x: (String, bool))
    ensures
        location_lines(entries.push(x)) == location_lines(entries) + location_line(x.0@, x.1),
    decreases entries.len(),
{
    if entries.len() == 0 {
        assert(entries.push(x).drop_first() =~= entries);
        assert(location_lines(entries) + location_line(x.0@, x.1) =~= location_line(x.0@, x.1));
        assert(location_lines(entries.push(x)) =~= location_line(x.0@, x.1) + location_lines(
            entries,
        ));
        assert(location_line(x.0@, x.1) + location_lines(entries) =~= location_line(x.0@, x.1));
    } else {
        assert(entries.push(x).drop_first() =~= entries.drop_first().push(x));
        lemma_location_lines_push(entries.drop_first(), x);
        assert(location_lines(entries.push(x)) =~= location_lines(entries) + location_line(
            x.0@,
            x.1,
        ));
    }
}

/// Builds the diagnostic report out of the probe outcomes: one pair of
/// lines per location, then the search-path line.
pub fn location_report(entries: &Vec<(String, bool)>, p: &PathProbe) -> (r: String)
    ensures
        r@ == spec_location_report(entries@, *p),
{
    let mut out = "Checking for Spicetify in common locations:\n".to_owned();
    let mut i: usize = 0;
    proof {
        assert(entries@.subrange(0, 0) =~= Seq::<(String, bool)>::empty());
        assert(out@ =~= "Checking for Spicetify in common locations:\n"@ + location_lines(
            entries@.subrange(0, 0),
        ));
    }
    while i < entries.len()
        invariant
            i <= entries@.len(),
            out@ == "Checking for Spicetify in common locations:\n"@ + location_lines(
                entries@.subrange(0, i as int),
            ),
        decreases entries@.len() - i,
    {
        out.append("Checking: ");
        out.append(entries[i].0.as_str());
        out.append("\n");
        if entries[i].1 {
            out.append("FOUND: ");
            out.append(entries[i].0.as_str());
            out.append("\n");
        } else {
            out.append("Not found: ");
            out.append(entries[i].0.as_str());
            out.append("\n");
        }
        proof {
            assert(entries@.subrange(0, i + 1) =~= entries@.subrange(0, i as int).push(
                entries@[i as int],
            ));
            lemma_location_lines_push(entries@.subrange(0, i as int), entries@[i as int]);
            assert(out@ =~= "Checking for Spicetify in common locations:\n"@ + location_lines(
                entries@.subrange(0, i + 1),
            ));
        }
        i = i + 1;
    }
    proof {
        assert(entries@.subrange(0, entries@.len() as int) =~= entries@);
    }
    out.append("\nChecking PATH for spicetify:\n");
    match p {
        PathProbe::Found(loc) => {
            out.append("Spicetify found in PATH: ");
            out.append(loc.as_str());
            out.append("\n");
        },
        PathProbe::NotFound => {
            out.append("Spicetify NOT found in PATH\n");
        },
        PathProbe::ProbeFailed(e) => {
            out.append("Error checking PATH: ");
            out.append(e.as_str());
            out.append("\n");
        },
    }
    assert(out@ =~= spec_location_report(entries@, *p));
    out
}

/// The installed tool wants an update: a version was read and it does not
/// sit on the `2.` line.
pub open spec fn spicetify_wants_update(version: Option<String>) -> bool {
    version matches Some(v) && !starts_with(v@, "2."@)
}

/// Decides whether the installed tool's version calls for an update.
pub fn spicetify_update_wanted(version: &Option<String>) -> (b: bool)
    ensures
        b == spicetify_wants_update(*version),
{
    match version {
        Some(v) => {
            let c = to_chars(v.as_str());
            let two = to_chars("2.");
            !chars_start_with(&c, &two)
        },
        None => false,
    }
}

} // verus!
