//! Argument lists for the external `systemctl` and `journalctl` processes,
//! and the parsing of what they print. Running the processes is I/O and
//! stays outside; what to ask and what an answer means is decided here.

use vstd::prelude::*;
use vstd::string::StringExecFns;
use crate::strings::split_lines;
use crate::strings::split_lines_of;
use crate::strings::trim;
use crate::strings::trim_of;
use crate::units::UnitId;
use crate::units::UnitScope;

verus! {

/// The arguments that ask `systemctl` for a unit's fragment path.
pub fn unit_file_location_args(service: &UnitId) -> (r: Vec<String>)
    ensures
        r.deep_view() == if service.scope == UnitScope::User {
            seq!["--user"@, "--quiet"@, "show"@, "-P"@, "FragmentPath"@, service.name@]
        } else {
            seq!["--quiet"@, "show"@, "-P"@, "FragmentPath"@, service.name@]
        },
{
    let mut r: Vec<String> = Vec::new();
    if service.scope == UnitScope::User {
        r.push(String::from_str("--user"));
    }
    r.push(String::from_str("--quiet"));
    r.push(String::from_str("show"));
    r.push(String::from_str("-P"));
    r.push(String::from_str("FragmentPath"));
    r.push(service.name.clone());
    proof {
        if service.scope == UnitScope::User {
            assert(r.deep_view() =~= seq![
                "--user"@,
                "--quiet"@,
                "show"@,
                "-P"@,
                "FragmentPath"@,
                service.name@,
            ]);
        } else {
            assert(r.deep_view() =~= seq![
                "--quiet"@,
                "show"@,
                "-P"@,
                "FragmentPath"@,
                service.name@,
            ]);
        }
    }
    r
}

/// The arguments that ask `journalctl` for the recent lines of a unit.
pub fn journalctl_batch_args(service: &UnitId) -> (r: Vec<String>)
    ensures
        r.deep_view() == if service.scope == UnitScope::User {
            seq![
                "--quiet"@,
                "--output=short-iso"@,
                "--lines=500"@,
                "-u"@,
                service.name@,
                "--user"@,
            ]
        } else {
            seq!["--quiet"@, "--output=short-iso"@, "--lines=500"@, "-u"@, service.name@]
        },
{
    let mut r: Vec<String> = Vec::new();
    r.push(String::from_str("--quiet"));
    r.push(String::from_str("--output=short-iso"));
    r.push(String::from_str("--lines=500"));
    r.push(String::from_str("-u"));
    r.push(service.name.clone());
    if service.scope == UnitScope::User {
        r.push(String::from_str("--user"));
    }
    proof {
        if service.scope == UnitScope::User {
            assert(r.deep_view() =~= seq![
                "--quiet"@,
                "--output=short-iso"@,
                "--lines=500"@,
                "-u"@,
                service.name@,
                "--user"@,
            ]);
        } else {
            assert(r.deep_view() =~= seq![
                "--quiet"@,
                "--output=short-iso"@,
                "--lines=500"@,
                "-u"@,
                service.name@,
            ]);
        }
    }
    r
}

/// The arguments that make `journalctl` follow a unit's fresh lines.
pub fn journalctl_follow_args(service: &UnitId) -> (r: Vec<String>)
    ensures
        r.deep_view() == if service.scope == UnitScope::User {
            seq![
                "-u"@,
                service.name@,
                "--output=short-iso"@,
                "--follow"@,
                "--lines=0"@,
                "--quiet"@,
                "--user"@,
            ]
        } else {
            seq![
                "-u"@,
                service.name@,
                "--output=short-iso"@,
                "--follow"@,
                "--lines=0"@,
                "--quiet"@,
            ]
        },
{
    let mut r: Vec<String> = Vec::new();
    r.push(String::from_str("-u"));
    r.push(service.name.clone());
    r.push(String::from_str("--output=short-iso"));
    r.push(String::from_str("--follow"));
    r.push(String::from_str("--lines=0"));
    r.push(String::from_str("--quiet"));
    if service.scope == UnitScope::User {
        r.push(String::from_str("--user"));
    }
    proof {
        if service.scope == UnitScope::User {
            assert(r.deep_view() =~= seq![
                "-u"@,
                service.name@,
                "--output=short-iso"@,
                "--follow"@,
                "--lines=0"@,
                "--quiet"@,
                "--user"@,
            ]);
        } else {
            assert(r.deep_view() =~= seq![
                "-u"@,
                service.name@,
                "--output=short-iso"@,
                "--follow"@,
                "--lines=0"@,
                "--quiet"@,
            ]);
        }
    }
    r
}

/// What a batch of `journalctl` output becomes in the log pane: the
/// trimmed output split on newlines, with a hint instead when nothing was
/// available.
pub fn parse_journal_batch(stdout: String) -> (r: Vec<String>)
    ensures
        ({
            let lines = split_lines_of(trim_of(stdout@));
            if lines.len() == 0 || lines[0].len() == 0 {
                r.deep_view() == lines.push(
                    "No logs found/available. Maybe try relaunching with `sudo systemctl-tui`"@,
                )
            } else {
                r.deep_view() == lines
            }
        }),
{
    let trimmed = trim(stdout.as_str());
    let lines = split_lines(trimmed);
    let ghost views = lines.deep_view();
    let r = prepare_log_lines(lines);
    proof {
        if views.len() == 0 || views[0].len() == 0 {
            assert(r.deep_view() =~= views.push(
                "No logs found/available. Maybe try relaunching with `sudo systemctl-tui`"@,
            ));
        }
    }
    r
}

/// What a batch of fetched log lines becomes before display: an empty
/// batch (or one whose first line is empty) is replaced by a single hint
/// that nothing was available.
pub fn prepare_log_lines(logs: Vec<String>) -> (r: Vec<String>)
    ensures
        if logs@.len() == 0 || logs@[0]@.len() == 0 {
            r@.len() == logs@.len() + 1 && r@.subrange(0, logs@.len() as int) == logs@ && r@[logs@.len() as int]@
                == "No logs found/available. Maybe try relaunching with `sudo systemctl-tui`"@
        } else {
            r == logs
        },
{
    let empty = logs.len() == 0 || logs[0].as_str().is_empty();
    let mut r = logs;
    if empty {
        let ghost before = r@;
        r.push(
            String::from_str(
                "No logs found/available. Maybe try relaunching with `sudo systemctl-tui`",
            ),
        );
        proof {
            assert(r@.subrange(0, before.len() as int) =~= before);
        }
    }
    r
}

/// What `systemctl show -P FragmentPath` printed, as a unit file location:
/// the trimmed output on success, the failure otherwise. An empty answer
/// means no unit file exists.
pub fn parse_unit_file_output(
    service: &UnitId,
    success: bool,
    stdout: String,
    stderr: String,
) -> (r: Result<String, String>)
    ensures
        match r {
            Ok(p) => success && trim_of(stdout@).len() > 0 && p@ == trim_of(stdout@),
            Err(e) => if success {
                trim_of(stdout@).len() == 0 && e@ == "No unit file found for "@ + service.name@
            } else {
                e@ == stderr@
            },
        },
{
    if success {
        let path = trim(stdout.as_str());
        if path.is_empty() {
            let mut e = String::from_str("No unit file found for ");
            e.append(service.name.as_str());
            Err(e)
        } else {
            Ok(String::from_str(path))
        }
    } else {
        Err(stderr)
    }
}

} // verus!
