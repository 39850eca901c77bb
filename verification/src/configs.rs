//! The declared report configurations.
//!
//! Each report is one immutable configuration record: which labeled
//! commands run, in which order, under which template text. The commands
//! use absolute paths on purpose: daemon accounts see none of the shell
//! aliases that prettify these tools for interactive users, and the
//! deployment host offers /bin/df and /bin/mount but no /usr/bin/df or
//! /usr/bin/mount, with /dev/shm as its temp-like mount in place of /tmp.
//! Each configuration's shape is written down as a spec predicate, and the
//! builder of each is proved to produce exactly that shape.

use vstd::prelude::*;
use vstd::string::StringExecFns;
use crate::command::command;
use crate::command::where_is;
use crate::report::ReportConfig;
use crate::report::Section;

verus! {

/// The shape of the full host report: a banner, then memory usage, disk
/// usage of the temp-like mount, and the mount table, in that declared
/// order, separated by a dashed line.
pub open spec fn is_full_report(c: ReportConfig) -> bool {
    &&& c.preamble@
        == "Sysinfo of (free tier) Shuttle.rs. Thank you Shuttle. Love you.\n\nFormat and URL routing/handling are subject to change!\n(https://github.com/peter-kehl/sys-info.shuttleapp.rs)\n\n"@
    &&& c.separator@ == "\n-----\n\n"@
    &&& c.footer@ == ""@
    &&& c.sections@.len() == 3
    &&& c.sections@[0].label@ == "free -m:\n"@
    &&& c.sections@[0].command.program@ == "/usr/bin/free"@
    &&& c.sections@[0].command.args@.len() == 1
    &&& c.sections@[0].command.args@[0]@ == "-m"@
    &&& c.sections@[1].label@ == "df -m /dev/shm:\n"@
    &&& c.sections@[1].command.program@ == "/bin/df"@
    &&& c.sections@[1].command.args@.len() == 2
    &&& c.sections@[1].command.args@[0]@ == "-m"@
    &&& c.sections@[1].command.args@[1]@ == "/dev/shm"@
    &&& c.sections@[2].label@ == "mount:\n"@
    &&& c.sections@[2].command.program@ == "/bin/mount"@
    &&& c.sections@[2].command.args@.len() == 0
    &&& c.all_kill_on_drop()
}

/// The shape of the minimal report: memory and disk usage only, each under
/// its bare label, with no banner and a blank line between the two.
pub open spec fn is_minimal_report(c: ReportConfig) -> bool {
    &&& c.preamble@ == ""@
    &&& c.separator@ == "\n"@
    &&& c.footer@ == ""@
    &&& c.sections@.len() == 2
    &&& c.sections@[0].label@ == "free -m:\n"@
    &&& c.sections@[0].command.program@ == "/usr/bin/free"@
    &&& c.sections@[0].command.args@.len() == 1
    &&& c.sections@[0].command.args@[0]@ == "-m"@
    &&& c.sections@[1].label@ == "df -m /dev/shm:\n"@
    &&& c.sections@[1].command.program@ == "/bin/df"@
    &&& c.sections@[1].command.args@.len() == 2
    &&& c.sections@[1].command.args@[0]@ == "-m"@
    &&& c.sections@[1].command.args@[1]@ == "/dev/shm"@
    &&& c.all_kill_on_drop()
}

/// The shape of the binary-location report: one unlabeled `whereis` run
/// per target tool — memory, disk, mount — newline-separated. An
/// operational aid for discovering correct absolute paths on an unfamiliar
/// host, not part of the steady-state report.
pub open spec fn is_locate_binaries_report(c: ReportConfig) -> bool {
    &&& c.preamble@ == ""@
    &&& c.separator@ == "\n"@
    &&& c.footer@ == ""@
    &&& c.sections@.len() == 3
    &&& c.sections@[0].label@ == ""@
    &&& c.sections@[1].label@ == ""@
    &&& c.sections@[2].label@ == ""@
    &&& forall|i: int|
        0 <= i < 3 ==> (#[trigger] c.sections@[i]).command.program@ == "whereis"@
    &&& forall|i: int| 0 <= i < 3 ==> (#[trigger] c.sections@[i]).command.args@.len() == 1
    &&& c.sections@[0].command.args@[0]@ == "free"@
    &&& c.sections@[1].command.args@[0]@ == "df"@
    &&& c.sections@[2].command.args@[0]@ == "mount"@
    &&& c.all_kill_on_drop()
}

/// Build the full host report's configuration.
pub fn full_report_config() -> (c: ReportConfig)
    ensures
        is_full_report(c),
{
    let mut free_cmd = command(String::from_str("/usr/bin/free"));
    free_cmd.arg(String::from_str("-m"));
    let mut df_cmd = command(String::from_str("/bin/df"));
    df_cmd.arg(String::from_str("-m"));
    df_cmd.arg(String::from_str("/dev/shm"));
    let mount_cmd = command(String::from_str("/bin/mount"));
    let mut sections: Vec<Section> = Vec::new();
    sections.push(Section { label: String::from_str("free -m:\n"), command: free_cmd });
    sections.push(Section { label: String::from_str("df -m /dev/shm:\n"), command: df_cmd });
    sections.push(Section { label: String::from_str("mount:\n"), command: mount_cmd });
    ReportConfig {
        preamble: String::from_str(
            "Sysinfo of (free tier) Shuttle.rs. Thank you Shuttle. Love you.\n\nFormat and URL routing/handling are subject to change!\n(https://github.com/peter-kehl/sys-info.shuttleapp.rs)\n\n",
        ),
        sections,
        separator: String::from_str("\n-----\n\n"),
        footer: String::from_str(""),
    }
}

/// Build the minimal report's configuration.
pub fn minimal_report_config() -> (c: ReportConfig)
    ensures
        is_minimal_report(c),
{
    let mut free_cmd = command(String::from_str("/usr/bin/free"));
    free_cmd.arg(String::from_str("-m"));
    let mut df_cmd = command(String::from_str("/bin/df"));
    df_cmd.arg(String::from_str("-m"));
    df_cmd.arg(String::from_str("/dev/shm"));
    let mut sections: Vec<Section> = Vec::new();
    sections.push(Section { label: String::from_str("free -m:\n"), command: free_cmd });
    sections.push(Section { label: String::from_str("df -m /dev/shm:\n"), command: df_cmd });
    ReportConfig {
        preamble: String::from_str(""),
        sections,
        separator: String::from_str("\n"),
        footer: String::from_str(""),
    }
}

/// Build the binary-location report's configuration.
pub fn locate_binaries_config() -> (c: ReportConfig)
    ensures
        is_locate_binaries_report(c),
{
    let mut sections: Vec<Section> = Vec::new();
    sections.push(Section { label: String::from_str(""), command: where_is(String::from_str("free")) });
    sections.push(Section { label: String::from_str(""), command: where_is(String::from_str("df")) });
    sections.push(Section { label: String::from_str(""), command: where_is(String::from_str("mount")) });
    ReportConfig {
        preamble: String::from_str(""),
        sections,
        separator: String::from_str("\n"),
        footer: String::from_str(""),
    }
}

} // verus!
