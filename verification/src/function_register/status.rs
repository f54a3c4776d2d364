//! The `status` command: reports how the server is doing.

use crate::commands::{Command, CommandOutcome, OutcomeView, Trigger, TriggerView};
use crate::function_register::{failure_reply, failure_text, CommandFailure};
use crate::message::User;
use crate::reply::{text_reply, Reply};
use crate::text::{decimal_text, push_decimal};
use vstd::prelude::*;
use vstd::string::StringExecFns;

verus! {

/// What was measured of the server.
#[derive(Debug, PartialEq, Eq)]
pub struct ServerStatus {
    /// Seconds since the server started.
    pub uptime: u64,
    /// The processor load in percent, already written out.
    pub cpu_usage: String,
    /// Bytes of memory in all.
    pub total_memory: u64,
    /// Bytes of memory in use.
    pub used_memory: u64,
    /// The first disk, if there is one: its bytes in all, and those free.
    pub disk: Option<(u64, u64)>,
    /// The number of running processes.
    pub processes: usize,
}

/// Bytes in a mebibyte.
pub const MIB: u64 = 1048576;

/// Bytes in a gibibyte.
pub const GIB: u64 = 1073741824;

/// The gibibytes in use and in all on a disk of `total` bytes with
/// `available` bytes free, each size rounded down first; zeros without a
/// disk.
pub open spec fn disk_usage(disk: Option<(u64, u64)>) -> (nat, nat) {
    match disk {
        Some((total, available)) => ((total / GIB - available / GIB) as nat, (total / GIB) as nat),
        None => (0, 0),
    }
}

/// Whether the disk, if there is one, has no more whole gibibytes free
/// than it has in all.
pub open spec fn plausible(disk: Option<(u64, u64)>) -> bool {
    match disk {
        Some((total, available)) => available / GIB <= total / GIB,
        None => true,
    }
}

/// The report on a server with the given measurements: a heading, then
/// one line each for the time it has been up, the processor load, the
/// memory in mebibytes, the disk in gibibytes and the number of processes.
pub open spec fn report_text(
    uptime: u64,
    cpu_usage: Seq<char>,
    total_memory: u64,
    used_memory: u64,
    disk: Option<(u64, u64)>,
    processes: usize,
) -> Seq<char> {
    "🖥️ Server Status\n⏱️ Uptime: "@
        + decimal_text((uptime / 86400) as nat) + "d "@
        + decimal_text(((uptime % 86400) / 3600) as nat) + "h "@
        + decimal_text(((uptime % 3600) / 60) as nat) + "m\n🔥 CPU Usage: "@
        + cpu_usage + "%\n📦 Memory: "@
        + decimal_text((used_memory / MIB) as nat) + "MB / "@
        + decimal_text((total_memory / MIB) as nat) + "MB\n💾 Disk: "@
        + decimal_text(disk_usage(disk).0) + "GB / "@
        + decimal_text(disk_usage(disk).1) + "GB\n🌐 Processes: "@
        + decimal_text(processes as nat)
}

/// The `status` command.
pub struct StatusCommand;

impl StatusCommand {
    /// Whether `status` can be reported: the disk has no more whole
    /// gibibytes free than it has in all.
    pub fn reportable(status: &ServerStatus) -> (r: bool)
        ensures
            r == plausible(status.disk),
    {
        match status.disk {
            Some((total, available)) => available / GIB <= total / GIB,
            None => true,
        }
    }

    /// The reply to the `status` command once the server was measured: the
    /// report, or word that the measurements cannot be reported.
    pub fn settle(status: &ServerStatus) -> (r: Reply)
        ensures
            r@ == if plausible(status.disk) {
                text_reply(
                    report_text(
                        status.uptime,
                        status.cpu_usage@,
                        status.total_memory,
                        status.used_memory,
                        status.disk,
                        status.processes,
                    ),
                )
            } else {
                text_reply(failure_text(CommandFailure::BadMeasurement))
            },
    {
        if StatusCommand::reportable(status) {
            Reply::text(StatusCommand::report(status))
        } else {
            failure_reply(CommandFailure::BadMeasurement)
        }
    }

    /// The report on `status`.
    pub fn report(status: &ServerStatus) -> (r: String)
        requires
            plausible(status.disk),
        ensures
            r@ == report_text(
                status.uptime,
                status.cpu_usage@,
                status.total_memory,
                status.used_memory,
                status.disk,
                status.processes,
            ),
    {
        let (disk_used, disk_total): (u64, u64) = match status.disk {
            Some((total, available)) => (total / GIB - available / GIB, total / GIB),
            None => (0, 0),
        };
        let mut out = String::from_str("🖥️ Server Status\n⏱️ Uptime: ");
        push_decimal(&mut out, status.uptime / 86400);
        out.append("d ");
        push_decimal(&mut out, (status.uptime % 86400) / 3600);
        out.append("h ");
        push_decimal(&mut out, (status.uptime % 3600) / 60);
        out.append("m\n🔥 CPU Usage: ");
        out.append(status.cpu_usage.as_str());
        out.append("%\n📦 Memory: ");
        push_decimal(&mut out, status.used_memory / MIB);
        out.append("MB / ");
        push_decimal(&mut out, status.total_memory / MIB);
        out.append("MB\n💾 Disk: ");
        push_decimal(&mut out, disk_used);
        out.append("GB / ");
        push_decimal(&mut out, disk_total);
        out.append("GB\n🌐 Processes: ");
        push_decimal(&mut out, status.processes as u64);
        out
    }
}

impl Command for StatusCommand {
    fn name(&self) -> (r: &'static str)
        ensures
            r@ == "status"@,
    {
        "status"
    }

    fn description(&self) -> (r: &'static str)
        ensures
            r@ == "查询服务器状态"@,
    {
        "查询服务器状态"
    }

    fn trigger(&self) -> (r: Trigger)
        ensures
            r@ == TriggerView::Exact("status"@),
    {
        Trigger::Exact("status".to_string())
    }

    fn execute(
        &self,
        text: &str,
        images: &Vec<String>,
        user: &mut User,
        commands: &Vec<(String, String)>,
    ) -> (r: CommandOutcome)
        ensures
            *final(user) == *old(user),
            r@ == OutcomeView::Status,
    {
        CommandOutcome::Status
    }
}

} // verus!
