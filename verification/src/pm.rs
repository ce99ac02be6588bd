//! The process manager: starting, stopping and watching instances.

use crate::instance_config::{Instance, InstancesConfig};
use crate::text::{
    contains, contains_text, decimal, ends, ends_with, glue, glue3, parse_u32, show_u64, texts, trim,
    trim_end_matches, trimmed, u32_value, without_suffixes,
};
use vstd::prelude::*;
use vstd::string::*;

verus! {

/// What is known of an instance.
#[derive(Debug)]
pub struct ProcessInfo {
    pub name: String,
    pub pid: Option<u32>,
    pub status: ProcessStatus,
    pub config: String,
    pub port: Option<u16>,
}

/// Whether an instance runs.
#[derive(Debug, Clone, Copy, PartialEq, Eq, Structural)]
pub enum ProcessStatus {
    Running,
    Stopped,
    Error,
}

/// The folder of the files with process numbers.
pub fn pids_dir() -> (res: &'static str)
    ensures
        res@ == ".onyx/pids"@,
{
    ".onyx/pids"
}

/// The folder of the logs.
pub fn logs_dir() -> (res: &'static str)
    ensures
        res@ == ".onyx/logs"@,
{
    ".onyx/logs"
}

/// The message when a folder could not be made.
pub fn init_failure(for_logs: bool, error: &str) -> (res: String)
    ensures
        res@ == (if for_logs {
            "Failed to create logs directory: "@ + error@
        } else {
            "Failed to create PID directory: "@ + error@
        }),
{
    if for_logs {
        glue("Failed to create logs directory: ", error)
    } else {
        glue("Failed to create PID directory: ", error)
    }
}

/// The name of the file with the process number of an instance.
pub fn pid_file_name(name: &str) -> (res: String)
    ensures
        res@ == name@ + ".pid"@,
{
    glue(name, ".pid")
}

/// The name of the log of an instance.
pub fn log_file_name(name: &str) -> (res: String)
    ensures
        res@ == name@ + ".log"@,
{
    glue(name, ".log")
}

/// The process number in a file, where there is one and it could be read.
pub open spec fn pid_in(content: Option<Seq<char>>) -> Option<u32> {
    match content {
        Some(c) => u32_value(trimmed(c)),
        None => None,
    }
}

/// The process number in a file, where there is one and it could be read.
pub fn read_pid(content: &Option<String>) -> (res: Option<u32>)
    ensures
        res == pid_in(crate::json::opt_text(*content)),
{
    match content {
        Some(c) => parse_u32(trim(c.as_str()).as_str()),
        None => None,
    }
}

/// What is written to the file with the process number.
pub fn pid_content(pid: u32) -> (res: String)
    ensures
        res@ == decimal(pid as nat),
{
    show_u64(pid as u64)
}

/// The message when the process number could not be written.
pub fn write_pid_failure(error: &str) -> (res: String)
    ensures
        res@ == "Failed to write PID file: "@ + error@,
{
    glue("Failed to write PID file: ", error)
}

/// The arguments of the command that asks whether a process exists.
pub fn probe_arguments(pid: u32) -> (res: Vec<String>)
    ensures
        texts(res@) == Seq::empty().push("-0"@).push(decimal(pid as nat)),
{
    let mut out: Vec<String> = Vec::new();
    out.push("-0".to_owned());
    out.push(show_u64(pid as u64));
    assert(texts(out@) =~= Seq::empty().push("-0"@).push(decimal(pid as nat)));
    out
}

/// Whether a list of processes names a process.
pub fn is_listed(output: &str, pid: u32) -> (res: bool)
    ensures
        res == contains_text(output@, decimal(pid as nat)),
{
    let number = show_u64(pid as u64);
    contains(output, number.as_str())
}

/// Whether a process number that is noted belongs to no process.
pub open spec fn stale(pid: Option<u32>, running: bool) -> bool {
    pid is Some && !running
}

/// Whether a process number that is noted belongs to no process.
pub fn is_stale(pid: Option<u32>, running: bool) -> (res: bool)
    ensures
        res == stale(pid, running),
{
    pid.is_some() && !running
}

/// The arguments that an instance is started with.
pub open spec fn arguments(config: Seq<char>, port: Option<u16>) -> Seq<Seq<char>> {
    let base = Seq::empty().push("--config"@).push(config).push("serve"@);
    match port {
        Some(p) => base.push("--port"@).push(decimal(p as nat)),
        None => base,
    }
}

/// What starting an instance leads to: the arguments to start it with.
pub open spec fn started(instance: Instance, pid: Option<u32>, running: bool) -> Result<
    Seq<Seq<char>>,
    Seq<char>,
> {
    if !instance.enabled {
        Err("Instance '"@ + instance.name@ + "' is disabled in config"@)
    } else {
        match pid {
            Some(p) if running => Err(
                "Instance '"@ + instance.name@ + "' is already running (PID: "@ + (decimal(p as nat) + ")"@),
            ),
            _ => Ok(arguments(instance.config@, instance.port)),
        }
    }
}

/// The texts of a result, or its message.
pub open spec fn texts_result(r: Result<Vec<String>, String>) -> Result<Seq<Seq<char>>, Seq<char>> {
    match r {
        Ok(v) => Ok(texts(v@)),
        Err(e) => Err(e@),
    }
}

/// The arguments to start an instance with. `pid` is the process number that is
/// noted for it, and `running` says whether there is such a process; a noted
/// number without a process is to be deleted first.
pub fn start_instance(instance: &Instance, pid: Option<u32>, running: bool) -> (res: Result<
    Vec<String>,
    String,
>)
    ensures
        texts_result(res) == started(*instance, pid, running),
{
    if !instance.enabled {
        return Err(glue3("Instance '", instance.name.as_str(), "' is disabled in config"));
    }
    if let Some(p) = pid {
        if running {
            let number = show_u64(p as u64);
            let head = glue3("Instance '", instance.name.as_str(), "' is already running (PID: ");
            let tail = glue(number.as_str(), ")");
            return Err(glue(head.as_str(), tail.as_str()));
        }
    }
    let mut out: Vec<String> = Vec::new();
    out.push("--config".to_owned());
    out.push(instance.config.clone());
    out.push("serve".to_owned());
    if let Some(port) = instance.port {
        out.push("--port".to_owned());
        out.push(show_u64(port as u64));
    }
    assert(texts(out@) =~= arguments(instance.config@, instance.port));
    Ok(out)
}

/// What can go wrong when an instance is started.
pub enum StartFailure {
    /// The path of the program is not known.
    NoProgram(String),
    /// The log could not be opened.
    NoLog(String),
    /// The log could not be handed on twice.
    NoSecondLog(String),
    /// The process could not be started.
    NotSpawned(String),
}

/// The message when an instance could not be started.
pub fn start_failure(failure: &StartFailure) -> (res: String)
    ensures
        res@ == (match *failure {
            StartFailure::NoProgram(e) => "Failed to get current executable path: "@ + e@,
            StartFailure::NoLog(e) => "Failed to open log file: "@ + e@,
            StartFailure::NoSecondLog(e) => "Failed to clone log handle: "@ + e@,
            StartFailure::NotSpawned(e) => "Failed to spawn process: "@ + e@,
        }),
{
    match failure {
        StartFailure::NoProgram(e) => glue("Failed to get current executable path: ", e.as_str()),
        StartFailure::NoLog(e) => glue("Failed to open log file: ", e.as_str()),
        StartFailure::NoSecondLog(e) => glue("Failed to clone log handle: ", e.as_str()),
        StartFailure::NotSpawned(e) => glue("Failed to spawn process: ", e.as_str()),
    }
}

/// What is said about an instance that was started.
pub fn started_line(instance: &Instance, pid: u32) -> (res: String)
    ensures
        res@ == "Started instance '"@ + instance.name@ + "' (PID: "@ + (decimal(pid as nat) + ", Port: "@ + (
        match instance.port {
            Some(p) => decimal(p as nat),
            None => "default"@,
        }) + ")"@),
{
    let number = show_u64(pid as u64);
    let port = match instance.port {
        Some(p) => show_u64(p as u64),
        None => "default".to_owned(),
    };
    let head = glue3("Started instance '", instance.name.as_str(), "' (PID: ");
    let middle = glue3(number.as_str(), ", Port: ", port.as_str());
    let tail = glue(middle.as_str(), ")");
    glue(head.as_str(), tail.as_str())
}

/// What stopping an instance leads to: the number of the process to end.
pub open spec fn stopped(name: Seq<char>, pid: Option<u32>, running: bool) -> Result<u32, Seq<char>> {
    match pid {
        None => Err("Instance '"@ + name + "' is not running"@),
        Some(p) => if running {
            Ok(p)
        } else {
            Err("Instance '"@ + name + "' is not running (stale PID file)"@)
        },
    }
}

/// A number, or a message by its characters.
pub open spec fn number_result(r: Result<u32, String>) -> Result<u32, Seq<char>> {
    match r {
        Ok(n) => Ok(n),
        Err(e) => Err(e@),
    }
}

/// The number of the process to end so that an instance stops. A noted number
/// without a process is to be deleted, and so is that of a process that ended.
pub fn stop_instance(name: &str, pid: Option<u32>, running: bool) -> (res: Result<u32, String>)
    ensures
        number_result(res) == stopped(name@, pid, running),
{
    match pid {
        None => Err(glue3("Instance '", name, "' is not running")),
        Some(p) => if running {
            Ok(p)
        } else {
            Err(glue3("Instance '", name, "' is not running (stale PID file)"))
        },
    }
}

/// The message when a process could not be ended.
pub fn kill_failure(error: &str) -> (res: String)
    ensures
        res@ == "Failed to kill process: "@ + error@,
{
    glue("Failed to kill process: ", error)
}

/// Whether an instance runs.
pub open spec fn status_of(pid: Option<u32>, running: bool) -> ProcessStatus {
    if pid is Some && running {
        ProcessStatus::Running
    } else {
        ProcessStatus::Stopped
    }
}

/// What is known of an instance.
pub open spec fn info_fits(info: ProcessInfo, instance: Instance, pid: Option<u32>, running: bool) -> bool {
    &&& info.name@ == instance.name@
    &&& info.pid == pid
    &&& info.status == status_of(pid, running)
    &&& info.config@ == instance.config@
    &&& info.port == instance.port
}

/// What is known of an instance. `pid` is the process number that is noted for
/// it, and `running` says whether there is such a process.
pub fn get_instance_status(instance: &Instance, pid: Option<u32>, running: bool) -> (res: ProcessInfo)
    ensures
        info_fits(res, *instance, pid, running),
{
    let status = match pid {
        Some(_) => if running {
            ProcessStatus::Running
        } else {
            ProcessStatus::Stopped
        },
        None => ProcessStatus::Stopped,
    };
    ProcessInfo {
        name: instance.name.clone(),
        pid,
        status,
        config: instance.config.clone(),
        port: instance.port,
    }
}

/// The process number that is noted for an instance, and whether there is such a
/// process.
#[derive(Clone, Copy)]
pub struct Probe {
    pub pid: Option<u32>,
    pub running: bool,
}

/// What is known of every instance, in their order. There is one probe for each.
pub fn list_instances(instances_config: &InstancesConfig, probes: &Vec<Probe>) -> (res: Vec<ProcessInfo>)
    requires
        probes@.len() == instances_config.instances@.len(),
    ensures
        res@.len() == instances_config.instances@.len(),
        forall|i: int|
            0 <= i < res@.len() ==> info_fits(
                #[trigger] res@[i],
                instances_config.instances@[i],
                probes@[i].pid,
                probes@[i].running,
            ),
{
    let mut out: Vec<ProcessInfo> = Vec::new();
    let mut i: usize = 0;
    while i < instances_config.instances.len()
        invariant
            i <= instances_config.instances@.len(),
            probes@.len() == instances_config.instances@.len(),
            out@.len() == i,
            forall|k: int|
                0 <= k < i ==> info_fits(
                    #[trigger] out@[k],
                    instances_config.instances@[k],
                    probes@[k].pid,
                    probes@[k].running,
                ),
        decreases instances_config.instances@.len() - i,
    {
        let probe = probes[i];
        out.push(get_instance_status(&instances_config.instances[i], probe.pid, probe.running));
        i += 1;
    }
    out
}

/// The last lines of a log.
pub open spec fn last_of(all: Seq<Seq<char>>, lines: int) -> Seq<Seq<char>> {
    if all.len() > lines {
        all.skip(all.len() - lines)
    } else {
        all
    }
}

fn from_line(all: &Vec<String>, start: usize) -> (res: Vec<String>)
    requires
        start <= all@.len(),
    ensures
        texts(res@) == texts(all@).skip(start as int),
{
    let ghost every = texts(all@);
    let mut out: Vec<String> = Vec::new();
    let mut i: usize = start;
    assert(texts(out@) =~= every.subrange(start as int, start as int));
    while i < all.len()
        invariant
            start <= i <= all@.len(),
            every == texts(all@),
            texts(out@) == every.subrange(start as int, i as int),
        decreases all@.len() - i,
    {
        let ghost before = texts(out@);
        out.push(all[i].clone());
        proof {
            assert(every[i as int] == all@[i as int]@);
            assert(texts(out@) =~= before.push(every[i as int]));
            assert(texts(out@) =~= every.subrange(start as int, i + 1));
        }
        i += 1;
    }
    assert(every.subrange(start as int, every.len() as int) =~= every.skip(start as int));
    out
}

/// The last lines of a log.
pub fn last_lines(all: &Vec<String>, lines: usize) -> (res: Vec<String>)
    ensures
        texts(res@) == last_of(texts(all@), lines as int),
{
    let start: usize = if all.len() > lines {
        all.len() - lines
    } else {
        0
    };
    proof {
        assert(texts(all@).skip(0) =~= texts(all@));
    }
    from_line(all, start)
}

/// The lines that a log has got since it had so many.
pub fn new_lines(all: &Vec<String>, seen: usize) -> (res: Vec<String>)
    ensures
        texts(res@) == if all@.len() > seen {
            texts(all@).skip(seen as int)
        } else {
            Seq::empty()
        },
{
    if all.len() > seen {
        from_line(all, seen)
    } else {
        let none: Vec<String> = Vec::new();
        assert(texts(none@) =~= Seq::<Seq<char>>::empty());
        none
    }
}

/// The last lines of an instance's log, below a heading. `log` is what the log
/// holds, if there is one, or why it could not be opened.
pub open spec fn logs_shown(
    name: Seq<char>,
    lines: int,
    log: Option<Result<Seq<Seq<char>>, Seq<char>>>,
) -> Result<(Seq<char>, Seq<Seq<char>>), Seq<char>> {
    match log {
        None => Err("No logs found for instance '"@ + name + "'"@),
        Some(Err(e)) => Err("Failed to open log file: "@ + e),
        Some(Ok(all)) => Ok(
            (
                "Last "@ + decimal(lines as nat) + " lines of logs for instance '"@ + (name + "':\n"@),
                last_of(all, lines),
            ),
        ),
    }
}

/// The model of a log.
pub open spec fn log_of(log: Option<Result<Vec<String>, String>>) -> Option<Result<Seq<Seq<char>>, Seq<char>>> {
    match log {
        None => None,
        Some(r) => Some(texts_result(r)),
    }
}

/// The model of a heading with lines below it.
pub open spec fn shown_of(r: Result<(String, Vec<String>), String>) -> Result<
    (Seq<char>, Seq<Seq<char>>),
    Seq<char>,
> {
    match r {
        Ok(v) => Ok((v.0@, texts(v.1@))),
        Err(e) => Err(e@),
    }
}

/// The last lines of an instance's log, below a heading. `log` is what the log
/// holds, if there is one, or why it could not be opened.
pub fn show_logs(name: &str, lines: usize, log: &Option<Result<Vec<String>, String>>) -> (res: Result<
    (String, Vec<String>),
    String,
>)
    ensures
        shown_of(res) == logs_shown(name@, lines as int, log_of(*log)),
{
    match log {
        None => Err(glue3("No logs found for instance '", name, "'")),
        Some(r) => match r {
            Err(e) => Err(glue("Failed to open log file: ", e.as_str())),
            Ok(all) => {
                let number = show_u64(lines as u64);
                let head = glue3("Last ", number.as_str(), " lines of logs for instance '");
                let tail = glue(name, "':\n");
                Ok((glue(head.as_str(), tail.as_str()), last_lines(all, lines)))
            },
        },
    }
}

/// The instance that a file in the folder of process numbers belongs to.
pub open spec fn instance_of(file_name: Seq<char>) -> Option<Seq<char>> {
    if ends(file_name, ".pid"@) {
        Some(without_suffixes(file_name, ".pid"@))
    } else {
        None
    }
}

/// The instance that a file in the folder of process numbers belongs to. Where
/// the number in it is stale, the file is to be deleted.
pub fn cleanup_stale_pids(file_name: &str) -> (res: Option<String>)
    ensures
        crate::json::opt_text(res) == instance_of(file_name@),
{
    if ends_with(file_name, ".pid") {
        proof {
            reveal_strlit(".pid");
        }
        Some(trim_end_matches(file_name, ".pid"))
    } else {
        None
    }
}

/// A number that was written can be read again.
pub proof fn a_noted_pid_is_read_again(pid: u32)
    ensures
        pid_in(Some(decimal(pid as nat))) == Some(pid),
{
    decimal_is_read(pid as nat);
    let s = decimal(pid as nat);
    digits_are_not_white(s);
    assert(trimmed(s) == s);
    assert(s[0] != '+') by {
        assert(crate::text::digit_value(s[0]) is Some);
    }
}

proof fn decimal_is_read(n: nat)
    ensures
        decimal(n).len() > 0,
        crate::text::digits_value(decimal(n)) == Some(n),
        forall|i: int| 0 <= i < decimal(n).len() ==> crate::text::digit_value(#[trigger] decimal(n)[i]) is Some,
    decreases n,
{
    if n >= 10 {
        decimal_is_read(n / 10);
        let s = decimal(n);
        assert(s.drop_last() =~= decimal(n / 10));
        assert(s.last() == crate::text::digit(n % 10));
        assert(crate::text::digit_value(s.last()) == Some(n % 10));
        assert((n / 10) * 10 + n % 10 == n);
        assert forall|i: int| 0 <= i < s.len() implies crate::text::digit_value(#[trigger] s[i]) is Some by {
            if i < s.len() - 1 {
                assert(decimal(n / 10)[i] == s[i]);
            }
        }
    } else {
        let s = decimal(n);
        assert(s.drop_last() =~= Seq::<char>::empty());
        assert(crate::text::digits_value(s.drop_last()) == Some(0nat));
        assert(s.last() == crate::text::digit(n));
        assert(crate::text::digit_value(s.last()) == Some(n));
    }
}

proof fn digits_are_not_white(s: Seq<char>)
    requires
        s.len() > 0,
        forall|i: int| 0 <= i < s.len() ==> crate::text::digit_value(#[trigger] s[i]) is Some,
    ensures
        trimmed(s) == s,
{
    assert(crate::text::digit_value(s[0]) is Some);
    assert(crate::text::digit_value(s[s.len() - 1]) is Some);
    assert(!crate::text::is_white(s[0]));
    assert(!crate::text::is_white(s.last()));
}

/// An instance is started if and only if it is enabled and does not run yet: with
/// its own configuration and, where it has one of its own, at its own port.
pub proof fn an_instance_is_started_as_configured(instance: Instance, pid: Option<u32>, running: bool)
    ensures
        started(instance, pid, running) is Ok <==> instance.enabled && !(pid is Some && running),
        started(instance, pid, running) matches Ok(args) ==> {
            &&& args.take(3) == seq!["--config"@, instance.config@, "serve"@]
            &&& instance.port is None ==> args.len() == 3
            &&& instance.port matches Some(p) ==> args.len() == 5 && args[3] == "--port"@ && args[4] == decimal(
                p as nat,
            )
        },
{
    if let Ok(args) = started(instance, pid, running) {
        assert(args.take(3) =~= seq!["--config"@, instance.config@, "serve"@]);
    }
}

/// An instance is stopped if and only if it runs, by ending the process that is
/// noted for it; a number that is noted without a process is stale.
pub proof fn a_running_instance_is_stopped(name: Seq<char>, pid: Option<u32>, running: bool)
    ensures
        stopped(name, pid, running) is Ok <==> pid is Some && running,
        stopped(name, pid, running) matches Ok(p) ==> pid == Some(p),
        stale(pid, running) <==> pid is Some && stopped(name, pid, running) is Err,
        status_of(pid, running) is Running <==> stopped(name, pid, running) is Ok,
        status_of(pid, running) is Running || status_of(pid, running) is Stopped,
{
}

/// What is told of an instance is its own name, configuration and port, and the
/// process that is noted for it.
pub proof fn an_instance_is_told_as_it_is(info: ProcessInfo, instance: Instance, pid: Option<u32>, running: bool)
    requires
        info_fits(info, instance, pid, running),
    ensures
        info.name@ == instance.name@,
        info.config@ == instance.config@,
        info.port == instance.port,
        info.pid == pid,
        info.status is Running <==> pid is Some && running,
{
}

/// The lines of a log that are shown are its last ones, as many as asked for or as
/// there are.
pub proof fn the_last_lines_are_shown(
    name: Seq<char>,
    lines: int,
    log: Option<Result<Seq<Seq<char>>, Seq<char>>>,
    i: int,
)
    requires
        0 <= lines,
    ensures
        logs_shown(name, lines, log) is Ok <==> log is Some && log->Some_0 is Ok,
        logs_shown(name, lines, log) matches Ok(shown) ==> {
            let all = log->Some_0->Ok_0;
            &&& shown.1.len() == (if all.len() < lines {
                all.len() as int
            } else {
                lines
            })
            &&& 0 <= i < shown.1.len() ==> shown.1[i] == all[all.len() - shown.1.len() + i]
            &&& shown.0 == "Last "@ + decimal(lines as nat) + " lines of logs for instance '"@ + (name + "':\n"@)
        },
{
}

/// The file with the process number of an instance belongs to that instance, and a
/// file of another kind to none.
pub proof fn a_process_file_belongs_to_its_instance(name: Seq<char>)
    ensures
        !ends(name, ".pid"@) ==> instance_of(name + ".pid"@) == Some(name) && instance_of(name) is None,
{
    reveal_strlit(".pid");
    assert(".pid"@.len() == 4);
    crate::text::suffixes_are_taken_off(name, ".pid"@);
    let file = name + ".pid"@;
    assert(file.subrange(name.len() as int, file.len() as int) =~= ".pid"@);
}

/// The lines that a log has got are those behind the ones that it had.
pub proof fn the_new_lines_are_those_behind(all: Vec<String>, seen: usize, res: Vec<String>, i: int)
    requires
        call_ensures(new_lines, (&all, seen), res),
    ensures
        all@.len() <= seen ==> res@.len() == 0,
        seen < all@.len() ==> res@.len() == all@.len() - seen && (0 <= i < res@.len() ==> res@[i]@ == all@[seen
            + i]@),
{
    assert(texts(res@).len() == res@.len());
    if seen < all@.len() && 0 <= i < res@.len() {
        assert(texts(res@)[i] == res@[i]@);
        assert(texts(all@).skip(seen as int)[i] == texts(all@)[seen + i]);
    }
}

/// Every instance is told, in the order of the configuration, with its own probe.
pub proof fn every_instance_is_told(
    config: InstancesConfig,
    probes: Vec<Probe>,
    res: Vec<ProcessInfo>,
    i: int,
)
    requires
        call_ensures(list_instances, (&config, &probes), res),
        0 <= i < config.instances@.len(),
    ensures
        res@.len() == config.instances@.len(),
        res@[i].name@ == config.instances@[i].name@,
        res@[i].config@ == config.instances@[i].config@,
        res@[i].port == config.instances@[i].port,
        res@[i].pid == probes@[i].pid,
        res@[i].status is Running <==> probes@[i].pid is Some && probes@[i].running,
{
    assert(info_fits(res@[i], config.instances@[i], probes@[i].pid, probes@[i].running));
}

/// An instance that is not started or stopped says why.
pub proof fn a_refused_start_or_stop_says_why(instance: Instance, pid: u32)
    ensures
        !instance.enabled ==> started(instance, Some(pid), true) == Err::<Seq<Seq<char>>, Seq<char>>(
            "Instance '"@ + instance.name@ + "' is disabled in config"@,
        ),
        instance.enabled ==> started(instance, Some(pid), true) == Err::<Seq<Seq<char>>, Seq<char>>(
            "Instance '"@ + instance.name@ + "' is already running (PID: "@ + (decimal(pid as nat) + ")"@),
        ),
        stopped(instance.name@, None, false) == Err::<u32, Seq<char>>(
            "Instance '"@ + instance.name@ + "' is not running"@,
        ),
        stopped(instance.name@, Some(pid), false) == Err::<u32, Seq<char>>(
            "Instance '"@ + instance.name@ + "' is not running (stale PID file)"@,
        ),
{
}

} // verus!
