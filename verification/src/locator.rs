//! The process locator: which live process runs a given executable, and
//! how often the launcher asks before it gives up.

use vstd::prelude::*;
use crate::text::to_chars;

verus! {

/// The executable of a live process, as the process table reports it.
#[derive(Debug)]
pub enum ExePath {
    /// The table names no executable for the process.
    Missing,
    /// The executable's path is no valid Unicode text.
    NotUnicode,
    /// The executable's path.
    Text(String),
}

/// One row of a snapshot of the process table.
#[derive(Debug)]
pub struct ProcessEntry {
    pub pid: u32,
    pub exe: ExePath,
    /// The command line, argument by argument; `None` stands for an
    /// argument that is no valid Unicode text.
    pub cmd: Vec<Option<String>>,
}

/// Whether some argument of `cmd` is text.
pub open spec fn has_text_arg(cmd: Seq<Option<String>>) -> bool {
    exists|i: int| 0 <= i < cmd.len() && (#[trigger] cmd[i]) is Some
}

/// The arguments of `cmd` that are text, in order, with one space between
/// neighbours.
pub open spec fn joined_args(cmd: Seq<Option<String>>) -> Seq<char>
    decreases cmd.len(),
{
    if cmd.len() == 0 {
        Seq::empty()
    } else {
        match cmd.last() {
            None => joined_args(cmd.drop_last()),
            Some(arg) => if has_text_arg(cmd.drop_last()) {
                joined_args(cmd.drop_last()) + seq![' '] + arg@
            } else {
                arg@
            },
        }
    }
}

/// `c` with a backslash turned into a slash.
pub open spec fn slashed(c: char) -> char {
    if c == '\\' {
        '/'
    } else {
        c
    }
}

/// `s` with every backslash turned into a slash.
pub open spec fn normalized(s: Seq<char>) -> Seq<char> {
    Seq::new(s.len(), |i: int| slashed(s[i]))
}

/// Whether `needle` occurs in `hay` as a contiguous run.
pub open spec fn contains(hay: Seq<char>, needle: Seq<char>) -> bool {
    exists|i: int| occurs_at(hay, needle, i)
}

/// Whether `needle` occurs in `hay` at offset `i`.
pub open spec fn occurs_at(hay: Seq<char>, needle: Seq<char>, i: int) -> bool {
    0 <= i && i + needle.len() <= hay.len() && hay.subrange(i, i + needle.len()) == needle
}

/// Whether a process counts as running `target`: its executable path is
/// `target` exactly, or, where `match_command_line` is set, its normalized
/// command line contains `target`, whatever is known of its executable.
pub open spec fn entry_matches(e: ProcessEntry, target: Seq<char>, match_command_line: bool) -> bool {
    (e.exe matches ExePath::Text(path) && path@ == target) || (match_command_line && contains(
        normalized(joined_args(e.cmd@)),
        target,
    ))
}

/// The process that the locator reports for `target`: the first row of the
/// snapshot that matches.
pub open spec fn located(
    processes: Seq<ProcessEntry>,
    target: Seq<char>,
    match_command_line: bool,
) -> Option<u32>
    decreases processes.len(),
{
    if processes.len() == 0 {
        None
    } else if entry_matches(processes[0], target, match_command_line) {
        Some(processes[0].pid)
    } else {
        located(processes.drop_first(), target, match_command_line)
    }
}

proof fn lemma_no_text_no_line(cmd: Seq<Option<String>>)
    requires
        !has_text_arg(cmd),
    ensures
        joined_args(cmd) == Seq::<char>::empty(),
    decreases cmd.len(),
{
    if cmd.len() > 0 {
        assert(cmd[cmd.len() - 1] is None);
        let init = cmd.drop_last();
        if has_text_arg(init) {
            let j = choose|j: int| 0 <= j < init.len() && (#[trigger] init[j]) is Some;
            assert(cmd[j] is Some);
        }
        lemma_no_text_no_line(init);
    }
}

/// The normalized command line of a process.
pub fn command_line(cmd: &Vec<Option<String>>) -> (r: Vec<char>)
    ensures
        r@ == normalized(joined_args(cmd@)),
{
    let mut out: Vec<char> = Vec::new();
    let mut seen = false;
    let mut i: usize = 0;
    assert(cmd@.take(0) =~= Seq::<Option<String>>::empty());
    assert(normalized(Seq::<char>::empty()) =~= Seq::<char>::empty());
    while i < cmd.len()
        invariant
            i <= cmd.len(),
            out@ == normalized(joined_args(cmd@.take(i as int))),
            seen == has_text_arg(cmd@.take(i as int)),
        decreases cmd.len() - i,
    {
        let ghost before = cmd@.take(i as int);
        let ghost upto = cmd@.take(i as int + 1);
        assert(upto.drop_last() =~= before);
        assert(upto.last() == cmd@[i as int]);
        match &cmd[i] {
            None => {
                proof {
                    if has_text_arg(upto) {
                        let j = choose|j: int| 0 <= j < upto.len() && (#[trigger] upto[j]) is Some;
                        assert(before[j] is Some);
                    }
                    if has_text_arg(before) {
                        let j = choose|j: int| 0 <= j < before.len() && (#[trigger] before[j]) is Some;
                        assert(upto[j] is Some);
                    }
                }
            },
            Some(arg) => {
                let ghost start = out@;
                if seen {
                    out.push(' ');
                }
                let ghost prefix = out@;
                let chars = to_chars(arg.as_str());
                let mut k: usize = 0;
                while k < chars.len()
                    invariant
                        k <= chars.len(),
                        out@ == prefix + normalized(chars@.take(k as int)),
                    decreases chars.len() - k,
                {
                    let c = chars[k];
                    out.push(if c == '\\' { '/' } else { c });
                    assert(out@ =~= prefix + normalized(chars@.take(k as int + 1)));
                    k = k + 1;
                }
                proof {
                    assert(chars@.take(chars.len() as int) =~= chars@);
                    assert(upto[i as int] is Some);
                    if seen {
                        assert(normalized(joined_args(before) + seq![' '] + arg@) =~= normalized(
                            joined_args(before),
                        ) + seq![' '] + normalized(arg@));
                        assert(out@ =~= normalized(joined_args(upto)));
                    } else {
                        lemma_no_text_no_line(before);
                        assert(out@ =~= normalized(joined_args(upto)));
                    }
                }
                seen = true;
            },
        }
        i = i + 1;
    }
    assert(cmd@.take(cmd.len() as int) =~= cmd@);
    out
}

/// Whether `needle` occurs in `hay`.
pub fn contains_chars(hay: &Vec<char>, needle: &Vec<char>) -> (r: bool)
    ensures
        r == contains(hay@, needle@),
{
    if needle.len() > hay.len() {
        return false;
    }
    let last = hay.len() - needle.len();
    let mut i: usize = 0;
    while i <= last
        invariant
            last == hay.len() - needle.len(),
            needle.len() <= hay.len(),
            i <= last + 1,
            forall|j: int| 0 <= j < i ==> !occurs_at(hay@, needle@, j),
        decreases last + 1 - i,
    {
        let mut k: usize = 0;
        while k < needle.len() && hay[i + k] == needle[k]
            invariant
                i <= last,
                last == hay.len() - needle.len(),
                needle.len() <= hay.len(),
                k <= needle.len(),
                forall|m: int| 0 <= m < k ==> hay@[i + m] == needle@[m],
            decreases needle.len() - k,
        {
            k = k + 1;
        }
        if k == needle.len() {
            assert(hay@.subrange(i as int, i + needle.len()) =~= needle@);
            assert(occurs_at(hay@, needle@, i as int));
            return true;
        }
        assert(!occurs_at(hay@, needle@, i as int)) by {
            if occurs_at(hay@, needle@, i as int) {
                assert(hay@.subrange(i as int, i + needle.len())[k as int] == needle@[k as int]);
            }
        }
        i = i + 1;
    }
    false
}

/// Whether one row of the snapshot counts as running the target, given
/// as text and as characters.
fn row_matches(
    entry: &ProcessEntry,
    target: &String,
    needle: &Vec<char>,
    match_command_line: bool,
) -> (r: bool)
    requires
        needle@ == target@,
    ensures
        r == entry_matches(*entry, target@, match_command_line),
{
    let exact = match &entry.exe {
        ExePath::Text(path) => *path == *target,
        _ => false,
    };
    if exact {
        true
    } else if match_command_line {
        let line = command_line(&entry.cmd);
        contains_chars(&line, needle)
    } else {
        false
    }
}

/// Whether one row of the snapshot counts as running `target`.
pub fn process_matches(entry: &ProcessEntry, target: &str, match_command_line: bool) -> (r: bool)
    ensures
        r == entry_matches(*entry, target@, match_command_line),
{
    let key = target.to_owned();
    let needle = to_chars(target);
    row_matches(entry, &key, &needle, match_command_line)
}

/// Scans a snapshot of the process table once for the process that runs
/// `process_file_path`, and returns the id of the first row that matches.
/// `match_command_line` is set on platforms where a game may run under an
/// interpreter or a wrapper.
pub fn get_pid_from_process_path(
    processes: &Vec<ProcessEntry>,
    process_file_path: &str,
    match_command_line: bool,
) -> (r: Option<u32>)
    ensures
        r == located(processes@, process_file_path@, match_command_line),
        match r {
            Some(pid) => exists|i: int|
                0 <= i < processes@.len() && processes@[i].pid == pid && entry_matches(
                    #[trigger] processes@[i],
                    process_file_path@,
                    match_command_line,
                ) && forall|j: int|
                    0 <= j < i ==> !entry_matches(
                        #[trigger] processes@[j],
                        process_file_path@,
                        match_command_line,
                    ),
            None => forall|i: int|
                0 <= i < processes@.len() ==> !entry_matches(
                    #[trigger] processes@[i],
                    process_file_path@,
                    match_command_line,
                ),
        },
{
    let key = process_file_path.to_owned();
    let needle = to_chars(process_file_path);
    let mut i: usize = 0;
    while i < processes.len()
        invariant
            key@ == process_file_path@,
            needle@ == process_file_path@,
            i <= processes.len(),
            forall|j: int|
                0 <= j < i ==> !entry_matches(
                    #[trigger] processes@[j],
                    process_file_path@,
                    match_command_line,
                ),
        decreases processes.len() - i,
    {
        if row_matches(&processes[i], &key, &needle, match_command_line) {
            proof {
                lemma_located_first(processes@, process_file_path@, match_command_line, i as int);
            }
            return Some(processes[i].pid);
        }
        i = i + 1;
    }
    proof {
        lemma_located_none(processes@, process_file_path@, match_command_line);
    }
    None
}

proof fn lemma_located_first(
    processes: Seq<ProcessEntry>,
    target: Seq<char>,
    match_command_line: bool,
    i: int,
)
    requires
        0 <= i < processes.len(),
        entry_matches(processes[i], target, match_command_line),
        forall|j: int| 0 <= j < i ==> !entry_matches(#[trigger] processes[j], target, match_command_line),
    ensures
        located(processes, target, match_command_line) == Some(processes[i].pid),
    decreases i,
{
    if i > 0 {
        assert(!entry_matches(processes[0], target, match_command_line));
        let rest = processes.drop_first();
        assert forall|j: int| 0 <= j < i - 1 implies !entry_matches(
            #[trigger] rest[j],
            target,
            match_command_line,
        ) by {
            assert(rest[j] == processes[j + 1]);
        }
        assert(rest[i - 1] == processes[i]);
        lemma_located_first(rest, target, match_command_line, i - 1);
    }
}

proof fn lemma_located_none(processes: Seq<ProcessEntry>, target: Seq<char>, match_command_line: bool)
    requires
        forall|j: int|
            0 <= j < processes.len() ==> !entry_matches(
                #[trigger] processes[j],
                target,
                match_command_line,
            ),
    ensures
        located(processes, target, match_command_line) is None,
    decreases processes.len(),
{
    if processes.len() > 0 {
        assert(!entry_matches(processes[0], target, match_command_line));
        let rest = processes.drop_first();
        assert forall|j: int| 0 <= j < rest.len() implies !entry_matches(
            #[trigger] rest[j],
            target,
            match_command_line,
        ) by {
            assert(rest[j] == processes[j + 1]);
        }
        lemma_located_none(rest, target, match_command_line);
    }
}

/// How many times the launcher probes the process table before it gives
/// the process up.
pub const MAX_PROBES: u8 = 60;

/// What the launcher does after a probe.
#[derive(Clone, Copy, Debug, PartialEq, Eq, Structural)]
pub enum ProbeStep {
    /// The process runs under this id.
    Found(u32),
    /// Wait a second and probe again.
    Retry,
    /// The process did not appear: the launch fails.
    GiveUp,
}

/// The step that follows a probe made after `made` earlier ones.
pub open spec fn probe_step(made: nat, probe: Option<u32>) -> ProbeStep {
    if made >= MAX_PROBES {
        ProbeStep::GiveUp
    } else {
        match probe {
            Some(pid) => ProbeStep::Found(pid),
            None => if made + 1 >= MAX_PROBES {
                ProbeStep::GiveUp
            } else {
                ProbeStep::Retry
            },
        }
    }
}

/// The step at which a launcher that makes the probes of `probes` in turn,
/// after `made` earlier ones, stops, and the number of probes it has then
/// made; `Retry` where the probes run out first.
pub open spec fn locate_run(made: nat, probes: Seq<Option<u32>>) -> (ProbeStep, nat)
    decreases probes.len(),
{
    if probes.len() == 0 {
        (ProbeStep::Retry, made)
    } else {
        let step = probe_step(made, probes[0]);
        if step == ProbeStep::Retry {
            locate_run(made + 1, probes.drop_first())
        } else {
            (step, made + 1)
        }
    }
}

/// The bounded retry of the launcher: counts the probes made for one
/// launch.
#[derive(Debug)]
pub struct LocateRetry {
    pub probes: u8,
}

impl LocateRetry {
    /// A launch that has not probed yet.
    pub fn new() -> (r: Self)
        ensures
            r.probes == 0,
    {
        LocateRetry { probes: 0 }
    }

    /// Takes note of the result of one probe and says what to do next. A
    /// probe beyond the bound is not counted.
    pub fn record(&mut self, probe: Option<u32>) -> (r: ProbeStep)
        ensures
            r == probe_step(old(self).probes as nat, probe),
            final(self).probes == if old(self).probes < MAX_PROBES {
                old(self).probes + 1
            } else {
                old(self).probes as int
            },
    {
        if self.probes >= MAX_PROBES {
            return ProbeStep::GiveUp;
        }
        self.probes = self.probes + 1;
        match probe {
            Some(pid) => ProbeStep::Found(pid),
            None => if self.probes >= MAX_PROBES {
                ProbeStep::GiveUp
            } else {
                ProbeStep::Retry
            },
        }
    }
}

/// A process that never appears is given up after exactly `MAX_PROBES`
/// probes: with fewer probes the launcher is still retrying, and no probe
/// is made beyond the bound.
pub proof fn lemma_retry_bound(probes: Seq<Option<u32>>)
    requires
        forall|i: int| 0 <= i < probes.len() ==> probes[i] is None,
    ensures
        probes.len() < MAX_PROBES ==> locate_run(0, probes) == (ProbeStep::Retry, probes.len()),
        probes.len() >= MAX_PROBES ==> locate_run(0, probes) == (
            ProbeStep::GiveUp,
            MAX_PROBES as nat,
        ),
{
    lemma_retry_from(0, probes);
}

proof fn lemma_retry_from(made: nat, probes: Seq<Option<u32>>)
    requires
        made <= MAX_PROBES,
        forall|i: int| 0 <= i < probes.len() ==> probes[i] is None,
    ensures
        made + probes.len() < MAX_PROBES ==> locate_run(made, probes) == (
            ProbeStep::Retry,
            made + probes.len(),
        ),
        made < MAX_PROBES && made + probes.len() >= MAX_PROBES ==> locate_run(made, probes) == (
            ProbeStep::GiveUp,
            MAX_PROBES as nat,
        ),
    decreases probes.len(),
{
    if probes.len() > 0 && made < MAX_PROBES {
        assert(probes[0] is None);
        let rest = probes.drop_first();
        assert forall|i: int| 0 <= i < rest.len() implies rest[i] is None by {
            assert(rest[i] == probes[i + 1]);
        }
        if made + 1 < MAX_PROBES {
            lemma_retry_from(made + 1, rest);
        }
    }
}

/// A process that a probe finds ends the retry at once with its id.
pub proof fn lemma_found_ends_retry(made: nat, pid: u32)
    requires
        made < MAX_PROBES,
    ensures
        probe_step(made, Some(pid)) == ProbeStep::Found(pid),
{
}

} // verus!
