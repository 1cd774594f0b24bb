//! What is kept of the output of a command, and what its end means.
use std::collections::VecDeque;

use vstd::prelude::*;

use crate::text::{text_pairs, texts};

verus! {

/// How much of the error stream of the user's command is analyzed.
pub const ERROR_CAPTURE_LIMIT: usize = 1_048_576;

/// How much of each stream of a diagnostic call is read.
pub const DIAGNOSTIC_CAPTURE_LIMIT: usize = 4_194_304;

/// How much of the output of the user's command can be replayed.
pub const STDOUT_SPOOL_LIMIT: usize = 67_108_864;

/// How much of the error stream of the user's command can be replayed.
pub const STDERR_SPOOL_LIMIT: usize = 8_388_608;

/// A command of the user that has ended.
#[derive(Debug)]
pub struct CommandRun {
    pub argv: Vec<String>,
    pub exit_code: i32,
    pub stdout: Vec<u8>,
    pub stderr: Vec<u8>,
    pub stdout_truncated: bool,
    pub stderr_truncated: bool,
    pub stderr_replay_truncated: bool,
}

/// What a diagnostic call gave back.
#[derive(Debug)]
pub struct DiagnosticOutput {
    pub success: bool,
    pub stdout: Vec<u8>,
    pub stderr: Vec<u8>,
    pub truncated: bool,
}

/// A diagnostic call to make: an executable and its arguments.
#[derive(Debug, PartialEq, Eq)]
pub struct DiagnosticCall {
    pub executable: String,
    pub args: Vec<String>,
}

pub struct CallView {
    pub executable: Seq<char>,
    pub args: Seq<Seq<char>>,
}

impl View for DiagnosticCall {
    type V = CallView;

    open spec fn view(&self) -> CallView {
        CallView { executable: self.executable@, args: texts(self.args@) }
    }
}

/// What became of a diagnostic call: what it gave back, or why it could not be
/// made.
pub type Reply = Result<DiagnosticOutput, String>;

/// The last `limit` bytes.
pub open spec fn tail_of(bytes: Seq<u8>, limit: nat) -> Seq<u8> {
    if bytes.len() <= limit {
        bytes
    } else {
        bytes.skip(bytes.len() - limit)
    }
}

/// Whether a capture of at most `limit` bytes loses some of these. A capture of
/// nothing does not count as one.
pub open spec fn overflows(bytes: nat, limit: nat) -> bool {
    0 < limit < bytes
}

/// The end of a stream, as much of it as the limit lets be kept.
pub struct Capture {
    tail: VecDeque<u8>,
    limit: usize,
    truncated: bool,
}

/// The bytes kept of a stream, and whether others were dropped.
#[derive(Debug)]
pub struct PumpResult {
    pub captured: Vec<u8>,
    pub capture_truncated: bool,
}

impl Capture {
    /// The bytes that are kept.
    pub closed spec fn kept(self) -> Seq<u8> {
        self.tail@
    }

    /// How many bytes can be kept.
    pub closed spec fn limit(self) -> nat {
        self.limit as nat
    }

    /// Whether bytes were dropped.
    pub closed spec fn truncated(self) -> bool {
        self.truncated
    }

    /// No more is kept than can be.
    #[verifier::type_invariant]
    spec fn wf(self) -> bool {
        self.tail@.len() <= self.limit
    }

    pub fn new(limit: usize) -> (r: Self)
        ensures
            r.kept() == Seq::<u8>::empty(),
            r.limit() == limit,
            !r.truncated(),
    {
        Capture { tail: VecDeque::new(), limit, truncated: false }
    }

    /// What was kept.
    pub fn finish(self) -> (r: PumpResult)
        ensures
            r.captured@ == self.kept(),
            r.capture_truncated == self.truncated(),
    {
        let mut captured: Vec<u8> = Vec::new();
        let mut i: usize = 0;
        while i < self.tail.len()
            invariant
                i <= self.tail@.len(),
                captured@ =~= self.tail@.take(i as int),
            decreases self.tail.len() - i,
        {
            captured.push(self.tail[i]);
            i += 1;
        }
        PumpResult { captured, capture_truncated: self.truncated }
    }
}

/// Takes in the next bytes of a stream.
pub fn pump(capture: &mut Capture, chunk: &[u8])
    ensures
        final(capture).limit() == old(capture).limit(),
        final(capture).kept() == tail_of(old(capture).kept() + chunk@, old(capture).limit()),
        final(capture).truncated() == (old(capture).truncated() || overflows(
            old(capture).kept().len() + chunk@.len(),
            old(capture).limit(),
        )),
{
    proof {
        use_type_invariant(&*capture);
    }
    let limit = capture.limit;
    let mut truncated = capture.truncated;
    let mut tail: VecDeque<u8> = VecDeque::new();
    std::mem::swap(&mut tail, &mut capture.tail);
    let ghost kept = tail@;
    let ghost was_truncated = truncated;
    if limit == 0 {
        assert(tail_of(kept + chunk@, 0) =~= Seq::<u8>::empty());
        assert(kept =~= Seq::<u8>::empty());
        capture.tail = tail;
        return ;
    }
    let mut i: usize = 0;
    assert(kept + chunk@.take(0) =~= kept);
    while i < chunk.len()
        invariant
            limit > 0,
            i <= chunk@.len(),
            kept.len() <= limit,
            tail@.len() <= limit,
            tail@ =~= tail_of(kept + chunk@.take(i as int), limit as nat),
            truncated == (was_truncated || overflows((kept.len() + i) as nat, limit as nat)),
        decreases chunk.len() - i,
    {
        assert(kept + chunk@.take(i + 1) =~= (kept + chunk@.take(i as int)).push(chunk@[i as int]));
        if tail.len() == limit {
            let _ = tail.pop_front();
            truncated = true;
        }
        tail.push_back(chunk[i]);
        i += 1;
    }
    assert(chunk@.take(i as int) =~= chunk@);
    capture.tail = tail;
    capture.truncated = truncated;
}

/// What is kept of a stream does not depend on the pieces in which it comes: the
/// end of the end of one part and the next part is the end of both, and bytes
/// count as dropped just where there are more than can be kept.
pub proof fn law_capture_is_the_tail_of_the_stream(first: Seq<u8>, next: Seq<u8>, limit: nat)
    ensures
        tail_of(tail_of(first, limit) + next, limit) == tail_of(first + next, limit),
        overflows((first + next).len(), limit) == (overflows(first.len(), limit) || overflows(
            tail_of(first, limit).len() + next.len(),
            limit,
        )),
{
    assert(tail_of(tail_of(first, limit) + next, limit) =~= tail_of(first + next, limit));
}

/// How much more may be written to a spool.
pub struct SpoolLimit {
    pub remaining: usize,
    pub truncated: bool,
}

impl SpoolLimit {
    /// How many of the next `offered` bytes go to the spool; the others are
    /// dropped, and that is noted.
    pub fn accept(&mut self, offered: usize) -> (r: usize)
        ensures
            r == if offered <= old(self).remaining {
                offered
            } else {
                old(self).remaining
            },
            final(self).remaining == old(self).remaining - r,
            final(self).truncated == (old(self).truncated || r < offered),
    {
        let count = if offered <= self.remaining {
            offered
        } else {
            self.remaining
        };
        self.remaining = self.remaining - count;
        if count < offered {
            self.truncated = true;
        }
        count
    }
}

/// What is kept of a command of the user that has ended. The output of the command
/// counts as truncated where bytes of it were dropped on either way, and what is
/// shown of its error stream where the spool was full.
pub fn command_run(
    argv: Vec<String>,
    exit_code: i32,
    stdout: PumpResult,
    stderr: PumpResult,
    stdout_spool_full: bool,
    stderr_spool_full: bool,
) -> (r: CommandRun)
    ensures
        r.argv == argv,
        r.exit_code == exit_code,
        r.stdout == stdout.captured,
        r.stderr == stderr.captured,
        r.stdout_truncated == (stdout.capture_truncated || stdout_spool_full),
        r.stderr_truncated == stderr.capture_truncated,
        r.stderr_replay_truncated == stderr_spool_full,
{
    CommandRun {
        argv,
        exit_code,
        stdout: stdout.captured,
        stderr: stderr.captured,
        stdout_truncated: stdout.capture_truncated || stdout_spool_full,
        stderr_truncated: stderr.capture_truncated,
        stderr_replay_truncated: stderr_spool_full,
    }
}

/// What a diagnostic call gave back, where bytes of either stream were dropped or
/// not.
pub fn diagnostic_output(success: bool, stdout: PumpResult, stderr: PumpResult) -> (r:
    DiagnosticOutput)
    ensures
        r.success == success,
        r.stdout == stdout.captured,
        r.stderr == stderr.captured,
        r.truncated == (stdout.capture_truncated || stderr.capture_truncated),
{
    DiagnosticOutput {
        success,
        truncated: stdout.capture_truncated || stderr.capture_truncated,
        stdout: stdout.captured,
        stderr: stderr.captured,
    }
}

/// How long to wait between two looks at a diagnostic call, in milliseconds.
pub const POLL_INTERVAL: u64 = 20;

/// What is said of a diagnostic call that took too long.
pub const TIMED_OUT: &'static str = "AWS diagnostic call timed out";

/// What comes next after a look at a diagnostic call.
#[derive(Debug, Clone, Copy, PartialEq, Eq, Structural)]
pub enum PollStep {
    /// It has ended: its output is collected.
    Collect,
    /// It has taken too long: it is killed, and nobody waits for its output.
    GiveUp,
    /// It is looked at again after the interval.
    LookAgain,
}

/// What comes next after a look at a diagnostic call that has run for `elapsed` of
/// at most `timeout` nanoseconds. A call that has ended is never given up, and one
/// that has not is never waited for once its time is over.
pub fn after_look(ended: bool, elapsed: u128, timeout: u128) -> (r: PollStep)
    ensures
        r == PollStep::Collect <==> ended,
        r == PollStep::GiveUp <==> !ended && elapsed >= timeout,
        r == PollStep::LookAgain <==> !ended && elapsed < timeout,
{
    if ended {
        PollStep::Collect
    } else if elapsed >= timeout {
        PollStep::GiveUp
    } else {
        PollStep::LookAgain
    }
}

/// What a diagnostic call adds to the environment of the command: no pager, no
/// prompt, errors as JSON, and the endpoints of AWS whatever is configured.
pub open spec fn environment() -> Seq<(Seq<char>, Seq<char>)> {
    seq![
        ("AWS_PAGER"@, ""@),
        ("AWS_CLI_AUTO_PROMPT"@, "off"@),
        ("AWS_CLI_ERROR_FORMAT"@, "json"@),
        ("AWS_IGNORE_CONFIGURED_ENDPOINT_URLS"@, "true"@),
    ]
}

/// What a diagnostic call adds to the environment of the command.
pub fn diagnostic_environment() -> (r: Vec<(String, String)>)
    ensures
        text_pairs(r@) == environment(),
{
    let mut added: Vec<(String, String)> = Vec::new();
    added.push(("AWS_PAGER".to_owned(), "".to_owned()));
    added.push(("AWS_CLI_AUTO_PROMPT".to_owned(), "off".to_owned()));
    added.push(("AWS_CLI_ERROR_FORMAT".to_owned(), "json".to_owned()));
    added.push(("AWS_IGNORE_CONFIGURED_ENDPOINT_URLS".to_owned(), "true".to_owned()));
    assert(text_pairs(added@) =~= environment());
    added
}

/// The exit code of a command that ended with a code or, without one, by a
/// signal.
pub fn normalized_exit_code(code: Option<i32>, signal: Option<i32>) -> (r: i32)
    requires
        code is None && signal is Some ==> signal.unwrap() <= i32::MAX - 128,
    ensures
        r == match code {
            Some(value) => value as int,
            None => match signal {
                Some(number) => 128 + number,
                None => 128,
            },
        },
{
    match code {
        Some(value) => value,
        None => match signal {
            Some(number) => 128 + number,
            None => 128,
        },
    }
}

/// The exit code of the tool after a command that failed: the command's own, as
/// far as it is one of a failure and fits.
pub fn failure_exit_code(exit_code: i32) -> (r: u8)
    ensures
        r == if exit_code < 1 {
            1
        } else if exit_code > 255 {
            255
        } else {
            exit_code as int
        },
{
    if exit_code < 1 {
        1
    } else if exit_code > 255 {
        255
    } else {
        exit_code as u8
    }
}

/// Of a stream the last bytes are kept, as many as the limit lets, and all where it has
/// no more; bytes count as dropped where there are more, unless nothing is to be kept.
pub proof fn law_the_end_of_a_stream_is_kept(bytes: Seq<u8>, limit: nat)
    ensures
        bytes.len() <= limit ==> tail_of(bytes, limit) == bytes,
        bytes.len() > limit ==> tail_of(bytes, limit).len() == limit && exists|dropped: Seq<u8>|
            bytes == #[trigger] (dropped + tail_of(bytes, limit)),
        overflows(bytes.len(), limit) <==> limit > 0 && tail_of(bytes, limit) != bytes,
        ERROR_CAPTURE_LIMIT == 1024 * 1024,
        DIAGNOSTIC_CAPTURE_LIMIT == 4 * 1024 * 1024,
        STDOUT_SPOOL_LIMIT == 64 * 1024 * 1024,
        STDERR_SPOOL_LIMIT == 8 * 1024 * 1024,
{
    if bytes.len() > limit {
        let dropped = bytes.take(bytes.len() - limit);
        assert(bytes =~= dropped + tail_of(bytes, limit));
    }
}

/// A diagnostic call runs without a pager and without prompts, writes its errors as
/// JSON, and goes to the endpoints of AWS whatever is configured.
pub proof fn law_calls_run_unattended()
    ensures
        environment().len() == 4,
        environment().contains(("AWS_PAGER"@, ""@)),
        environment().contains(("AWS_CLI_AUTO_PROMPT"@, "off"@)),
        environment().contains(("AWS_CLI_ERROR_FORMAT"@, "json"@)),
        environment().contains(("AWS_IGNORE_CONFIGURED_ENDPOINT_URLS"@, "true"@)),
        TIMED_OUT@ == "AWS diagnostic call timed out"@,
        POLL_INTERVAL == 20,
{
    let added = environment();
    assert(added[0] == ("AWS_PAGER"@, ""@));
    assert(added[1] == ("AWS_CLI_AUTO_PROMPT"@, "off"@));
    assert(added[2] == ("AWS_CLI_ERROR_FORMAT"@, "json"@));
    assert(added[3] == ("AWS_IGNORE_CONFIGURED_ENDPOINT_URLS"@, "true"@));
}

} // verus!
