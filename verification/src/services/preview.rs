//! A reversible, short graph-quantum preview.
//!
//! A child process owns the override: it reads the current value, sets the
//! temporary one, and puts the previous one back when the preview ends.
//! Putting it back never overrides another application's value: every
//! write comes right after a read that still shows ours, and is read back.
//! Running the commands is the application's part; which command comes
//! next, and what the graph listing says, is decided here.
use vstd::prelude::*;

use crate::text::{dec, dec_v, eq_v, from_chars, parse_u32, parse_u32_v, to_chars};

verus! {

/// The quantum values a preview may set (0 releases the override).
pub const PREVIEW_VALUES: [u32; 6] = [0, 256, 512, 1024, 2048, 4096];
/// How many times restoring is tried before it is reported as failed.
pub const RESTORE_ATTEMPTS: usize = 3;
/// The pause between two restoring attempts, in milliseconds.
pub const RESTORE_PAUSE_MS: u64 = 150;
/// How long a preview lasts, in seconds.
pub const PREVIEW_LIFETIME_SECS: u64 = 15;
/// How long the parent waits for the child to finish restoring, in
/// seconds: three attempts of at most three two-second commands, plus the
/// pauses.
pub const CLEANUP_TIMEOUT_SECS: u64 = 25;

/// A quantum a preview may set.
pub open spec fn is_preview_value(frames: u32) -> bool {
    frames == 0 || frames == 256 || frames == 512 || frames == 1024 || frames == 2048
        || frames == 4096
}

/// Whether a preview may set `frames`.
pub fn is_preview_quantum(frames: u32) -> (r: bool)
    ensures
        r == is_preview_value(frames),
{
    let mut i: usize = 0;
    while i < 6
        invariant
            i <= 6,
            forall|j: int| 0 <= j < i ==> PREVIEW_VALUES[j] != frames,
        decreases 6 - i,
    {
        if PREVIEW_VALUES[i] == frames {
            return true;
        }
        i = i + 1;
    }
    assert(PREVIEW_VALUES[0] != frames && PREVIEW_VALUES[1] != frames && PREVIEW_VALUES[2]
        != frames && PREVIEW_VALUES[3] != frames && PREVIEW_VALUES[4] != frames
        && PREVIEW_VALUES[5] != frames);
    false
}

/// The quantum the child is asked for on its command line, if it is a
/// number a preview may set.
pub open spec fn preview_frames_spec(argument: Option<Seq<char>>) -> Option<u32> {
    match argument {
        None => None,
        Some(a) => match parse_u32(a) {
            Some(n) => if is_preview_value(n) {
                Some(n)
            } else {
                None
            },
            None => None,
        },
    }
}

/// Read the child's command-line argument.
pub fn preview_frames(argument: Option<&str>) -> (r: Option<u32>)
    ensures
        r == preview_frames_spec(crate::text::opt_str(argument)),
{
    match argument {
        None => None,
        Some(a) => match parse_u32_v(&to_chars(a)) {
            Some(n) => if is_preview_quantum(n) {
                Some(n)
            } else {
                None
            },
            None => None,
        },
    }
}

/// Why a preview failed.
#[derive(Debug, Clone, Copy, PartialEq, Eq, Structural)]
pub enum PreviewError {
    /// The quantum is not one a preview may set.
    Unsupported,
    /// The child could not put the previous value back.
    RestorationFailed,
}

impl PreviewError {
    /// The message shown for the error.
    pub fn message(self) -> (r: &'static str)
        ensures
            r@ == match self {
                PreviewError::Unsupported => "unsupported preview quantum"@,
                PreviewError::RestorationFailed => "preview restoration failed"@,
            },
    {
        match self {
            PreviewError::Unsupported => "unsupported preview quantum",
            PreviewError::RestorationFailed => "preview restoration failed",
        }
    }
}

/// The preview's result from the child's exit status.
pub fn completion_status(success: bool) -> (r: Result<(), PreviewError>)
    ensures
        success ==> r == Ok::<(), PreviewError>(()),
        !success ==> r == Err::<(), PreviewError>(PreviewError::RestorationFailed),
{
    if success {
        Ok(())
    } else {
        Err(PreviewError::RestorationFailed)
    }
}

/// The arguments of `pw-metadata` that set the forced quantum.
pub open spec fn set_quantum_args_spec(frames: u32) -> Seq<Seq<char>> {
    seq!["-n"@, "settings"@, "0"@, "clock.force-quantum"@, dec(frames as nat)]
}

/// The `pw-metadata` arguments that set the forced quantum to `frames`.
pub fn set_quantum_args(frames: u32) -> (r: Vec<String>)
    ensures
        r@.len() == 5,
        forall|i: int| 0 <= i < 5 ==> #[trigger] r@[i]@ == set_quantum_args_spec(frames)[i],
{
    let mut r: Vec<String> = Vec::new();
    r.push("-n".to_string());
    r.push("settings".to_string());
    r.push("0".to_string());
    r.push("clock.force-quantum".to_string());
    r.push(from_chars(&dec_v(frames as u64)));
    r
}

// ── Putting the previous value back ──────────────────────────────────

/// What the restoring child is to do next.
#[derive(Debug, Clone, Copy, PartialEq, Eq, Structural)]
pub enum RestoreStep {
    /// Read the current forced quantum.
    Read,
    /// Set the forced quantum to this value.
    Write(u32),
    /// Wait this many milliseconds.
    Pause(u64),
    /// Restoring is over: the previous value is back, or another
    /// application's value was left alone.
    Restored,
    /// Restoring is over and failed; this was the last failure.
    Failed(RestoreFailure),
}

/// What came of the step.
#[derive(Debug, Clone, Copy, PartialEq, Eq, Structural)]
pub enum RestoreEvent {
    /// The read gave this value.
    Value(u32),
    ReadFailed,
    Written,
    WriteFailed,
    Paused,
}

/// Why the last attempt failed.
#[derive(Debug, Clone, Copy, PartialEq, Eq, Structural)]
pub enum RestoreFailure {
    /// A read failed; the caller keeps its error.
    Read,
    /// A write failed; the caller keeps its error.
    Write,
    /// The value read back after the write was still the temporary one.
    StillTemporary,
}

impl RestoreFailure {
    /// The message of a failure that carries no error of its own.
    pub fn message(self) -> (r: &'static str)
        ensures
            r@ == match self {
                RestoreFailure::Read => "reading the audio buffer failed"@,
                RestoreFailure::Write => "the audio buffer could not be changed"@,
                RestoreFailure::StillTemporary => "temporary audio buffer is still active"@,
            },
    {
        match self {
            RestoreFailure::Read => "reading the audio buffer failed",
            RestoreFailure::Write => "the audio buffer could not be changed",
            RestoreFailure::StillTemporary => "temporary audio buffer is still active",
        }
    }
}

/// Where an attempt stands.
#[derive(Debug, Clone, Copy, PartialEq, Eq, Structural)]
pub enum Phase {
    /// Reading, to see whether the value is still ours.
    Check,
    /// Writing the previous value back.
    Write,
    /// Reading the value back after the write.
    Verify,
    /// Pausing before the next attempt.
    Pause,
    /// Over.
    Done,
}

/// Putting `previous` back in place of `temporary`.
#[derive(Debug, Clone, Copy)]
pub struct Restoration {
    pub previous: u32,
    pub temporary: u32,
    /// The attempt under way, from 0.
    pub attempt: usize,
    pub phase: Phase,
    /// The last failure; once [`Phase::Done`], `None` means restored.
    pub failure: Option<RestoreFailure>,
}

/// The order of the phases within an attempt.
pub open spec fn phase_rank(p: Phase) -> int {
    match p {
        Phase::Check => 0,
        Phase::Write => 1,
        Phase::Verify => 2,
        Phase::Pause => 3,
        Phase::Done => 4,
    }
}

/// How far restoring has come: it only ever grows, and stays below
/// `5 * RESTORE_ATTEMPTS`.
pub open spec fn progress(r: Restoration) -> int {
    if r.phase == Phase::Done {
        5 * RESTORE_ATTEMPTS
    } else {
        5 * r.attempt + phase_rank(r.phase)
    }
}

/// The event that answers the step a phase waits on.
pub open spec fn answers(p: Phase, e: RestoreEvent) -> bool {
    match p {
        Phase::Check => e is Value || e is ReadFailed,
        Phase::Write => e is Written || e is WriteFailed,
        Phase::Verify => e is Value || e is ReadFailed,
        Phase::Pause => e is Paused,
        Phase::Done => false,
    }
}

/// The step a restoration waits on.
pub open spec fn restore_step(r: Restoration) -> RestoreStep {
    match r.phase {
        Phase::Check => RestoreStep::Read,
        Phase::Write => RestoreStep::Write(r.previous),
        Phase::Verify => RestoreStep::Read,
        Phase::Pause => RestoreStep::Pause(RESTORE_PAUSE_MS),
        Phase::Done => match r.failure {
            None => RestoreStep::Restored,
            Some(f) => RestoreStep::Failed(f),
        },
    }
}

/// The restoration after a failed attempt: another attempt after a pause,
/// or the end when the attempts are spent.
pub open spec fn after_failure(r: Restoration, f: RestoreFailure) -> Restoration {
    if r.attempt + 1 < RESTORE_ATTEMPTS {
        Restoration { phase: Phase::Pause, failure: Some(f), ..r }
    } else {
        Restoration { phase: Phase::Done, failure: Some(f), ..r }
    }
}

/// The restoration after `e`.
pub open spec fn restore_after(r: Restoration, e: RestoreEvent) -> Restoration {
    match (r.phase, e) {
        (Phase::Check, RestoreEvent::Value(v)) => if v != r.temporary {
            Restoration { phase: Phase::Done, failure: None, ..r }
        } else {
            Restoration { phase: Phase::Write, ..r }
        },
        (Phase::Check, RestoreEvent::ReadFailed) => after_failure(r, RestoreFailure::Read),
        (Phase::Write, RestoreEvent::Written) => Restoration { phase: Phase::Verify, ..r },
        (Phase::Write, RestoreEvent::WriteFailed) => after_failure(r, RestoreFailure::Write),
        (Phase::Verify, RestoreEvent::Value(v)) => if v == r.temporary && r.previous
            != r.temporary {
            after_failure(r, RestoreFailure::StillTemporary)
        } else {
            Restoration { phase: Phase::Done, failure: None, ..r }
        },
        (Phase::Verify, RestoreEvent::ReadFailed) => after_failure(r, RestoreFailure::Read),
        (Phase::Pause, RestoreEvent::Paused) => Restoration {
            phase: Phase::Check,
            attempt: (r.attempt + 1) as usize,
            ..r
        },
        _ => r,
    }
}

impl Restoration {
    /// The attempts stay within their budget.
    pub open spec fn wf(self) -> bool {
        &&& self.attempt < RESTORE_ATTEMPTS
        &&& self.phase == Phase::Pause ==> self.attempt + 1 < RESTORE_ATTEMPTS
    }

    /// Start putting `previous` back in place of `temporary`.
    pub fn new(previous: u32, temporary: u32) -> (r: Restoration)
        ensures
            r.wf(),
            r.previous == previous,
            r.temporary == temporary,
            r.attempt == 0,
            r.phase == Phase::Check,
    {
        Restoration {
            previous,
            temporary,
            attempt: 0,
            phase: Phase::Check,
            failure: None,
        }
    }

    /// The step to perform now.
    pub fn step(&self) -> (s: RestoreStep)
        ensures
            s == restore_step(*self),
    {
        match self.phase {
            Phase::Check => RestoreStep::Read,
            Phase::Write => RestoreStep::Write(self.previous),
            Phase::Verify => RestoreStep::Read,
            Phase::Pause => RestoreStep::Pause(RESTORE_PAUSE_MS),
            Phase::Done => match self.failure {
                None => RestoreStep::Restored,
                Some(f) => RestoreStep::Failed(f),
            },
        }
    }

    fn fail(&mut self, f: RestoreFailure)
        requires
            old(self).wf(),
        ensures
            *final(self) == after_failure(*old(self), f),
    {
        self.failure = Some(f);
        if self.attempt + 1 < RESTORE_ATTEMPTS {
            self.phase = Phase::Pause;
        } else {
            self.phase = Phase::Done;
        }
    }

    /// Take what came of the step. An event that does not answer the
    /// pending step changes nothing.
    ///
    /// Only a read that still shows the temporary value leads to a write,
    /// and the write puts back the previous value; success is only ever
    /// concluded from a read; and every answer moves restoring forward, so
    /// it ends within `5 * RESTORE_ATTEMPTS` answers.
    pub fn advance(&mut self, e: RestoreEvent)
        requires
            old(self).wf(),
        ensures
            final(self).wf(),
            *final(self) == restore_after(*old(self), e),
            final(self).phase == Phase::Write ==> restore_step(*final(self)) == RestoreStep::Write(
                old(self).previous,
            ) && (old(self).phase == Phase::Write || (old(self).phase == Phase::Check && e
                == RestoreEvent::Value(old(self).temporary))),
            final(self).phase == Phase::Done && final(self).failure is None && old(self).phase
                != Phase::Done ==> e is Value,
            answers(old(self).phase, e) ==> progress(*final(self)) > progress(*old(self)),
            progress(*final(self)) <= 5 * RESTORE_ATTEMPTS,
    {
        match (self.phase, e) {
            (Phase::Check, RestoreEvent::Value(v)) => {
                if v != self.temporary {
                    self.phase = Phase::Done;
                    self.failure = None;
                } else {
                    self.phase = Phase::Write;
                }
            },
            (Phase::Check, RestoreEvent::ReadFailed) => self.fail(RestoreFailure::Read),
            (Phase::Write, RestoreEvent::Written) => {
                self.phase = Phase::Verify;
            },
            (Phase::Write, RestoreEvent::WriteFailed) => self.fail(RestoreFailure::Write),
            (Phase::Verify, RestoreEvent::Value(v)) => {
                if v == self.temporary && self.previous != self.temporary {
                    self.fail(RestoreFailure::StillTemporary);
                } else {
                    self.phase = Phase::Done;
                    self.failure = None;
                }
            },
            (Phase::Verify, RestoreEvent::ReadFailed) => self.fail(RestoreFailure::Read),
            (Phase::Pause, RestoreEvent::Paused) => {
                self.phase = Phase::Check;
                self.attempt = self.attempt + 1;
            },
            _ => {},
        }
    }
}

// ── A whole restoration ──────────────────────────────────────────────

/// The steps a restoration performs, each with what came of it, when the
/// outcomes come from `events` in order; it stops when it is over, when the
/// events run out, or at an event that does not answer its step.
pub open spec fn restore_run(r: Restoration, events: Seq<RestoreEvent>) -> Seq<
    (RestoreStep, RestoreEvent),
>
    decreases events.len(),
{
    if r.phase == Phase::Done || events.len() == 0 || !answers(r.phase, events[0]) {
        Seq::empty()
    } else {
        seq![(restore_step(r), events[0])] + restore_run(restore_after(r, events[0]), events.drop_first())
    }
}

/// How many steps of a run are reads.
pub open spec fn reads_in(t: Seq<(RestoreStep, RestoreEvent)>) -> nat
    decreases t.len(),
{
    if t.len() == 0 {
        0
    } else {
        (if t[0].0 is Read { 1nat } else { 0 }) + reads_in(t.drop_first())
    }
}

/// How many steps of a run are writes.
pub open spec fn writes_in(t: Seq<(RestoreStep, RestoreEvent)>) -> nat
    decreases t.len(),
{
    if t.len() == 0 {
        0
    } else {
        (if t[0].0 is Write { 1nat } else { 0 }) + writes_in(t.drop_first())
    }
}

/// How many steps of a run are pauses.
pub open spec fn pauses_in(t: Seq<(RestoreStep, RestoreEvent)>) -> nat
    decreases t.len(),
{
    if t.len() == 0 {
        0
    } else {
        (if t[0].0 is Pause { 1nat } else { 0 }) + pauses_in(t.drop_first())
    }
}

/// The attempts left after the one under way.
pub open spec fn attempts_after(r: Restoration) -> int {
    RESTORE_ATTEMPTS - 1 - r.attempt
}

pub open spec fn reads_left(r: Restoration) -> int {
    if r.phase == Phase::Done {
        0
    } else {
        2 * attempts_after(r) + match r.phase {
            Phase::Check => 2int,
            Phase::Write => 1,
            Phase::Verify => 1,
            _ => 0,
        }
    }
}

pub open spec fn writes_left(r: Restoration) -> int {
    if r.phase == Phase::Done {
        0
    } else {
        attempts_after(r) + match r.phase {
            Phase::Check => 1int,
            Phase::Write => 1,
            _ => 0,
        }
    }
}

pub open spec fn pauses_left(r: Restoration) -> int {
    if r.phase == Phase::Done {
        0
    } else {
        attempts_after(r)
    }
}

/// Every write puts back `previous` and directly follows a read that gave
/// the temporary value; every pause lasts `RESTORE_PAUSE_MS`; a read that
/// gives any other value is the last step.
pub open spec fn run_is_careful(r: Restoration, t: Seq<(RestoreStep, RestoreEvent)>) -> bool {
    forall|i: int|
        0 <= i < t.len() ==> {
            &&& (#[trigger] t[i]).0 is Write ==> t[i].0 == RestoreStep::Write(r.previous) && i > 0
                && t[i - 1] == (RestoreStep::Read, RestoreEvent::Value(r.temporary))
            &&& t[i].0 is Pause ==> t[i].0 == RestoreStep::Pause(RESTORE_PAUSE_MS)
            &&& (t[i].1 matches RestoreEvent::Value(x) && x != r.temporary) ==> i + 1 == t.len()
        }
}

proof fn lemma_restore_run(r: Restoration, events: Seq<RestoreEvent>)
    requires
        r.wf(),
    ensures
        ({
            let t = restore_run(r, events);
            &&& reads_in(t) <= reads_left(r)
            &&& writes_in(t) <= writes_left(r)
            &&& pauses_in(t) <= pauses_left(r)
            &&& forall|i: int|
                0 <= i < t.len() ==> {
                    &&& (#[trigger] t[i]).0 is Write ==> t[i].0 == RestoreStep::Write(r.previous)
                        && (i > 0 ==> t[i - 1] == (RestoreStep::Read, RestoreEvent::Value(r.temporary)))
                        && (i == 0 ==> r.phase == Phase::Write)
                    &&& t[i].0 is Pause ==> t[i].0 == RestoreStep::Pause(RESTORE_PAUSE_MS)
                    &&& (t[i].1 matches RestoreEvent::Value(x) && x != r.temporary) ==> i + 1
                        == t.len()
                }
        }),
    decreases events.len(),
{
    let t = restore_run(r, events);
    if r.phase == Phase::Done || events.len() == 0 || !answers(r.phase, events[0]) {
        assert(t.len() == 0);
    } else {
        let e = events[0];
        let n = restore_after(r, e);
        assert(n.wf());
        let sub = restore_run(n, events.drop_first());
        lemma_restore_run(n, events.drop_first());
        assert(t == seq![(restore_step(r), e)] + sub);
        assert(t.drop_first() =~= sub);
        assert forall|i: int| 0 <= i < t.len() implies {
            &&& (#[trigger] t[i]).0 is Write ==> t[i].0 == RestoreStep::Write(r.previous)
                && (i > 0 ==> t[i - 1] == (RestoreStep::Read, RestoreEvent::Value(r.temporary)))
                && (i == 0 ==> r.phase == Phase::Write)
            &&& t[i].0 is Pause ==> t[i].0 == RestoreStep::Pause(RESTORE_PAUSE_MS)
            &&& (t[i].1 matches RestoreEvent::Value(x) && x != r.temporary) ==> i + 1 == t.len()
        } by {
            if i > 0 {
                assert(t[i] == sub[i - 1]);
                if i == 1 && sub[0].0 is Write {
                    assert(n.phase == Phase::Write);
                    assert(t[0] == (restore_step(r), e));
                }
            } else {
                if e matches RestoreEvent::Value(x) && x != r.temporary {
                    assert(n.phase == Phase::Done);
                    assert(sub.len() == 0);
                }
            }
        }
    }
}

/// A whole restoration is bounded and careful: at most six reads, three
/// writes and two pauses, whatever the reads and writes answer; every write
/// puts the previous value back and comes right after a read that still
/// showed the temporary one; every pause is `RESTORE_PAUSE_MS` long; and a
/// read showing another application's value ends it with no further step.
pub proof fn a_restoration_is_bounded_and_careful(previous: u32, temporary: u32, events: Seq<RestoreEvent>)
    ensures
        ({
            let r = Restoration { previous, temporary, attempt: 0, phase: Phase::Check, failure: None };
            let t = restore_run(r, events);
            &&& reads_in(t) <= 2 * RESTORE_ATTEMPTS
            &&& writes_in(t) <= RESTORE_ATTEMPTS
            &&& pauses_in(t) <= RESTORE_ATTEMPTS - 1
            &&& run_is_careful(r, t)
        }),
{
    let r = Restoration { previous, temporary, attempt: 0, phase: Phase::Check, failure: None };
    lemma_restore_run(r, events);
    let t = restore_run(r, events);
    assert forall|i: int| 0 <= i < t.len() implies {
        &&& (#[trigger] t[i]).0 is Write ==> t[i].0 == RestoreStep::Write(r.previous) && i > 0
            && t[i - 1] == (RestoreStep::Read, RestoreEvent::Value(r.temporary))
        &&& t[i].0 is Pause ==> t[i].0 == RestoreStep::Pause(RESTORE_PAUSE_MS)
        &&& (t[i].1 matches RestoreEvent::Value(x) && x != r.temporary) ==> i + 1 == t.len()
    } by {}
}

/// Where a restoration stands after [`restore_run`] with the same events.
pub open spec fn restore_final(r: Restoration, events: Seq<RestoreEvent>) -> Restoration
    decreases events.len(),
{
    if r.phase == Phase::Done || events.len() == 0 || !answers(r.phase, events[0]) {
        r
    } else {
        restore_final(restore_after(r, events[0]), events.drop_first())
    }
}

proof fn lemma_foreign_value_restores(r: Restoration, events: Seq<RestoreEvent>)
    requires
        r.wf(),
    ensures
        ({
            let t = restore_run(r, events);
            t.len() > 0 && (t.last().1 matches RestoreEvent::Value(x) && x != r.temporary)
                ==> restore_step(restore_final(r, events)) == RestoreStep::Restored
        }),
    decreases events.len(),
{
    if !(r.phase == Phase::Done || events.len() == 0 || !answers(r.phase, events[0])) {
        let n = restore_after(r, events[0]);
        lemma_foreign_value_restores(n, events.drop_first());
        let t = restore_run(r, events);
        let sub = restore_run(n, events.drop_first());
        assert(t == seq![(restore_step(r), events[0])] + sub);
        if sub.len() == 0 {
            if events[0] matches RestoreEvent::Value(x) && x != r.temporary {
                assert(n.phase == Phase::Done && n.failure is None);
                assert(restore_final(n, events.drop_first()) == n);
            }
        } else {
            assert(t.last() == sub.last());
        }
    }
}

/// A read that shows another application's value ends the restoration,
/// and it ends as restored: the other value is left alone.
pub proof fn a_foreign_value_ends_as_restored(previous: u32, temporary: u32, events: Seq<RestoreEvent>)
    ensures
        ({
            let r = Restoration { previous, temporary, attempt: 0, phase: Phase::Check, failure: None };
            let t = restore_run(r, events);
            forall|i: int|
                0 <= i < t.len() && (#[trigger] t[i].1 matches RestoreEvent::Value(x) && x
                    != temporary) ==> i + 1 == t.len() && restore_step(restore_final(r, events))
                    == RestoreStep::Restored
        }),
{
    let r = Restoration { previous, temporary, attempt: 0, phase: Phase::Check, failure: None };
    lemma_restore_run(r, events);
    lemma_foreign_value_restores(r, events);
}

/// When every read fails, the restoration reads three times, pausing
/// between attempts, never writes, and ends failed on the read.
pub proof fn failing_reads_end_in_error_after_three(previous: u32, temporary: u32)
    ensures
        ({
            let r = Restoration { previous, temporary, attempt: 0, phase: Phase::Check, failure: None };
            let events = seq![
                RestoreEvent::ReadFailed,
                RestoreEvent::Paused,
                RestoreEvent::ReadFailed,
                RestoreEvent::Paused,
                RestoreEvent::ReadFailed,
            ];
            let t = restore_run(r, events);
            &&& reads_in(t) == 3
            &&& writes_in(t) == 0
            &&& pauses_in(t) == 2
            &&& restore_step(restore_final(r, events)) == RestoreStep::Failed(RestoreFailure::Read)
        }),
{
    reveal_with_fuel(restore_run, 6);
    reveal_with_fuel(restore_final, 6);
    reveal_with_fuel(reads_in, 6);
    reveal_with_fuel(writes_in, 6);
    reveal_with_fuel(pauses_in, 6);
    let r = Restoration { previous, temporary, attempt: 0, phase: Phase::Check, failure: None };
    let events = seq![
        RestoreEvent::ReadFailed,
        RestoreEvent::Paused,
        RestoreEvent::ReadFailed,
        RestoreEvent::Paused,
        RestoreEvent::ReadFailed,
    ];
    let t = restore_run(r, events);
    assert(t =~= seq![
        (RestoreStep::Read, RestoreEvent::ReadFailed),
        (RestoreStep::Pause(RESTORE_PAUSE_MS), RestoreEvent::Paused),
        (RestoreStep::Read, RestoreEvent::ReadFailed),
        (RestoreStep::Pause(RESTORE_PAUSE_MS), RestoreEvent::Paused),
        (RestoreStep::Read, RestoreEvent::ReadFailed),
    ]);
}

/// When the first write fails and the second holds (the reads showing the
/// temporary value until then, and the previous one after), the
/// restoration writes twice and ends restored.
pub proof fn a_failed_write_is_retried_once_and_restores(previous: u32, temporary: u32)
    requires
        previous != temporary,
    ensures
        ({
            let r = Restoration { previous, temporary, attempt: 0, phase: Phase::Check, failure: None };
            let events = seq![
                RestoreEvent::Value(temporary),
                RestoreEvent::WriteFailed,
                RestoreEvent::Paused,
                RestoreEvent::Value(temporary),
                RestoreEvent::Written,
                RestoreEvent::Value(previous),
            ];
            let t = restore_run(r, events);
            &&& reads_in(t) == 3
            &&& writes_in(t) == 2
            &&& pauses_in(t) == 1
            &&& t[1].0 == RestoreStep::Write(previous) && t[4].0 == RestoreStep::Write(previous)
            &&& restore_step(restore_final(r, events)) == RestoreStep::Restored
        }),
{
    reveal_with_fuel(restore_run, 7);
    reveal_with_fuel(restore_final, 7);
    reveal_with_fuel(reads_in, 7);
    reveal_with_fuel(writes_in, 7);
    reveal_with_fuel(pauses_in, 7);
    let r = Restoration { previous, temporary, attempt: 0, phase: Phase::Check, failure: None };
    let events = seq![
        RestoreEvent::Value(temporary),
        RestoreEvent::WriteFailed,
        RestoreEvent::Paused,
        RestoreEvent::Value(temporary),
        RestoreEvent::Written,
        RestoreEvent::Value(previous),
    ];
    let t = restore_run(r, events);
    assert(t =~= seq![
        (RestoreStep::Read, RestoreEvent::Value(temporary)),
        (RestoreStep::Write(previous), RestoreEvent::WriteFailed),
        (RestoreStep::Pause(RESTORE_PAUSE_MS), RestoreEvent::Paused),
        (RestoreStep::Read, RestoreEvent::Value(temporary)),
        (RestoreStep::Write(previous), RestoreEvent::Written),
        (RestoreStep::Read, RestoreEvent::Value(previous)),
    ]);
}

// ── The forced quantum in a graph listing ────────────────────────────

/// A metadata value as `pw-dump` lists it.
#[derive(Debug, Clone)]
pub enum MetaValue {
    /// A non-negative integer.
    Unsigned(u64),
    Text(String),
    /// Anything else.
    Other,
}

/// One entry of a metadata object; `key` is there when it is a string.
#[derive(Debug, Clone)]
pub struct MetadataEntry {
    pub key: Option<String>,
    pub value: MetaValue,
}

/// An object of a `pw-dump` listing, reduced to what finding the forced
/// quantum reads: its `type`, the `metadata.name` of its `props` and of its
/// `info.props` when those are strings, and its `metadata` when that is an
/// array.
#[derive(Debug, Clone)]
pub struct MetadataObject {
    pub kind: String,
    pub props_name: Option<String>,
    pub info_props_name: Option<String>,
    pub entries: Option<Vec<MetadataEntry>>,
}

/// An optional text is `lit`.
pub open spec fn opt_is(o: Option<String>, lit: Seq<char>) -> bool {
    match o {
        Some(s) => s@ == lit,
        None => false,
    }
}

/// The `settings` metadata object.
pub open spec fn is_settings_metadata(o: MetadataObject) -> bool {
    o.kind@ == "PipeWire:Interface:Metadata"@ && (opt_is(o.props_name, "settings"@) || opt_is(
        o.info_props_name,
        "settings"@,
    ))
}

/// The first object of `g` at or after `i` that is the settings metadata.
pub open spec fn first_settings(g: Seq<MetadataObject>, i: int) -> Option<int>
    decreases g.len() - i,
{
    if i < 0 || i >= g.len() {
        None
    } else if is_settings_metadata(g[i]) {
        Some(i)
    } else {
        first_settings(g, i + 1)
    }
}

/// The first entry of `es` at or after `i` keyed `clock.force-quantum`.
pub open spec fn first_quantum_entry(es: Seq<MetadataEntry>, i: int) -> Option<int>
    decreases es.len() - i,
{
    if i < 0 || i >= es.len() {
        None
    } else if opt_is(es[i].key, "clock.force-quantum"@) {
        Some(i)
    } else {
        first_quantum_entry(es, i + 1)
    }
}

/// A metadata value as a quantum: an integer that fits, or text that
/// reads as one.
pub open spec fn value_quantum(v: MetaValue) -> Option<u32> {
    match v {
        MetaValue::Unsigned(n) => if n <= u32::MAX {
            Some(n as u32)
        } else {
            None
        },
        MetaValue::Text(s) => parse_u32(s@),
        MetaValue::Other => None,
    }
}

/// The forced quantum a graph listing shows: `None` without the settings
/// metadata (or with one whose entries are not a list), 0 when nothing
/// forces it (the override is released, not guessed), else its value.
pub open spec fn quantum_spec(g: Seq<MetadataObject>) -> Option<u32> {
    match first_settings(g, 0) {
        None => None,
        Some(i) => match g[i].entries {
            None => None,
            Some(es) => match first_quantum_entry(es@, 0) {
                None => Some(0),
                Some(k) => value_quantum(es@[k].value),
            },
        },
    }
}

fn opt_is_v(o: &Option<String>, lit: &str) -> (r: bool)
    ensures
        r == opt_is(*o, lit@),
{
    match o {
        Some(s) => eq_v(&to_chars(s.as_str()), &to_chars(lit)),
        None => false,
    }
}

fn value_quantum_v(v: &MetaValue) -> (r: Option<u32>)
    ensures
        r == value_quantum(*v),
{
    match v {
        MetaValue::Unsigned(n) => if *n <= u32::MAX as u64 {
            Some(*n as u32)
        } else {
            None
        },
        MetaValue::Text(s) => parse_u32_v(&to_chars(s.as_str())),
        MetaValue::Other => None,
    }
}

fn quantum_of_entries(es: &Vec<MetadataEntry>) -> (r: Option<u32>)
    ensures
        r == (match first_quantum_entry(es@, 0) {
            None => Some(0),
            Some(k) => value_quantum(es@[k].value),
        }),
{
    let mut k: usize = 0;
    while k < es.len()
        invariant
            k <= es.len(),
            first_quantum_entry(es@, 0) == first_quantum_entry(es@, k as int),
        decreases es.len() - k,
    {
        if opt_is_v(&es[k].key, "clock.force-quantum") {
            return value_quantum_v(&es[k].value);
        }
        k = k + 1;
    }
    Some(0)
}

/// The forced quantum of a graph listing.
pub fn quantum_from_graph(graph: &Vec<MetadataObject>) -> (r: Option<u32>)
    ensures
        r == quantum_spec(graph@),
{
    let mut i: usize = 0;
    while i < graph.len()
        invariant
            i <= graph.len(),
            first_settings(graph@, 0) == first_settings(graph@, i as int),
        decreases graph.len() - i,
    {
        let o = &graph[i];
        if eq_v(&to_chars(o.kind.as_str()), &to_chars("PipeWire:Interface:Metadata")) && (opt_is_v(
            &o.props_name,
            "settings",
        ) || opt_is_v(&o.info_props_name, "settings")) {
            assert(is_settings_metadata(graph@[i as int]));
            assert(first_settings(graph@, i as int) == Some(i as int));
            match &o.entries {
                None => {
                    return None;
                },
                Some(es) => {
                    return quantum_of_entries(es);
                },
            }
        }
        i = i + 1;
    }
    None
}

} // verus!
