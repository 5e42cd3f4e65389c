use vstd::prelude::*;

use crate::classify::{Classifier, ErrorKind};
use crate::envelope::{result_key_of, success_envelope, ResultEnvelope};
use crate::failure::FailureRecord;
use crate::time::Timestamp;

verus! {

/// How long to wait for a result, and whether to delete it once read.
#[derive(Clone, Copy, Debug, PartialEq, Eq, Structural)]
pub struct WaitPolicy {
    /// Delete the stored outcome after a successful read.
    pub cleanup: bool,
    /// The deadline, in milliseconds after waiting began.
    pub wait_ms: u64,
}

impl Default for WaitPolicy {
    /// Clean up after reading, and wait ten seconds.
    fn default() -> (r: WaitPolicy)
        ensures
            r.cleanup,
            r.wait_ms == 10_000,
    {
        WaitPolicy { cleanup: true, wait_ms: 10_000 }
    }
}

/// What one read of a task's key found.
#[derive(Debug)]
pub enum Read<T> {
    /// Nothing is stored yet.
    Absent,
    /// An envelope; only one whose status is success yields its result.
    Envelope(ResultEnvelope<T>),
    /// Not a success envelope, but a failure record.
    Failure(FailureRecord),
    /// The store could not be reached, or neither shape decodes.
    Unavailable(String),
}

/// Why waiting for a result ended without one.
#[derive(Debug)]
pub enum WaitError {
    /// The deadline passed with nothing stored.
    Timeout,
    /// The task failed; the record is kept whole.
    Failed { kind: ErrorKind, record: FailureRecord },
    /// The result store failed.
    Backend(String),
}

/// What the waiting caller does next.
#[derive(Debug)]
pub enum Step<T> {
    /// Read the task's key now.
    Read,
    /// Yield to other work, then check the deadline again.
    Wait,
    /// Delete the task's key, then return the value.
    Delete(T),
    /// Stop with this outcome.
    Done(Result<T, WaitError>),
}

/// What one read of a task's key returned, with both decodings of a stored
/// value attempted.
#[derive(Debug)]
pub enum Fetched<T> {
    /// The key holds nothing.
    Missing,
    /// The key holds a value; each decoding that succeeded, and the error of
    /// the last one that failed.
    Stored { envelope: Option<ResultEnvelope<T>>, failure: Option<FailureRecord>, decode_error: String },
    /// The store failed; a failure record decoded from the key on a second
    /// try, if there was one.
    StoreError { error: String, failure: Option<FailureRecord> },
}

/// The read that `f` amounts to: a stored value is a success envelope only
/// when it decodes as one and its status says so; otherwise a failure record
/// if one decodes; otherwise a store error. A failure record read after a
/// store error takes precedence over that error.
pub open spec fn read_of<T>(f: Fetched<T>) -> Read<T> {
    match f {
        Fetched::Missing => Read::Absent,
        Fetched::Stored { envelope, failure, decode_error } => match envelope {
            Some(e) if e.status@ == "SUCCESS"@ => Read::Envelope(e),
            _ => match failure {
                Some(r) => Read::Failure(r),
                None => Read::Unavailable(decode_error),
            },
        },
        Fetched::StoreError { error, failure } => match failure {
            Some(r) => Read::Failure(r),
            None => Read::Unavailable(error),
        },
    }
}

/// Interprets one read of a task's key; see `read_of`.
pub fn interpret<T>(f: Fetched<T>) -> (r: Read<T>)
    ensures
        r == read_of(f),
        r matches Read::Envelope(e) ==> e.status@ == "SUCCESS"@,
{
    match f {
        Fetched::Missing => Read::Absent,
        Fetched::Stored { envelope, failure, decode_error } => {
            let success = match &envelope {
                Some(e) => e.is_success(),
                None => false,
            };
            if success {
                match envelope {
                    Some(e) => Read::Envelope(e),
                    None => Read::Unavailable(decode_error),
                }
            } else {
                match failure {
                    Some(r) => Read::Failure(r),
                    None => Read::Unavailable(decode_error),
                }
            }
        },
        Fetched::StoreError { error, failure } => match failure {
            Some(r) => Read::Failure(r),
            None => Read::Unavailable(error),
        },
    }
}

/// The step when `elapsed_ms` have passed since waiting began.
pub open spec fn tick_step<T>(p: WaitPolicy, elapsed_ms: u64) -> Step<T> {
    if elapsed_ms < p.wait_ms {
        Step::Read
    } else {
        Step::Done(Err(WaitError::Timeout))
    }
}

/// The step after a read found `r`.
pub open spec fn read_step<T>(c: Classifier, p: WaitPolicy, r: Read<T>) -> Step<T> {
    match r {
        Read::Absent => Step::Wait,
        Read::Envelope(e) => if e.status@ != "SUCCESS"@ {
            Step::Done(Err(WaitError::Backend(e.status)))
        } else if p.cleanup {
            Step::Delete(e.result)
        } else {
            Step::Done(Ok(e.result))
        },
        Read::Failure(f) => Step::Done(Err(WaitError::Failed { kind: c.kind_of(f), record: f })),
        Read::Unavailable(m) => Step::Done(Err(WaitError::Backend(m))),
    }
}

/// The outcome of a wait in which the deadline check at each elapsed time of
/// `trace` that allows a read is followed by a read that finds what `trace`
/// pairs with it; `None` while the wait goes on.
pub open spec fn drive<T>(c: Classifier, p: WaitPolicy, trace: Seq<(u64, Read<T>)>) -> Option<
    Result<T, WaitError>,
>
    decreases trace.len(),
{
    if trace.len() == 0 {
        None
    } else {
        match tick_step::<T>(p, trace[0].0) {
            Step::Done(r) => Some(r),
            _ => match read_step(c, p, trace[0].1) {
                Step::Wait => drive(c, p, trace.drop_first()),
                Step::Delete(v) => Some(Ok(v)),
                Step::Done(r) => Some(r),
                Step::Read => None,
            },
        }
    }
}

/// The step once `elapsed_ms` have passed: read while the deadline lies
/// ahead, else time out.
pub fn on_tick<T>(policy: &WaitPolicy, elapsed_ms: u64) -> (s: Step<T>)
    ensures
        s == tick_step::<T>(*policy, elapsed_ms),
{
    if elapsed_ms < policy.wait_ms {
        Step::Read
    } else {
        Step::Done(Err(WaitError::Timeout))
    }
}

/// The step after a read: wait again if nothing is stored; return the
/// result of a success envelope (deleting it first under cleanup); report a
/// failure with its kind and record; report a store failure, or an
/// envelope whose status is not success, as a store error.
pub fn on_read<T>(classifier: &Classifier, policy: &WaitPolicy, read: Read<T>) -> (s: Step<T>)
    ensures
        s == read_step(*classifier, *policy, read),
        read matches Read::Envelope(e) && e.status@ != "SUCCESS"@ ==> !(s is Delete) && !(s matches Step::Done(
            Ok(_),
        )),
{
    match read {
        Read::Absent => Step::Wait,
        Read::Envelope(e) => if !e.is_success() {
            Step::Done(Err(WaitError::Backend(e.status)))
        } else if policy.cleanup {
            Step::Delete(e.result)
        } else {
            Step::Done(Ok(e.result))
        },
        Read::Failure(f) => {
            let kind = classifier.classify(&f);
            Step::Done(Err(WaitError::Failed { kind, record: f }))
        },
        Read::Unavailable(m) => Step::Done(Err(WaitError::Backend(m))),
    }
}

/// Once the deadline has passed with the key never populated, waiting ends
/// in `Timeout`, and before that it has not ended.
pub proof fn lemma_absent_until_deadline_times_out<T>(
    c: Classifier,
    p: WaitPolicy,
    trace: Seq<(u64, Read<T>)>,
)
    requires
        trace.len() > 0,
        forall|i: int| 0 <= i < trace.len() - 1 ==> #[trigger] trace[i].0 < p.wait_ms,
        forall|i: int| 0 <= i < trace.len() ==> #[trigger] trace[i].1 is Absent,
        trace.last().0 >= p.wait_ms,
    ensures
        drive(c, p, trace) == Some(Err::<T, WaitError>(WaitError::Timeout)),
    decreases trace.len(),
{
    if trace.len() > 1 {
        let rest = trace.drop_first();
        assert(trace[0].0 < p.wait_ms);
        assert(trace[0].1 is Absent);
        assert forall|i: int| 0 <= i < rest.len() - 1 implies #[trigger] rest[i].0 < p.wait_ms by {
            assert(rest[i] == trace[i + 1]);
        }
        assert forall|i: int| 0 <= i < rest.len() implies #[trigger] rest[i].1 is Absent by {
            assert(rest[i] == trace[i + 1]);
        }
        lemma_absent_until_deadline_times_out(c, p, rest);
    }
}

/// While the key is never populated, waiting never yields a result: it
/// goes on, or ends in `Timeout`.
pub proof fn lemma_absent_never_yields_result<T>(c: Classifier, p: WaitPolicy, trace: Seq<(u64, Read<T>)>)
    requires
        forall|i: int| 0 <= i < trace.len() ==> #[trigger] trace[i].1 is Absent,
    ensures
        drive(c, p, trace) is None || drive(c, p, trace) == Some(Err::<T, WaitError>(WaitError::Timeout)),
    decreases trace.len(),
{
    if trace.len() > 0 {
        let rest = trace.drop_first();
        assert(trace[0].1 is Absent);
        assert forall|i: int| 0 <= i < rest.len() implies #[trigger] rest[i].1 is Absent by {
            assert(rest[i] == trace[i + 1]);
        }
        lemma_absent_never_yields_result(c, p, rest);
    }
}

/// A wait that finds, before its deadline, the success envelope that the
/// worker stored for `value` returns exactly `value`; under cleanup its
/// last step deletes the key before returning.
pub proof fn lemma_stored_result_is_returned<T>(
    c: Classifier,
    p: WaitPolicy,
    task_id: Seq<char>,
    value: T,
    at: Timestamp,
    e: ResultEnvelope<T>,
    trace: Seq<(u64, Read<T>)>,
)
    requires
        success_envelope(e, task_id, value, at),
        trace.len() > 0,
        forall|i: int| 0 <= i < trace.len() ==> #[trigger] trace[i].0 < p.wait_ms,
        forall|i: int| 0 <= i < trace.len() - 1 ==> #[trigger] trace[i].1 is Absent,
        trace.last().1 == Read::Envelope(e),
    ensures
        drive(c, p, trace) == Some(Ok::<T, WaitError>(value)),
        read_step(c, p, Read::Envelope(e)) == (if p.cleanup {
            Step::Delete(value)
        } else {
            Step::Done(Ok::<T, WaitError>(value))
        }),
    decreases trace.len(),
{
    if trace.len() > 1 {
        let rest = trace.drop_first();
        assert(trace[0].0 < p.wait_ms);
        assert(trace[0].1 is Absent);
        assert forall|i: int| 0 <= i < rest.len() implies #[trigger] rest[i].0 < p.wait_ms by {
            assert(rest[i] == trace[i + 1]);
        }
        assert forall|i: int| 0 <= i < rest.len() - 1 implies #[trigger] rest[i].1 is Absent by {
            assert(rest[i] == trace[i + 1]);
        }
        lemma_stored_result_is_returned(c, p, task_id, value, at, e, rest);
    } else {
        assert(trace[0].0 < p.wait_ms);
    }
}

/// What the result store holds after the caller carries out step `s` for
/// the task stored under `key`: a `Delete` step removes the key, no other
/// step writes.
pub open spec fn store_after<T, V>(store: Map<Seq<char>, V>, key: Seq<char>, s: Step<T>) -> Map<
    Seq<char>,
    V,
> {
    match s {
        Step::Delete(_) => store.remove(key),
        _ => store,
    }
}

/// What a read of `key` finds in a store that holds `store`.
pub open spec fn read_in<T>(store: Map<Seq<char>, ResultEnvelope<T>>, key: Seq<char>) -> Read<T> {
    if store.contains_key(key) {
        Read::Envelope(store[key])
    } else {
        Read::Absent
    }
}

/// Under cleanup, a wait that reads the success envelope stored for task
/// `task_id` returns its result and deletes the key: the store no longer
/// holds it, so a later wait whose reads go to that store finds nothing, and
/// ends in `Timeout` once its deadline passes, never returning the result
/// again.
pub proof fn lemma_cleanup_leaves_nothing_to_read<T>(
    c: Classifier,
    p: WaitPolicy,
    task_id: Seq<char>,
    value: T,
    at: Timestamp,
    store: Map<Seq<char>, ResultEnvelope<T>>,
    later: Seq<u64>,
)
    requires
        p.cleanup,
        store.contains_key(result_key_of(task_id)),
        success_envelope(store[result_key_of(task_id)], task_id, value, at),
        later.len() > 0,
        forall|i: int| 0 <= i < later.len() - 1 ==> #[trigger] later[i] < p.wait_ms,
        later.last() >= p.wait_ms,
    ensures
        ({
            let key = result_key_of(task_id);
            let s = read_step(c, p, read_in(store, key));
            let after = store_after(store, key, s);
            &&& s == Step::Delete(value)
            &&& !after.contains_key(key)
            &&& drive(c, p, later.map(|_i: int, t: u64| (t, read_in(after, key)))) == Some(
                Err::<T, WaitError>(WaitError::Timeout),
            )
        }),
{
    let key = result_key_of(task_id);
    let s = read_step(c, p, read_in(store, key));
    let after = store_after(store, key, s);
    assert(s == Step::Delete(value));
    assert(!after.contains_key(key));
    let trace = later.map(|_i: int, t: u64| (t, read_in(after, key)));
    assert forall|i: int| 0 <= i < trace.len() - 1 implies #[trigger] trace[i].0 < p.wait_ms by {
        assert(trace[i].0 == later[i]);
    }
    assert forall|i: int| 0 <= i < trace.len() implies #[trigger] trace[i].1 is Absent by {
        assert(trace[i].1 == read_in(after, key));
    }
    assert(trace.last().0 == later.last());
    lemma_absent_until_deadline_times_out(c, p, trace);
}

} // verus!
