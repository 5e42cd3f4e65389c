use vstd::prelude::*;

use crate::failure::{ExceptionInfo, FailureRecord};
use crate::message::MessagePart;
use crate::text::{contains_seq, contains_text};
use crate::time::{current_time, Timestamp};

verus! {

/// The semantic kind of a failure.
#[derive(Clone, Copy, Debug, PartialEq, Eq, Structural)]
pub enum ErrorKind {
    /// A failure that task logic raised on purpose.
    Expected,
    /// A defect that task logic did not anticipate.
    Unexpected,
    /// Anything else: every foreign failure, time limits, platform faults.
    Other,
}

/// A traceback marker and the kind that a foreign failure showing it has.
#[derive(Debug)]
pub struct MarkerRule {
    pub marker: String,
    pub kind: ErrorKind,
}

/// The table that failure records are classified by.
#[derive(Debug)]
pub struct Classifier {
    /// The module that native producers write into their failures.
    pub native_module: String,
    /// The exception type of a native expected failure.
    pub expected_type: String,
    /// The exception type of a native unexpected failure.
    pub unexpected_type: String,
    /// Exception types that report an exceeded execution time limit.
    pub time_limit_types: Vec<String>,
    /// Traceback markers of foreign producers, tried in order.
    pub markers: Vec<MarkerRule>,
}

/// How a caller reports a classified failure.
#[derive(Clone, Copy, Debug, PartialEq, Eq, Structural)]
pub enum FaultReport {
    /// A native failure, with the kind its producer tagged.
    Native(ErrorKind),
    /// A foreign failure whose traceback shows a known marker.
    Marked(ErrorKind),
    /// A failure that an execution time limit caused.
    TimeLimit,
    /// A failure that no rule recognises.
    Unrecognized,
}

impl Classifier {
    /// The two native type names differ, so a native tag is unambiguous.
    pub open spec fn wf(&self) -> bool {
        self.expected_type@ != self.unexpected_type@
    }

    /// The kind of `r` under this table.
    pub open spec fn kind_of(&self, r: FailureRecord) -> ErrorKind {
        if r.result.exc_module@ != self.native_module@ {
            ErrorKind::Other
        } else if r.result.exc_type@ == self.expected_type@ {
            ErrorKind::Expected
        } else if r.result.exc_type@ == self.unexpected_type@ {
            ErrorKind::Unexpected
        } else {
            ErrorKind::Other
        }
    }

    /// `ty` names a time-limit fault.
    pub open spec fn is_time_limit(&self, ty: Seq<char>) -> bool {
        exists|i: int| 0 <= i < self.time_limit_types@.len() && #[trigger] self.time_limit_types@[i]@ == ty
    }

    /// The report for `r` under this table.
    pub open spec fn report_of(&self, r: FailureRecord) -> FaultReport {
        let kind = self.kind_of(r);
        if kind != ErrorKind::Other {
            FaultReport::Native(kind)
        } else if self.is_time_limit(r.result.exc_type@) {
            FaultReport::TimeLimit
        } else {
            match r.result.exc_traceback {
                Some(tb) => match marked_kind(self.markers@, tb@) {
                    Some(k) => FaultReport::Marked(k),
                    None => FaultReport::Unrecognized,
                },
                None => FaultReport::Unrecognized,
            }
        }
    }
}

/// Some rule of `rules` with kind `kind` has its marker in `tb`.
pub open spec fn marked_as(rules: Seq<MarkerRule>, tb: Seq<char>, kind: ErrorKind) -> bool {
    exists|i: int| 0 <= i < rules.len() && #[trigger] rules[i].kind == kind && contains_seq(tb, rules[i].marker@)
}

/// `r` is a failure of `kind`: tagged so by a native producer, or a foreign
/// failure whose exception traceback shows a marker of that kind.
pub open spec fn raised_as(c: Classifier, r: FailureRecord, kind: ErrorKind) -> bool {
    c.kind_of(r) == kind || (c.kind_of(r) == ErrorKind::Other && match r.result.exc_traceback {
        Some(tb) => marked_as(c.markers@, tb@, kind),
        None => false,
    })
}

/// The kind of the first rule whose marker occurs in `tb`.
pub open spec fn marked_kind(rules: Seq<MarkerRule>, tb: Seq<char>) -> Option<ErrorKind>
    decreases rules.len(),
{
    if rules.len() == 0 {
        None
    } else if contains_seq(tb, rules[0].marker@) {
        Some(rules[0].kind)
    } else {
        marked_kind(rules.drop_first(), tb)
    }
}

/// The record that a native producer writes for a failure of `kind`.
pub open spec fn native_record_spec(
    c: Classifier,
    r: FailureRecord,
    task_id: Seq<char>,
    kind: ErrorKind,
    message: Seq<char>,
    at: Timestamp,
) -> bool {
    &&& r.task_id@ == task_id
    &&& r.status@ == "FAILURE"@
    &&& r.result.exc_type@ == (if kind == ErrorKind::Expected {
        c.expected_type@
    } else {
        c.unexpected_type@
    })
    &&& r.result.exc_module@ == c.native_module@
    &&& r.result.exc_message matches MessagePart::Text(m) && m@ == message
    &&& r.result.exc_cause is None
    &&& r.result.exc_traceback is None
    &&& r.traceback is None
    &&& r.date_done == Some(at)
}

proof fn lemma_marked_kind_skip(rules: Seq<MarkerRule>, tb: Seq<char>, i: int)
    requires
        0 <= i < rules.len(),
        !contains_seq(tb, rules[i].marker@),
    ensures
        marked_kind(rules.subrange(i, rules.len() as int), tb) == marked_kind(
            rules.subrange(i + 1, rules.len() as int),
            tb,
        ),
{
    let tail = rules.subrange(i, rules.len() as int);
    assert(tail.drop_first() =~= rules.subrange(i + 1, rules.len() as int));
}

/// Whether some rule of `rules` with kind `kind` has its marker in `tb`.
pub fn has_marker_of(rules: &Vec<MarkerRule>, tb: &str, kind: ErrorKind) -> (b: bool)
    ensures
        b == marked_as(rules@, tb@, kind),
{
    let mut i: usize = 0;
    while i < rules.len()
        invariant
            i <= rules@.len(),
            forall|j: int|
                0 <= j < i ==> !(#[trigger] rules@[j].kind == kind && contains_seq(tb@, rules@[j].marker@)),
        decreases rules@.len() - i,
    {
        let rule = &rules[i];
        if rule.kind == kind && contains_text(tb, rule.marker.as_str()) {
            return true;
        }
        i = i + 1;
    }
    false
}

/// The kind of the first rule in `rules` whose marker occurs in `tb`.
pub fn find_marker(rules: &Vec<MarkerRule>, tb: &str) -> (r: Option<ErrorKind>)
    ensures
        r == marked_kind(rules@, tb@),
{
    let mut i: usize = 0;
    proof {
        assert(rules@.subrange(0, rules@.len() as int) =~= rules@);
    }
    while i < rules.len()
        invariant
            i <= rules@.len(),
            marked_kind(rules@, tb@) == marked_kind(rules@.subrange(i as int, rules@.len() as int), tb@),
        decreases rules@.len() - i,
    {
        let rule = &rules[i];
        if contains_text(tb, rule.marker.as_str()) {
            proof {
                let tail = rules@.subrange(i as int, rules@.len() as int);
                assert(tail[0] == rules@[i as int]);
            }
            return Some(rule.kind);
        }
        proof {
            lemma_marked_kind_skip(rules@, tb@, i as int);
        }
        i = i + 1;
    }
    None
}

impl Classifier {
    /// The table for this protocol's producers: native failures carry the
    /// module `rust` and the types `ExpectedError` / `UnexpectedError`;
    /// foreign time limits are `TimeLimitExceeded` and
    /// `SoftTimeLimitExceeded`; foreign tracebacks containing
    /// `Exception: expected` or `Exception: unexpected` mark the two kinds.
    pub fn standard() -> (r: Classifier)
        ensures
            r.wf(),
            r.native_module@ == "rust"@,
            r.expected_type@ == "ExpectedError"@,
            r.unexpected_type@ == "UnexpectedError"@,
            r.time_limit_types@.len() == 2,
            r.time_limit_types@[0]@ == "TimeLimitExceeded"@,
            r.time_limit_types@[1]@ == "SoftTimeLimitExceeded"@,
            r.markers@.len() == 2,
            r.markers@[0].marker@ == "Exception: expected"@,
            r.markers@[0].kind == ErrorKind::Expected,
            r.markers@[1].marker@ == "Exception: unexpected"@,
            r.markers@[1].kind == ErrorKind::Unexpected,
    {
        proof {
            reveal_strlit("ExpectedError");
            reveal_strlit("UnexpectedError");
            assert("ExpectedError"@[0] != "UnexpectedError"@[0]);
        }
        Classifier {
            native_module: String::from_str("rust"),
            expected_type: String::from_str("ExpectedError"),
            unexpected_type: String::from_str("UnexpectedError"),
            time_limit_types: vec![
                String::from_str("TimeLimitExceeded"),
                String::from_str("SoftTimeLimitExceeded"),
            ],
            markers: vec![
                MarkerRule { marker: String::from_str("Exception: expected"), kind: ErrorKind::Expected },
                MarkerRule {
                    marker: String::from_str("Exception: unexpected"),
                    kind: ErrorKind::Unexpected,
                },
            ],
        }
    }

    /// The kind of `r`: native failures by their tag, all others `Other`.
    pub fn classify(&self, r: &FailureRecord) -> (k: ErrorKind)
        ensures
            k == self.kind_of(*r),
    {
        if r.result.exc_module != self.native_module {
            ErrorKind::Other
        } else if r.result.exc_type == self.expected_type {
            ErrorKind::Expected
        } else if r.result.exc_type == self.unexpected_type {
            ErrorKind::Unexpected
        } else {
            ErrorKind::Other
        }
    }

    /// Whether `ty` is one of the time-limit fault names.
    pub fn names_time_limit(&self, ty: &String) -> (b: bool)
        ensures
            b == self.is_time_limit(ty@),
    {
        let mut i: usize = 0;
        while i < self.time_limit_types.len()
            invariant
                i <= self.time_limit_types@.len(),
                forall|j: int| 0 <= j < i ==> self.time_limit_types@[j]@ != ty@,
            decreases self.time_limit_types@.len() - i,
        {
            if self.time_limit_types[i] == *ty {
                return true;
            }
            i = i + 1;
        }
        false
    }

    /// How a caller reports `r`: its native kind; else a time limit; else
    /// the kind of the first foreign marker in its exception traceback.
    pub fn report(&self, r: &FailureRecord) -> (f: FaultReport)
        ensures
            f == self.report_of(*r),
    {
        let kind = self.classify(r);
        if kind != ErrorKind::Other {
            FaultReport::Native(kind)
        } else if self.names_time_limit(&r.result.exc_type) {
            FaultReport::TimeLimit
        } else {
            match &r.result.exc_traceback {
                Some(tb) => match find_marker(&self.markers, tb.as_str()) {
                    Some(k) => FaultReport::Marked(k),
                    None => FaultReport::Unrecognized,
                },
                None => FaultReport::Unrecognized,
            }
        }
    }

    /// Whether `r` is a failure of `kind`; see `raised_as`.
    pub fn is_raised_as(&self, r: &FailureRecord, kind: ErrorKind) -> (b: bool)
        ensures
            b == raised_as(*self, *r, kind),
    {
        let k = self.classify(r);
        if k == kind {
            return true;
        }
        if k != ErrorKind::Other {
            return false;
        }
        match &r.result.exc_traceback {
            Some(tb) => has_marker_of(&self.markers, tb.as_str(), kind),
            None => false,
        }
    }

    /// The record that a native producer writes when task `task_id` fails
    /// with `kind` and `message` at `at`.
    pub fn native_failure(&self, task_id: &str, kind: ErrorKind, message: &str, at: Timestamp) -> (r:
        FailureRecord)
        requires
            kind != ErrorKind::Other,
        ensures
            native_record_spec(*self, r, task_id@, kind, message@, at),
    {
        let exc_type = match kind {
            ErrorKind::Expected => self.expected_type.clone(),
            _ => self.unexpected_type.clone(),
        };
        FailureRecord {
            status: String::from_str("FAILURE"),
            result: ExceptionInfo {
                exc_type,
                exc_module: self.native_module.clone(),
                exc_message: MessagePart::Text(String::from_str(message)),
                exc_cause: None,
                exc_traceback: None,
            },
            traceback: None,
            date_done: Some(at),
            task_id: String::from_str(task_id),
        }
    }
}

impl Classifier {
    /// The record that a native producer writes when task `task_id` fails
    /// with `kind` and `message`, stamped with the current time.
    pub fn native_failure_now(&self, task_id: &str, kind: ErrorKind, message: &str) -> (r: FailureRecord)
        requires
            kind != ErrorKind::Other,
        ensures
            exists|at: Timestamp| native_record_spec(*self, r, task_id@, kind, message@, at) && at.nanos < 1_000_000_000,
    {
        let at = current_time();
        self.native_failure(task_id, kind, message, at)
    }

    /// The record that a native producer writes when task `task_id` overruns
    /// its time limit: the first time-limit name as its type, stamped with
    /// the current time.
    pub fn time_limit_failure_now(&self, task_id: &str, message: &str) -> (r: FailureRecord)
        requires
            self.time_limit_types@.len() > 0,
        ensures
            r.task_id@ == task_id@,
            r.status@ == "FAILURE"@,
            r.result.exc_type@ == self.time_limit_types@[0]@,
            r.result.exc_module@ == self.native_module@,
            r.result.exc_message matches MessagePart::Text(m) && m@ == message@,
            r.result.exc_cause is None,
            r.result.exc_traceback is None,
            r.traceback is None,
            r.date_done matches Some(t) && t.nanos < 1_000_000_000,
    {
        let at = current_time();
        FailureRecord {
            status: String::from_str("FAILURE"),
            result: ExceptionInfo {
                exc_type: self.time_limit_types[0].clone(),
                exc_module: self.native_module.clone(),
                exc_message: MessagePart::Text(String::from_str(message)),
                exc_cause: None,
                exc_traceback: None,
            },
            traceback: None,
            date_done: Some(at),
            task_id: String::from_str(task_id),
        }
    }
}

/// A native failure is classified as the kind its producer tagged.
pub proof fn lemma_native_kind_round_trips(
    c: Classifier,
    r: FailureRecord,
    task_id: Seq<char>,
    kind: ErrorKind,
    message: Seq<char>,
    at: Timestamp,
)
    requires
        c.wf(),
        kind != ErrorKind::Other,
        native_record_spec(c, r, task_id, kind, message, at),
    ensures
        c.kind_of(r) == kind,
        c.report_of(r) == FaultReport::Native(kind),
{
}

/// Classification reads only the exception's type, module and traceback:
/// records that agree on those get the same kind and the same report, so
/// classifying one record again always gives the same answer.
pub proof fn lemma_classification_deterministic(c: Classifier, a: FailureRecord, b: FailureRecord)
    requires
        a.result.exc_type@ == b.result.exc_type@,
        a.result.exc_module@ == b.result.exc_module@,
        a.result.exc_traceback == b.result.exc_traceback,
    ensures
        c.kind_of(a) == c.kind_of(b),
        c.report_of(a) == c.report_of(b),
{
}

} // verus!
