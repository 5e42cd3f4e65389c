use vstd::prelude::*;

use crate::message::{depth, rendered, MessagePart};
use crate::time::{calendar_text, datetime_text, shows_as_date, Timestamp};

verus! {

/// The exception that a failed task raised, as its producer described it.
#[derive(Debug)]
pub struct ExceptionInfo {
    pub exc_type: String,
    pub exc_module: String,
    pub exc_message: MessagePart,
    pub exc_cause: Option<String>,
    pub exc_traceback: Option<String>,
}

/// What the result store holds for a task that failed.
#[derive(Debug)]
pub struct FailureRecord {
    pub status: String,
    pub result: ExceptionInfo,
    pub traceback: Option<String>,
    pub date_done: Option<Timestamp>,
    pub task_id: String,
}

/// A labelled line for an optional text, or nothing.
pub open spec fn optional_line(label: Seq<char>, t: Option<String>) -> Seq<char> {
    match t {
        Some(s) => label + s@ + seq!['\n'],
        None => Seq::empty(),
    }
}

/// The description of a failure, given the calendar text of its completion
/// time if there is one to show.
pub open spec fn failure_text(r: FailureRecord, time: Option<Seq<char>>) -> Seq<char> {
    "Celery task failed task_id="@ + r.task_id@ + " status="@ + r.status@ + match time {
        Some(t) => " time="@ + t,
        None => Seq::empty(),
    } + seq!['\n'] + r.result.exc_type@ + ": "@ + r.result.exc_module@ + seq!['\n'] + rendered(
        r.result.exc_message,
        0,
    ) + optional_line("exc traceback: "@, r.result.exc_traceback) + optional_line(
        "traceback: "@,
        r.traceback,
    )
}

/// The message of the record nests shallowly enough to be indented in memory.
pub open spec fn renderable(r: FailureRecord) -> bool {
    2 * depth(r.result.exc_message) <= usize::MAX
}

fn append_optional_line(out: &mut String, label: &str, t: &Option<String>)
    ensures
        final(out)@ == old(out)@ + optional_line(label@, *t),
{
    match t {
        Some(s) => {
            out.append(label);
            out.append(s.as_str());
            out.append("\n");
            proof {
                reveal_strlit("\n");
                assert(final(out)@ =~= old(out)@ + optional_line(label@, *t));
            }
        },
        None => {
            assert(final(out)@ =~= old(out)@ + optional_line(label@, *t));
        },
    }
}

impl FailureRecord {
    /// Whether the message nests shallowly enough to be described.
    pub fn is_renderable(&self) -> (b: bool)
        ensures
            b == renderable(*self),
    {
        let half = usize::MAX / 2;
        let b = self.result.exc_message.depth_at_most(half);
        proof {
            let d = depth(self.result.exc_message);
            assert(2 * d <= usize::MAX <==> d <= half) by (nonlinear_arith)
                requires
                    half == usize::MAX / 2,
            ;
        }
        b
    }

    /// The description of this failure with `time` as the calendar text of
    /// its completion: ids and status, exception type and module, the
    /// flattened message, then the tracebacks.
    pub fn describe_with_time(&self, time: &Option<String>) -> (r: String)
        requires
            renderable(*self),
        ensures
            r@ == failure_text(
                *self,
                match time {
                    Some(t) => Some(t@),
                    None => None,
                },
            ),
    {
        let mut out = String::from_str("Celery task failed task_id=");
        out.append(self.task_id.as_str());
        out.append(" status=");
        out.append(self.status.as_str());
        match time {
            Some(t) => {
                out.append(" time=");
                out.append(t.as_str());
            },
            None => {},
        }
        out.append("\n");
        out.append(self.result.exc_type.as_str());
        out.append(": ");
        out.append(self.result.exc_module.as_str());
        out.append("\n");
        self.result.exc_message.render_into(0, &mut out);
        append_optional_line(&mut out, "exc traceback: ", &self.result.exc_traceback);
        append_optional_line(&mut out, "traceback: ", &self.traceback);
        proof {
            reveal_strlit("\n");
            let tt = match time {
                Some(t) => Some(t@),
                None => None,
            };
            assert(out@ =~= failure_text(*self, tt));
        }
        out
    }

    /// The description of this failure; the completion time is shown
    /// whenever it can be written as a calendar date, always for one
    /// between 1970 and the end of 9999.
    pub fn describe(&self) -> (r: String)
        requires
            renderable(*self),
        ensures
            match self.date_done {
                None => r@ == failure_text(*self, None),
                Some(t) => r@ == failure_text(*self, Some(datetime_text(t.secs, t.nanos))) || r@
                    == failure_text(*self, None),
            },
            self.date_done matches Some(t) && t.nanos >= 2_000_000_000 ==> r@ == failure_text(
                *self,
                None,
            ),
            match self.date_done {
                Some(t) => shows_as_date(t.secs, t.nanos) ==> r@ == failure_text(
                    *self,
                    Some(datetime_text(t.secs, t.nanos)),
                ),
                None => true,
            },
    {
        let time = match self.date_done {
            Some(t) => calendar_text(t.secs, t.nanos),
            None => None,
        };
        self.describe_with_time(&time)
    }
}

} // verus!
