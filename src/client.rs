use vstd::prelude::*;

use crate::classify::{raised_as, Classifier, ErrorKind};
use crate::polling::WaitError;

verus! {

/// The transport that carries task submissions to workers.
#[derive(Clone, Copy, Debug, PartialEq, Eq, Structural)]
pub enum BrokerChoice {
    Redis,
    Amqp,
}

impl BrokerChoice {
    /// The name of the setting that holds the broker's address.
    pub fn address_setting(&self) -> (r: &'static str)
        ensures
            r@ == (match self {
                BrokerChoice::Redis => "REDIS_ADDR"@,
                BrokerChoice::Amqp => "AMQP_ADDR"@,
            }),
    {
        match self {
            BrokerChoice::Redis => "REDIS_ADDR",
            BrokerChoice::Amqp => "AMQP_ADDR",
        }
    }
}

/// The name of the setting that holds the result store's address, whatever
/// the broker.
pub fn backend_address_setting() -> (r: &'static str)
    ensures
        r@ == "REDIS_ADDR"@,
{
    "REDIS_ADDR"
}

/// The demonstration tasks that a client submits.
#[derive(Clone, Copy, Debug, PartialEq, Eq, Structural)]
pub enum ClientTask {
    /// `add(1, 2)`, which succeeds with `3`.
    Add,
    /// A task that fails on purpose.
    ExpectedFailure,
    /// A task that fails by a defect.
    UnexpectedFailure,
    /// A task that overruns its time limit.
    TaskWithTimeout,
}

/// `o` is the outcome that `task` should have, classified by `c`.
pub open spec fn outcome_expected(c: Classifier, task: ClientTask, o: Result<i32, WaitError>) -> bool {
    match task {
        ClientTask::Add => o == Ok::<i32, WaitError>(3),
        ClientTask::ExpectedFailure => match o {
            Err(WaitError::Failed { record, .. }) => raised_as(c, record, ErrorKind::Expected),
            _ => false,
        },
        ClientTask::UnexpectedFailure => match o {
            Err(WaitError::Failed { record, .. }) => raised_as(c, record, ErrorKind::Unexpected),
            _ => false,
        },
        ClientTask::TaskWithTimeout => match o {
            Err(WaitError::Failed { record, .. }) => c.kind_of(record) == ErrorKind::Other
                && c.is_time_limit(record.result.exc_type@),
            _ => false,
        },
    }
}

/// Whether `outcome` is what `task` should end in: the sum for `Add`; for
/// the failing tasks a failure of the kind the task raises, tagged natively
/// or marked in a foreign traceback; for the overrun a failure of kind
/// `Other` whose type names a time limit.
pub fn outcome_as_expected(c: &Classifier, task: ClientTask, outcome: &Result<i32, WaitError>) -> (b:
    bool)
    ensures
        b == outcome_expected(*c, task, *outcome),
{
    match task {
        ClientTask::Add => match outcome {
            Ok(v) => *v == 3,
            Err(_) => false,
        },
        ClientTask::ExpectedFailure => match outcome {
            Err(WaitError::Failed { record, .. }) => c.is_raised_as(record, ErrorKind::Expected),
            _ => false,
        },
        ClientTask::UnexpectedFailure => match outcome {
            Err(WaitError::Failed { record, .. }) => c.is_raised_as(record, ErrorKind::Unexpected),
            _ => false,
        },
        ClientTask::TaskWithTimeout => match outcome {
            Err(WaitError::Failed { record, .. }) => c.classify(record) == ErrorKind::Other
                && c.names_time_limit(&record.result.exc_type),
            _ => false,
        },
    }
}

} // verus!
