//! The contract between a logger and whatever takes its records.
use crate::kv::OwnedKVList;
use crate::kv::Pairs;
use crate::record::Record;
use std::sync::Arc;
use vstd::prelude::*;

verus! {

/// The error of a drain that cannot fail. No value of this type can be built.
#[derive(Clone, Copy, Debug, PartialEq, Eq)]
pub struct Never(core::convert::Infallible);

/// A sink for log records.
///
/// `log` is called once for each logging statement, with the record of that
/// statement and the pairs of the logger that it went through. Whether and how
/// the record is filtered, formatted or handed on is up to the drain; whatever
/// it does, it has done when `log` returns.
///
/// An implementation states what it asks of a call in `accepts` and what a
/// call can return in `yields`. Drains that wrap other drains define both from
/// those of the drains they wrap.
pub trait Drain {
    /// What a successful call returns.
    type Ok;

    /// What a failed call returns.
    type Err;

    /// Whether `log` may be called with this record and these pairs. A drain
    /// that does not say takes every call.
    open spec fn accepts(&self, record: &Record, values: Pairs) -> bool {
        true
    }

    /// Whether `log`, called with this record and these pairs, can return `res`.
    /// A drain that does not say can return anything.
    open spec fn yields(
        &self,
        record: &Record,
        values: Pairs,
        res: Result<Self::Ok, Self::Err>,
    ) -> bool {
        true
    }

    /// Handles one record, together with the pairs of the logger it came through.
    fn log(&self, record: &Record, values: &OwnedKVList) -> (res: Result<Self::Ok, Self::Err>)
        requires
            self.accepts(record, values@),
        ensures
            self.yields(record, values@, res),
    ;
}

/// Whether `drain` can return at all for the call.
pub open spec fn returns_for<D: Drain>(drain: &D, record: &Record, values: Pairs) -> bool {
    exists|res: Result<D::Ok, D::Err>| #[trigger] drain.yields(record, values, res)
}

/// Whether `drain` can succeed on the call.
pub open spec fn can_succeed<D: Drain>(drain: &D, record: &Record, values: Pairs) -> bool {
    exists|value: D::Ok| #[trigger] drain.yields(record, values, Ok(value))
}

/// Whether `drain` can fail on the call.
pub open spec fn can_fail<D: Drain>(drain: &D, record: &Record, values: Pairs) -> bool {
    exists|error: D::Err| #[trigger] drain.yields(record, values, Err(error))
}

/// A boxed drain is the drain in the box.
impl<D: Drain + ?Sized> Drain for Box<D> {
    type Ok = D::Ok;

    type Err = D::Err;

    open spec fn accepts(&self, record: &Record, values: Pairs) -> bool {
        (**self).accepts(record, values)
    }

    open spec fn yields(&self, record: &Record, values: Pairs, res: Result<D::Ok, D::Err>) -> bool {
        (**self).yields(record, values, res)
    }

    fn log(&self, record: &Record, values: &OwnedKVList) -> (res: Result<D::Ok, D::Err>) {
        (**self).log(record, values)
    }
}

/// A shared drain is the drain that is shared.
impl<D: Drain + ?Sized> Drain for Arc<D> {
    type Ok = D::Ok;

    type Err = D::Err;

    open spec fn accepts(&self, record: &Record, values: Pairs) -> bool {
        (**self).accepts(record, values)
    }

    open spec fn yields(&self, record: &Record, values: Pairs, res: Result<D::Ok, D::Err>) -> bool {
        (**self).yields(record, values, res)
    }

    fn log(&self, record: &Record, values: &OwnedKVList) -> (res: Result<D::Ok, D::Err>) {
        (**self).log(record, values)
    }
}

/// A boxed drain takes the calls that the drain in the box takes, and returns
/// what it returns. Verus unfolds this by itself except where the type of the
/// drain holds that of a closure or function; there this lemma says it.
pub proof fn lemma_boxed<D: Drain>(
    boxed: Box<D>,
    record: &Record,
    values: Pairs,
    res: Result<D::Ok, D::Err>,
)
    ensures
        boxed.accepts(record, values) == (*boxed).accepts(record, values),
        boxed.yields(record, values, res) == (*boxed).yields(record, values, res),
{
}

/// A shared drain takes the calls that the drain itself takes, and returns what
/// it returns. Verus unfolds this by itself except where the type of the drain
/// holds that of a closure or function; there this lemma says it.
pub proof fn lemma_shared<D: Drain>(
    shared: Arc<D>,
    record: &Record,
    values: Pairs,
    res: Result<D::Ok, D::Err>,
)
    ensures
        shared.accepts(record, values) == (*shared).accepts(record, values),
        shared.yields(record, values, res) == (*shared).yields(record, values, res),
{
}

/// The drain that drops every record and reports success.
#[derive(Clone, Copy, Debug)]
pub struct Discard;

impl Drain for Discard {
    type Ok = ();

    type Err = Never;

    open spec fn accepts(&self, record: &Record, values: Pairs) -> bool {
        true
    }

    open spec fn yields(&self, record: &Record, values: Pairs, res: Result<(), Never>) -> bool {
        res == Ok::<(), Never>(())
    }

    fn log(&self, record: &Record, values: &OwnedKVList) -> (res: Result<(), Never>) {
        Ok(())
    }
}

} // verus!
