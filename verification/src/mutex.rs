//! A drain behind a lock: one call at a time reaches it.
use crate::drain::Drain;
use crate::errors::Describe;
use crate::kv::OwnedKVList;
use crate::kv::Pairs;
use crate::record::Record;
use std::sync::Mutex;
use std::sync::MutexGuard;
use std::sync::PoisonError;
use vstd::prelude::*;
use vstd::string::*;

verus! {

/// `std::sync::Mutex`, whose inside Verus does not see.
#[verifier::external_type_specification]
#[verifier::external_body]
#[verifier::reject_recursive_types(T)]
pub struct ExMutex<T: ?Sized>(Mutex<T>);

/// `std::sync::MutexGuard`, the proof of holding a lock.
#[verifier::external_type_specification]
#[verifier::external_body]
#[verifier::reject_recursive_types(T)]
pub struct ExMutexGuard<'a, T: ?Sized + 'a>(MutexGuard<'a, T>);

/// `std::sync::PoisonError`, the error of a lock whose holder panicked.
#[verifier::external_type_specification]
#[verifier::external_body]
#[verifier::reject_recursive_types(T)]
pub struct ExPoisonError<T>(PoisonError<T>);

/// Why a call to a drain behind a lock failed.
#[derive(Debug)]
pub enum MutexDrainError<D: Drain> {
    /// The lock could not be had: an earlier holder panicked while holding it.
    /// The drain was not called.
    Mutex,
    /// The lock was had, and the drain returned this error.
    Drain(D::Err),
}

impl<D: Drain> Describe for MutexDrainError<D> where D::Err: Describe {
    /// `MutexError` for a lock that could not be had; otherwise the text of
    /// the drain's own error.
    open spec fn describes(&self, text: Seq<char>) -> bool {
        match self {
            MutexDrainError::Mutex => text == "MutexError"@,
            MutexDrainError::Drain(error) => error.describes(text),
        }
    }

    fn describe(&self) -> (text: String) {
        match self {
            MutexDrainError::Mutex => String::from_str("MutexError"),
            MutexDrainError::Drain(error) => error.describe(),
        }
    }
}

impl<'a, D: Drain> From<PoisonError<MutexGuard<'a, D>>> for MutexDrainError<D> {
    fn from(poisoned: PoisonError<MutexGuard<'a, D>>) -> (error: MutexDrainError<D>) {
        MutexDrainError::Mutex
    }
}

impl<'a, D: Drain> vstd::std_specs::convert::FromSpecImpl<PoisonError<MutexGuard<'a, D>>> for MutexDrainError<D> {
    open spec fn obeys_from_spec() -> bool {
        true
    }

    open spec fn from_spec(poisoned: PoisonError<MutexGuard<'a, D>>) -> MutexDrainError<D> {
        MutexDrainError::Mutex
    }
}

/// `Mutex::lock`: waits until the lock is free and takes it. It returns the
/// guard, or the error of a lock whose earlier holder panicked; nothing is
/// claimed of which. A thread that asks for a lock it already holds may wait
/// for ever.
#[verifier::external_body]
fn acquire<'a, T>(mutex: &'a Mutex<T>) -> (locked: Result<
    MutexGuard<'a, T>,
    PoisonError<MutexGuard<'a, T>>,
>) {
    mutex.lock()
}

/// `MutexGuard::deref`: the value behind the lock, for as long as the guard is
/// borrowed. Nothing is claimed of the value.
#[verifier::external_body]
fn guarded<'a, 'b, T>(guard: &'b MutexGuard<'a, T>) -> (value: &'b T) {
    std::ops::Deref::deref(guard)
}

/// Whether every drain of type `D` accepts the call.
pub open spec fn all_accept<D: Drain>(record: &Record, values: Pairs) -> bool {
    forall|drain: D| #[trigger] drain.accepts(record, values)
}

/// Whether some drain of type `D` can return `res` for the call.
pub open spec fn some_yields<D: Drain>(
    record: &Record,
    values: Pairs,
    res: Result<D::Ok, D::Err>,
) -> bool {
    exists|drain: D| #[trigger] drain.yields(record, values, res)
}

/// What a call returns once the lock was asked for, given how that went.
///
/// With a poisoned lock the result is `Err(MutexDrainError::Mutex)` and no
/// drain is called. With the guard, the drain behind it is called, its success
/// is handed back as it is, and its error in `MutexDrainError::Drain`. So
/// `Mutex` never stands for an error of the drain, nor `Drain` for a lock that
/// could not be had.
pub fn log_locked<'a, D: Drain>(
    locked: Result<MutexGuard<'a, D>, PoisonError<MutexGuard<'a, D>>>,
    record: &Record,
    values: &OwnedKVList,
) -> (res: Result<D::Ok, MutexDrainError<D>>)
    requires
        locked is Ok ==> all_accept::<D>(record, values@),
    ensures
        match res {
            Ok(value) => locked is Ok && some_yields::<D>(record, values@, Ok(value)),
            Err(MutexDrainError::Drain(error)) => locked is Ok && some_yields::<D>(
                record,
                values@,
                Err(error),
            ),
            Err(MutexDrainError::Mutex) => locked is Err,
        },
{
    match locked {
        Err(poisoned) => Err(MutexDrainError::from(poisoned)),
        Ok(guard) => {
            let drain = guarded(&guard);
            let inner = drain.log(record, values);
            assert(drain.yields(record, values@, inner));
            match inner {
                Ok(value) => Ok(value),
                Err(error) => Err(MutexDrainError::Drain(error)),
            }
        },
    }
}

/// What a drain behind a lock can return, given what the drain itself can.
pub open spec fn locked_outcome<D: Drain>(
    record: &Record,
    values: Pairs,
    res: Result<D::Ok, MutexDrainError<D>>,
) -> bool {
    match res {
        Ok(value) => some_yields::<D>(record, values, Ok(value)),
        Err(MutexDrainError::Drain(error)) => some_yields::<D>(record, values, Err(error)),
        Err(MutexDrainError::Mutex) => true,
    }
}

/// The contract of a drain behind a lock, for one call. Verus unfolds it by
/// itself except where the type of the drain holds that of a closure or
/// function; there this lemma says it.
pub proof fn lemma_locked_contract<D: Drain>(
    mutex: &Mutex<D>,
    record: &Record,
    values: Pairs,
    res: Result<D::Ok, MutexDrainError<D>>,
)
    ensures
        mutex.accepts(record, values) == all_accept::<D>(record, values),
        mutex.yields(record, values, res) == locked_outcome::<D>(record, values, res),
{
}

/// A drain behind a lock. A call waits for the lock, hands the record to the
/// drain while holding it, and lets go of it.
///
/// Which drain is behind the lock at the time of a call is not known before
/// the call: `accepts` asks that every drain of the type accepts it, and
/// `yields` says that some drain of the type returned the result.
impl<D: Drain> Drain for Mutex<D> {
    type Ok = D::Ok;

    type Err = MutexDrainError<D>;

    open spec fn accepts(&self, record: &Record, values: Pairs) -> bool {
        all_accept::<D>(record, values)
    }

    open spec fn yields(
        &self,
        record: &Record,
        values: Pairs,
        res: Result<D::Ok, MutexDrainError<D>>,
    ) -> bool {
        locked_outcome::<D>(record, values, res)
    }

    fn log(&self, record: &Record, values: &OwnedKVList) -> (res: Result<
        D::Ok,
        MutexDrainError<D>,
    >) {
        log_locked(acquire(self), record, values)
    }
}

} // verus!
