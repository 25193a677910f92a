//! Drains that deal with the errors of the drain they wrap.
use crate::drain::Drain;
use crate::drain::Never;
use crate::kv::OwnedKVList;
use crate::kv::Pairs;
use crate::record::Record;
use vstd::prelude::*;
use vstd::string::*;

verus! {

/// An error that can be written out as text.
///
/// Every type that has `Display` has it, with the same text. The error types of
/// this crate have it as well.
pub trait Describe {
    /// Whether `text` can be the text of this error. An implementation that
    /// does not say can return any text.
    open spec fn describes(&self, text: Seq<char>) -> bool {
        true
    }

    /// The error as text.
    fn describe(&self) -> (text: String)
        ensures
            self.describes(text@),
    ;
}

impl<T: core::fmt::Display> Describe for T {
    /// The text that `Display` writes.
    open spec fn describes(&self, text: Seq<char>) -> bool {
        exists|written: String| #[trigger]
            to_string_from_display_ensures(self, written) && written@ == text
    }

    fn describe(&self) -> (text: String) {
        self.to_string()
    }
}

impl Describe for Never {
    /// There is no such error to describe; the text is empty.
    open spec fn describes(&self, text: Seq<char>) -> bool {
        text == Seq::<char>::empty()
    }

    fn describe(&self) -> (text: String) {
        String::new()
    }
}

/// Turns the errors of the wrapped drain into errors of another type.
///
/// A success comes back as it is. An error is handed to the mapping function,
/// and what that returns comes back as the error.
pub struct MapError<D: Drain, F> {
    drain: D,
    map_fn: F,
}

impl<D: Drain, E, F: Fn(D::Err) -> E> MapError<D, F> {
    /// The wrapped drain.
    pub closed spec fn inner(&self) -> D {
        self.drain
    }

    /// The mapping function.
    pub closed spec fn mapping(&self) -> F {
        self.map_fn
    }

    /// When a mapping drain takes a call: the wrapped drain takes it, and the
    /// mapping function takes every error that the wrapped drain can return
    /// for it.
    pub open spec fn admits(&self, record: &Record, values: Pairs) -> bool {
        &&& self.inner().accepts(record, values)
        &&& forall|error: D::Err| #[trigger]
            self.inner().yields(record, values, Err(error)) ==> call_requires(
                self.mapping(),
                (error,),
            )
    }

    /// What a mapping drain can return: a success of the wrapped drain as it
    /// is; as an error, what the mapping function makes of an error of the
    /// wrapped drain.
    pub open spec fn outcome(&self, record: &Record, values: Pairs, res: Result<D::Ok, E>) -> bool {
        match res {
            Ok(value) => self.inner().yields(record, values, Ok(value)),
            Err(mapped) => exists|error: D::Err| #[trigger]
                self.inner().yields(record, values, Err(error)) && call_ensures(
                    self.mapping(),
                    (error,),
                    mapped,
                ),
        }
    }

    /// The drain's contract, for one call: `accepts` is `admits` and `yields`
    /// is `outcome`. Verus unfolds the two by itself except where the type of
    /// the mapping function is that of one closure or function; there this
    /// lemma says it.
    pub proof fn lemma_contract(&self, record: &Record, values: Pairs, res: Result<D::Ok, E>)
        ensures
            self.accepts(record, values) == self.admits(record, values),
            self.yields(record, values, res) == self.outcome(record, values, res),
    {
    }

    /// Wraps `drain`, whose errors from now on go through `map_fn`. The
    /// mapping function must be safe to share between threads.
    pub fn new(drain: D, map_fn: F) -> (mapped: Self) where F: 'static + Sync + Send
        ensures
            mapped.inner() == drain,
            mapped.mapping() == map_fn,
    {
        MapError { drain: drain, map_fn: map_fn }
    }

    /// Successes pass through as they are: the drain can return `Ok(x)` if and
    /// only if the wrapped drain can. Every error that comes back is what the
    /// mapping function made of an error of the wrapped drain.
    pub proof fn lemma_outcomes(&self, record: &Record, values: Pairs)
        ensures
            forall|x: D::Ok| #[trigger]
                self.yields(record, values, Ok(x)) <==> self.inner().yields(
                    record,
                    values,
                    Ok(x),
                ),
            forall|mapped: E| #[trigger]
                self.yields(record, values, Err(mapped)) ==> exists|error: D::Err| #[trigger]
                    self.inner().yields(record, values, Err(error)) && call_ensures(
                        self.mapping(),
                        (error,),
                        mapped,
                    ),
            forall|error: D::Err, mapped: E|
                #![trigger
                    self.inner().yields(record, values, Err(error)),
                    self.yields(record, values, Err(mapped)),
                ]
                self.inner().yields(record, values, Err(error)) && call_ensures(
                    self.mapping(),
                    (error,),
                    mapped,
                ) ==> self.yields(record, values, Err(mapped)),
    {
    }
}

impl<D: Drain, E, F: Fn(D::Err) -> E> Drain for MapError<D, F> {
    type Ok = D::Ok;

    type Err = E;

    open spec fn accepts(&self, record: &Record, values: Pairs) -> bool {
        self.admits(record, values)
    }

    open spec fn yields(&self, record: &Record, values: Pairs, res: Result<D::Ok, E>) -> bool {
        self.outcome(record, values, res)
    }

    fn log(&self, record: &Record, values: &OwnedKVList) -> (res: Result<D::Ok, E>) {
        match self.drain.log(record, values) {
            Ok(value) => Ok(value),
            Err(error) => Err((self.map_fn)(error)),
        }
    }
}

/// Declares that the wrapped drain does not fail.
///
/// A logger needs a drain that cannot return an error. `Fuse` makes one of a
/// drain whose errors can be written out as text. Its `accepts` asks that the
/// wrapped drain returns no error for the call, so verified code cannot run
/// into one. Code outside verification still can: there a call on which the
/// wrapped drain fails does not return, but panics with a message that holds
/// the error's text.
pub struct Fuse<D: Drain> {
    drain: D,
}

impl<D: Drain> Fuse<D> {
    /// The wrapped drain.
    pub closed spec fn inner(&self) -> D {
        self.drain
    }

    /// When a fuse takes a call: the wrapped drain takes it and returns no
    /// error for it.
    pub open spec fn admits(&self, record: &Record, values: Pairs) -> bool {
        &&& self.inner().accepts(record, values)
        &&& !crate::drain::can_fail(&self.inner(), record, values)
    }

    /// What a fuse can return: `Ok(())`, the wrapped drain having succeeded.
    pub open spec fn outcome(
        &self,
        record: &Record,
        values: Pairs,
        res: Result<(), Never>,
    ) -> bool {
        &&& res == Ok::<(), Never>(())
        &&& crate::drain::can_succeed(&self.inner(), record, values)
    }

    /// Wraps `drain`.
    pub fn new(drain: D) -> (fuse: Self)
        ensures
            fuse.inner() == drain,
    {
        Fuse { drain: drain }
    }
}

impl<D: Drain> Fuse<D> where D::Err: Describe {
    /// The fuse's contract as a drain, for one call: `accepts` is `admits` and
    /// `yields` is `outcome`. Verus unfolds the two by itself except where the
    /// type of the wrapped drain holds that of a closure or function; there
    /// this lemma says it.
    pub proof fn lemma_contract(&self, record: &Record, values: Pairs, res: Result<(), Never>)
        ensures
            self.accepts(record, values) == self.admits(record, values),
            self.yields(record, values, res) == self.outcome(record, values, res),
    {
    }

    /// Whenever the wrapped drain succeeds, the call returns `Ok(())`. It
    /// returns nothing else, and never an error: a call on which the wrapped
    /// drain can fail is not accepted.
    pub proof fn lemma_outcomes(&self, record: &Record, values: Pairs)
        ensures
            forall|value: D::Ok| #[trigger]
                self.inner().yields(record, values, Ok(value)) ==> self.yields(
                    record,
                    values,
                    Ok(()),
                ),
            forall|res: Result<(), Never>| #[trigger]
                self.yields(record, values, res) ==> res == Ok::<(), Never>(()),
            self.accepts(record, values) <==> self.inner().accepts(record, values)
                && !crate::drain::can_fail(&self.inner(), record, values),
    {
    }
}

impl<D: Drain> Drain for Fuse<D> where D::Err: Describe {
    type Ok = ();

    type Err = Never;

    open spec fn accepts(&self, record: &Record, values: Pairs) -> bool {
        self.admits(record, values)
    }

    open spec fn yields(&self, record: &Record, values: Pairs, res: Result<(), Never>) -> bool {
        self.outcome(record, values, res)
    }

    fn log(&self, record: &Record, values: &OwnedKVList) -> (res: Result<(), Never>) {
        match self.drain.log(record, values) {
            Ok(_) => Ok(()),
            Err(error) => {
                // `accepts` rules this arm out. Code outside verification that
                // gets here all the same is stopped with the error's text.
                let failure: Result<(), String> = Err(error.describe());
                failure.expect("slog::Fuse Drain");
                Ok(())
            },
        }
    }
}

/// Drops whatever the wrapped drain returns, success or error, and reports
/// success.
pub struct IgnoreResult<D: Drain> {
    drain: D,
}

impl<D: Drain> IgnoreResult<D> {
    /// The wrapped drain.
    pub closed spec fn inner(&self) -> D {
        self.drain
    }

    /// When the drain takes a call: when the wrapped drain does.
    pub open spec fn admits(&self, record: &Record, values: Pairs) -> bool {
        self.inner().accepts(record, values)
    }

    /// What the drain can return: `Ok(())`, the wrapped drain having returned
    /// something.
    pub open spec fn outcome(
        &self,
        record: &Record,
        values: Pairs,
        res: Result<(), Never>,
    ) -> bool {
        &&& res == Ok::<(), Never>(())
        &&& crate::drain::returns_for(&self.inner(), record, values)
    }

    /// The drain's contract, for one call: `accepts` is `admits` and `yields`
    /// is `outcome`. Verus unfolds the two by itself except where the type of
    /// the wrapped drain holds that of a closure or function; there this
    /// lemma says it.
    pub proof fn lemma_contract(&self, record: &Record, values: Pairs, res: Result<(), Never>)
        ensures
            self.accepts(record, values) == self.admits(record, values),
            self.yields(record, values, res) == self.outcome(record, values, res),
    {
    }

    /// Wraps `drain`.
    pub fn new(drain: D) -> (ignoring: Self)
        ensures
            ignoring.inner() == drain,
    {
        IgnoreResult { drain: drain }
    }

    /// Whatever the wrapped drain returns, a success or an error, the call
    /// returns `Ok(())`, and it returns nothing else.
    pub proof fn lemma_outcomes(&self, record: &Record, values: Pairs)
        ensures
            forall|inner: Result<D::Ok, D::Err>| #[trigger]
                self.inner().yields(record, values, inner) ==> self.yields(
                    record,
                    values,
                    Ok(()),
                ),
            forall|res: Result<(), Never>| #[trigger]
                self.yields(record, values, res) ==> res == Ok::<(), Never>(()),
            self.accepts(record, values) <==> self.inner().accepts(record, values),
    {
    }
}

impl<D: Drain> Drain for IgnoreResult<D> {
    type Ok = ();

    type Err = Never;

    open spec fn accepts(&self, record: &Record, values: Pairs) -> bool {
        self.admits(record, values)
    }

    open spec fn yields(&self, record: &Record, values: Pairs, res: Result<(), Never>) -> bool {
        self.outcome(record, values, res)
    }

    fn log(&self, record: &Record, values: &OwnedKVList) -> (res: Result<(), Never>) {
        let _ = self.drain.log(record, values);
        Ok(())
    }
}

/// Short ways to wrap a drain. Every drain has them.
pub trait DrainExt: Sized + Drain {
    /// This drain with its errors turned by `f` into errors of another type.
    fn map_err<F, E>(self, f: F) -> (mapped: MapError<Self, F>) where
        F: 'static + Sync + Send + Fn(<Self as Drain>::Err) -> E,

        ensures
            mapped.inner() == self,
            mapped.mapping() == f,
    {
        MapError::new(self, f)
    }

    /// This drain with whatever it returns dropped.
    fn ignore_res(self) -> (ignoring: IgnoreResult<Self>)
        ensures
            ignoring.inner() == self,
    {
        IgnoreResult::new(self)
    }

    /// This drain with the declaration that it does not fail.
    fn fuse(self) -> (fuse: Fuse<Self>) where <Self as Drain>::Err: Describe
        ensures
            fuse.inner() == self,
    {
        Fuse::new(self)
    }
}

impl<D: Drain> DrainExt for D {
}

} // verus!
