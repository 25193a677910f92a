//! Drains that hand a record on only if it passes a test.
use crate::drain::Drain;
use crate::kv::OwnedKVList;
use crate::kv::Pairs;
use crate::level::Level;
use crate::record::Record;
use vstd::prelude::*;

verus! {

/// What a filter returns for a record that it handed on, given what the wrapped
/// drain returned: a success in `Some`, an error as it is.
pub open spec fn handed_on<T, E>(res: Result<T, E>) -> Result<Option<T>, E> {
    match res {
        Ok(value) => Ok(Some(value)),
        Err(error) => Err(error),
    }
}

/// Turns what a wrapped drain returned into what the filter around it returns.
pub fn hand_on<T, E>(res: Result<T, E>) -> (out: Result<Option<T>, E>)
    ensures
        out == handed_on(res),
{
    match res {
        Ok(value) => Ok(Some(value)),
        Err(error) => Err(error),
    }
}

/// Hands a record to the wrapped drain only if a condition holds of it.
///
/// A success of the wrapped drain comes back in `Some`. A record that does not
/// pass is not handed on, and `Ok(None)` comes back. Errors of the wrapped
/// drain come back as they are.
pub struct Filter<D: Drain, F: Fn(&Record) -> bool> {
    drain: D,
    cond: F,
}

impl<D: Drain, F: Fn(&Record) -> bool> Filter<D, F> {
    /// The wrapped drain.
    pub closed spec fn inner(&self) -> D {
        self.drain
    }

    /// The condition.
    pub closed spec fn condition(&self) -> F {
        self.cond
    }

    /// Whether the condition can be evaluated on `record`.
    pub open spec fn can_test(&self, record: &Record) -> bool {
        call_requires(self.condition(), (record,))
    }

    /// Whether the condition, evaluated on `record`, can answer `answer`.
    pub open spec fn may_answer(&self, record: &Record, answer: bool) -> bool {
        call_ensures(self.condition(), (record,), answer)
    }

    /// Whether the condition holds of `record`: it answers `true` and cannot
    /// answer `false`.
    pub open spec fn passes(&self, record: &Record) -> bool {
        self.may_answer(record, true) && !self.may_answer(record, false)
    }

    /// Whether the condition fails of `record`: it answers `false` and cannot
    /// answer `true`.
    pub open spec fn blocks(&self, record: &Record) -> bool {
        self.may_answer(record, false) && !self.may_answer(record, true)
    }

    /// When a filter takes a call: the condition can be evaluated, and where it
    /// can hold, the wrapped drain takes the call.
    pub open spec fn admits(&self, record: &Record, values: Pairs) -> bool {
        &&& self.can_test(record)
        &&& self.may_answer(record, true) ==> self.inner().accepts(record, values)
    }

    /// What a filter can return: `Ok(None)` where the condition can fail; where
    /// it can hold, what the wrapped drain returns, a success in `Some`.
    pub open spec fn outcome(
        &self,
        record: &Record,
        values: Pairs,
        res: Result<Option<D::Ok>, D::Err>,
    ) -> bool {
        match res {
            Ok(None) => self.may_answer(record, false),
            Ok(Some(value)) => self.may_answer(record, true) && self.inner().yields(
                record,
                values,
                Ok(value),
            ),
            Err(error) => self.may_answer(record, true) && self.inner().yields(
                record,
                values,
                Err(error),
            ),
        }
    }

    /// The filter's contract as a drain, for one call: `accepts` is `admits`
    /// and `yields` is `outcome`. Verus unfolds the two by itself except where
    /// the type of the condition is that of one closure or function; there
    /// this lemma says it.
    pub proof fn lemma_contract(
        &self,
        record: &Record,
        values: Pairs,
        res: Result<Option<D::Ok>, D::Err>,
    )
        ensures
            self.accepts(record, values) == self.admits(record, values),
            self.yields(record, values, res) == self.outcome(record, values, res),
    {
    }

    /// Wraps `drain`, which from now on sees the records of which `cond` holds.
    /// The condition must be safe to share between threads.
    pub fn new(drain: D, cond: F) -> (filter: Self) where F: 'static + Sync + Send
        ensures
            filter.inner() == drain,
            filter.condition() == cond,
    {
        Filter { drain: drain, cond: cond }
    }

    /// Of a record that passes, the filter returns what the wrapped drain
    /// returns, a success wrapped in `Some`: `Ok(Some(x))` if and only if the
    /// wrapped drain can return `Ok(x)`, `Err(e)` if and only if it can return
    /// `Err(e)`, and never `Ok(None)`.
    pub proof fn lemma_passing_record(&self, record: &Record, values: Pairs)
        requires
            self.passes(record),
        ensures
            forall|x: D::Ok| #[trigger]
                self.yields(record, values, Ok(Some(x))) <==> self.inner().yields(
                    record,
                    values,
                    Ok(x),
                ),
            forall|e: D::Err| #[trigger]
                self.yields(record, values, Err(e)) <==> self.inner().yields(
                    record,
                    values,
                    Err(e),
                ),
            forall|res: Result<D::Ok, D::Err>| #[trigger]
                self.inner().yields(record, values, res) <==> self.yields(
                    record,
                    values,
                    handed_on(res),
                ),
            !self.yields(record, values, Ok(None)),
            self.accepts(record, values) <==> self.can_test(record) && self.inner().accepts(
                record,
                values,
            ),
    {
    }

    /// Of a record that does not pass, the filter returns `Ok(None)` and
    /// nothing else, whatever the wrapped drain would do, and it asks nothing
    /// of the wrapped drain: the record does not reach it.
    pub proof fn lemma_blocked_record(&self, record: &Record, values: Pairs)
        requires
            self.blocks(record),
        ensures
            forall|res: Result<Option<D::Ok>, D::Err>| #[trigger]
                self.yields(record, values, res) <==> res == Ok::<Option<D::Ok>, D::Err>(None),
            self.accepts(record, values) <==> self.can_test(record),
    {
    }
}

impl<D: Drain, F: Fn(&Record) -> bool> Drain for Filter<D, F> {
    type Ok = Option<D::Ok>;

    type Err = D::Err;

    open spec fn accepts(&self, record: &Record, values: Pairs) -> bool {
        self.admits(record, values)
    }

    open spec fn yields(
        &self,
        record: &Record,
        values: Pairs,
        res: Result<Option<D::Ok>, D::Err>,
    ) -> bool {
        self.outcome(record, values, res)
    }

    fn log(&self, record: &Record, values: &OwnedKVList) -> (res: Result<Option<D::Ok>, D::Err>) {
        if (self.cond)(record) {
            hand_on(self.drain.log(record, values))
        } else {
            Ok(None)
        }
    }
}

/// Hands a record to the wrapped drain only if it is at least as severe as a
/// threshold.
///
/// This is a [`Filter`] whose condition is `record.level().is_at_least(level)`.
pub struct LevelFilter<D: Drain> {
    level: Level,
    drain: D,
}

impl<D: Drain> LevelFilter<D> {
    /// The wrapped drain.
    pub closed spec fn inner(&self) -> D {
        self.drain
    }

    /// The least severity that passes.
    pub closed spec fn threshold(&self) -> Level {
        self.level
    }

    /// Whether `record` is severe enough to be handed on.
    pub open spec fn passes(&self, record: &Record) -> bool {
        record.level().at_least(self.threshold())
    }

    /// When a level filter takes a call: where the record is severe enough,
    /// the wrapped drain takes the call.
    pub open spec fn admits(&self, record: &Record, values: Pairs) -> bool {
        self.passes(record) ==> self.inner().accepts(record, values)
    }

    /// What a level filter can return: `Ok(None)` for a record that is not
    /// severe enough; for one that is, what the wrapped drain returns, a
    /// success in `Some`.
    pub open spec fn outcome(
        &self,
        record: &Record,
        values: Pairs,
        res: Result<Option<D::Ok>, D::Err>,
    ) -> bool {
        match res {
            Ok(None) => !self.passes(record),
            Ok(Some(value)) => self.passes(record) && self.inner().yields(
                record,
                values,
                Ok(value),
            ),
            Err(error) => self.passes(record) && self.inner().yields(record, values, Err(error)),
        }
    }

    /// The filter's contract as a drain, for one call: `accepts` is `admits`
    /// and `yields` is `outcome`. Verus unfolds the two by itself except where
    /// the type of the wrapped drain holds that of a closure or function;
    /// there this lemma says it.
    pub proof fn lemma_contract(
        &self,
        record: &Record,
        values: Pairs,
        res: Result<Option<D::Ok>, D::Err>,
    )
        ensures
            self.accepts(record, values) == self.admits(record, values),
            self.yields(record, values, res) == self.outcome(record, values, res),
    {
    }

    /// Wraps `drain`, which from now on sees the records that are at least as
    /// severe as `level`.
    pub fn new(drain: D, level: Level) -> (filter: Self)
        ensures
            filter.inner() == drain,
            filter.threshold() == level,
    {
        LevelFilter { level: level, drain: drain }
    }

    /// The filter stops a record short of the wrapped drain, returning
    /// `Ok(None)`, if and only if the record is strictly less severe than the
    /// threshold. Then it returns nothing else and asks nothing of the wrapped
    /// drain.
    pub proof fn lemma_short_circuit(&self, record: &Record, values: Pairs)
        ensures
            self.yields(record, values, Ok(None)) <==> record.level().rank()
                > self.threshold().rank(),
            record.level().rank() > self.threshold().rank() ==> self.accepts(record, values)
                && forall|res: Result<Option<D::Ok>, D::Err>| #[trigger]
                self.yields(record, values, res) ==> res == Ok::<Option<D::Ok>, D::Err>(None),
    {
    }

    /// A record that is at least as severe as the threshold is handed on: the
    /// filter returns what the wrapped drain returns, a success wrapped in
    /// `Some`.
    pub proof fn lemma_passing_record(&self, record: &Record, values: Pairs)
        requires
            self.passes(record),
        ensures
            forall|x: D::Ok| #[trigger]
                self.yields(record, values, Ok(Some(x))) <==> self.inner().yields(
                    record,
                    values,
                    Ok(x),
                ),
            forall|e: D::Err| #[trigger]
                self.yields(record, values, Err(e)) <==> self.inner().yields(
                    record,
                    values,
                    Err(e),
                ),
            forall|res: Result<D::Ok, D::Err>| #[trigger]
                self.inner().yields(record, values, res) <==> self.yields(
                    record,
                    values,
                    handed_on(res),
                ),
            !self.yields(record, values, Ok(None)),
            self.accepts(record, values) <==> self.inner().accepts(record, values),
    {
    }
}

impl<D: Drain> Drain for LevelFilter<D> {
    type Ok = Option<D::Ok>;

    type Err = D::Err;

    open spec fn accepts(&self, record: &Record, values: Pairs) -> bool {
        self.admits(record, values)
    }

    open spec fn yields(
        &self,
        record: &Record,
        values: Pairs,
        res: Result<Option<D::Ok>, D::Err>,
    ) -> bool {
        self.outcome(record, values, res)
    }

    fn log(&self, record: &Record, values: &OwnedKVList) -> (res: Result<Option<D::Ok>, D::Err>) {
        if record.level().is_at_least(self.level) {
            hand_on(self.drain.log(record, values))
        } else {
            Ok(None)
        }
    }
}

/// A [`Filter`] around `d` with the condition `cond`.
pub fn filter<D: Drain, F>(cond: F, d: D) -> (filter: Filter<D, F>) where
    F: 'static + Send + Sync + Fn(&Record) -> bool,

    ensures
        filter.inner() == d,
        filter.condition() == cond,
{
    Filter::new(d, cond)
}

/// A [`LevelFilter`] around `d` with the threshold `level`.
pub fn level_filter<D: Drain>(level: Level, d: D) -> (filter: LevelFilter<D>)
    ensures
        filter.inner() == d,
        filter.threshold() == level,
{
    LevelFilter::new(d, level)
}

} // verus!
