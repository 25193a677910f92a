//! The drain that hands every record to two drains.
use crate::drain::Drain;
use crate::kv::OwnedKVList;
use crate::kv::Pairs;
use crate::record::Record;
use vstd::prelude::*;

verus! {

/// What a [`Duplicate`] returns, given what its two drains returned: both
/// successes together if both succeeded; otherwise, as the error, both results
/// as they came.
pub open spec fn both_results<T1, E1, T2, E2>(
    first: Result<T1, E1>,
    second: Result<T2, E2>,
) -> Result<(T1, T2), (Result<T1, E1>, Result<T2, E2>)> {
    match (first, second) {
        (Ok(a), Ok(b)) => Ok((a, b)),
        _ => Err((first, second)),
    }
}

/// Puts the results of two drains together. The outcome is a success exactly
/// if both are; a failure holds both results as they came, so that neither is
/// lost.
pub fn join_results<T1, E1, T2, E2>(first: Result<T1, E1>, second: Result<T2, E2>) -> (out: Result<
    (T1, T2),
    (Result<T1, E1>, Result<T2, E2>),
>)
    ensures
        out == both_results(first, second),
        out is Ok <==> first is Ok && second is Ok,
{
    match (first, second) {
        (Ok(a), Ok(b)) => Ok((a, b)),
        (first, second) => Err((first, second)),
    }
}

/// Hands every record to two drains, first to one, then to the other, whatever
/// the first returned. Nest it for more than two.
pub struct Duplicate<D1: Drain, D2: Drain> {
    drain1: D1,
    drain2: D2,
}

impl<D1: Drain, D2: Drain> Duplicate<D1, D2> {
    /// The drain that sees a record first.
    pub closed spec fn first(&self) -> D1 {
        self.drain1
    }

    /// The drain that sees a record second.
    pub closed spec fn second(&self) -> D2 {
        self.drain2
    }

    /// When a duplicate takes a call: both drains take it, since the second is
    /// asked whatever the first returns.
    pub open spec fn admits(&self, record: &Record, values: Pairs) -> bool {
        self.first().accepts(record, values) && self.second().accepts(record, values)
    }

    /// What a duplicate can return: as a success, a success of each drain; as
    /// an error, a result of each drain, at least one of them an error.
    pub open spec fn outcome(
        &self,
        record: &Record,
        values: Pairs,
        res: Result<(D1::Ok, D2::Ok), (Result<D1::Ok, D1::Err>, Result<D2::Ok, D2::Err>)>,
    ) -> bool {
        match res {
            Ok((a, b)) => self.first().yields(record, values, Ok(a)) && self.second().yields(
                record,
                values,
                Ok(b),
            ),
            Err((r1, r2)) => self.first().yields(record, values, r1) && self.second().yields(
                record,
                values,
                r2,
            ) && (r1 is Err || r2 is Err),
        }
    }

    /// The duplicate's contract as a drain, for one call: `accepts` is `admits`
    /// and `yields` is `outcome`. Verus unfolds the two by itself except where
    /// the type of a wrapped drain holds that of a closure or function; there
    /// this lemma says it.
    pub proof fn lemma_contract(
        &self,
        record: &Record,
        values: Pairs,
        res: Result<(D1::Ok, D2::Ok), (Result<D1::Ok, D1::Err>, Result<D2::Ok, D2::Err>)>,
    )
        ensures
            self.accepts(record, values) == self.admits(record, values),
            self.yields(record, values, res) == self.outcome(record, values, res),
    {
    }

    /// A drain that hands each record to `drain1`, then to `drain2`.
    pub fn new(drain1: D1, drain2: D2) -> (both: Self)
        ensures
            both.first() == drain1,
            both.second() == drain2,
    {
        Duplicate { drain1: drain1, drain2: drain2 }
    }

    /// Both drains are asked, whatever either returns: a call is taken if and
    /// only if both drains take it, and its outcomes are exactly the results of
    /// the first drain put together with the results of the second. The call
    /// succeeds if and only if both drains do; a failure holds what each of
    /// them returned.
    pub proof fn lemma_outcomes(
        &self,
        record: &Record,
        values: Pairs,
        res: Result<(D1::Ok, D2::Ok), (Result<D1::Ok, D1::Err>, Result<D2::Ok, D2::Err>)>,
    )
        ensures
            self.yields(record, values, res) <==> exists|
                r1: Result<D1::Ok, D1::Err>,
                r2: Result<D2::Ok, D2::Err>,
            |
                #![trigger both_results(r1, r2)]
                self.first().yields(record, values, r1) && self.second().yields(record, values, r2)
                    && res == both_results(r1, r2),
            self.yields(record, values, res) && res is Ok ==> self.first().yields(
                record,
                values,
                Ok(res->Ok_0.0),
            ) && self.second().yields(record, values, Ok(res->Ok_0.1)),
            self.yields(record, values, res) && res is Err ==> self.first().yields(
                record,
                values,
                res->Err_0.0,
            ) && self.second().yields(record, values, res->Err_0.1) && (res->Err_0.0 is Err
                || res->Err_0.1 is Err),
            self.accepts(record, values) <==> self.first().accepts(record, values)
                && self.second().accepts(record, values),
    {
        if self.yields(record, values, res) {
            match res {
                Ok((a, b)) => {
                    let r1: Result<D1::Ok, D1::Err> = Ok(a);
                    let r2: Result<D2::Ok, D2::Err> = Ok(b);
                    assert(res == both_results(r1, r2));
                },
                Err((r1, r2)) => {
                    assert(res == both_results(r1, r2));
                },
            }
        }
    }
}

impl<D1: Drain, D2: Drain> Drain for Duplicate<D1, D2> {
    type Ok = (D1::Ok, D2::Ok);

    type Err = (Result<D1::Ok, D1::Err>, Result<D2::Ok, D2::Err>);

    open spec fn accepts(&self, record: &Record, values: Pairs) -> bool {
        self.admits(record, values)
    }

    open spec fn yields(
        &self,
        record: &Record,
        values: Pairs,
        res: Result<(D1::Ok, D2::Ok), (Result<D1::Ok, D1::Err>, Result<D2::Ok, D2::Err>)>,
    ) -> bool {
        self.outcome(record, values, res)
    }

    fn log(&self, record: &Record, values: &OwnedKVList) -> (res: Result<
        (D1::Ok, D2::Ok),
        (Result<D1::Ok, D1::Err>, Result<D2::Ok, D2::Err>),
    >) {
        let res1 = self.drain1.log(record, values);
        let res2 = self.drain2.log(record, values);
        join_results(res1, res2)
    }
}

/// A [`Duplicate`] of `d1` and `d2`.
pub fn duplicate<D1: Drain, D2: Drain>(d1: D1, d2: D2) -> (both: Duplicate<D1, D2>)
    ensures
        both.first() == d1,
        both.second() == d2,
{
    Duplicate::new(d1, d2)
}

} // verus!
