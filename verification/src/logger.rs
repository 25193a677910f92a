//! The handle that logging statements are written against.
use crate::drain::Drain;
use crate::drain::Never;
use crate::kv::share;
use crate::kv::OwnedKVList;
use crate::kv::Pairs;
use crate::record::Record;
use std::sync::Arc;
use vstd::prelude::*;
use vstd::string::*;

verus! {

/// A drain together with the key-value pairs that go with every record sent
/// through it.
///
/// A logger is not changed once it is built. A child logger shares the drain of
/// its parent and holds the parent's pairs behind its own. The drain of a
/// logger cannot fail: wrap one that can in `Fuse` or `IgnoreResult`.
pub struct Logger<D: Drain<Ok = (), Err = Never>> {
    drain: Arc<D>,
    list: OwnedKVList,
}

impl<D: Drain<Ok = (), Err = Never>> Logger<D> {
    /// The drain that records are sent to.
    pub closed spec fn drain(&self) -> D {
        *self.drain
    }

    /// The pairs sent with every record: those added last come first.
    pub closed spec fn context(&self) -> Pairs {
        self.list@
    }

    /// When a logger, used as a drain, takes a call: when its drain takes the
    /// record with the pairs of the call in front of the logger's context.
    pub open spec fn admits(&self, record: &Record, values: Pairs) -> bool {
        self.drain().accepts(record, values + self.context())
    }

    /// What a logger, used as a drain, can return: what its drain returns for
    /// the record with the pairs of the call in front of the logger's context.
    pub open spec fn outcome(
        &self,
        record: &Record,
        values: Pairs,
        res: Result<(), Never>,
    ) -> bool {
        self.drain().yields(record, values + self.context(), res)
    }

    /// The logger's contract as a drain, for one call: `accepts` is `admits`
    /// and `yields` is `outcome`. Verus unfolds the two by itself except where
    /// the type of the drain holds that of a closure or function; there this
    /// lemma says it.
    pub proof fn lemma_contract(&self, record: &Record, values: Pairs, res: Result<(), Never>)
        ensures
            self.accepts(record, values) == self.admits(record, values),
            self.yields(record, values, res) == self.outcome(record, values, res),
    {
    }

    /// A logger without a parent. Of `values` the last pair comes first in the
    /// context.
    pub fn root(d: D, values: Vec<(String, String)>) -> (logger: Self)
        ensures
            logger.drain() == d,
            logger.context() == crate::kv::owned_pairs(values@).reverse(),
    {
        Logger { drain: Arc::new(d), list: OwnedKVList::root(values) }
    }

    /// A child of this logger. It shares this logger's drain. Its context is
    /// `values`, the last pair first, followed by this logger's context.
    pub fn new(&self, values: Vec<(String, String)>) -> (child: Self)
        ensures
            child.drain() == self.drain(),
            child.context() == crate::kv::owned_pairs(values@).reverse() + self.context(),
    {
        Logger { drain: share(&self.drain), list: OwnedKVList::new(values, &self.list) }
    }

    /// Sends `record` to the drain, together with this logger's context.
    pub fn log(&self, record: &Record)
        requires
            self.drain().accepts(record, self.context()),
        ensures
            crate::drain::returns_for(&self.drain(), record, self.context()),
    {
        let res = self.drain.log(record, &self.list);
        assert(self.drain().yields(record, self.context(), res));
    }

    /// The text form of a logger: `Logger(` and `)` around the keys of its
    /// context, those added last first, with `", "` between them. Values are
    /// left out.
    pub fn debug_string(&self) -> (text: String)
        ensures
            text@ == "Logger"@ + crate::kv::key_list_text(self.context()),
    {
        let keys = self.list.debug_string();
        let mut text = String::from_str("Logger");
        text.append(keys.as_str());
        text
    }
}

/// A logger is a drain: it sends a record on to its own drain, with the pairs
/// that came with the call in front of its own context.
impl<D: Drain<Ok = (), Err = Never>> Drain for Logger<D> {
    type Ok = ();

    type Err = Never;

    open spec fn accepts(&self, record: &Record, values: Pairs) -> bool {
        self.admits(record, values)
    }

    open spec fn yields(&self, record: &Record, values: Pairs, res: Result<(), Never>) -> bool {
        self.outcome(record, values, res)
    }

    fn log(&self, record: &Record, values: &OwnedKVList) -> (res: Result<(), Never>) {
        let chained = OwnedKVList::join(values, &self.list);
        self.drain.log(record, &chained)
    }
}

} // verus!
