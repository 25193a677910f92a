//! One log event: where it was written, its message and the pairs given with it.
use crate::kv::BorrowedKV;
use crate::level::Level;
use vstd::prelude::*;

verus! {

/// What is fixed at the place in the source where a logging statement stands.
pub struct RecordStatic<'a> {
    /// Severity of the statement.
    pub level: Level,
    /// Path of the source file.
    pub file: &'static str,
    /// Line in the source file.
    pub line: u32,
    /// Column in the source file.
    pub column: u32,
    /// Name of the enclosing function.
    pub function: &'static str,
    /// Path of the enclosing module.
    pub module: &'static str,
    /// Target that the statement is addressed to.
    pub target: &'a str,
}

/// One log event. It lives for a single call: it borrows the place it was
/// written at, its formatted message, and the key-value pairs given with it.
pub struct Record<'a> {
    meta: &'a RecordStatic<'a>,
    msg: &'a str,
    kv: BorrowedKV<'a>,
}

impl<'a> Record<'a> {
    /// The place the record was written at.
    pub closed spec fn meta(&self) -> RecordStatic<'a> {
        *self.meta
    }

    /// The formatted message, as characters.
    pub closed spec fn message(&self) -> Seq<char> {
        self.msg@
    }

    /// The key-value pairs given with this record.
    pub closed spec fn pairs(&self) -> crate::kv::Pairs {
        self.kv@
    }

    /// Severity, for use in specifications.
    pub open spec fn spec_level(&self) -> Level {
        self.meta().level
    }

    /// A record that borrows the three parts for the length of one call.
    pub fn new(s: &'a RecordStatic<'a>, msg: &'a str, kv: BorrowedKV<'a>) -> (record: Self)
        ensures
            record.meta() == *s,
            record.message() == msg@,
            record.pairs() == kv@,
    {
        Record { meta: s, msg: msg, kv: kv }
    }

    /// The formatted message.
    pub fn msg(&self) -> (msg: &str)
        ensures
            msg@ == self.message(),
    {
        self.msg
    }

    /// Severity.
    #[verifier::when_used_as_spec(spec_level)]
    pub fn level(&self) -> (level: Level)
        ensures
            level == self.meta().level,
    {
        self.meta.level
    }

    /// Line in the source file.
    pub fn line(&self) -> (line: u32)
        ensures
            line == self.meta().line,
    {
        self.meta.line
    }

    /// Column in the source file.
    pub fn column(&self) -> (column: u32)
        ensures
            column == self.meta().column,
    {
        self.meta.column
    }

    /// Path of the source file.
    pub fn file(&self) -> (file: &'static str)
        ensures
            file == self.meta().file,
    {
        self.meta.file
    }

    /// Target that the statement is addressed to.
    pub fn target(&self) -> (target: &str)
        ensures
            target == self.meta().target,
    {
        self.meta.target
    }

    /// Path of the enclosing module.
    pub fn module(&self) -> (module: &'static str)
        ensures
            module == self.meta().module,
    {
        self.meta.module
    }

    /// Name of the enclosing function.
    pub fn function(&self) -> (function: &'static str)
        ensures
            function == self.meta().function,
    {
        self.meta.function
    }

    /// The key-value pairs given with this record.
    pub fn kv(&self) -> (kv: BorrowedKV)
        ensures
            kv@ == self.pairs(),
    {
        BorrowedKV(self.kv.0)
    }
}

} // verus!
