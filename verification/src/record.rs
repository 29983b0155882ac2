//! The record that the facade hands to a logger, as plain values.

use vstd::prelude::*;
use vstd::string::*;
use crate::level::Level;

verus! {

/// What the facade tells a logger of a message before it is rendered.
#[derive(Clone, Copy, Debug)]
pub struct Metadata<'a> {
    pub level: Level,
    pub target: &'a str,
}

/// One log message with its origin.
#[derive(Clone, Debug)]
pub struct Record {
    /// The severity of the message.
    pub level: Level,
    /// The name of the target of the directive.
    pub target: String,
    /// The module in which the message was logged.
    pub module: String,
    /// The source file in which the message was logged.
    pub file: String,
    /// The line of that file.
    pub line: u32,
    /// The message body, already formatted.
    pub message: String,
}

impl Record {
    /// A record of `level` with `message`, logged in `module` for `target`,
    /// with no file and line known.
    pub fn new(level: Level, target: &str, module: &str, message: &str) -> (record: Record)
        ensures
            record.level == level,
            record.target@ == target@,
            record.module@ == module@,
            record.file@ == Seq::<char>::empty(),
            record.line == 0,
            record.message@ == message@,
    {
        Record {
            level,
            target: target.to_owned(),
            module: module.to_owned(),
            file: String::new(),
            line: 0,
            message: message.to_owned(),
        }
    }

    /// The part of the record that decides whether it is logged at all.
    pub fn metadata(&self) -> (meta: Metadata<'_>)
        ensures
            meta.level == self.level,
            meta.target@ == self.target@,
    {
        Metadata { level: self.level, target: self.target.as_str() }
    }
}

} // verus!
