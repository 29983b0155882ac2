//! The logger and its builder.

use vstd::prelude::*;
use vstd::string::*;
use vstd::utf8::encode_utf8;
use crate::ctext::{has_nul, CText};
use crate::error::Error;
use crate::format::{default_rendering, Renderer};
use crate::level::{Level, LevelFilter, Priority};
use crate::record::{Metadata, Record};

verus! {

/// One call of the platform's write primitive: what it is to be given.
#[derive(Debug)]
pub struct NativeWrite<'a> {
    /// The priority of the message.
    pub priority: Priority,
    /// The tag of the logger that wrote it.
    pub tag: &'a CText,
    /// The rendered message.
    pub message: CText,
}

/// The logger: a tag and a way to render records.
pub struct AndroidLogger {
    tag: CText,
    format: Renderer,
}

/// Collects the tag and the formatter of a logger before it is built.
pub struct LogBuilder {
    tag: CText,
    format: Renderer,
}

/// What the facade is asked for when a logger is installed: to register
/// `logger` as the global one and to set its threshold to `max_level`.
pub struct Installation {
    pub logger: AndroidLogger,
    pub max_level: LevelFilter,
}

impl AndroidLogger {
    /// The tag, without its terminator.
    pub closed spec fn tag(&self) -> Seq<u8> {
        self.tag@
    }

    /// Whether `out` is a text that the logger's formatter may give for
    /// `record`.
    pub closed spec fn renders(&self, record: &Record, out: String) -> bool {
        self.format.renders(record, out)
    }

    /// Whether the logger renders every record in the default way.
    pub open spec fn uses_default_format(&self) -> bool {
        forall|record: &Record, out: String| #[trigger]
            self.renders(record, out) <==> out@ == default_rendering(record)
    }

    /// Whether the logger renders every record by calling `format`.
    pub open spec fn formats_with<F: Fn(&Record) -> String>(&self, format: F) -> bool {
        forall|record: &Record, out: String| #[trigger]
            self.renders(record, out) <==> call_ensures(format, (record,), out)
    }

    /// Whether a message with this metadata is logged: every one is.
    pub open spec fn spec_enabled(&self, metadata: &Metadata) -> bool {
        true
    }

    /// Whether `out` is what the logger hands on for a message of `level`
    /// that was rendered as `text`: nothing where the text holds a null
    /// byte, else one write with the level's priority, the logger's tag
    /// and the whole text.
    pub open spec fn delivers(&self, level: Level, text: Seq<char>, out: Option<NativeWrite>) -> bool {
        match out {
            Some(write) => {
                &&& !has_nul(encode_utf8(text))
                &&& write.priority == level.spec_priority()
                &&& write.tag@ == self.tag()
                &&& write.message@ == encode_utf8(text)
            },
            None => has_nul(encode_utf8(text)),
        }
    }

    /// Whether `out` is a result of logging `record`: what the logger
    /// hands on for one of the texts that its formatter may give.
    pub open spec fn logs(&self, record: &Record, out: Option<NativeWrite>) -> bool {
        exists|text: String| #[trigger]
            self.renders(record, text) && self.delivers(record.level, text@, out)
    }

    /// A logger with the default formatter, unless `tag` holds a null byte.
    pub fn new(tag: &str) -> (made: Result<AndroidLogger, Error>)
        ensures
            made is Err <==> has_nul(tag.spec_bytes()),
            made is Err <==> tag@.contains('\0'),
            made matches Err(e) ==> e == Error::InvalidTag,
            made matches Ok(logger) ==> logger.tag() == tag.spec_bytes()
                && logger.uses_default_format(),
    {
        match LogBuilder::new(tag) {
            Ok(builder) => Ok(builder.build()),
            Err(e) => Err(e),
        }
    }

    /// Hands the logger over for installation as the global logger, with a
    /// threshold that lets every level through.
    pub fn init(self) -> (plan: Installation)
        ensures
            plan.logger == self,
            plan.max_level == LevelFilter::Trace,
            forall|level: Level| plan.max_level.spec_admits(level),
    {
        Installation { logger: self, max_level: LevelFilter::max() }
    }

    /// Tells whether a message with this metadata is logged. The logger
    /// keeps nothing back: filtering is the facade's.
    pub fn enabled(&self, metadata: &Metadata) -> (on: bool)
        ensures
            on == self.spec_enabled(metadata),
            on,
    {
        true
    }

    /// Turns a rendered message into a call of the platform's write
    /// primitive. A text with a null byte is refused, never cut short.
    pub fn prepare(&self, level: Level, text: &str) -> (made: Result<NativeWrite<'_>, Error>)
        ensures
            made is Err <==> has_nul(text.spec_bytes()),
            made is Err <==> text@.contains('\0'),
            made matches Err(e) ==> e == Error::Encoding,
            made matches Ok(write) ==> self.delivers(level, text@, Some(write)),
    {
        match CText::new(text) {
            Some(message) => Ok(NativeWrite { priority: level.priority(), tag: &self.tag, message }),
            None => Err(Error::Encoding),
        }
    }

    /// Logs `record`: renders it with the logger's formatter and prepares
    /// the write. A record whose rendering holds a null byte is dropped.
    pub fn log(&self, record: &Record) -> (out: Option<NativeWrite<'_>>)
        ensures
            self.logs(record, out),
    {
        if !self.enabled(&record.metadata()) {
            return None;
        }
        let text = self.format.render(record);
        let out = match self.prepare(record.level, text.as_str()) {
            Ok(write) => Some(write),
            Err(_) => None,
        };
        assert(self.renders(record, text) && self.delivers(record.level, text@, out));
        out
    }
}

impl LogBuilder {
    /// The tag, without its terminator.
    pub closed spec fn tag(&self) -> Seq<u8> {
        self.tag@
    }

    /// Whether `out` is a text that the builder's formatter may give for
    /// `record`.
    pub closed spec fn renders(&self, record: &Record, out: String) -> bool {
        self.format.renders(record, out)
    }

    /// Whether the builder holds the default formatter.
    pub open spec fn uses_default_format(&self) -> bool {
        forall|record: &Record, out: String| #[trigger]
            self.renders(record, out) <==> out@ == default_rendering(record)
    }

    /// Whether the builder holds a formatter that calls `format`.
    pub open spec fn formats_with<F: Fn(&Record) -> String>(&self, format: F) -> bool {
        forall|record: &Record, out: String| #[trigger]
            self.renders(record, out) <==> call_ensures(format, (record,), out)
    }

    /// A builder with the default formatter, unless `tag` holds a null
    /// byte.
    pub fn new(tag: &str) -> (made: Result<LogBuilder, Error>)
        ensures
            made is Err <==> has_nul(tag.spec_bytes()),
            made is Err <==> tag@.contains('\0'),
            made matches Err(e) ==> e == Error::InvalidTag,
            made matches Ok(builder) ==> builder.tag() == tag.spec_bytes()
                && builder.uses_default_format(),
    {
        match CText::new(tag) {
            Some(tag) => Ok(LogBuilder { tag, format: Renderer::standard() }),
            None => Err(Error::InvalidTag),
        }
    }

    /// Replaces the formatter by `format`, which must be callable on every
    /// record.
    pub fn format<F: 'static>(&mut self, format: F) -> (ret: &mut Self) where
        F: Fn(&Record) -> String + Sync + Send,

        requires
            forall|record: &Record| call_requires(format, (record,)),
        ensures
            ret.tag() == old(self).tag(),
            ret.formats_with(format),
            *final(self) == *final(ret),
    {
        self.format = Renderer::custom(format);
        self
    }

    /// Builds the logger and hands it over for installation as the global
    /// logger.
    pub fn init(self) -> (plan: Installation)
        ensures
            plan.logger.tag() == self.tag(),
            forall|record: &Record, out: String| #[trigger]
                plan.logger.renders(record, out) <==> self.renders(record, out),
            plan.max_level == LevelFilter::Trace,
            forall|level: Level| plan.max_level.spec_admits(level),
    {
        self.build().init()
    }

    /// Builds the logger.
    pub fn build(self) -> (logger: AndroidLogger)
        ensures
            logger.tag() == self.tag(),
            forall|record: &Record, out: String| #[trigger]
                logger.renders(record, out) <==> self.renders(record, out),
    {
        AndroidLogger { tag: self.tag, format: self.format }
    }
}

/// A logger with the default formatter hands on the default rendering of
/// a record, whole, or nothing where that rendering holds a null byte.
pub proof fn lemma_default_rendering_is_delivered(
    logger: AndroidLogger,
    record: &Record,
    out: Option<NativeWrite>,
)
    requires
        logger.uses_default_format(),
        logger.logs(record, out),
    ensures
        logger.delivers(record.level, default_rendering(record), out),
{
}

/// What a logger with a formatter of the application hands on is made of
/// a text that the formatter gave for that record.
pub proof fn lemma_custom_rendering_is_delivered<F: Fn(&Record) -> String>(
    logger: AndroidLogger,
    format: F,
    record: &Record,
    out: Option<NativeWrite>,
)
    requires
        logger.formats_with(format),
        logger.logs(record, out),
    ensures
        exists|text: String| #[trigger]
            call_ensures(format, (record,), text) && logger.delivers(record.level, text@, out),
{
}

} // verus!
