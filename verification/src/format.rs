//! Rendering of a record into the text that is written.

use vstd::prelude::*;
use vstd::string::*;
use crate::record::Record;

verus! {

/// The default rendering of a record: its module, a colon and a space, its
/// message.
pub open spec fn default_rendering(record: &Record) -> Seq<char> {
    record.module@ + ": "@ + record.message@
}

/// Renders `record` as `"<module>: <message>"`.
pub fn default_format(record: &Record) -> (out: String)
    ensures
        out@ == default_rendering(record),
{
    let mut out = record.module.clone();
    out.append(": ");
    out.append(record.message.as_str());
    out
}

/// A way to render records, callable from any thread.
pub(crate) trait Formatter: Send + Sync {
    /// Whether the formatter may be called on `record`.
    spec fn accepts(&self, record: &Record) -> bool;

    /// Whether `out` is a text that the formatter may give for `record`.
    spec fn renders(&self, record: &Record, out: String) -> bool;

    fn format(&self, record: &Record) -> (out: String)
        requires
            self.accepts(record),
        ensures
            self.renders(record, out),
    ;
}

/// The formatter of a logger that was given no other.
pub(crate) struct DefaultFormat;

impl Formatter for DefaultFormat {
    open spec fn accepts(&self, record: &Record) -> bool {
        true
    }

    open spec fn renders(&self, record: &Record, out: String) -> bool {
        out@ == default_rendering(record)
    }

    fn format(&self, record: &Record) -> (out: String) {
        default_format(record)
    }
}

/// A formatter that calls a function of the application.
pub(crate) struct CustomFormat<F> {
    pub f: F,
}

impl<F: Fn(&Record) -> String + Send + Sync> Formatter for CustomFormat<F> {
    open spec fn accepts(&self, record: &Record) -> bool {
        call_requires(self.f, (record,))
    }

    open spec fn renders(&self, record: &Record, out: String) -> bool {
        call_ensures(self.f, (record,), out)
    }

    fn format(&self, record: &Record) -> (out: String) {
        (self.f)(record)
    }
}

/// The formatter that a builder or a logger holds: the default one or one
/// of the application, callable on every record.
pub(crate) struct Renderer {
    inner: Box<dyn Formatter>,
}

impl Renderer {
    #[verifier::type_invariant]
    spec fn callable(self) -> bool {
        forall|record: &Record| self.inner.accepts(record)
    }

    /// Whether `out` is a text that the formatter may give for `record`.
    pub(crate) closed spec fn renders(&self, record: &Record, out: String) -> bool {
        self.inner.renders(record, out)
    }

    /// The default formatter.
    pub(crate) fn standard() -> (made: Renderer)
        ensures
            forall|record: &Record, out: String| #[trigger]
                made.renders(record, out) <==> out@ == default_rendering(record),
    {
        Renderer { inner: Box::new(DefaultFormat) }
    }

    /// A formatter that calls `f`.
    pub(crate) fn custom<F: 'static>(f: F) -> (made: Renderer) where
        F: Fn(&Record) -> String + Sync + Send,

        requires
            forall|record: &Record| call_requires(f, (record,)),
        ensures
            forall|record: &Record, out: String| #[trigger]
                made.renders(record, out) <==> call_ensures(f, (record,), out),
    {
        Renderer { inner: Box::new(CustomFormat { f }) }
    }

    /// Renders `record`.
    pub(crate) fn render(&self, record: &Record) -> (out: String)
        ensures
            self.renders(record, out),
    {
        proof {
            use_type_invariant(self);
        }
        self.inner.format(record)
    }
}

} // verus!
