//! A logger that routes records of the `log` facade to the Android logging
//! subsystem.
//!
//! The crate holds the decisions of the adapter: how a facade level maps to
//! a platform priority, how a record is rendered, when a tag or a message
//! is fit for the platform's null-terminated strings, and what is asked of
//! the facade on installation. The platform's write call and the facade's
//! registration are performed by the caller, from the values computed here.

pub mod ctext;
pub mod error;
pub mod format;
pub mod level;
pub mod logger;
pub mod record;

pub use ctext::{contains_nul, CText};
pub use format::default_format;
pub use error::{install_result, Error};
pub use level::{Level, LevelFilter, Priority};
pub use logger::{AndroidLogger, Installation, LogBuilder, NativeWrite};
pub use record::{Metadata, Record};

use vstd::prelude::*;
use vstd::string::*;

verus! {

/// Prepares the installation of a logger with `tag` and the default
/// formatter as the global logger of the process, unless `tag` holds a null
/// byte. The caller hands the result to the facade and reads its answer
/// with [`error::install_result`].
pub fn init(tag: &str) -> (plan: Result<Installation, Error>)
    ensures
        plan is Err <==> ctext::has_nul(tag.spec_bytes()),
        plan is Err <==> tag@.contains('\0'),
        plan matches Err(e) ==> e == Error::InvalidTag,
        plan matches Ok(p) ==> {
            &&& p.logger.tag() == tag.spec_bytes()
            &&& p.logger.uses_default_format()
            &&& p.max_level == LevelFilter::Trace
            &&& forall|level: Level| p.max_level.spec_admits(level)
        },
{
    match AndroidLogger::new(tag) {
        Ok(logger) => Ok(logger.init()),
        Err(e) => Err(e),
    }
}

} // verus!
