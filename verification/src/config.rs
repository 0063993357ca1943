//! The boot configuration: the kernel command line and how much the loader logs.
use vstd::prelude::*;
use vstd::utf8::encode_utf8;
use crate::kdata::KARGS_SIZE;

verus! {

/// Log level of ordinary progress messages.
pub const LOGLEVEL_NORMAL: usize = 1;

/// Log level of detailed messages.
pub const LOGLEVEL_VERBOSE: usize = 2;

/// The boot configuration.
pub struct Config {
    pub cmdline: String,
    pub loglevel: usize,
}

impl Config {
    /// The configuration used when none can be read: an empty command line, normal logging.
    pub fn default_config() -> (r: Self)
        ensures
            r.cmdline@ == Seq::<char>::empty(),
            r.loglevel == LOGLEVEL_NORMAL,
    {
        Config { cmdline: String::new(), loglevel: LOGLEVEL_NORMAL }
    }

    /// The configuration read from the configuration file, or the default one when the
    /// file could not be parsed.
    pub fn parsed_or_default(parsed: Option<Config>) -> (r: Self)
        ensures
            match parsed {
                Some(c) => r == c,
                None => r.cmdline@ == Seq::<char>::empty() && r.loglevel == LOGLEVEL_NORMAL,
            },
    {
        match parsed {
            Some(c) => c,
            None => Self::default_config(),
        }
    }

    /// Whether the command line, in bytes, fits the kernel argument area.
    pub fn cmdline_fits(&self) -> (r: bool)
        ensures
            r == (encode_utf8(self.cmdline@).len() <= KARGS_SIZE),
    {
        self.cmdline.as_str().as_bytes().len() <= KARGS_SIZE
    }
}

} // verus!
