//! The versioned wrapper and the move-based transformation into it.

use vstd::prelude::*;
use crate::config::Config;
use crate::config::BufferedConfig;

verus! {

/// A generic container pairing a payload with an integer version tag.
///
/// The tag is fixed at construction; no increment logic exists.
pub struct Versioned<O> {
    pub version: u32,
    pub obj: O,
}

/// Consumes a configuration record and wraps it, unchanged, with version 1.
///
/// Ownership moves into the wrapper: no duplication occurs, the wrapper owns
/// the very record that was passed in.
pub fn save_config_version(config: Config) -> (v: Versioned<Config>)
    ensures
        v.version == 1,
        v.obj == config,
{
    Versioned { version: 1, obj: config }
}

/// The same move-based transformation for a configuration carrying a
/// pre-sized buffer. The record, buffer and all, moves into the wrapper
/// unchanged, so whatever allocation the buffer held is preserved exactly.
pub fn save_buffered_config_version(config: BufferedConfig) -> (v: Versioned<BufferedConfig>)
    ensures
        v.version == 1,
        v.obj == config,
{
    Versioned { version: 1, obj: config }
}

} // verus!
