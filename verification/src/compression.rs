//! Configuration of the zstd-backed compressor. The compression itself is
//! file I/O and lives outside the verified library; this type carries the
//! chosen level and the fixed path suffix that the orchestrator composes
//! into file names.

use vstd::prelude::*;
use vstd::string::StringExecFns;

verus! {

/// Settings of a zstd compressor: the compression level to pass through.
#[derive(Debug, Clone, Copy)]
pub struct ZstdCompressor {
    compression_level: i32,
}

impl ZstdCompressor {
    /// The configured compression level.
    pub closed spec fn level(&self) -> int {
        self.compression_level as int
    }

    pub fn new(compression_level: i32) -> (r: Self)
        ensures
            r.level() == compression_level as int,
    {
        Self { compression_level }
    }

    /// The level to hand to the zstd encoder.
    pub fn compression_level(&self) -> (r: i32)
        ensures
            r as int == self.level(),
    {
        self.compression_level
    }

    /// The path suffix of zstd-compressed files.
    pub fn get_extension(&self) -> (r: String)
        ensures
            r@ == "zst"@,
    {
        String::from_str("zst")
    }
}

impl Default for ZstdCompressor {
    /// The default compression level is 3.
    fn default() -> (r: Self)
        ensures
            r.level() == 3,
    {
        Self::new(3)
    }
}

} // verus!
