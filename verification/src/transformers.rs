//! Capability interfaces of the leaf transformers the orchestrator drives:
//! snapshot export/verify, byte-stream splitting, compression, encryption,
//! hashing, remote upload and local cleanup. Each is side-effecting on the
//! file system or network, so nothing is promised of a call's outcome: the
//! orchestrator's own contracts state what holds whatever comes back.
//! Implementations are injected at construction; tests substitute
//! deterministic fakes, production uses real implementations.

use vstd::prelude::*;

use crate::errors::PipelineError;

verus! {

/// Key-value labels attached to an uploaded object.
pub type Tags = std::collections::HashMap<String, String>;

/// Key-value metadata attached to an uploaded object.
pub type Metadata = std::collections::HashMap<String, String>;

/// Serializes a point-in-time dataset snapshot into a file, and checks one.
pub trait SnapshotManager {
    /// The file name the exporter will choose for the next export.
    fn get_filename(&self) -> (r: String);

    /// Exports the dataset snapshot into `out_dir`; returns the path of the
    /// exported file.
    fn export(&self, out_dir: &str, dataset: &str, base_snapshot: &str, ref_snapshot: &str) -> (r:
        Result<String, PipelineError>);

    /// Checks the exported file against the dataset.
    fn verify(&self, dataset: &str, filepath: &str) -> (r: Result<(), PipelineError>);

    /// Lists the snapshots of a dataset.
    fn list(&self, dataset: &str) -> (r: Result<Vec<String>, PipelineError>);
}

/// Produces the index-th split of an exported stream. A split request past
/// the last split is expected to fail, which together with the task's split
/// quantity bounds the split loop.
pub trait Splitter {
    /// The path suffix of the index-th split.
    fn get_extension(&self, index: u64) -> (r: String);

    /// Writes the index-th split of `filename`; returns the split's path.
    fn split(&self, filename: &str, index: u64) -> (r: Result<String, PipelineError>);
}

/// Compresses one file and can check a compressed file's integrity.
pub trait Compressor {
    /// The path suffix of compressed files.
    fn get_extension(&self) -> (r: String);

    /// Compresses `filepath`; returns the compressed file's path.
    fn compress(&self, filepath: &str) -> (r: Result<String, PipelineError>);

    /// Checks that `filepath` holds a readable compressed stream.
    fn verify(&self, filepath: &str) -> (r: Result<(), PipelineError>);
}

/// Encrypts and decrypts one file.
pub trait Encryptor {
    /// The path suffix of encrypted files.
    fn get_extension(&self) -> (r: String);

    /// Encrypts `filepath`; returns the encrypted file's path.
    fn encrypt(&self, filepath: &str) -> (r: Result<String, PipelineError>);

    /// Decrypts `filepath`; returns the decrypted file's path.
    fn decrypt(&self, filepath: &str) -> (r: Result<String, PipelineError>);
}

/// Incremental content hasher. The orchestrator always calls `reset`
/// before `cal_file`, then reads the digest of the file's bytes.
pub trait Hasher {
    /// Feeds the bytes of the file at `filepath` into the hasher state.
    fn cal_file(&mut self, filepath: &str) -> (r: Result<(), PipelineError>);

    /// Feeds `data` into the hasher state.
    fn update(&mut self, data: &[u8]) -> (r: Result<(), PipelineError>);

    /// Clears the hasher state.
    fn reset(&mut self);

    /// The digest of everything fed since the last reset.
    fn get_digest(&self) -> (r: Vec<u8>);

    /// The digest as lower-case hexadecimal text.
    fn get_hex_digest(&self) -> (r: String);
}

/// Uploads one local file to remote object storage.
pub trait RemoteManager {
    fn upload(
        &self,
        src_filepath: &str,
        dst_filepath: &str,
        tags: Option<Tags>,
        metadata: Option<Metadata>,
    ) -> (r: Result<(), PipelineError>);
}

/// Removes one local intermediate file once its split has been uploaded.
pub trait Cleaner {
    fn remove_file(&self, filepath: &str) -> (r: Result<(), PipelineError>);
}

} // verus!
