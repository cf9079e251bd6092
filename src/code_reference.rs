use vstd::prelude::*;

use crate::error::BootError;
use crate::manifest::{dir_prefix, dir_prefix_of, local_name, local_name_of, manifest_hash, manifest_lookup};
use crate::text::{contains, contains_str};
use vstd::string::StringExecFns;

verus! {

/// The SHA-256 digest of some bytes, written as lower-case hex.
pub uninterp spec fn sha256_hex(b: Seq<u8>) -> Seq<char>;

/// Relies on sha256::digest: the hex-encoded SHA-256 digest of the bytes,
/// two characters for each of its 32 bytes.
#[verifier::external_body]
fn digest_hex(b: &Vec<u8>) -> (r: String)
    ensures
        r@ == sha256_hex(b@),
        r@.len() == 64,
{
    sha256::digest(b.as_slice())
}

/// Where the code of an artifact comes from: a path to its binary (or a name
/// under the artifacts directory), and an in-process implementation used by
/// the simulated backend, which is handed over at most once.
pub struct ContractCodeReference<E> {
    pub wasm_code_path: Option<String>,
    pub contract_endpoints: Option<E>,
}

/// The path that `get_wasm_code_path` resolves a given location to.
pub open spec fn resolved_path(path: Seq<char>, artifacts_dir: Seq<char>) -> Seq<char> {
    if contains(path, ".wasm"@) {
        path
    } else {
        artifacts_dir + "/"@ + path + ".wasm"@
    }
}

/// Where a checksum is to be read from.
pub enum ChecksumSource {
    /// A manifest file of `<hash>  <file name>` lines.
    Manifest(String),
    /// The binary itself, to be hashed.
    Binary(String),
}

/// What was read from a `ChecksumSource`.
pub enum LocalArtifact {
    /// The text of a manifest file.
    Manifest(String),
    /// The bytes of a binary.
    Binary(Vec<u8>),
}

/// The checksum that `checksum` gives for `artifact` and the identifier `id`.
pub open spec fn checksum_of(artifact: LocalArtifact, id: Seq<char>) -> Option<Seq<char>> {
    match artifact {
        LocalArtifact::Manifest(c) => manifest_lookup(c@, local_name(id)),
        LocalArtifact::Binary(b) => Some(sha256_hex(b@)),
    }
}

impl<E> ContractCodeReference<E> {
    /// A reference with neither a path nor an in-process implementation.
    pub fn new() -> (r: Self)
        ensures
            r.wasm_code_path is None,
            r.contract_endpoints is None,
    {
        ContractCodeReference { wasm_code_path: None, contract_endpoints: None }
    }

    /// A copy that keeps the path and never the in-process implementation.
    pub fn duplicate(&self) -> (r: Self)
        ensures
            r.wasm_code_path == self.wasm_code_path,
            r.contract_endpoints is None,
    {
        let wasm_code_path = match &self.wasm_code_path {
            Some(p) => Some(p.clone()),
            None => None,
        };
        ContractCodeReference { wasm_code_path, contract_endpoints: None }
    }

    /// Sets the location of the binary.
    pub fn set_wasm_path(&mut self, path: String)
        ensures
            final(self).wasm_code_path == Some(path),
            final(self).contract_endpoints == old(self).contract_endpoints,
    {
        self.wasm_code_path = Some(path);
    }

    /// Sets the in-process implementation that the simulated backend runs.
    pub fn set_endpoints(&mut self, endpoints: E)
        ensures
            final(self).contract_endpoints == Some(endpoints),
            final(self).wasm_code_path == old(self).wasm_code_path,
    {
        self.contract_endpoints = Some(endpoints);
    }

    /// Hands the in-process implementation over to the simulated backend,
    /// leaving none behind; without one there is nothing it can run.
    pub fn take_endpoints(&mut self) -> (r: Result<E, BootError>)
        ensures
            final(self).wasm_code_path == old(self).wasm_code_path,
            final(self).contract_endpoints is None,
            match old(self).contract_endpoints {
                Some(e) => r == Ok::<E, BootError>(e),
                None => r is Err && r->Err_0 is Capability,
            },
    {
        match self.contract_endpoints.take() {
            Some(e) => Ok(e),
            None => Err(BootError::Capability("the simulated backend needs an in-process contract".to_owned())),
        }
    }

    /// The path of the binary: the location itself when it names a `.wasm`
    /// file, else `<artifacts_dir>/<location>.wasm`.
    pub fn get_wasm_code_path(&self, artifacts_dir: Option<&String>) -> (r: Result<String, BootError>)
        ensures
            match self.wasm_code_path {
                None => r is Err && r->Err_0 is Capability,
                Some(p) => if contains(p@, ".wasm"@) {
                    r is Ok && r->Ok_0@ == p@
                } else {
                    match artifacts_dir {
                        None => r is Err && r->Err_0 is Config,
                        Some(d) => r is Ok && r->Ok_0@ == resolved_path(p@, d@),
                    }
                },
            },
    {
        let path = match &self.wasm_code_path {
            Some(p) => p,
            None => {
                return Err(BootError::Capability("a wasm file is required to determine the hash".to_owned()));
            },
        };
        if contains_str(path.as_str(), ".wasm") {
            return Ok(path.clone());
        }
        match artifacts_dir {
            None => Err(BootError::Config("the artifacts directory is not set".to_owned())),
            Some(d) => {
                let mut full = d.clone();
                full.append("/");
                full.append(path.as_str());
                full.append(".wasm");
                Ok(full)
            },
        }
    }

    /// Where the checksum of this code is found: for a path under an
    /// `artifacts` directory, the `checksums.txt` manifest in the binary's
    /// directory; else the binary itself.
    pub fn checksum_source(&self, artifacts_dir: Option<&String>) -> (r: Result<ChecksumSource, BootError>)
        ensures
            match self.wasm_code_path {
                None => r is Err && r->Err_0 is Capability,
                Some(p) => if !contains(p@, ".wasm"@) && artifacts_dir is None {
                    r is Err && r->Err_0 is Config
                } else {
                    let w = if contains(p@, ".wasm"@) { p@ } else { resolved_path(p@, artifacts_dir->0@) };
                    r is Ok && if contains(w, "artifacts"@) {
                        r->Ok_0 matches ChecksumSource::Manifest(m) && m@ == dir_prefix(w) + "checksums.txt"@
                    } else {
                        r->Ok_0 matches ChecksumSource::Binary(b) && b@ == w
                    }
                },
            },
    {
        let path = self.get_wasm_code_path(artifacts_dir)?;
        if contains_str(path.as_str(), "artifacts") {
            let mut manifest = dir_prefix_of(path.as_str()).to_owned();
            manifest.append("checksums.txt");
            Ok(ChecksumSource::Manifest(manifest))
        } else {
            Ok(ChecksumSource::Binary(path))
        }
    }

    /// The checksum of this code for the artifact `id`, from what was read at
    /// its `checksum_source`: the hash that the manifest gives for the part of
    /// `id` after its last `:`, or the SHA-256 digest of the binary.
    pub fn checksum(&self, id: &String, artifact: &LocalArtifact) -> (r: Result<String, BootError>)
        ensures
            match checksum_of(*artifact, id@) {
                Some(h) => r is Ok && r->Ok_0@ == h,
                None => r is Err && r->Err_0 is Checksum,
            },
    {
        match artifact {
            LocalArtifact::Manifest(c) => {
                let name = local_name_of(id.as_str());
                match manifest_hash(c.as_str(), name) {
                    Some(h) => Ok(h),
                    None => Err(BootError::Checksum("no manifest line matches the artifact".to_owned())),
                }
            },
            LocalArtifact::Binary(b) => Ok(digest_hex(b)),
        }
    }
}

} // verus!
