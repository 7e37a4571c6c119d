//! The fetch orchestrator.
//!
//! A [`Fetch`] is one cache-and-fetch session for one named asset,
//! driven as a state machine. The caller performs the filesystem and
//! network work each [`Step`] asks for and reports the outcome; the
//! machine decides what comes next. Every digest comparison happens in
//! here, before an install is ever asked for: whenever the step is
//! [`Step::Install`], the downloaded bytes were verified against the
//! registry's expected hash, and the bytes to install are those bytes,
//! decompressed when the entry is compressed.
//!
//! Publication itself is the caller's single atomic rename of a fully
//! written sibling temporary file onto the cache path, so a concurrent
//! reader never observes a partial file; the machine never asks for an
//! in-place mutation of the cache path.

use vstd::prelude::*;
use vstd::string::StringExecFns;

use crate::Error;
use crate::codec::{decompress_zstd, zstd_ok_of, zstd_plain_of};
use crate::digest::{digest_matches, sha256_of, spec_digest_matches};
use crate::hex::hex_of;
use crate::paths::{cached_path, spec_cached_path};
use crate::registry::{Registry, lemma_lookup_some_iff_contains, spec_contains_name, spec_lookup};
use crate::test_file::{Compression, TestFile, spec_real_file_name};

verus! {

/// What the caller is asked to do next.
pub enum Step {
    /// Ask whether a file already exists at the cache path.
    Probe {
        /// the cache path to probe
        path: String,
    },
    /// Download the asset and hand back the response bytes.
    Get {
        /// the URL to fetch
        url: String,
    },
    /// Atomically publish `bytes` at the cache path: write them to a
    /// temporary file beside the destination and rename it into place.
    Install {
        /// the cache path to publish at
        path: String,
        /// the verified content to publish
        bytes: Vec<u8>,
    },
    /// The session succeeded: the asset is at the cache path.
    Done {
        /// the cache path of the asset
        path: String,
    },
    /// The session failed.
    Fail {
        /// why it failed
        error: Error,
    },
}

/// One cache-and-fetch session for one named asset.
pub struct Fetch {
    /// the registry entry being fetched
    pub entry: TestFile,
    /// the cache path the asset will be published at
    pub dest: String,
    /// the URL the asset's stored bytes are downloaded from
    pub url: String,
    /// whether Zstandard decompression is available in this process
    pub zstd_enabled: bool,
    /// what the caller is asked to do next
    pub step: Step,
    /// the downloaded (wire) bytes, as verified
    pub wire: Ghost<Seq<u8>>,
}

/// The bytes a verified download installs: the wire bytes themselves,
/// or their decompression when the entry is compressed.
pub open spec fn spec_plain_bytes(c: Compression, wire: Seq<u8>) -> Seq<u8> {
    match c {
        Compression::Uncompressed => wire,
        Compression::Zstd => zstd_plain_of(wire),
    }
}

/// The bytes an [`Step::Install`] step asks to publish.
pub open spec fn spec_install_bytes(s: Step) -> Seq<u8> {
    match s {
        Step::Install { path, bytes } => bytes@,
        _ => Seq::<u8>::empty(),
    }
}

/// The cache path an [`Step::Install`] step asks to publish at.
pub open spec fn spec_install_path(s: Step) -> Seq<char> {
    match s {
        Step::Install { path, bytes } => path@,
        _ => Seq::<char>::empty(),
    }
}

impl Fetch {
    /// The session's internal invariant: the paths and URL a step
    /// carries are the session's own, and an install step only ever
    /// carries content whose wire bytes were verified against the
    /// entry's expected hash.
    pub open spec fn wf(self) -> bool {
        match self.step {
            Step::Probe { path } => path@ == self.dest@,
            Step::Get { url } => url@ == self.url@,
            Step::Install { path, bytes } => {
                &&& path@ == self.dest@
                &&& spec_digest_matches(self.wire@, self.entry.hash@)
                &&& bytes@ == spec_plain_bytes(self.entry.compression, self.wire@)
            },
            Step::Done { path } => path@ == self.dest@,
            Step::Fail { error } => true,
        }
    }
}

/// What [`Fetch::start`] establishes of a session it returns: the
/// entry is the registry's entry for the name; the cache path joins
/// the cache root and the name; the URL joins the base URL and the
/// entry's remote name; and the first step probes the cache path.
pub open spec fn spec_started(
    reg: Seq<TestFile>,
    cache_root: Seq<char>,
    base: Seq<char>,
    name: Seq<char>,
    zstd_enabled: bool,
    f: Fetch,
) -> bool {
    &&& spec_lookup(reg, name) == Some(f.entry)
    &&& f.dest@ == spec_cached_path(cache_root, name)
    &&& f.url@ == base + spec_real_file_name(f.entry)
    &&& f.zstd_enabled == zstd_enabled
    &&& f.step matches Step::Probe { path } && path@ == f.dest@
}

/// What [`Fetch::on_probe`] establishes: a hit finishes the session at
/// the cache path at once; a miss asks for the download, and nothing
/// else.
pub open spec fn spec_probed(pre: Fetch, exists: bool, post: Fetch) -> bool {
    &&& post.entry == pre.entry
    &&& post.dest == pre.dest
    &&& post.url == pre.url
    &&& post.zstd_enabled == pre.zstd_enabled
    &&& if exists {
        post.step matches Step::Done { path } && path@ == pre.dest@
    } else {
        post.step matches Step::Get { url } && url@ == pre.url@
    }
}

/// What [`Fetch::on_response`] establishes. A transport failure fails
/// the session with [`Error::Download`], carrying the attempted URL. A
/// response whose digest does not match the expected hash fails with
/// [`Error::InvalidHash`]; no install is asked for. A verified
/// response asks for an install of the response bytes themselves when
/// the entry is uncompressed; of their decompression when it is
/// Zstandard-compressed, decompression is available and the bytes are
/// a decodable frame; fails with [`Error::Io`] exactly when they are
/// not decodable; and fails with [`Error::ZstdRequired`] when
/// decompression is not available.
pub open spec fn spec_responded(pre: Fetch, response: Result<Vec<u8>, String>, post: Fetch) -> bool {
    &&& post.entry == pre.entry
    &&& post.dest == pre.dest
    &&& post.url == pre.url
    &&& post.zstd_enabled == pre.zstd_enabled
    &&& match response {
        Err(m) => post.step matches Step::Fail { error } && error matches Error::Download(d)
            && d@ == "Failed to download "@ + pre.url@ + ": "@ + m@,
        Ok(bytes) => if !spec_digest_matches(bytes@, pre.entry.hash@) {
            post.step matches Step::Fail { error } && error is InvalidHash
        } else {
            &&& post.wire@ == bytes@
            &&& match pre.entry.compression {
                Compression::Uncompressed => post.step matches Step::Install {
                    path,
                    bytes: installed,
                } && path@ == pre.dest@ && installed@ == bytes@,
                Compression::Zstd => if !pre.zstd_enabled {
                    post.step matches Step::Fail { error } && error is ZstdRequired
                } else if zstd_ok_of(bytes@) {
                    post.step matches Step::Install { path, bytes: installed }
                        && path@ == pre.dest@ && installed@ == zstd_plain_of(bytes@)
                } else {
                    post.step matches Step::Fail { error } && error is Io
                },
            }
        },
    }
}

/// What [`Fetch::on_installed`] establishes: a successful install
/// finishes the session at the cache path; a failed one fails it with
/// [`Error::Io`], described.
pub open spec fn spec_installed(pre: Fetch, result: Result<(), String>, post: Fetch) -> bool {
    &&& post.entry == pre.entry
    &&& post.dest == pre.dest
    &&& post.url == pre.url
    &&& post.zstd_enabled == pre.zstd_enabled
    &&& match result {
        Ok(u) => post.step matches Step::Done { path } && path@ == pre.dest@,
        Err(m) => post.step matches Step::Fail { error } && error matches Error::Io(d) && d@ == m@,
    }
}

impl Fetch {
    /// Begin a session for `name`: look it up in the registry, failing
    /// fast with [`Error::NotFound`] for an unregistered name — before
    /// any network or filesystem step is asked for — and resolve the
    /// cache path and the download URL.
    pub fn start(
        registry: &Registry,
        cache_root: &str,
        base: &str,
        name: &str,
        zstd_enabled: bool,
    ) -> (r: Result<Fetch, Error>)
        ensures
            (r is Ok) == spec_contains_name(registry@, name@),
            (r matches Ok(f) ==> f.wf() && spec_started(
                registry@,
                cache_root@,
                base@,
                name@,
                zstd_enabled,
                f,
            )),
            r matches Err(e) ==> e is NotFound,
    {
        proof {
            lemma_lookup_some_iff_contains(registry@, name@);
        }
        match registry.lookup(name) {
            None => Err(Error::NotFound),
            Some(found) => {
                let entry = found.clone();
                let dest = cached_path(cache_root, name);
                let remote = entry.real_file_name();
                let url = base.to_owned().concat(remote.as_str());
                let probe_path = dest.clone();
                Ok(
                    Fetch {
                        entry,
                        dest,
                        url,
                        zstd_enabled,
                        step: Step::Probe { path: probe_path },
                        wire: Ghost(Seq::<u8>::empty()),
                    },
                )
            },
        }
    }

    /// Report whether a file already exists at the cache path. A hit
    /// finishes the session at once — its content is presumed valid
    /// and is not re-verified — and a miss asks for the download.
    pub fn on_probe(self, exists: bool) -> (r: Fetch)
        requires
            self.step is Probe,
            self.wf(),
        ensures
            r.wf(),
            spec_probed(self, exists, r),
    {
        let Fetch { entry, dest, url, zstd_enabled, step: _, wire } = self;
        if exists {
            let path = dest.clone();
            Fetch { entry, dest, url, zstd_enabled, step: Step::Done { path }, wire }
        } else {
            let get_url = url.clone();
            Fetch { entry, dest, url, zstd_enabled, step: Step::Get { url: get_url }, wire }
        }
    }

    /// Report the download's outcome: the response bytes, or the
    /// transport error, described. The response is verified against
    /// the entry's expected hash — the digest covers the stored (wire)
    /// bytes, before any decompression — and only verified content can
    /// reach an install step.
    pub fn on_response(self, response: Result<Vec<u8>, String>) -> (r: Fetch)
        requires
            self.step is Get,
            self.wf(),
        ensures
            r.wf(),
            spec_responded(self, response, r),
    {
        let Fetch { entry, dest, url, zstd_enabled, step: _, wire } = self;
        match response {
            Err(m) => {
                let detail = String::from_str("Failed to download ").concat(url.as_str()).concat(
                    ": ",
                ).concat(m.as_str());
                Fetch {
                    entry,
                    dest,
                    url,
                    zstd_enabled,
                    step: Step::Fail { error: Error::Download(detail) },
                    wire,
                }
            },
            Ok(bytes) => {
                if !digest_matches(&bytes, entry.hash.as_str()) {
                    Fetch {
                        entry,
                        dest,
                        url,
                        zstd_enabled,
                        step: Step::Fail { error: Error::InvalidHash },
                        wire,
                    }
                } else {
                    let verified_wire: Ghost<Seq<u8>> = Ghost(bytes@);
                    match entry.compression {
                        Compression::Uncompressed => {
                            let path = dest.clone();
                            Fetch {
                                entry,
                                dest,
                                url,
                                zstd_enabled,
                                step: Step::Install { path, bytes },
                                wire: verified_wire,
                            }
                        },
                        Compression::Zstd => {
                            if !zstd_enabled {
                                Fetch {
                                    entry,
                                    dest,
                                    url,
                                    zstd_enabled,
                                    step: Step::Fail { error: Error::ZstdRequired },
                                    wire: verified_wire,
                                }
                            } else {
                                match decompress_zstd(&bytes) {
                                    Ok(plain) => {
                                        let path = dest.clone();
                                        Fetch {
                                            entry,
                                            dest,
                                            url,
                                            zstd_enabled,
                                            step: Step::Install { path, bytes: plain },
                                            wire: verified_wire,
                                        }
                                    },
                                    Err(m) => Fetch {
                                        entry,
                                        dest,
                                        url,
                                        zstd_enabled,
                                        step: Step::Fail { error: Error::Io(m) },
                                        wire: verified_wire,
                                    },
                                }
                            }
                        },
                    }
                }
            },
        }
    }

    /// Report the install's outcome: the session finishes at the cache
    /// path, or fails with the filesystem error, described.
    pub fn on_installed(self, result: Result<(), String>) -> (r: Fetch)
        requires
            self.step is Install,
            self.wf(),
        ensures
            r.wf(),
            spec_installed(self, result, r),
    {
        let Fetch { entry, dest, url, zstd_enabled, step: _, wire } = self;
        match result {
            Ok(_) => {
                let path = dest.clone();
                Fetch { entry, dest, url, zstd_enabled, step: Step::Done { path }, wire }
            },
            Err(m) => Fetch {
                entry,
                dest,
                url,
                zstd_enabled,
                step: Step::Fail { error: Error::Io(m) },
                wire,
            },
        }
    }
}

/// Law: a session exists only for registered names. An unregistered
/// name is refused with [`Error::NotFound`] by [`Fetch::start`] itself,
/// before any probe, download or install step is ever issued.
pub proof fn lemma_only_registered_names_fetched(
    reg: Seq<TestFile>,
    cache_root: Seq<char>,
    base: Seq<char>,
    name: Seq<char>,
    zstd_enabled: bool,
    f: Fetch,
)
    requires
        spec_started(reg, cache_root, base, name, zstd_enabled, f),
    ensures
        spec_contains_name(reg, name),
{
    lemma_lookup_some_iff_contains(reg, name);
}

/// Law: an install step only ever carries verified content: the
/// downloaded bytes' SHA-256 digest, in lowercase hexadecimal, equals
/// the entry's expected hash, and the bytes to install are those
/// downloaded bytes, decompressed when the entry is compressed.
pub proof fn lemma_install_only_verified(f: Fetch)
    requires
        f.wf(),
        f.step is Install,
    ensures
        spec_digest_matches(f.wire@, f.entry.hash@),
        spec_install_bytes(f.step) == spec_plain_bytes(f.entry.compression, f.wire@),
        spec_install_path(f.step) == f.dest@,
{
}

/// Law (idempotence): sessions begun with the same registry, cache
/// root and name resolve the identical cache path and entry, and a
/// session that finds the cache already populated finishes at that
/// path at once, asking for no download.
pub proof fn lemma_repeat_fetch_same_path(
    reg: Seq<TestFile>,
    cache_root: Seq<char>,
    base1: Seq<char>,
    base2: Seq<char>,
    name: Seq<char>,
    z1: bool,
    z2: bool,
    f1: Fetch,
    f2: Fetch,
    hit: Fetch,
)
    requires
        spec_started(reg, cache_root, base1, name, z1, f1),
        spec_started(reg, cache_root, base2, name, z2, f2),
        spec_probed(f2, true, hit),
    ensures
        f1.dest@ == f2.dest@,
        f1.entry == f2.entry,
        hit.step matches Step::Done { path } && path@ == f1.dest@,
        !(hit.step is Get),
        !(hit.step is Install),
{
}

/// Law (concurrency): two sessions for entries with the same expected
/// hash and compression that both reached an install step were both
/// verified against that same hash; and when their downloads returned
/// the same bytes, the contents they install are byte-identical. Each
/// install is published by one atomic rename, so whichever lands last,
/// the cache path holds verified content.
pub proof fn lemma_concurrent_installs_agree(a: Fetch, b: Fetch)
    requires
        a.wf(),
        b.wf(),
        a.step is Install,
        b.step is Install,
        a.entry.hash@ == b.entry.hash@,
        a.entry.compression == b.entry.compression,
    ensures
        hex_of(sha256_of(a.wire@)) == a.entry.hash@,
        hex_of(sha256_of(b.wire@)) == a.entry.hash@,
        a.wire@ == b.wire@ ==> spec_install_bytes(a.step) == spec_install_bytes(b.step),
{
}

/// Law (tamper detection): a response whose bytes do not match the
/// entry's expected digest is rejected: the session fails with
/// [`Error::InvalidHash`] and never asks for an install, so nothing is
/// published at the cache path.
pub proof fn lemma_tampered_download_rejected(pre: Fetch, bytes: Vec<u8>, post: Fetch)
    requires
        spec_responded(pre, Ok(bytes), post),
        !spec_digest_matches(bytes@, pre.entry.hash@),
    ensures
        post.step matches Step::Fail { error } && error is InvalidHash,
        !(post.step is Install),
{
}

/// Law: verification covers the stored (wire) bytes: for a compressed
/// entry that reaches an install, the digest compared is that of the
/// bytes as downloaded — before decompression — and the bytes
/// installed are their decompression, whose own digest is not
/// consulted.
pub proof fn lemma_wire_bytes_verified(pre: Fetch, bytes: Vec<u8>, post: Fetch)
    requires
        pre.entry.compression is Zstd,
        spec_responded(pre, Ok(bytes), post),
        post.step is Install,
    ensures
        spec_digest_matches(bytes@, pre.entry.hash@),
        spec_install_bytes(post.step) == zstd_plain_of(bytes@),
{
}

/// Law: success is owed to a verified response. A response whose bytes
/// match the entry's expected digest always reaches an install step —
/// of the bytes themselves for an uncompressed entry; of their
/// decompression for a compressed one, provided decompression is
/// available and the bytes are a decodable frame — at the session's
/// cache path.
pub proof fn lemma_verified_response_installs(pre: Fetch, bytes: Vec<u8>, post: Fetch)
    requires
        spec_responded(pre, Ok(bytes), post),
        spec_digest_matches(bytes@, pre.entry.hash@),
        pre.entry.compression is Zstd ==> pre.zstd_enabled && zstd_ok_of(bytes@),
    ensures
        post.step is Install,
        spec_install_path(post.step) == pre.dest@,
        spec_install_bytes(post.step) == spec_plain_bytes(pre.entry.compression, bytes@),
{
}

/// Law: a fresh fetch of a registered name succeeds end to end. On a
/// cache miss, a download whose bytes match the registry's expected
/// digest — a decodable frame, when the entry is compressed and
/// decompression is available — is installed, and the session ends at
/// the cache path of the requested name with the bytes' plain form
/// published there.
pub proof fn lemma_fresh_fetch_verified(
    reg: Seq<TestFile>,
    cache_root: Seq<char>,
    base: Seq<char>,
    name: Seq<char>,
    zstd_enabled: bool,
    started: Fetch,
    missed: Fetch,
    bytes: Vec<u8>,
    verified: Fetch,
    done: Fetch,
)
    requires
        spec_started(reg, cache_root, base, name, zstd_enabled, started),
        spec_probed(started, false, missed),
        spec_responded(missed, Ok(bytes), verified),
        spec_digest_matches(bytes@, spec_lookup(reg, name)->Some_0.hash@),
        spec_lookup(reg, name)->Some_0.compression is Zstd ==> zstd_enabled && zstd_ok_of(
            bytes@,
        ),
        spec_installed(verified, Ok(()), done),
    ensures
        verified.step is Install,
        spec_install_bytes(verified.step) == spec_plain_bytes(
            spec_lookup(reg, name)->Some_0.compression,
            bytes@,
        ),
        done.step matches Step::Done { path } && path@ == spec_cached_path(cache_root, name),
{
}

} // verus!
