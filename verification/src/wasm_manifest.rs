//! The audio manifest a WebAssembly plugin exposes in its linear memory:
//! three little-endian channel and parameter counts followed by three
//! NUL-padded UTF-8 texts (name, vendor, stable id).
use vstd::prelude::*;
use vstd::utf8::{decode_utf8, valid_utf8};
use crate::error::Error;
use crate::stream_host::{first_index, lemma_first_index};

verus! {

/// The byte size of a manifest: an 8-byte count header, then 64 bytes of
/// name, 32 of vendor and 64 of stable id.
pub const WASM_MANIFEST_SIZE: usize = 168;

/// The decoded audio manifest of a WebAssembly plugin.
pub struct WasmAudioManifest {
    /// Declared audio input channels.
    pub audio_in_channels: u16,
    /// Declared audio output channels.
    pub audio_out_channels: u16,
    /// Declared parameters.
    pub param_count: u16,
    /// The plugin name.
    pub name: String,
    /// The vendor name.
    pub vendor: String,
    /// The stable plugin id.
    pub stable_id: String,
}

/// The little-endian 16-bit word at `at`.
pub open spec fn le_word(bytes: Seq<u8>, at: int) -> u16 {
    (bytes[at] + 256 * bytes[at + 1]) as u16
}

/// A zero byte.
pub open spec fn is_nul(b: u8) -> bool {
    b == 0
}

/// The bytes of a NUL-padded field up to its first zero byte.
pub open spec fn nul_trimmed(raw: Seq<u8>) -> Seq<u8> {
    match first_index(raw, |b: u8| is_nul(b)) {
        Some(i) => raw.take(i),
        None => raw,
    }
}

/// The text bytes of the field of `len` bytes at `from`.
pub open spec fn manifest_field(bytes: Seq<u8>, from: int, len: int) -> Seq<u8> {
    nul_trimmed(bytes.subrange(from, from + len))
}

/// The name, vendor and stable id fields.
pub open spec fn manifest_name(bytes: Seq<u8>) -> Seq<u8> {
    manifest_field(bytes, 8, 64)
}

/// The vendor field.
pub open spec fn manifest_vendor(bytes: Seq<u8>) -> Seq<u8> {
    manifest_field(bytes, 72, 32)
}

/// The stable id field.
pub open spec fn manifest_stable_id(bytes: Seq<u8>) -> Seq<u8> {
    manifest_field(bytes, 104, 64)
}

/// A manifest of the right size whose three texts are UTF-8.
pub open spec fn manifest_bytes_accepted(bytes: Seq<u8>) -> bool {
    &&& bytes.len() == WASM_MANIFEST_SIZE
    &&& valid_utf8(manifest_name(bytes))
    &&& valid_utf8(manifest_vendor(bytes))
    &&& valid_utf8(manifest_stable_id(bytes))
}

/// Decodes `bytes` as UTF-8 with `std::str::from_utf8`.
///
/// Trusted: std documents that `from_utf8` succeeds exactly on valid UTF-8
/// and that the text it yields is the one the bytes encode, which are
/// vstd's `valid_utf8` and `decode_utf8`.
#[verifier::external_body]
fn utf8_text(bytes: &[u8]) -> (res: Option<String>)
    ensures
        res is Some <==> valid_utf8(bytes@),
        res matches Some(s) ==> s@ == decode_utf8(bytes@),
{
    match std::str::from_utf8(bytes) {
        Ok(s) => Some(s.to_owned()),
        Err(_) => None,
    }
}

/// Reads the little-endian word at `at`.
fn read_word(bytes: &[u8], at: usize) -> (res: u16)
    requires
        at + 1 < bytes@.len(),
    ensures
        res == le_word(bytes@, at as int),
{
    (bytes[at] as u16) + (bytes[at + 1] as u16) * 256
}

/// Copies the field of `len` bytes at `from` up to its first zero byte.
fn field_bytes(bytes: &[u8], from: usize, len: usize) -> (res: Vec<u8>)
    requires
        from + len <= bytes@.len(),
    ensures
        res@ == manifest_field(bytes@, from as int, len as int),
{
    let ghost raw = bytes@.subrange(from as int, from + len);
    assert(from + len <= usize::MAX) by {
        assert(bytes@.len() == bytes.len());
    }
    let mut out: Vec<u8> = Vec::new();
    let mut i: usize = 0;
    while i < len && bytes[from + i] != 0
        invariant
            from + len <= bytes@.len(),
            from + len <= usize::MAX,
            raw == bytes@.subrange(from as int, from + len),
            i <= len,
            out@ == raw.take(i as int),
            forall|j: int| 0 <= j < i ==> !is_nul(#[trigger] raw[j]),
        decreases len - i,
    {
        out.push(bytes[from + i]);
        assert(out@ =~= raw.take(i + 1));
        i = i + 1;
    }
    proof {
        lemma_first_index(raw, |b: u8| is_nul(b), i as int);
        if i == len {
            assert(raw.take(i as int) =~= raw);
        }
    }
    out
}

/// Decodes the field of `len` bytes at `from` as UTF-8 text.
fn field_text(bytes: &[u8], from: usize, len: usize) -> (res: Option<String>)
    requires
        from + len <= bytes@.len(),
    ensures
        res is Some <==> valid_utf8(manifest_field(bytes@, from as int, len as int)),
        res matches Some(s) ==> s@ == decode_utf8(manifest_field(bytes@, from as int, len as int)),
{
    let raw = field_bytes(bytes, from, len);
    utf8_text(raw.as_slice())
}

impl WasmAudioManifest {
    /// Decodes a manifest: the bytes must be exactly a manifest long, and
    /// each text, cut at its first zero byte, must be UTF-8.
    pub fn from_bytes(bytes: &[u8]) -> (res: Result<WasmAudioManifest, Error>)
        ensures
            res is Ok <==> manifest_bytes_accepted(bytes@),
            bytes@.len() != WASM_MANIFEST_SIZE ==> (res matches Err(e) && e is Eval && e->Eval_0@
                == "wasm manifest has the wrong size"@),
            bytes@.len() == WASM_MANIFEST_SIZE && !manifest_bytes_accepted(bytes@) ==> (res matches Err(
                e,
            ) && e is Eval && e->Eval_0@ == "wasm manifest text is not UTF-8"@),
            res matches Ok(m) ==> {
                &&& m.audio_in_channels == le_word(bytes@, 0)
                &&& m.audio_out_channels == le_word(bytes@, 2)
                &&& m.param_count == le_word(bytes@, 4)
                &&& m.name@ == decode_utf8(manifest_name(bytes@))
                &&& m.vendor@ == decode_utf8(manifest_vendor(bytes@))
                &&& m.stable_id@ == decode_utf8(manifest_stable_id(bytes@))
            },
    {
        if bytes.len() != WASM_MANIFEST_SIZE {
            return Err(Error::eval("wasm manifest has the wrong size"));
        }
        let name = field_text(bytes, 8, 64);
        let vendor = field_text(bytes, 72, 32);
        let stable_id = field_text(bytes, 104, 64);
        match (name, vendor, stable_id) {
            (Some(name), Some(vendor), Some(stable_id)) => Ok(
                WasmAudioManifest {
                    audio_in_channels: read_word(bytes, 0),
                    audio_out_channels: read_word(bytes, 2),
                    param_count: read_word(bytes, 4),
                    name,
                    vendor,
                    stable_id,
                },
            ),
            _ => Err(Error::eval("wasm manifest text is not UTF-8")),
        }
    }
}

} // verus!
