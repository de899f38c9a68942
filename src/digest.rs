//! The streaming digest engines of rust-crypto, with contracts over what each
//! engine has absorbed since it was created or last reset.
use vstd::prelude::*;

use crypto::digest::Digest;
use crypto::md5::Md5;
use crypto::sha1::Sha1;
use crypto::sha2::{Sha256, Sha512};

verus! {

/// The largest number of bytes that one engine absorbs between two resets:
/// the SHA engines count the absorbed length in bits in a `u64` and panic
/// once that count would overflow.
pub const MAX_ABSORBED: u64 = 0x1fff_ffff_ffff_ffff;

/// True when every character of `s` is a lowercase hexadecimal digit.
pub open spec fn is_lower_hex(s: Seq<char>) -> bool {
    forall|i: int| 0 <= i < s.len() ==> {
        let c = #[trigger] s[i];
        ('0' <= c && c <= '9') || ('a' <= c && c <= 'f')
    }
}

#[verifier::external_type_specification]
#[verifier::external_body]
pub struct ExMd5(Md5);

/// The bytes that an MD5 engine has absorbed since it was created or reset.
pub uninterp spec fn md5_absorbed(h: Md5) -> Seq<u8>;

/// Whether an MD5 engine has produced its result and awaits a reset.
pub uninterp spec fn md5_finished(h: Md5) -> bool;

/// The lowercase hexadecimal MD5 digest of `data`.
pub uninterp spec fn md5_hex(data: Seq<u8>) -> Seq<char>;

/// Relies on `Md5::new`: a fresh engine has absorbed nothing.
#[verifier::external_body]
pub(crate) fn md5_new() -> (r: Md5)
    ensures
        md5_absorbed(r) == Seq::<u8>::empty(),
        !md5_finished(r),
{
    Md5::new()
}

/// Relies on `<Md5 as Digest>::input`: appends the bytes to what the engine
/// has absorbed; it asserts that the engine is not finished, and panics
/// when the absorbed length overflows its counter.
#[verifier::external_body]
pub(crate) fn md5_input(h: &mut Md5, data: &[u8])
    requires
        !md5_finished(*old(h)),
        md5_absorbed(*old(h)).len() + data@.len() <= MAX_ABSORBED,
    ensures
        md5_absorbed(*final(h)) == md5_absorbed(*old(h)) + data@,
        !md5_finished(*final(h)),
{
    h.input(data)
}

/// Relies on `<Md5 as Digest>::reset`: the engine forgets what it absorbed.
#[verifier::external_body]
pub(crate) fn md5_reset(h: &mut Md5)
    ensures
        md5_absorbed(*final(h)) == Seq::<u8>::empty(),
        !md5_finished(*final(h)),
{
    h.reset()
}

/// Relies on `<Md5 as Digest>::result_str`: finishes the engine and returns
/// its digest as lowercase hexadecimal; a finished engine returns the same
/// digest again.
#[verifier::external_body]
pub(crate) fn md5_result_str(h: &mut Md5) -> (r: String)
    ensures
        r@ == md5_hex(md5_absorbed(*old(h))),
        is_lower_hex(r@),
        md5_absorbed(*final(h)) == md5_absorbed(*old(h)),
        md5_finished(*final(h)),
{
    h.result_str()
}

#[verifier::external_type_specification]
#[verifier::external_body]
pub struct ExSha1(Sha1);

/// The bytes that an SHA-1 engine has absorbed since it was created or reset.
pub uninterp spec fn sha1_absorbed(h: Sha1) -> Seq<u8>;

/// Whether an SHA-1 engine has produced its result and awaits a reset.
pub uninterp spec fn sha1_finished(h: Sha1) -> bool;

/// The lowercase hexadecimal SHA-1 digest of `data`.
pub uninterp spec fn sha1_hex(data: Seq<u8>) -> Seq<char>;

/// Relies on `Sha1::new`: a fresh engine has absorbed nothing.
#[verifier::external_body]
pub(crate) fn sha1_new() -> (r: Sha1)
    ensures
        sha1_absorbed(r) == Seq::<u8>::empty(),
        !sha1_finished(r),
{
    Sha1::new()
}

/// Relies on `<Sha1 as Digest>::input`: appends the bytes to what the engine
/// has absorbed; it asserts that the engine is not finished, and panics
/// when the absorbed length overflows its counter.
#[verifier::external_body]
pub(crate) fn sha1_input(h: &mut Sha1, data: &[u8])
    requires
        !sha1_finished(*old(h)),
        sha1_absorbed(*old(h)).len() + data@.len() <= MAX_ABSORBED,
    ensures
        sha1_absorbed(*final(h)) == sha1_absorbed(*old(h)) + data@,
        !sha1_finished(*final(h)),
{
    h.input(data)
}

/// Relies on `<Sha1 as Digest>::reset`: the engine forgets what it absorbed.
#[verifier::external_body]
pub(crate) fn sha1_reset(h: &mut Sha1)
    ensures
        sha1_absorbed(*final(h)) == Seq::<u8>::empty(),
        !sha1_finished(*final(h)),
{
    h.reset()
}

/// Relies on `<Sha1 as Digest>::result_str`: finishes the engine and returns
/// its digest as lowercase hexadecimal; a finished engine returns the same
/// digest again.
#[verifier::external_body]
pub(crate) fn sha1_result_str(h: &mut Sha1) -> (r: String)
    ensures
        r@ == sha1_hex(sha1_absorbed(*old(h))),
        is_lower_hex(r@),
        sha1_absorbed(*final(h)) == sha1_absorbed(*old(h)),
        sha1_finished(*final(h)),
{
    h.result_str()
}

#[verifier::external_type_specification]
#[verifier::external_body]
pub struct ExSha256(Sha256);

/// The bytes that an SHA-256 engine has absorbed since it was created or reset.
pub uninterp spec fn sha256_absorbed(h: Sha256) -> Seq<u8>;

/// Whether an SHA-256 engine has produced its result and awaits a reset.
pub uninterp spec fn sha256_finished(h: Sha256) -> bool;

/// The lowercase hexadecimal SHA-256 digest of `data`.
pub uninterp spec fn sha256_hex(data: Seq<u8>) -> Seq<char>;

/// Relies on `Sha256::new`: a fresh engine has absorbed nothing.
#[verifier::external_body]
pub(crate) fn sha256_new() -> (r: Sha256)
    ensures
        sha256_absorbed(r) == Seq::<u8>::empty(),
        !sha256_finished(r),
{
    Sha256::new()
}

/// Relies on `<Sha256 as Digest>::input`: appends the bytes to what the engine
/// has absorbed; it asserts that the engine is not finished, and panics
/// when the absorbed length overflows its counter.
#[verifier::external_body]
pub(crate) fn sha256_input(h: &mut Sha256, data: &[u8])
    requires
        !sha256_finished(*old(h)),
        sha256_absorbed(*old(h)).len() + data@.len() <= MAX_ABSORBED,
    ensures
        sha256_absorbed(*final(h)) == sha256_absorbed(*old(h)) + data@,
        !sha256_finished(*final(h)),
{
    h.input(data)
}

/// Relies on `<Sha256 as Digest>::reset`: the engine forgets what it absorbed.
#[verifier::external_body]
pub(crate) fn sha256_reset(h: &mut Sha256)
    ensures
        sha256_absorbed(*final(h)) == Seq::<u8>::empty(),
        !sha256_finished(*final(h)),
{
    h.reset()
}

/// Relies on `<Sha256 as Digest>::result_str`: finishes the engine and returns
/// its digest as lowercase hexadecimal; a finished engine returns the same
/// digest again.
#[verifier::external_body]
pub(crate) fn sha256_result_str(h: &mut Sha256) -> (r: String)
    ensures
        r@ == sha256_hex(sha256_absorbed(*old(h))),
        is_lower_hex(r@),
        sha256_absorbed(*final(h)) == sha256_absorbed(*old(h)),
        sha256_finished(*final(h)),
{
    h.result_str()
}

#[verifier::external_type_specification]
#[verifier::external_body]
pub struct ExSha512(Sha512);

/// The bytes that an SHA-512 engine has absorbed since it was created or reset.
pub uninterp spec fn sha512_absorbed(h: Sha512) -> Seq<u8>;

/// Whether an SHA-512 engine has produced its result and awaits a reset.
pub uninterp spec fn sha512_finished(h: Sha512) -> bool;

/// The lowercase hexadecimal SHA-512 digest of `data`.
pub uninterp spec fn sha512_hex(data: Seq<u8>) -> Seq<char>;

/// Relies on `Sha512::new`: a fresh engine has absorbed nothing.
#[verifier::external_body]
pub(crate) fn sha512_new() -> (r: Sha512)
    ensures
        sha512_absorbed(r) == Seq::<u8>::empty(),
        !sha512_finished(r),
{
    Sha512::new()
}

/// Relies on `<Sha512 as Digest>::input`: appends the bytes to what the engine
/// has absorbed; it asserts that the engine is not finished, and panics
/// when the absorbed length overflows its counter.
#[verifier::external_body]
pub(crate) fn sha512_input(h: &mut Sha512, data: &[u8])
    requires
        !sha512_finished(*old(h)),
        sha512_absorbed(*old(h)).len() + data@.len() <= MAX_ABSORBED,
    ensures
        sha512_absorbed(*final(h)) == sha512_absorbed(*old(h)) + data@,
        !sha512_finished(*final(h)),
{
    h.input(data)
}

/// Relies on `<Sha512 as Digest>::reset`: the engine forgets what it absorbed.
#[verifier::external_body]
pub(crate) fn sha512_reset(h: &mut Sha512)
    ensures
        sha512_absorbed(*final(h)) == Seq::<u8>::empty(),
        !sha512_finished(*final(h)),
{
    h.reset()
}

/// Relies on `<Sha512 as Digest>::result_str`: finishes the engine and returns
/// its digest as lowercase hexadecimal; a finished engine returns the same
/// digest again.
#[verifier::external_body]
pub(crate) fn sha512_result_str(h: &mut Sha512) -> (r: String)
    ensures
        r@ == sha512_hex(sha512_absorbed(*old(h))),
        is_lower_hex(r@),
        sha512_absorbed(*final(h)) == sha512_absorbed(*old(h)),
        sha512_finished(*final(h)),
{
    h.result_str()
}

} // verus!
