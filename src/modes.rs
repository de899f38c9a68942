//! What each mode does with the contents of a file.
use vstd::prelude::*;

use crate::checksum::{file_ext_of, type_label, Algorithm, Checksum, ChecksumView};
use crate::digest::{is_lower_hex, MAX_ABSORBED};
use crate::text::{same_text, trim, trim_end_spec, trim_spec, trim_start_spec};

verus! {

/// Resets every checksum and feeds it `bytes`.
pub fn digest_all(checksums: &mut Vec<Checksum>, bytes: &[u8])
    requires
        bytes@.len() <= MAX_ABSORBED,
    ensures
        final(checksums).len() == old(checksums).len(),
        forall|i: int|
            0 <= i < final(checksums).len() ==> (#[trigger] final(checksums)[i])@ == (ChecksumView {
                algorithm: old(checksums)[i]@.algorithm,
                absorbed: bytes@,
                finished: false,
            }),
{
    let n: usize = checksums.len();
    let mut i: usize = 0;
    while i < n
        invariant
            n == checksums.len(),
            n == old(checksums).len(),
            i <= n,
            bytes@.len() <= MAX_ABSORBED,
            forall|j: int|
                0 <= j < i ==> (#[trigger] checksums[j])@ == (ChecksumView {
                    algorithm: old(checksums)[j]@.algorithm,
                    absorbed: bytes@,
                    finished: false,
                }),
            forall|j: int| i <= j < n ==> (#[trigger] checksums[j]) == old(checksums)[j],
        decreases n - i,
    {
        checksums[i].reset();
        checksums[i].input(bytes);
        assert(bytes@ =~= Seq::<u8>::empty() + bytes@);
        i = i + 1;
    }
}

/// What reading a sidecar file gave.
pub enum SidecarRead {
    /// The file could not be opened.
    NoFile,
    /// The file was opened but could not be read as text.
    ReadFailed,
    /// The file's text.
    Text(String),
}

/// The outcome of comparing a digest with the one expected.
#[derive(Clone, Copy, Debug, PartialEq, Eq, Structural)]
pub enum Verdict {
    Match,
    Mismatch,
    NoChecksumFile,
    ReadFailed,
}

/// The path of the sidecar file of `path` for `a`: `<path>.<extension>`.
pub open spec fn sidecar_path_spec(path: Seq<char>, a: Algorithm) -> Seq<char> {
    path + seq!['.'] + file_ext_of(a.name_spec())
}

/// The text of a sidecar file that records `digest`: the digest and a newline.
pub open spec fn sidecar_text_spec(digest: Seq<char>) -> Seq<char> {
    digest.push('\n')
}

/// The verdict on a sidecar file that was read as `read`, for the digest `digest`:
/// the trimmed text must equal the digest.
pub open spec fn verdict_of(read: SidecarRead, digest: Seq<char>) -> Verdict {
    match read {
        SidecarRead::NoFile => Verdict::NoChecksumFile,
        SidecarRead::ReadFailed => Verdict::ReadFailed,
        SidecarRead::Text(t) => if trim_spec(t@) == digest {
            Verdict::Match
        } else {
            Verdict::Mismatch
        },
    }
}

/// The verdict when one file is compared with another under `a`.
pub open spec fn compare_verdict(a: Algorithm, first: Seq<u8>, second: Seq<u8>) -> Verdict {
    if a.digest_hex(first) == a.digest_hex(second) {
        Verdict::Match
    } else {
        Verdict::Mismatch
    }
}

pub open spec fn verdict_text_spec(v: Verdict) -> Seq<char> {
    match v {
        Verdict::Match => "OK"@,
        Verdict::Mismatch => "NOT_OK"@,
        Verdict::NoChecksumFile => "No checksum file!"@,
        Verdict::ReadFailed => "Failed to get checksum from file!"@,
    }
}

/// The text that reports `v`.
pub fn verdict_text(v: Verdict) -> (r: &'static str)
    ensures
        r@ == verdict_text_spec(v),
{
    match v {
        Verdict::Match => "OK",
        Verdict::Mismatch => "NOT_OK",
        Verdict::NoChecksumFile => "No checksum file!",
        Verdict::ReadFailed => "Failed to get checksum from file!",
    }
}

/// The verdict on a sidecar file that was read as `read`, for the digest `digest`.
pub fn check_verdict(read: &SidecarRead, digest: &str) -> (r: Verdict)
    ensures
        r == verdict_of(*read, digest@),
{
    match read {
        SidecarRead::NoFile => Verdict::NoChecksumFile,
        SidecarRead::ReadFailed => Verdict::ReadFailed,
        SidecarRead::Text(t) => if same_text(trim(t.as_str()), digest) {
            Verdict::Match
        } else {
            Verdict::Mismatch
        },
    }
}

/// The path of the sidecar file of `path` for `c`'s algorithm.
pub fn sidecar_path(path: &str, c: &Checksum) -> (r: String)
    ensures
        r@ == sidecar_path_spec(path@, c@.algorithm),
{
    let ext = c.get_file_ext();
    proof {
        reveal_strlit(".");
    }
    let r = String::from_str(path).concat(".").concat(ext.as_str());
    assert(r@ =~= sidecar_path_spec(path@, c@.algorithm));
    r
}

/// The text of a sidecar file that records `digest`.
pub fn sidecar_text(digest: &str) -> (r: String)
    ensures
        r@ == sidecar_text_spec(digest@),
{
    proof {
        reveal_strlit("\n");
    }
    let r = String::from_str(digest).concat("\n");
    assert(r@ =~= sidecar_text_spec(digest@));
    r
}

/// The paths of the sidecar files of `path`, one for each checksum.
pub fn sidecar_paths(path: &str, checksums: &Vec<Checksum>) -> (r: Vec<String>)
    ensures
        r.len() == checksums.len(),
        forall|i: int|
            0 <= i < r.len() ==> (#[trigger] r[i])@ == sidecar_path_spec(
                path@,
                checksums[i]@.algorithm,
            ),
{
    let mut r: Vec<String> = Vec::new();
    let mut i: usize = 0;
    while i < checksums.len()
        invariant
            i <= checksums.len(),
            r.len() == i,
            forall|j: int|
                0 <= j < i ==> (#[trigger] r[j])@ == sidecar_path_spec(
                    path@,
                    checksums[j]@.algorithm,
                ),
        decreases checksums.len() - i,
    {
        r.push(sidecar_path(path, &checksums[i]));
        i = i + 1;
    }
    r
}

/// Print mode: the line `"<label><digest>"` of each checksum for `bytes`.
pub fn print_report(checksums: &mut Vec<Checksum>, bytes: &[u8]) -> (r: Vec<String>)
    requires
        bytes@.len() <= MAX_ABSORBED,
    ensures
        final(checksums).len() == old(checksums).len(),
        forall|k: int|
            0 <= k < final(checksums).len() ==> (#[trigger] final(checksums)[k])@ == (ChecksumView {
                algorithm: old(checksums)[k]@.algorithm,
                absorbed: bytes@,
                finished: true,
            }),
        r.len() == old(checksums).len(),
        forall|i: int|
            0 <= i < r.len() ==> (#[trigger] r[i])@ == type_label(
                old(checksums)[i]@.algorithm.name_spec(),
            ) + old(checksums)[i]@.algorithm.digest_hex(bytes@),
{
    digest_all(checksums, bytes);
    let n: usize = checksums.len();
    let mut r: Vec<String> = Vec::new();
    let mut i: usize = 0;
    while i < n
        invariant
            n == checksums.len(),
            n == old(checksums).len(),
            i <= n,
            r.len() == i,
            forall|j: int|
                0 <= j < i ==> (#[trigger] checksums[j])@ == (ChecksumView {
                    algorithm: old(checksums)[j]@.algorithm,
                    absorbed: bytes@,
                    finished: true,
                }),
            forall|j: int|
                i <= j < n ==> (#[trigger] checksums[j])@ == (ChecksumView {
                    algorithm: old(checksums)[j]@.algorithm,
                    absorbed: bytes@,
                    finished: false,
                }),
            forall|j: int|
                0 <= j < i ==> (#[trigger] r[j])@ == type_label(
                    old(checksums)[j]@.algorithm.name_spec(),
                ) + old(checksums)[j]@.algorithm.digest_hex(bytes@),
        decreases n - i,
    {
        let line = checksums[i].result();
        r.push(line);
        i = i + 1;
    }
    r
}

/// A sidecar file to write, and the label of the line that reports it.
pub struct SidecarWrite {
    pub label: String,
    pub file_name: String,
    pub text: String,
}

/// Output mode: for each checksum, the sidecar file of `path` that records
/// the digest of `bytes`.
pub fn output_report(path: &str, checksums: &mut Vec<Checksum>, bytes: &[u8]) -> (r: Vec<
    SidecarWrite,
>)
    requires
        bytes@.len() <= MAX_ABSORBED,
    ensures
        final(checksums).len() == old(checksums).len(),
        forall|k: int|
            0 <= k < final(checksums).len() ==> (#[trigger] final(checksums)[k])@ == (ChecksumView {
                algorithm: old(checksums)[k]@.algorithm,
                absorbed: bytes@,
                finished: true,
            }),
        r.len() == old(checksums).len(),
        forall|i: int|
            0 <= i < r.len() ==> {
                let a = old(checksums)[i]@.algorithm;
                &&& (#[trigger] r[i]).label@ == type_label(a.name_spec())
                &&& r[i].file_name@ == sidecar_path_spec(path@, a)
                &&& r[i].text@ == sidecar_text_spec(a.digest_hex(bytes@))
            },
{
    digest_all(checksums, bytes);
    let n: usize = checksums.len();
    let mut r: Vec<SidecarWrite> = Vec::new();
    let mut i: usize = 0;
    while i < n
        invariant
            n == checksums.len(),
            n == old(checksums).len(),
            i <= n,
            r.len() == i,
            forall|j: int|
                0 <= j < i ==> (#[trigger] checksums[j])@ == (ChecksumView {
                    algorithm: old(checksums)[j]@.algorithm,
                    absorbed: bytes@,
                    finished: true,
                }),
            forall|j: int|
                i <= j < n ==> (#[trigger] checksums[j])@ == (ChecksumView {
                    algorithm: old(checksums)[j]@.algorithm,
                    absorbed: bytes@,
                    finished: false,
                }),
            forall|j: int|
                0 <= j < i ==> {
                    let a = old(checksums)[j]@.algorithm;
                    &&& (#[trigger] r[j]).label@ == type_label(a.name_spec())
                    &&& r[j].file_name@ == sidecar_path_spec(path@, a)
                    &&& r[j].text@ == sidecar_text_spec(a.digest_hex(bytes@))
                },
        decreases n - i,
    {
        let label = checksums[i].get_type_string();
        let file_name = sidecar_path(path, &checksums[i]);
        let digest = checksums[i].checksum();
        let text = sidecar_text(digest.as_str());
        r.push(SidecarWrite { label, file_name, text });
        i = i + 1;
    }
    r
}

/// Check mode: for each checksum, the line `"<label><verdict>"` on the
/// sidecar file that was read as `reads[i]`, for the digest of `bytes`.
pub fn check_report(checksums: &mut Vec<Checksum>, bytes: &[u8], reads: &Vec<SidecarRead>) -> (r:
    Vec<String>)
    requires
        bytes@.len() <= MAX_ABSORBED,
        reads.len() == old(checksums).len(),
    ensures
        final(checksums).len() == old(checksums).len(),
        forall|k: int|
            0 <= k < final(checksums).len() ==> (#[trigger] final(checksums)[k])@ == (ChecksumView {
                algorithm: old(checksums)[k]@.algorithm,
                absorbed: bytes@,
                finished: true,
            }),
        r.len() == old(checksums).len(),
        forall|i: int|
            0 <= i < r.len() ==> {
                let a = old(checksums)[i]@.algorithm;
                (#[trigger] r[i])@ == type_label(a.name_spec()) + verdict_text_spec(
                    verdict_of(reads[i], a.digest_hex(bytes@)),
                )
            },
{
    digest_all(checksums, bytes);
    let n: usize = checksums.len();
    let mut r: Vec<String> = Vec::new();
    let mut i: usize = 0;
    while i < n
        invariant
            n == checksums.len(),
            n == old(checksums).len(),
            n == reads.len(),
            i <= n,
            r.len() == i,
            forall|j: int|
                0 <= j < i ==> (#[trigger] checksums[j])@ == (ChecksumView {
                    algorithm: old(checksums)[j]@.algorithm,
                    absorbed: bytes@,
                    finished: true,
                }),
            forall|j: int|
                i <= j < n ==> (#[trigger] checksums[j])@ == (ChecksumView {
                    algorithm: old(checksums)[j]@.algorithm,
                    absorbed: bytes@,
                    finished: false,
                }),
            forall|j: int|
                0 <= j < i ==> {
                    let a = old(checksums)[j]@.algorithm;
                    (#[trigger] r[j])@ == type_label(a.name_spec()) + verdict_text_spec(
                        verdict_of(reads[j], a.digest_hex(bytes@)),
                    )
                },
        decreases n - i,
    {
        let label = checksums[i].get_type_string();
        let digest = checksums[i].checksum();
        let v = check_verdict(&reads[i], digest.as_str());
        r.push(label.concat(verdict_text(v)));
        i = i + 1;
    }
    r
}

/// Interactive mode: for each checksum, the line `"<label><verdict>"` that
/// says whether `first` and `second` have the same digest.
pub fn interactive_report(checksums: &mut Vec<Checksum>, first: &[u8], second: &[u8]) -> (r: Vec<
    String,
>)
    requires
        first@.len() <= MAX_ABSORBED,
        second@.len() <= MAX_ABSORBED,
    ensures
        final(checksums).len() == old(checksums).len(),
        forall|k: int|
            0 <= k < final(checksums).len() ==> (#[trigger] final(checksums)[k])@ == (ChecksumView {
                algorithm: old(checksums)[k]@.algorithm,
                absorbed: second@,
                finished: true,
            }),
        r.len() == old(checksums).len(),
        forall|i: int|
            0 <= i < r.len() ==> {
                let a = old(checksums)[i]@.algorithm;
                (#[trigger] r[i])@ == type_label(a.name_spec()) + verdict_text_spec(
                    compare_verdict(a, first@, second@),
                )
            },
{
    digest_all(checksums, first);
    let n: usize = checksums.len();
    let mut first_digests: Vec<String> = Vec::new();
    let mut i: usize = 0;
    while i < n
        invariant
            n == checksums.len(),
            n == old(checksums).len(),
            i <= n,
            first_digests.len() == i,
            forall|j: int|
                0 <= j < n ==> (#[trigger] checksums[j])@.algorithm == old(
                    checksums,
                )[j]@.algorithm,
            forall|j: int|
                i <= j < n ==> (#[trigger] checksums[j])@ == (ChecksumView {
                    algorithm: old(checksums)[j]@.algorithm,
                    absorbed: first@,
                    finished: false,
                }),
            forall|j: int|
                0 <= j < i ==> (#[trigger] first_digests[j])@ == old(
                    checksums,
                )[j]@.algorithm.digest_hex(first@),
        decreases n - i,
    {
        let d = checksums[i].checksum();
        first_digests.push(d);
        i = i + 1;
    }
    let ghost mid = checksums@;
    digest_all(checksums, second);
    let mut r: Vec<String> = Vec::new();
    let mut i: usize = 0;
    while i < n
        invariant
            n == checksums.len(),
            n == old(checksums).len(),
            n == first_digests.len(),
            i <= n,
            r.len() == i,
            forall|j: int|
                0 <= j < i ==> (#[trigger] checksums[j])@ == (ChecksumView {
                    algorithm: old(checksums)[j]@.algorithm,
                    absorbed: second@,
                    finished: true,
                }),
            forall|j: int|
                i <= j < n ==> (#[trigger] checksums[j])@ == (ChecksumView {
                    algorithm: old(checksums)[j]@.algorithm,
                    absorbed: second@,
                    finished: false,
                }),
            forall|j: int|
                0 <= j < n ==> (#[trigger] first_digests[j])@ == old(
                    checksums,
                )[j]@.algorithm.digest_hex(first@),
            forall|j: int|
                0 <= j < i ==> {
                    let a = old(checksums)[j]@.algorithm;
                    (#[trigger] r[j])@ == type_label(a.name_spec()) + verdict_text_spec(
                        compare_verdict(a, first@, second@),
                    )
                },
        decreases n - i,
    {
        let label = checksums[i].get_type_string();
        let d = checksums[i].checksum();
        let v = if same_text(first_digests[i].as_str(), d.as_str()) {
            Verdict::Match
        } else {
            Verdict::Mismatch
        };
        r.push(label.concat(verdict_text(v)));
        i = i + 1;
    }
    r
}

/// A sidecar file's text trims back to the digest it records.
proof fn lemma_trim_sidecar_text(h: Seq<char>)
    requires
        is_lower_hex(h),
    ensures
        trim_spec(sidecar_text_spec(h)) == h,
{
    let t = sidecar_text_spec(h);
    if h.len() == 0 {
        assert(t.drop_first() =~= Seq::<char>::empty());
        assert(trim_start_spec(t) == trim_start_spec(t.drop_first()));
    } else {
        assert(t[0] == h[0]);
        assert(trim_start_spec(t) == t);
        assert(t.drop_last() =~= h);
        assert(h.last() == h[h.len() - 1]);
        assert(trim_end_spec(h) == h);
    }
}

/// Writing a digest to its sidecar file and checking the file against the
/// same digest gives `Match`.
pub proof fn law_output_then_check(digest: Seq<char>, read: SidecarRead)
    requires
        is_lower_hex(digest),
        read is Text,
        read->Text_0@ == sidecar_text_spec(digest),
    ensures
        verdict_of(read, digest) == Verdict::Match,
{
    lemma_trim_sidecar_text(digest);
}

/// Checking a sidecar file against a digest other than the one written to
/// it gives `Mismatch`.
pub proof fn law_other_digest_mismatch(written: Seq<char>, current: Seq<char>, read: SidecarRead)
    requires
        is_lower_hex(written),
        written != current,
        read is Text,
        read->Text_0@ == sidecar_text_spec(written),
    ensures
        verdict_of(read, current) == Verdict::Mismatch,
{
    lemma_trim_sidecar_text(written);
}

/// Comparing two files with the same bytes gives `Match` under every algorithm.
pub proof fn law_identical_files_match(algorithms: Seq<Algorithm>, first: Seq<u8>, second: Seq<u8>)
    requires
        first == second,
    ensures
        forall|i: int|
            0 <= i < algorithms.len() ==> compare_verdict(#[trigger] algorithms[i], first, second)
                == Verdict::Match,
{
}

} // verus!
