//! A named digest algorithm together with its running engine.
use vstd::prelude::*;

use crypto::md5::Md5;
use crypto::sha1::Sha1;
use crypto::sha2::{Sha256, Sha512};

use crate::digest::{
    is_lower_hex, md5_absorbed, md5_finished, md5_hex, md5_input, md5_new, md5_reset,
    md5_result_str, sha1_absorbed, sha1_finished, sha1_hex, sha1_input, sha1_new, sha1_reset,
    sha1_result_str, sha256_absorbed, sha256_finished, sha256_hex, sha256_input, sha256_new,
    sha256_reset, sha256_result_str, sha512_absorbed, sha512_finished, sha512_hex, sha512_input,
    sha512_new, sha512_reset, sha512_result_str, MAX_ABSORBED,
};

verus! {

/// The digest algorithms on offer.
#[derive(Clone, Copy, Debug, PartialEq, Eq, Structural)]
pub enum Algorithm {
    Md5,
    Sha1,
    Sha256,
    Sha512,
}

/// The ASCII lowercase form of `c`; other characters stay as they are.
pub open spec fn ascii_lower(c: char) -> char {
    if 'A' <= c && c <= 'Z' {
        ((c as u32) + 32) as char
    } else {
        c
    }
}

/// `s` with every ASCII capital replaced by its lowercase form.
pub open spec fn lower_seq(s: Seq<char>) -> Seq<char> {
    s.map_values(|c: char| ascii_lower(c))
}

/// True when `s` holds no ASCII capital.
pub open spec fn is_lowercase(s: Seq<char>) -> bool {
    forall|i: int| 0 <= i < s.len() ==> !('A' <= #[trigger] s[i] && s[i] <= 'Z')
}

/// The width to which a name is padded with spaces in a label.
pub const LABEL_WIDTH: usize = 8;

/// `s` followed by spaces up to `LABEL_WIDTH` characters; a longer `s` stays whole.
pub open spec fn pad_name(s: Seq<char>) -> Seq<char> {
    if s.len() < LABEL_WIDTH {
        s + Seq::new((LABEL_WIDTH - s.len()) as nat, |i: int| ' ')
    } else {
        s
    }
}

/// The label that leads each line about an algorithm: its padded name and `" - "`.
pub open spec fn type_label(name: Seq<char>) -> Seq<char> {
    pad_name(name) + seq![' ', '-', ' ']
}

/// The extension of a sidecar file: the name in lowercase without its last character.
pub open spec fn file_ext_of(name: Seq<char>) -> Seq<char> {
    lower_seq(name.drop_last())
}

impl Algorithm {
    pub open spec fn name_spec(self) -> Seq<char> {
        match self {
            Algorithm::Md5 => seq!['M', 'D', '5'],
            Algorithm::Sha1 => seq!['S', 'H', 'A', '1'],
            Algorithm::Sha256 => seq!['S', 'H', 'A', '2', '5', '6'],
            Algorithm::Sha512 => seq!['S', 'H', 'A', '5', '1', '2'],
        }
    }

    /// The lowercase hexadecimal digest of `data` under this algorithm.
    pub open spec fn digest_hex(self, data: Seq<u8>) -> Seq<char> {
        match self {
            Algorithm::Md5 => md5_hex(data),
            Algorithm::Sha1 => sha1_hex(data),
            Algorithm::Sha256 => sha256_hex(data),
            Algorithm::Sha512 => sha512_hex(data),
        }
    }

    /// The algorithm's display name, such as `"SHA256"`.
    pub fn name(self) -> (r: &'static str)
        ensures
            r@ == self.name_spec(),
    {
        match self {
            Algorithm::Md5 => {
                let r = "MD5";
                proof {
                    reveal_strlit("MD5");
                    assert(r@ =~= self.name_spec());
                }
                r
            },
            Algorithm::Sha1 => {
                let r = "SHA1";
                proof {
                    reveal_strlit("SHA1");
                    assert(r@ =~= self.name_spec());
                }
                r
            },
            Algorithm::Sha256 => {
                let r = "SHA256";
                proof {
                    reveal_strlit("SHA256");
                    assert(r@ =~= self.name_spec());
                }
                r
            },
            Algorithm::Sha512 => {
                let r = "SHA512";
                proof {
                    reveal_strlit("SHA512");
                    assert(r@ =~= self.name_spec());
                }
                r
            },
        }
    }

    /// The extension of this algorithm's sidecar file, such as `"sha25"`.
    pub fn file_ext(self) -> (r: &'static str)
        ensures
            r@ == file_ext_of(self.name_spec()),
            is_lowercase(r@),
    {
        match self {
            Algorithm::Md5 => {
                let r = "md";
                proof {
                    reveal_strlit("md");
                    assert(r@ =~= file_ext_of(self.name_spec()));
                }
                r
            },
            Algorithm::Sha1 => {
                let r = "sha";
                proof {
                    reveal_strlit("sha");
                    assert(r@ =~= file_ext_of(self.name_spec()));
                }
                r
            },
            Algorithm::Sha256 => {
                let r = "sha25";
                proof {
                    reveal_strlit("sha25");
                    assert(r@ =~= file_ext_of(self.name_spec()));
                }
                r
            },
            Algorithm::Sha512 => {
                let r = "sha51";
                proof {
                    reveal_strlit("sha51");
                    assert(r@ =~= file_ext_of(self.name_spec()));
                }
                r
            },
        }
    }
}

/// The running engine of one algorithm.
enum Engine {
    Md5(Md5),
    Sha1(Sha1),
    Sha256(Sha256),
    Sha512(Sha512),
}

/// What a `Checksum` is: its algorithm, the bytes absorbed since it was
/// created or reset, and whether its result has been taken since.
pub struct ChecksumView {
    pub algorithm: Algorithm,
    pub absorbed: Seq<u8>,
    pub finished: bool,
}

/// A digest algorithm under its name, with a running engine.
pub struct Checksum {
    engine: Engine,
}

impl View for Checksum {
    type V = ChecksumView;

    closed spec fn view(&self) -> ChecksumView {
        match self.engine {
            Engine::Md5(h) => ChecksumView {
                algorithm: Algorithm::Md5,
                absorbed: md5_absorbed(h),
                finished: md5_finished(h),
            },
            Engine::Sha1(h) => ChecksumView {
                algorithm: Algorithm::Sha1,
                absorbed: sha1_absorbed(h),
                finished: sha1_finished(h),
            },
            Engine::Sha256(h) => ChecksumView {
                algorithm: Algorithm::Sha256,
                absorbed: sha256_absorbed(h),
                finished: sha256_finished(h),
            },
            Engine::Sha512(h) => ChecksumView {
                algorithm: Algorithm::Sha512,
                absorbed: sha512_absorbed(h),
                finished: sha512_finished(h),
            },
        }
    }
}

impl Checksum {
    /// A checksum of `algorithm` that has absorbed nothing.
    pub fn new(algorithm: Algorithm) -> (r: Checksum)
        ensures
            r@ == (ChecksumView { algorithm, absorbed: Seq::empty(), finished: false }),
    {
        let engine = match algorithm {
            Algorithm::Md5 => Engine::Md5(md5_new()),
            Algorithm::Sha1 => Engine::Sha1(sha1_new()),
            Algorithm::Sha256 => Engine::Sha256(sha256_new()),
            Algorithm::Sha512 => Engine::Sha512(sha512_new()),
        };
        Checksum { engine }
    }

    /// The algorithm of this checksum.
    pub fn algorithm(&self) -> (r: Algorithm)
        ensures
            r == self@.algorithm,
    {
        match self.engine {
            Engine::Md5(_) => Algorithm::Md5,
            Engine::Sha1(_) => Algorithm::Sha1,
            Engine::Sha256(_) => Algorithm::Sha256,
            Engine::Sha512(_) => Algorithm::Sha512,
        }
    }

    /// Feeds `slice_content` to the running digest.
    pub fn input(&mut self, slice_content: &[u8])
        requires
            !old(self)@.finished,
            old(self)@.absorbed.len() + slice_content@.len() <= MAX_ABSORBED,
        ensures
            final(self)@ == (ChecksumView {
                absorbed: old(self)@.absorbed + slice_content@,
                ..old(self)@
            }),
    {
        match &mut self.engine {
            Engine::Md5(h) => md5_input(h, slice_content),
            Engine::Sha1(h) => sha1_input(h, slice_content),
            Engine::Sha256(h) => sha256_input(h, slice_content),
            Engine::Sha512(h) => sha512_input(h, slice_content),
        }
    }

    /// The digest of what was absorbed, in lowercase hexadecimal. The engine
    /// is finished afterwards: it takes no more input until it is reset.
    pub fn checksum(&mut self) -> (r: String)
        ensures
            r@ == old(self)@.algorithm.digest_hex(old(self)@.absorbed),
            is_lower_hex(r@),
            final(self)@ == (ChecksumView { finished: true, ..old(self)@ }),
    {
        match &mut self.engine {
            Engine::Md5(h) => md5_result_str(h),
            Engine::Sha1(h) => sha1_result_str(h),
            Engine::Sha256(h) => sha256_result_str(h),
            Engine::Sha512(h) => sha512_result_str(h),
        }
    }

    /// Forgets what was absorbed.
    pub fn reset(&mut self)
        ensures
            final(self)@ == (ChecksumView {
                algorithm: old(self)@.algorithm,
                absorbed: Seq::empty(),
                finished: false,
            }),
    {
        match &mut self.engine {
            Engine::Md5(h) => md5_reset(h),
            Engine::Sha1(h) => sha1_reset(h),
            Engine::Sha256(h) => sha256_reset(h),
            Engine::Sha512(h) => sha512_reset(h),
        }
    }
    /// The file extension of this algorithm's sidecar files: its name in
    /// lowercase without the last character.
    pub fn get_file_ext(&self) -> (r: String)
        ensures
            r@ == file_ext_of(self@.algorithm.name_spec()),
            is_lowercase(r@),
    {
        String::from_str(self.algorithm().file_ext())
    }

    /// The label of this algorithm: its name padded to the label width, then `" - "`.
    pub fn get_type_string(&self) -> (r: String)
        ensures
            r@ == type_label(self@.algorithm.name_spec()),
    {
        label_of(self.algorithm().name())
    }

    /// The line `"<label><digest>"` for what was absorbed. The engine is
    /// finished afterwards, as by `checksum`.
    pub fn result(&mut self) -> (r: String)
        ensures
            r@ == type_label(old(self)@.algorithm.name_spec()) + old(self)@.algorithm.digest_hex(
                old(self)@.absorbed,
            ),
            final(self)@ == (ChecksumView { finished: true, ..old(self)@ }),
    {
        let label = self.get_type_string();
        let digest = self.checksum();
        label.concat(digest.as_str())
    }
}

/// `name` padded with spaces to the label width, followed by `" - "`.
fn label_of(name: &str) -> (r: String)
    ensures
        r@ == type_label(name@),
{
    let mut s = String::from_str(name);
    let n: usize = name.unicode_len();
    let mut k: usize = n;
    while k < LABEL_WIDTH
        invariant
            n == name@.len(),
            n <= k,
            k <= LABEL_WIDTH || k == n,
            s@ == name@ + Seq::new((k - n) as nat, |i: int| ' '),
        decreases LABEL_WIDTH - k,
    {
        proof {
            reveal_strlit(" ");
        }
        s.append(" ");
        k = k + 1;
        assert(s@ =~= name@ + Seq::new((k - n) as nat, |i: int| ' '));
    }
    proof {
        reveal_strlit(" - ");
        if n < LABEL_WIDTH {
            assert(k == LABEL_WIDTH);
        } else {
            assert(s@ =~= name@);
        }
    }
    s.append(" - ");
    assert(s@ =~= type_label(name@));
    s
}

impl PartialEq for Checksum {
    /// Two checksums are equal when their algorithms are; what they absorbed does not count.
    fn eq(&self, right: &Checksum) -> (r: bool)
        ensures
            r == (self@.algorithm == right@.algorithm),
    {
        self.algorithm() == right.algorithm()
    }
}

impl vstd::std_specs::cmp::PartialEqSpecImpl for Checksum {
    open spec fn obeys_eq_spec() -> bool {
        true
    }

    open spec fn eq_spec(&self, right: &Checksum) -> bool {
        self@.algorithm == right@.algorithm
    }
}

/// The sidecar extension of every algorithm is lowercase.
pub proof fn law_file_ext_lowercase(a: Algorithm)
    ensures
        is_lowercase(file_ext_of(a.name_spec())),
{
    let s = a.name_spec().drop_last();
    assert forall|i: int| 0 <= i < s.len() implies !('A' <= #[trigger] lower_seq(s)[i] && lower_seq(
        s,
    )[i] <= 'Z') by {
        let c = s[i];
        if 'A' <= c && c <= 'Z' {
            assert((c as u32) + 32 >= 'a' as u32);
        }
    }
}

/// Two checksums of one algorithm that absorbed the same bytes give the same digest.
pub proof fn law_same_bytes_same_digest(c1: ChecksumView, c2: ChecksumView)
    requires
        c1.algorithm == c2.algorithm,
        c1.absorbed == c2.absorbed,
    ensures
        c1.algorithm.digest_hex(c1.absorbed) == c2.algorithm.digest_hex(c2.absorbed),
{
}

} // verus!
