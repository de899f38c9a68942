//! The command line: which algorithms, which files, which mode.
use vstd::prelude::*;

use crate::checksum::{Algorithm, Checksum, ChecksumView};
use crate::text::{same_text, starts_with};

verus! {

/// What to do with each file. Exactly one mode is in force.
#[derive(Clone, Copy, Debug, PartialEq, Eq, Structural)]
pub enum Mode {
    /// Print each digest.
    Print,
    /// Write each digest to a sidecar file.
    Output,
    /// Compare each digest with its sidecar file.
    Check,
    /// Compare two files named on standard input.
    Interactive,
}

/// What one command-line token asks for.
#[derive(Clone, Copy, Debug, PartialEq, Eq, Structural)]
pub enum Token {
    /// A token without a leading dash: a path.
    Path,
    /// An algorithm flag.
    Algo(Algorithm),
    /// A mode flag.
    SetMode(Mode),
    /// `--sha` followed by a length that is not offered.
    BadSha,
    /// Any other flag.
    BadOption,
}

/// Why a command line is refused.
#[derive(Debug, PartialEq, Eq)]
pub enum ParseError {
    /// `--sha` with this unsupported suffix.
    InvalidSha(String),
    /// A second mode flag.
    MultipleModes,
    /// This flag is not known.
    InvalidOption(String),
}

/// `ParseError` over character sequences.
pub enum ScanError {
    InvalidSha(Seq<char>),
    MultipleModes,
    InvalidOption(Seq<char>),
}

impl View for ParseError {
    type V = ScanError;

    open spec fn view(&self) -> ScanError {
        match self {
            ParseError::InvalidSha(s) => ScanError::InvalidSha(s@),
            ParseError::MultipleModes => ScanError::MultipleModes,
            ParseError::InvalidOption(s) => ScanError::InvalidOption(s@),
        }
    }
}

/// What the scan of the tokens has gathered so far.
pub struct ScanState {
    pub paths: Seq<Seq<char>>,
    pub missing: Seq<Seq<char>>,
    pub algorithms: Seq<Algorithm>,
    pub mode: Option<Mode>,
}

pub open spec fn starts_with_dash(t: Seq<char>) -> bool {
    t.len() > 0 && t[0] == '-'
}

/// The part of a `--sha` flag after its first five characters.
pub open spec fn sha_suffix(t: Seq<char>) -> Seq<char> {
    t.subrange(5, t.len() as int)
}

/// What the token `t` asks for.
pub open spec fn classify_spec(t: Seq<char>) -> Token {
    if !starts_with_dash(t) {
        Token::Path
    } else if t == "--md5"@ {
        Token::Algo(Algorithm::Md5)
    } else if t.len() >= 5 && t.subrange(0, 5) == "--sha"@ {
        if sha_suffix(t) == "1"@ {
            Token::Algo(Algorithm::Sha1)
        } else if sha_suffix(t) == "256"@ {
            Token::Algo(Algorithm::Sha256)
        } else if sha_suffix(t) == "512"@ {
            Token::Algo(Algorithm::Sha512)
        } else {
            Token::BadSha
        }
    } else if t == "-o"@ || t == "--output"@ {
        Token::SetMode(Mode::Output)
    } else if t == "-c"@ || t == "--check"@ {
        Token::SetMode(Mode::Check)
    } else if t == "-p"@ || t == "--print"@ {
        Token::SetMode(Mode::Print)
    } else if t == "-i"@ || t == "--interactive"@ {
        Token::SetMode(Mode::Interactive)
    } else {
        Token::BadOption
    }
}

/// One token's effect on the scan; `is_file` tells whether the token names an
/// existing regular file.
pub open spec fn step(s: ScanState, t: Seq<char>, is_file: bool) -> Result<ScanState, ScanError> {
    match classify_spec(t) {
        Token::Path => if is_file {
            Ok(ScanState { paths: s.paths.push(t), ..s })
        } else {
            Ok(ScanState { missing: s.missing.push(t), ..s })
        },
        Token::Algo(a) => Ok(ScanState { algorithms: s.algorithms.push(a), ..s }),
        Token::SetMode(m) => if s.mode.is_some() {
            Err(ScanError::MultipleModes)
        } else {
            Ok(ScanState { mode: Some(m), ..s })
        },
        Token::BadSha => Err(ScanError::InvalidSha(sha_suffix(t))),
        Token::BadOption => Err(ScanError::InvalidOption(t)),
    }
}

pub open spec fn empty_scan() -> ScanState {
    ScanState { paths: seq![], missing: seq![], algorithms: seq![], mode: None }
}

/// The scan of the first `n` tokens: its state, or the index of the token
/// that was refused and why.
pub open spec fn scan(tokens: Seq<Seq<char>>, files: Seq<bool>, n: nat) -> Result<
    ScanState,
    (nat, ScanError),
>
    decreases n,
{
    if n == 0 {
        Ok(empty_scan())
    } else {
        match scan(tokens, files, (n - 1) as nat) {
            Err(e) => Err(e),
            Ok(s) => match step(s, tokens[n - 1], files[n - 1]) {
                Ok(s2) => Ok(s2),
                Err(e) => Err(((n - 1) as nat, e)),
            },
        }
    }
}

/// The algorithms used when the command line names none.
pub open spec fn default_algorithms() -> Seq<Algorithm> {
    seq![Algorithm::Md5, Algorithm::Sha1, Algorithm::Sha256, Algorithm::Sha512]
}

/// The algorithms in force after a scan that ended in `s`.
pub open spec fn chosen_algorithms(s: ScanState) -> Seq<Algorithm> {
    if s.algorithms.len() == 0 {
        default_algorithms()
    } else {
        s.algorithms
    }
}

/// The mode in force after a scan that ended in `s`.
pub open spec fn chosen_mode(s: ScanState) -> Mode {
    match s.mode {
        Some(m) => m,
        None => Mode::Print,
    }
}

/// True when `cs` are fresh checksums of the algorithms `algs`, in order.
pub open spec fn fresh_checksums(cs: Seq<Checksum>, algs: Seq<Algorithm>) -> bool {
    cs.len() == algs.len() && forall|i: int|
        0 <= i < cs.len() ==> (#[trigger] cs[i])@ == (ChecksumView {
            algorithm: algs[i],
            absorbed: Seq::empty(),
            finished: false,
        })
}

/// An accepted command line.
pub struct ParsedArgs {
    /// The paths that name existing files, in order.
    pub paths: Vec<String>,
    /// The path tokens that name no existing file, in order.
    pub missing: Vec<String>,
    /// A fresh checksum for each selected algorithm, in order.
    pub checksums: Vec<Checksum>,
    /// The mode in force.
    pub mode: Mode,
}

/// A refused command line.
pub struct ParseFailure {
    /// The index of the refused token.
    pub index: usize,
    /// Why it was refused.
    pub error: ParseError,
    /// The path tokens before it that name no existing file.
    pub missing: Vec<String>,
}

/// What the token `t` asks for.
pub fn classify(t: &str) -> (r: Token)
    ensures
        r == classify_spec(t@),
{
    let dash = starts_with(t, "-");
    proof {
        reveal_strlit("-");
        assert("-"@ =~= seq!['-']);
        if dash {
            assert(t@.subrange(0, 1)[0] == "-"@[0]);
        } else if t@.len() > 0 && t@[0] == '-' {
            assert(t@.subrange(0, 1) =~= "-"@);
        }
        assert(dash == starts_with_dash(t@));
    }
    if !dash {
        return Token::Path;
    }
    if same_text(t, "--md5") {
        Token::Algo(Algorithm::Md5)
    } else if starts_with(t, "--sha") {
        proof {
            reveal_strlit("--sha");
        }
        let suffix = t.substring_char(5, t.unicode_len());
        if same_text(suffix, "1") {
            Token::Algo(Algorithm::Sha1)
        } else if same_text(suffix, "256") {
            Token::Algo(Algorithm::Sha256)
        } else if same_text(suffix, "512") {
            Token::Algo(Algorithm::Sha512)
        } else {
            Token::BadSha
        }
    } else if same_text(t, "-o") || same_text(t, "--output") {
        Token::SetMode(Mode::Output)
    } else if same_text(t, "-c") || same_text(t, "--check") {
        Token::SetMode(Mode::Check)
    } else if same_text(t, "-p") || same_text(t, "--print") {
        Token::SetMode(Mode::Print)
    } else if same_text(t, "-i") || same_text(t, "--interactive") {
        Token::SetMode(Mode::Interactive)
    } else {
        Token::BadOption
    }
}

/// The algorithms of the checksums `cs`, in order.
pub open spec fn algorithms_of(cs: Seq<Checksum>) -> Seq<Algorithm> {
    cs.map_values(|c: Checksum| c@.algorithm)
}

/// True when `p` is what a scan that ended in `s` yields.
pub open spec fn accepted_as(p: ParsedArgs, s: ScanState) -> bool {
    &&& p.paths.deep_view() == s.paths
    &&& p.missing.deep_view() == s.missing
    &&& fresh_checksums(p.checksums@, chosen_algorithms(s))
    &&& p.mode == chosen_mode(s)
}

/// True when `f` reports that the scan of `tokens` stopped at token `i` for `e`.
pub open spec fn refused_as(
    f: ParseFailure,
    tokens: Seq<Seq<char>>,
    files: Seq<bool>,
    i: nat,
    e: ScanError,
) -> bool {
    &&& f.index == i
    &&& f.error@ == e
    &&& scan(tokens, files, i) is Ok
    &&& f.missing.deep_view() == scan(tokens, files, i)->Ok_0.missing
}

/// Once the scan has refused a token, scanning further tokens changes nothing.
pub proof fn lemma_scan_refusal_stays(tokens: Seq<Seq<char>>, files: Seq<bool>, n: nat, m: nat)
    requires
        n <= m,
        scan(tokens, files, n) is Err,
    ensures
        scan(tokens, files, m) == scan(tokens, files, n),
    decreases m - n,
{
    if n < m {
        lemma_scan_refusal_stays(tokens, files, n, (m - 1) as nat);
    }
}

/// Reads the command-line tokens `args`, the program name left out;
/// `is_file[i]` tells whether `args[i]` names an existing regular file.
/// Tokens with a leading dash are flags: algorithm flags add a checksum, mode
/// flags set the mode, once. Other tokens are kept as paths when they name a
/// file and listed as missing when not. Without algorithm flags all four
/// algorithms are chosen; without a mode flag the mode is `Print`.
pub fn parse_args(args: &Vec<String>, is_file: &Vec<bool>) -> (r: Result<ParsedArgs, ParseFailure>)
    requires
        args.len() == is_file.len(),
    ensures
        match scan(args.deep_view(), is_file@, args.len() as nat) {
            Ok(s) => r is Ok && accepted_as(r->Ok_0, s),
            Err((i, e)) => r is Err && refused_as(r->Err_0, args.deep_view(), is_file@, i, e),
        },
{
    let ghost tokens = args.deep_view();
    let mut paths: Vec<String> = Vec::new();
    let mut missing: Vec<String> = Vec::new();
    let mut checksums: Vec<Checksum> = Vec::new();
    let mut mode: Option<Mode> = None;
    let mut i: usize = 0;
    assert(paths.deep_view() =~= Seq::<Seq<char>>::empty());
    assert(missing.deep_view() =~= Seq::<Seq<char>>::empty());
    assert(algorithms_of(checksums@) =~= Seq::<Algorithm>::empty());
    while i < args.len()
        invariant
            tokens == args.deep_view(),
            args.len() == is_file.len(),
            i <= args.len(),
            scan(tokens, is_file@, i as nat) == Ok::<ScanState, (nat, ScanError)>(
                ScanState {
                    paths: paths.deep_view(),
                    missing: missing.deep_view(),
                    algorithms: algorithms_of(checksums@),
                    mode,
                },
            ),
            fresh_checksums(checksums@, algorithms_of(checksums@)),
        decreases args.len() - i,
    {
        let t: &String = &args[i];
        assert(tokens[i as int] == t@);
        let ghost before = scan(tokens, is_file@, i as nat)->Ok_0;
        match classify(t.as_str()) {
            Token::Path => {
                if is_file[i] {
                    paths.push(t.clone());
                    assert(paths.deep_view() =~= before.paths.push(t@));
                } else {
                    missing.push(t.clone());
                    assert(missing.deep_view() =~= before.missing.push(t@));
                }
            },
            Token::Algo(a) => {
                checksums.push(Checksum::new(a));
                assert(algorithms_of(checksums@) =~= before.algorithms.push(a));
            },
            Token::SetMode(m) => {
                if mode.is_some() {
                    proof {
                        let next = (i + 1) as nat;
                        lemma_scan_refusal_stays(tokens, is_file@, next, args.len() as nat);
                    }
                    let error = ParseError::MultipleModes;
                    return Err(ParseFailure { index: i, error, missing });
                }
                mode = Some(m);
            },
            Token::BadSha => {
                let text = t.as_str();
                let suffix = String::from_str(text.substring_char(5, text.unicode_len()));
                proof {
                    let next = (i + 1) as nat;
                    lemma_scan_refusal_stays(tokens, is_file@, next, args.len() as nat);
                }
                let error = ParseError::InvalidSha(suffix);
                return Err(ParseFailure { index: i, error, missing });
            },
            Token::BadOption => {
                proof {
                    let next = (i + 1) as nat;
                    lemma_scan_refusal_stays(tokens, is_file@, next, args.len() as nat);
                }
                return Err(
                    ParseFailure { index: i, error: ParseError::InvalidOption(t.clone()), missing },
                );
            },
        }
        i = i + 1;
    }
    let ghost last = scan(tokens, is_file@, i as nat)->Ok_0;
    if checksums.len() == 0 {
        checksums.push(Checksum::new(Algorithm::Md5));
        checksums.push(Checksum::new(Algorithm::Sha1));
        checksums.push(Checksum::new(Algorithm::Sha256));
        checksums.push(Checksum::new(Algorithm::Sha512));
        assert(algorithms_of(checksums@) =~= default_algorithms());
    }
    let mode = match mode {
        Some(m) => m,
        None => Mode::Print,
    };
    Ok(ParsedArgs { paths, missing, checksums, mode })
}

/// Once a mode is set, every later scan state has one, unless the scan refused a token.
proof fn lemma_mode_stays(tokens: Seq<Seq<char>>, files: Seq<bool>, n: nat, m: nat)
    requires
        n <= m,
        scan(tokens, files, n) is Ok,
        scan(tokens, files, n)->Ok_0.mode is Some,
    ensures
        scan(tokens, files, m) is Err || scan(tokens, files, m)->Ok_0.mode is Some,
    decreases m - n,
{
    if n < m {
        lemma_mode_stays(tokens, files, n, (m - 1) as nat);
    }
}

/// A command line with two mode flags is refused, so no file is processed.
pub proof fn law_two_modes_refused(tokens: Seq<Seq<char>>, files: Seq<bool>, i: nat, j: nat)
    requires
        files.len() == tokens.len(),
        i < j < tokens.len(),
        classify_spec(tokens[i as int]) is SetMode,
        classify_spec(tokens[j as int]) is SetMode,
    ensures
        scan(tokens, files, tokens.len()) is Err,
{
    if scan(tokens, files, i + 1) is Err {
        lemma_scan_refusal_stays(tokens, files, i + 1, tokens.len());
    } else {
        assert(scan(tokens, files, i + 1)->Ok_0.mode is Some);
        lemma_mode_stays(tokens, files, i + 1, j);
        if scan(tokens, files, j) is Err {
            lemma_scan_refusal_stays(tokens, files, j, tokens.len());
        } else {
            assert(scan(tokens, files, j + 1) is Err);
            lemma_scan_refusal_stays(tokens, files, j + 1, tokens.len());
        }
    }
}

/// A command line with `--sha` followed by a length that is not offered
/// (such as `--sha128`) is refused, so no file is processed.
pub proof fn law_unknown_sha_refused(tokens: Seq<Seq<char>>, files: Seq<bool>, k: nat)
    requires
        files.len() == tokens.len(),
        k < tokens.len(),
        tokens[k as int].len() >= 5,
        tokens[k as int].subrange(0, 5) == "--sha"@,
        sha_suffix(tokens[k as int]) != "1"@,
        sha_suffix(tokens[k as int]) != "256"@,
        sha_suffix(tokens[k as int]) != "512"@,
    ensures
        scan(tokens, files, tokens.len()) is Err,
{
    let t = tokens[k as int];
    reveal_strlit("--sha");
    reveal_strlit("--md5");
    assert("--sha"@ != "--md5"@) by {
        assert("--sha"@[2] == 's');
        assert("--md5"@[2] == 'm');
    }
    assert(t[0] == '-') by {
        assert("--sha"@[0] == '-');
        assert(t.subrange(0, 5)[0] == t[0]);
    }
    assert(t != "--md5"@) by {
        if t == "--md5"@ {
            assert(t.subrange(0, 5) =~= t);
        }
    }
    assert(classify_spec(t) == Token::BadSha);
    if scan(tokens, files, k) is Err {
        lemma_scan_refusal_stays(tokens, files, k, tokens.len());
    } else {
        lemma_scan_refusal_stays(tokens, files, k + 1, tokens.len());
    }
}

/// Without algorithm flags among the first `n` tokens the scan gathers no algorithm.
proof fn lemma_no_algorithm_flags(tokens: Seq<Seq<char>>, files: Seq<bool>, n: nat)
    requires
        n <= tokens.len(),
        forall|i: int| 0 <= i < n ==> !(classify_spec(#[trigger] tokens[i]) is Algo),
    ensures
        scan(tokens, files, n) is Ok ==> scan(tokens, files, n)->Ok_0.algorithms.len() == 0,
    decreases n,
{
    if n > 0 {
        lemma_no_algorithm_flags(tokens, files, (n - 1) as nat);
        assert(!(classify_spec(tokens[n - 1]) is Algo));
    }
}

/// A command line without algorithm flags chooses MD5, SHA1, SHA256 and
/// SHA512, in that order.
pub proof fn law_default_algorithms(tokens: Seq<Seq<char>>, files: Seq<bool>)
    requires
        files.len() == tokens.len(),
        forall|i: int| 0 <= i < tokens.len() ==> !(classify_spec(#[trigger] tokens[i]) is Algo),
        scan(tokens, files, tokens.len()) is Ok,
    ensures
        chosen_algorithms(scan(tokens, files, tokens.len())->Ok_0) == seq![
            Algorithm::Md5,
            Algorithm::Sha1,
            Algorithm::Sha256,
            Algorithm::Sha512,
        ],
{
    lemma_no_algorithm_flags(tokens, files, tokens.len());
}

} // verus!
