use rusty_hash::args::{classify, parse_args, Mode, ParseError, Token};
use rusty_hash::checksum::Algorithm;

fn tokens(items: &[&str]) -> Vec<String> {
    items.iter().map(|s| s.to_string()).collect()
}

#[test]
fn defaults_are_all_four_algorithms_and_print() {
    let args = tokens(&["a.txt"]);
    let parsed = parse_args(&args, &vec![true]).ok().unwrap();
    let algs: Vec<Algorithm> = parsed.checksums.iter().map(|c| c.algorithm()).collect();
    assert_eq!(algs, vec![Algorithm::Md5, Algorithm::Sha1, Algorithm::Sha256, Algorithm::Sha512]);
    assert_eq!(parsed.mode, Mode::Print);
    assert_eq!(parsed.paths, vec!["a.txt".to_string()]);
    assert!(parsed.missing.is_empty());
}

#[test]
fn algorithm_flags_keep_their_order() {
    let args = tokens(&["--sha512", "--md5", "-c", "f"]);
    let parsed = parse_args(&args, &vec![false, false, false, true]).ok().unwrap();
    let algs: Vec<Algorithm> = parsed.checksums.iter().map(|c| c.algorithm()).collect();
    assert_eq!(algs, vec![Algorithm::Sha512, Algorithm::Md5]);
    assert_eq!(parsed.mode, Mode::Check);
}

#[test]
fn two_mode_flags_are_refused() {
    let args = tokens(&["-o", "-c", "file.txt"]);
    let failure = parse_args(&args, &vec![false, false, true]).err().unwrap();
    assert_eq!(failure.index, 1);
    assert_eq!(failure.error, ParseError::MultipleModes);
}

#[test]
fn unknown_sha_suffix_is_refused() {
    let args = tokens(&["x.txt", "--sha128", "file.txt"]);
    let failure = parse_args(&args, &vec![false, false, true]).err().unwrap();
    assert_eq!(failure.index, 1);
    assert_eq!(failure.error, ParseError::InvalidSha("128".to_string()));
    assert_eq!(failure.missing, vec!["x.txt".to_string()]);
}

#[test]
fn unknown_flag_is_refused() {
    let args = tokens(&["--verbose"]);
    let failure = parse_args(&args, &vec![false]).err().unwrap();
    assert_eq!(failure.error, ParseError::InvalidOption("--verbose".to_string()));
}

#[test]
fn missing_files_are_dropped_not_fatal() {
    let args = tokens(&["gone.txt", "--interactive", "here.txt"]);
    let parsed = parse_args(&args, &vec![false, false, true]).ok().unwrap();
    assert_eq!(parsed.paths, vec!["here.txt".to_string()]);
    assert_eq!(parsed.missing, vec!["gone.txt".to_string()]);
    assert_eq!(parsed.mode, Mode::Interactive);
}

#[test]
fn classify_tokens() {
    assert_eq!(classify("--md5"), Token::Algo(Algorithm::Md5));
    assert_eq!(classify("--sha1"), Token::Algo(Algorithm::Sha1));
    assert_eq!(classify("--sha256"), Token::Algo(Algorithm::Sha256));
    assert_eq!(classify("--sha512"), Token::Algo(Algorithm::Sha512));
    assert_eq!(classify("--sha"), Token::BadSha);
    assert_eq!(classify("-o"), Token::SetMode(Mode::Output));
    assert_eq!(classify("--print"), Token::SetMode(Mode::Print));
    assert_eq!(classify("-x"), Token::BadOption);
    assert_eq!(classify("file"), Token::Path);
    assert_eq!(classify(""), Token::Path);
}
