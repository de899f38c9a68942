use rusty_hash::checksum::{Algorithm, Checksum};

fn digest_of(a: Algorithm, bytes: &[u8]) -> String {
    let mut c = Checksum::new(a);
    c.reset();
    c.input(bytes);
    c.checksum()
}

#[test]
fn md5_of_hello_prints_one_labelled_line() {
    let mut c = Checksum::new(Algorithm::Md5);
    c.input(b"hello");
    assert_eq!(c.result(), "MD5      - 5d41402abc4b2a76b9719d911017c592");
}

#[test]
fn known_digests_of_hello() {
    assert_eq!(digest_of(Algorithm::Md5, b"hello"), "5d41402abc4b2a76b9719d911017c592");
    assert_eq!(digest_of(Algorithm::Sha1, b"hello"), "aaf4c61ddcc5e8a2dabede0f3b482cd9aea9434d");
    assert_eq!(
        digest_of(Algorithm::Sha256, b"hello"),
        "2cf24dba5fb0a30e26e83b2ac5b9e29e1b161e5c1fa7425e73043362938b9824"
    );
    assert_eq!(
        digest_of(Algorithm::Sha512, b"hello"),
        "9b71d224bd62f3785d96d46ad3ea3d73319bfbc2890caadae2dff72519673ca72323c3d99ba5c11d7c7acc6e14b8c5da0c4663475c2e5c3adef46f73bcdec043"
    );
}

#[test]
fn md5_of_empty_input() {
    assert_eq!(digest_of(Algorithm::Md5, b""), "d41d8cd98f00b204e9800998ecf8427e");
}

#[test]
fn input_in_pieces_equals_input_whole() {
    let mut c = Checksum::new(Algorithm::Sha256);
    c.input(b"hel");
    c.input(b"lo");
    assert_eq!(c.checksum(), digest_of(Algorithm::Sha256, b"hello"));
}

#[test]
fn checksum_repeats_without_new_input() {
    let mut c = Checksum::new(Algorithm::Sha1);
    c.input(b"abc");
    let first = c.checksum();
    assert_eq!(c.checksum(), first);
    assert_eq!(first, "a9993e364706816aba3e25717850c26c9cd0d89d");
}

#[test]
fn reset_forgets_earlier_input() {
    let mut c = Checksum::new(Algorithm::Md5);
    c.input(b"something else");
    let _ = c.checksum();
    c.reset();
    c.input(b"hello");
    assert_eq!(c.checksum(), "5d41402abc4b2a76b9719d911017c592");
}

#[test]
fn same_bytes_same_digest_and_different_bytes_differ() {
    for a in [Algorithm::Md5, Algorithm::Sha1, Algorithm::Sha256, Algorithm::Sha512] {
        assert_eq!(digest_of(a, b"data"), digest_of(a, b"data"));
        assert_ne!(digest_of(a, b"data"), digest_of(a, b"datb"));
    }
}

#[test]
fn file_extensions_drop_last_character() {
    assert_eq!(Checksum::new(Algorithm::Md5).get_file_ext(), "md");
    assert_eq!(Checksum::new(Algorithm::Sha1).get_file_ext(), "sha");
    assert_eq!(Checksum::new(Algorithm::Sha256).get_file_ext(), "sha25");
    assert_eq!(Checksum::new(Algorithm::Sha512).get_file_ext(), "sha51");
}

#[test]
fn file_extension_does_not_change_between_calls() {
    let mut c = Checksum::new(Algorithm::Sha512);
    let first = c.get_file_ext();
    c.input(b"x");
    let _ = c.checksum();
    assert_eq!(c.get_file_ext(), first);
    assert_eq!(first, first.to_lowercase());
}

#[test]
fn type_strings_are_padded_to_eight() {
    assert_eq!(Checksum::new(Algorithm::Md5).get_type_string(), "MD5      - ");
    assert_eq!(Checksum::new(Algorithm::Sha1).get_type_string(), "SHA1     - ");
    assert_eq!(Checksum::new(Algorithm::Sha256).get_type_string(), "SHA256   - ");
    assert_eq!(Checksum::new(Algorithm::Sha512).get_type_string(), "SHA512   - ");
}

#[test]
fn names_of_algorithms() {
    assert_eq!(Algorithm::Md5.name(), "MD5");
    assert_eq!(Algorithm::Sha512.name(), "SHA512");
    assert_eq!(Checksum::new(Algorithm::Sha256).algorithm(), Algorithm::Sha256);
}

#[test]
fn equality_looks_at_algorithm_only() {
    let mut a = Checksum::new(Algorithm::Sha1);
    a.input(b"one");
    let b = Checksum::new(Algorithm::Sha1);
    let c = Checksum::new(Algorithm::Md5);
    assert!(a == b);
    assert!(a != c);
}
