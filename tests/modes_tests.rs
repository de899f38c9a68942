use rusty_hash::checksum::{Algorithm, Checksum};
use rusty_hash::modes::{
    check_report, check_verdict, interactive_report, output_report, print_report, sidecar_path,
    sidecar_paths, sidecar_text, SidecarRead, Verdict,
};

fn all() -> Vec<Checksum> {
    vec![
        Checksum::new(Algorithm::Md5),
        Checksum::new(Algorithm::Sha1),
        Checksum::new(Algorithm::Sha256),
        Checksum::new(Algorithm::Sha512),
    ]
}

#[test]
fn print_mode_with_md5_only() {
    let mut cs = vec![Checksum::new(Algorithm::Md5)];
    let lines = print_report(&mut cs, b"hello");
    assert_eq!(lines, vec!["MD5      - 5d41402abc4b2a76b9719d911017c592".to_string()]);
}

#[test]
fn print_mode_resets_between_files() {
    let mut cs = vec![Checksum::new(Algorithm::Md5)];
    let _ = print_report(&mut cs, b"first file");
    let lines = print_report(&mut cs, b"hello");
    assert_eq!(lines[0], "MD5      - 5d41402abc4b2a76b9719d911017c592");
}

#[test]
fn sidecar_names_and_text() {
    let c = Checksum::new(Algorithm::Sha256);
    assert_eq!(sidecar_path("dir/a.txt", &c), "dir/a.txt.sha25");
    assert_eq!(sidecar_text("abc"), "abc\n");
    let names = sidecar_paths("a", &all());
    assert_eq!(names, vec!["a.md", "a.sha", "a.sha25", "a.sha51"]);
}

#[test]
fn output_then_check_is_ok_for_every_algorithm() {
    let mut cs = all();
    let writes = output_report("a.txt", &mut cs, b"hello");
    assert_eq!(writes[0].file_name, "a.txt.md");
    assert_eq!(writes[0].text, "5d41402abc4b2a76b9719d911017c592\n");
    assert_eq!(writes[0].label, "MD5      - ");
    let reads: Vec<SidecarRead> = writes.iter().map(|w| SidecarRead::Text(w.text.clone())).collect();
    let lines = check_report(&mut cs, b"hello", &reads);
    assert_eq!(
        lines,
        vec!["MD5      - OK", "SHA1     - OK", "SHA256   - OK", "SHA512   - OK"]
    );
}

#[test]
fn check_after_changing_one_byte_is_not_ok() {
    let mut cs = all();
    let writes = output_report("a.txt", &mut cs, b"hello");
    let reads: Vec<SidecarRead> = writes.iter().map(|w| SidecarRead::Text(w.text.clone())).collect();
    let lines = check_report(&mut cs, b"hellp", &reads);
    assert_eq!(
        lines,
        vec!["MD5      - NOT_OK", "SHA1     - NOT_OK", "SHA256   - NOT_OK", "SHA512   - NOT_OK"]
    );
}

#[test]
fn check_reports_missing_and_unreadable_files() {
    let mut cs = vec![Checksum::new(Algorithm::Md5), Checksum::new(Algorithm::Sha1)];
    let reads = vec![SidecarRead::NoFile, SidecarRead::ReadFailed];
    let lines = check_report(&mut cs, b"hello", &reads);
    assert_eq!(
        lines,
        vec!["MD5      - No checksum file!", "SHA1     - Failed to get checksum from file!"]
    );
}

#[test]
fn check_verdict_trims_white_space() {
    let read = SidecarRead::Text("  \tabc \r\n".to_string());
    assert_eq!(check_verdict(&read, "abc"), Verdict::Match);
    assert_eq!(check_verdict(&read, "  \tabc \r\n"), Verdict::Mismatch);
    assert_eq!(check_verdict(&SidecarRead::Text("ab c".to_string()), "abc"), Verdict::Mismatch);
    assert_eq!(check_verdict(&SidecarRead::NoFile, "abc"), Verdict::NoChecksumFile);
    assert_eq!(check_verdict(&SidecarRead::ReadFailed, "abc"), Verdict::ReadFailed);
}

#[test]
fn interactive_identical_files_are_ok() {
    let mut cs = all();
    let lines = interactive_report(&mut cs, b"same bytes", b"same bytes");
    assert_eq!(
        lines,
        vec!["MD5      - OK", "SHA1     - OK", "SHA256   - OK", "SHA512   - OK"]
    );
}

#[test]
fn interactive_distinct_files_are_not_ok() {
    let mut cs = all();
    let lines = interactive_report(&mut cs, b"one file", b"another file");
    assert!(lines.iter().any(|l| l.ends_with("NOT_OK")));
    assert_eq!(lines[0], "MD5      - NOT_OK");
}
