use qnserver::digest::md5_of;
use qnserver::media::{
    temporary_file_name, CreateOutcome, CreateStep, FileDigests, MediaType, TemporaryFileAttempts,
    FIRST_10_MB,
};
use qnserver::text::to_hex;

#[test]
fn calculates_qq_required_file_digests() {
    let mut digests = FileDigests::new();
    digests.update(b"abc");

    let (md5, sha1, md5_10m) = digests.finish();
    assert_eq!(md5, "900150983cd24fb0d6963f7d28e17f72");
    assert_eq!(sha1, "a9993e364706816aba3e25717850c26c9cd0d89d");
    assert_eq!(md5_10m, md5);
}

#[test]
fn digests_of_nothing() {
    let (md5, sha1, md5_10m) = FileDigests::new().finish();
    assert_eq!(md5, "d41d8cd98f00b204e9800998ecf8427e");
    assert_eq!(sha1, "da39a3ee5e6b4b0d3255bfef95601890afd80709");
    assert_eq!(md5_10m, md5);
}

#[test]
fn digests_do_not_depend_on_the_pieces() {
    let mut pieces = FileDigests::new();
    for piece in [&b"a"[..], b"", b"b", b"c"] {
        pieces.update(piece);
    }
    let mut whole = FileDigests::new();
    whole.update(b"abc");
    assert_eq!(pieces.finish(), whole.finish());
}

#[test]
fn the_third_digest_covers_the_beginning() {
    let file: Vec<u8> = (0..FIRST_10_MB + 100_000).map(|i| (i % 251) as u8).collect();
    let mut digests = FileDigests::new();
    for piece in file.chunks(64 * 1024) {
        digests.update(piece);
    }
    let (md5, _, md5_10m) = digests.finish();
    assert_eq!(md5, to_hex(&md5_of(&file)));
    assert_eq!(md5_10m, to_hex(&md5_of(&file[..FIRST_10_MB])));
    assert_ne!(md5, md5_10m);
}

#[test]
fn kinds_have_codes_and_labels() {
    assert_eq!((MediaType::Image.code(), MediaType::Image.label()), (1, "image"));
    assert_eq!((MediaType::File.code(), MediaType::File.label()), (4, "file"));
}

#[test]
fn temporary_files_have_names_of_their_own() {
    assert_eq!(temporary_file_name(17, 0), "qqbot-upload-17-0");
    assert_eq!(temporary_file_name(1, 70), "qqbot-upload-1-70");
    assert_ne!(temporary_file_name(1, 11), temporary_file_name(11, 1));
}

#[test]
fn a_taken_name_is_passed_over_sixteen_times() {
    let mut attempts = TemporaryFileAttempts::new();
    for _ in 0..15 {
        assert_eq!(attempts.after_attempt(CreateOutcome::AlreadyExists), CreateStep::Retry);
    }
    assert_eq!(attempts.after_attempt(CreateOutcome::AlreadyExists), CreateStep::NoUniqueName);
    let mut attempts = TemporaryFileAttempts::new();
    assert_eq!(attempts.after_attempt(CreateOutcome::AlreadyExists), CreateStep::Retry);
    assert_eq!(attempts.after_attempt(CreateOutcome::Created), CreateStep::Use);
    let mut attempts = TemporaryFileAttempts::new();
    assert_eq!(attempts.after_attempt(CreateOutcome::Failed), CreateStep::GiveUp);
}

#[test]
fn digests_have_as_many_digits_as_their_kind_takes() {
    for bytes in [&b""[..], b"abc", &[0; 1000]] {
        let mut digests = FileDigests::new();
        digests.update(bytes);
        let (md5, sha1, md5_10m) = digests.finish();
        assert_eq!((md5.len(), sha1.len(), md5_10m.len()), (32, 40, 32));
    }
}
