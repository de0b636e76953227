use content_workflow::verification::{
    assess, same_bytes, verify, Artifact, Verification, VerificationError,
};

#[test]
fn same_bytes_compares_whole_strings() {
    assert!(same_bytes(b"", b""));
    assert!(same_bytes(b"abc", b"abc"));
    assert!(!same_bytes(b"abc", b"abd"));
    assert!(!same_bytes(b"abc", b"ab"));
    assert!(!same_bytes(b"ab", b"abc"));
    assert!(!same_bytes(b"xbc", b"abc"));
}

#[test]
fn a_failed_fetch_skips_the_verification() {
    assert_eq!(assess(b"hello", None, Some("f.bin".to_string())), Ok(Verification::Skipped));
    assert_eq!(assess(b"hello", None, None), Ok(Verification::Skipped));
}

#[test]
fn matching_bytes_give_the_verified_copy() {
    let sent = b"0123456789".to_vec();
    let result = assess(&sent, Some(sent.clone()), Some("ten.bin".to_string()));
    assert_eq!(
        result,
        Ok(Verification::Matched(Artifact {
            file_name: "ten.bin".to_string(),
            content: sent.clone(),
        }))
    );
}

#[test]
fn different_bytes_give_the_mismatch_file() {
    let sent = b"0123456789".to_vec();
    let fetched = b"0123456780".to_vec();
    let result = assess(&sent, Some(fetched.clone()), Some("ten.bin".to_string()));
    assert_eq!(
        result,
        Ok(Verification::Mismatched(Artifact {
            file_name: "ten.bin.mismatched".to_string(),
            content: fetched,
        }))
    );
}

#[test]
fn a_shorter_fetch_is_a_mismatch() {
    let result = assess(b"abc", Some(b"ab".to_vec()), Some("x".to_string()));
    assert_eq!(
        result,
        Ok(Verification::Mismatched(Artifact {
            file_name: "x.mismatched".to_string(),
            content: b"ab".to_vec(),
        }))
    );
}

#[test]
fn empty_content_matches_empty_content() {
    let result = assess(b"", Some(Vec::new()), Some("empty".to_string()));
    assert_eq!(
        result,
        Ok(Verification::Matched(Artifact { file_name: "empty".to_string(), content: Vec::new() }))
    );
}

#[test]
fn fetched_bytes_without_a_file_name_are_an_error() {
    assert_eq!(
        assess(b"abc", Some(b"abc".to_vec()), None),
        Err(VerificationError::MissingFileName)
    );
    assert_eq!(
        assess(b"abc", Some(b"abd".to_vec()), None),
        Err(VerificationError::MissingFileName)
    );
}

#[test]
fn verify_names_the_file_after_the_uploaded_one() {
    let matched = verify(b"abc", Some(b"abc".to_vec()), "in/dir/photo.jpg").unwrap();
    assert_eq!(
        matched,
        Verification::Matched(Artifact {
            file_name: "photo.jpg".to_string(),
            content: b"abc".to_vec(),
        })
    );
    let mismatched = verify(b"abc", Some(b"zzz".to_vec()), "in/dir/photo.jpg").unwrap();
    assert_eq!(
        mismatched,
        Verification::Mismatched(Artifact {
            file_name: "photo.jpg.mismatched".to_string(),
            content: b"zzz".to_vec(),
        })
    );
}

#[test]
fn verify_skips_when_nothing_was_fetched() {
    assert_eq!(verify(b"abc", None, "photo.jpg"), Ok(Verification::Skipped));
    assert_eq!(verify(b"abc", None, ".."), Ok(Verification::Skipped));
}

#[test]
fn verify_fails_on_a_path_without_file_name() {
    assert_eq!(
        verify(b"abc", Some(b"abc".to_vec()), ".."),
        Err(VerificationError::MissingFileName)
    );
}
