use phosh_first_boot::crypt::{hash_failure, CryptError, CryptErrorKind, HashStep};

#[test]
fn messages_without_detail() {
    let cases = [
        (CryptErrorKind::PreferredMethodFailed, "crypt_preferred_method failed"),
        (CryptErrorKind::SaltGenFailed, "crypt_gensalt_ra failed"),
        (CryptErrorKind::HashFailed, "crypt_ra failed"),
        (CryptErrorKind::StringAllocFailed, "Failed to allocate C string"),
        (CryptErrorKind::StringConversionError, "Failed to convert to String"),
    ];
    for (k, m) in cases {
        assert_eq!(CryptError::new(k, None).fmt_error(), m);
    }
}

#[test]
fn message_with_detail() {
    let e = CryptError::new(CryptErrorKind::HashFailed, Some("No such file".to_string()));
    assert_eq!(e.fmt_error(), "crypt_ra failed: No such file");
    assert_eq!(e.kind(), CryptErrorKind::HashFailed);
}

#[test]
fn failures_of_each_step() {
    let os = || "Permission denied".to_string();
    assert_eq!(
        hash_failure(HashStep::PreferredMethod, os()).fmt_error(),
        "crypt_preferred_method failed: Permission denied"
    );
    assert_eq!(
        hash_failure(HashStep::GenSalt, os()).fmt_error(),
        "crypt_gensalt_ra failed: Permission denied"
    );
    assert_eq!(
        hash_failure(HashStep::SaltText, os()).fmt_error(),
        "Failed to convert to String: Salt is not valid"
    );
    assert_eq!(
        hash_failure(HashStep::PasswordText, os()).fmt_error(),
        "Failed to allocate C string"
    );
    assert_eq!(hash_failure(HashStep::Hash, os()).fmt_error(), "crypt_ra failed: Permission denied");
    assert_eq!(
        hash_failure(HashStep::HashText, os()).fmt_error(),
        "Failed to convert to String: Password is not valid"
    );
    assert_eq!(hash_failure(HashStep::PasswordText, os()).kind(), CryptErrorKind::StringAllocFailed);
}
