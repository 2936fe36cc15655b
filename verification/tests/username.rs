use phosh_first_boot::username::{is_allowed_username_char, is_valid_username, sanitize_username};

#[test]
fn allowed_chars() {
    for c in ['a', 'z', 'A', 'Z', '0', '9', '_', '-', '.'] {
        assert!(is_allowed_username_char(c), "{c}");
    }
    for c in [' ', '@', '/', 'é', 'ß', '\0', '+', ':'] {
        assert!(!is_allowed_username_char(c), "{c}");
    }
}

#[test]
fn valid_usernames() {
    assert!(is_valid_username("john", 2));
    assert!(is_valid_username("jo", 2));
    assert!(!is_valid_username("j", 2));
    assert!(!is_valid_username("jo hn", 2));
    assert!(!is_valid_username("jöhn", 2));
    assert!(is_valid_username("", 0));
    assert!(is_valid_username("Mixed.Case-1_x", 14));
    assert!(!is_valid_username("Mixed.Case-1_x", 15));
}

#[test]
fn valid_username_counts_bytes() {
    // a non-ASCII character is never accepted, whatever its byte length
    assert!(!is_valid_username("é", 1));
    assert!(!is_valid_username("aé", 0));
}

#[test]
fn sanitize_uses_transliteration() {
    let full = "José García";
    assert_eq!(sanitize_username(Some(b"Jose Garcia"), full), "josegarcia");
}

#[test]
fn sanitize_falls_back_to_full_name() {
    assert_eq!(sanitize_username(None, "Anna-Lena Müller"), "anna-lenamller");
    assert_eq!(sanitize_username(Some(b""), "Bob"), "bob");
    assert_eq!(sanitize_username(Some(&[0xff, 0xfe]), "Bob"), "bob");
}

#[test]
fn sanitize_keeps_dots_underscores_dashes() {
    assert_eq!(sanitize_username(None, "A.B_C-D e"), "a.b_c-de");
    assert_eq!(sanitize_username(None, "!!!"), "");
}

#[test]
fn sanitize_transliterated_non_ascii_decodes_utf8() {
    // transliteration output that is valid UTF-8 but not ASCII: foreign characters are dropped
    let bytes = "Zoë".as_bytes();
    assert_eq!(sanitize_username(Some(bytes), "ignored"), "zo");
}

#[test]
fn sanitize_is_idempotent() {
    for name in ["José García", "ADMIN user", "x_y.z-1", "   ", "Ünïcödé Nämé"] {
        let once = sanitize_username(None, name);
        let twice = sanitize_username(None, &once);
        assert_eq!(once, twice);
        assert!(once.chars().all(|c| is_allowed_username_char(c) && !c.is_ascii_uppercase()));
    }
}
