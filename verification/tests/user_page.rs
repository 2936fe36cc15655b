use phosh_first_boot::defaults::{Storage, UserDefaults};
use phosh_first_boot::user_page::{UserPageState, UserRecord};

fn defaults(username_min_len: usize, pin_min_len: usize) -> UserDefaults {
    UserDefaults {
        aux_groups: vec!["wheel".to_string()],
        username_min_len,
        pin_min_len,
        storage: Storage::Directory,
    }
}

#[test]
fn new_state_follows_full_name() {
    let s = UserPageState::new(&defaults(3, 6));
    assert!(s.auto_user_name);
    assert_eq!(s.username_min_len, 3);
    assert_eq!(s.pin_min_len, 6);
}

#[test]
fn full_name_updates_username_while_following() {
    let s = UserPageState::new(&defaults(2, 4));
    assert_eq!(
        s.on_full_name_row_text_changed(Some(b"Jane Doe"), "Jane Doe"),
        Some("janedoe".to_string())
    );
    assert_eq!(s.on_full_name_row_text_changed(None, "?!"), None);
}

#[test]
fn typed_username_stops_following() {
    let mut s = UserPageState::new(&defaults(2, 4));
    // an automatic update (no focus) keeps following
    s.on_user_name_entry_row_text_changed("janedoe", false, false);
    assert!(s.auto_user_name);
    // the user types: following stops
    s.on_user_name_entry_row_text_changed("jd", true, false);
    assert!(!s.auto_user_name);
    assert_eq!(s.on_full_name_row_text_changed(None, "Jane Doe"), None);
    // focus on a child counts as typing too
    s.on_user_name_entry_row_text_changed("jdx", false, true);
    assert!(!s.auto_user_name);
    // clearing the field follows again, with or without focus
    s.on_user_name_entry_row_text_changed("", true, false);
    assert!(s.auto_user_name);
    assert_eq!(
        s.on_full_name_row_text_changed(None, "Jane Doe"),
        Some("janedoe".to_string())
    );
    let mut s2 = UserPageState::new(&defaults(2, 4));
    s2.on_user_name_entry_row_text_changed("jd", false, true);
    assert!(!s2.auto_user_name);
    s2.on_user_name_entry_row_text_changed("", false, false);
    assert!(s2.auto_user_name);
}

#[test]
fn ready_requires_everything() {
    let s = UserPageState::new(&defaults(2, 4));
    let ok = |u: &str, p1: &str, p2: &str, a: bool| {
        s.state_to_ready(u.to_string(), p1.to_string(), p2.to_string(), a)
    };
    assert!(ok("jane", "1234", "1234", false));
    assert!(!ok("jane", "1234", "1234", true));
    assert!(!ok("jane", "123", "123", false));
    assert!(!ok("jane", "1234", "1235", false));
    assert!(!ok("j", "1234", "1234", false));
    assert!(!ok("Jane Doe", "1234", "1234", false));
    // the PIN length is counted in bytes
    assert!(ok("jane", "éé", "éé", false));
    assert!(!ok("jane", "é", "é", false));
}

#[test]
fn ready_with_zero_minimums() {
    let s = UserPageState::new(&UserDefaults::default());
    assert!(s.state_to_ready(String::new(), String::new(), String::new(), false));
}

#[test]
fn user_record_fields() {
    let r = UserRecord::for_new_user(
        "jane".to_string(),
        "Jane Doe".to_string(),
        "1234".to_string(),
        "$y$hash".to_string(),
        vec!["wheel".to_string(), "video".to_string()],
        1771451009859149,
    );
    assert_eq!(r.user_name, "jane");
    assert_eq!(r.real_name, "Jane Doe");
    assert_eq!(r.home_directory, "/home/jane");
    assert_eq!(r.shell, "/bin/bash");
    assert_eq!(r.storage, "directory");
    assert_eq!(r.disposition, "regular");
    assert!(!r.enforce_password_policy);
    assert_eq!(r.last_change_u_sec, 1771451009859149);
    assert_eq!(r.last_password_change_u_sec, 1771451009859149);
    assert_eq!(r.secret.password, vec!["1234".to_string()]);
    assert_eq!(r.privileged.hashed_password, vec!["$y$hash".to_string()]);
    assert_eq!(r.member_of, vec!["wheel".to_string(), "video".to_string()]);
}
