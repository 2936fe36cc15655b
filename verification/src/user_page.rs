//! The user page: the state behind its form, when the form may be submitted,
//! and the user record that is handed to homed.
use vstd::prelude::*;
use vstd::utf8::*;

use crate::defaults::UserDefaults;
use crate::username::{
    filter_username, lemma_filter_username_output, lemma_sanitize_uses_transliteration,
    sanitize_username, sanitized_username, transliterated_name, valid_username,
};

verus! {

/// The state of the user page's form.
pub struct UserPageState {
    /// Whether the username still follows the full name.
    pub auto_user_name: bool,
    /// Minimum username length.
    pub username_min_len: usize,
    /// Minimum PIN length.
    pub pin_min_len: usize,
}

/// The bytes of an optional byte slice, as a plain value.
pub open spec fn bytes_of(converted: Option<&[u8]>) -> Option<Seq<u8>> {
    match converted {
        Some(b) => Some(b@),
        None => None,
    }
}

/// Whether the username follows the full name after the username field
/// changed to `username`: an empty field always follows again; a change while
/// neither the field nor a child of it has the focus is an automatic update
/// and changes nothing; a change typed by the user stops the following.
pub open spec fn next_auto_user_name(
    auto: bool,
    username: Seq<char>,
    has_focus: bool,
    focus_child: bool,
) -> bool {
    if username.len() == 0 {
        true
    } else if !has_focus && !focus_child {
        auto
    } else {
        false
    }
}

/// The username the form takes when the full name changes: none while the
/// username does not follow the full name, or when the derived username is
/// empty; else the derived username.
pub open spec fn full_name_update(
    auto: bool,
    converted: Option<Seq<u8>>,
    full_name: Seq<char>,
) -> Option<Seq<char>> {
    if !auto {
        None
    } else if sanitized_username(converted, full_name).len() == 0 {
        None
    } else {
        Some(sanitized_username(converted, full_name))
    }
}

/// Whether the form may be submitted: no request is running, the PIN is long
/// enough and typed twice alike, and the username is valid. The PIN's length
/// is its length in UTF-8 bytes, as `str::len` reports it.
pub open spec fn ready(
    username_min_len: usize,
    pin_min_len: usize,
    user_name: Seq<char>,
    pin1: Seq<char>,
    pin2: Seq<char>,
    active: bool,
) -> bool {
    &&& !active
    &&& (encode_utf8(pin1).len() as usize) >= pin_min_len
    &&& pin1 == pin2
    &&& valid_username(user_name, username_min_len as int)
}

impl UserPageState {
    /// The state of a fresh form: the username follows the full name, and the
    /// minimum lengths are the configured ones.
    pub fn new(defaults: &UserDefaults) -> (r: Self)
        ensures
            r.auto_user_name,
            r.username_min_len == defaults.username_min_len,
            r.pin_min_len == defaults.pin_min_len,
    {
        UserPageState {
            auto_user_name: true,
            username_min_len: defaults.username_min_len,
            pin_min_len: defaults.pin_min_len,
        }
    }

    /// Whether `c` may appear in a username.
    pub fn is_allowed_username_char(&self, c: char) -> (r: bool)
        ensures
            r == crate::username::allowed_username_char(c),
    {
        crate::username::is_allowed_username_char(c)
    }

    /// Whether `s` is a valid username: at least the minimum length and
    /// made of allowed characters.
    pub fn is_valid_username(&self, s: &str) -> (r: bool)
        ensures
            r == valid_username(s@, self.username_min_len as int),
    {
        crate::username::is_valid_username(s, self.username_min_len)
    }

    /// The username derived from a full name (see `username::sanitize_username`).
    pub fn sanitize_username(&self, converted: Option<&[u8]>, full_name: &str) -> (r: String)
        ensures
            r@ == sanitized_username(bytes_of(converted), full_name@),
    {
        sanitize_username(converted, full_name)
    }

    /// The full name changed: the username the form now shows, if it changes.
    pub fn on_full_name_row_text_changed(&self, converted: Option<&[u8]>, full_name: &str) -> (r:
        Option<String>)
        ensures
            match r {
                Some(u) => full_name_update(
                    self.auto_user_name,
                    bytes_of(converted),
                    full_name@,
                ) == Some(u@),
                None => full_name_update(self.auto_user_name, bytes_of(converted), full_name@)
                    is None,
            },
    {
        if !self.auto_user_name {
            return None;
        }
        let username = sanitize_username(converted, full_name);
        if username.as_str().is_empty() {
            return None;
        }
        Some(username)
    }

    /// The username field changed to `username`; `has_focus` and
    /// `focus_child` tell whether the field or a child of it has the focus.
    pub fn on_user_name_entry_row_text_changed(
        &mut self,
        username: &str,
        has_focus: bool,
        focus_child: bool,
    )
        ensures
            final(self).auto_user_name == next_auto_user_name(
                old(self).auto_user_name,
                username@,
                has_focus,
                focus_child,
            ),
            final(self).username_min_len == old(self).username_min_len,
            final(self).pin_min_len == old(self).pin_min_len,
    {
        if username.is_empty() {
            self.auto_user_name = true;
            return;
        }
        if !has_focus && !focus_child {
            return;
        }
        if !self.auto_user_name {
            return;
        }
        self.auto_user_name = false;
    }

    /// Whether the form may be submitted.
    pub fn state_to_ready(&self, user_name: String, pin1: String, pin2: String, active: bool) -> (r:
        bool)
        ensures
            r == ready(
                self.username_min_len,
                self.pin_min_len,
                user_name@,
                pin1@,
                pin2@,
                active,
            ),
    {
        if active {
            return false;
        }
        if pin1.as_str().len() >= self.pin_min_len && pin1 == pin2 {
            return self.is_valid_username(user_name.as_str());
        }
        false
    }
}

/// An automatic update of the username field, with a username derived from
/// the full name, keeps the username following the full name.
pub proof fn lemma_automatic_update_keeps_following(
    converted: Option<Seq<u8>>,
    full_name: Seq<char>,
)
    ensures
        full_name_update(true, converted, full_name) matches Some(u) ==> next_auto_user_name(
            true,
            u,
            false,
            false,
        ),
{
}

/// Once the user typed a username, changes of the full name leave it alone,
/// until the username is cleared.
pub proof fn lemma_typed_username_sticks(
    username: Seq<char>,
    converted: Option<Seq<u8>>,
    full_name: Seq<char>,
    auto: bool,
)
    requires
        username.len() > 0,
    ensures
        full_name_update(next_auto_user_name(auto, username, true, false), converted, full_name)
            is None,
        full_name_update(next_auto_user_name(auto, username, false, true), converted, full_name)
            is None,
        next_auto_user_name(auto, Seq::empty(), true, false),
{
}

/// A form that may be submitted carries a valid username, two equal PINs, and
/// no running request; a username derived from a full name is accepted
/// whenever it is long enough.
pub proof fn lemma_ready_derived_username(
    username_min_len: usize,
    pin_min_len: usize,
    converted: Option<Seq<u8>>,
    full_name: Seq<char>,
    pin: Seq<char>,
)
    requires
        sanitized_username(converted, full_name).len() >= username_min_len,
        (encode_utf8(pin).len() as usize) >= pin_min_len,
    ensures
        ready(
            username_min_len,
            pin_min_len,
            sanitized_username(converted, full_name),
            pin,
            pin,
            false,
        ),
{
    lemma_filter_username_output(transliterated_name(converted, full_name));
}

/// The secret part of a user record.
pub struct SecretSection {
    pub password: Vec<String>,
}

/// The privileged part of a user record.
pub struct PrivilegedSection {
    pub hashed_password: Vec<String>,
}

/// The user record that homed creates a user from.
pub struct UserRecord {
    pub user_name: String,
    pub real_name: String,
    pub home_directory: String,
    pub shell: String,
    pub storage: String,
    pub disposition: String,
    pub enforce_password_policy: bool,
    pub last_change_u_sec: u128,
    pub last_password_change_u_sec: u128,
    pub secret: SecretSection,
    pub privileged: PrivilegedSection,
    pub member_of: Vec<String>,
}

impl UserRecord {
    /// The record of a new regular user: home `/home/<user_name>`, shell
    /// `/bin/bash`, directory storage, no password policy, both change times
    /// `now` (microseconds since the epoch), the password and its hash, and
    /// the auxiliary groups.
    pub fn for_new_user(
        user_name: String,
        real_name: String,
        password: String,
        hashed_password: String,
        aux_groups: Vec<String>,
        now: u128,
    ) -> (r: Self)
        ensures
            r.user_name@ == user_name@,
            r.real_name@ == real_name@,
            r.home_directory@ == "/home/"@ + user_name@,
            r.shell@ == "/bin/bash"@,
            r.storage@ == "directory"@,
            r.disposition@ == "regular"@,
            !r.enforce_password_policy,
            r.last_change_u_sec == now,
            r.last_password_change_u_sec == now,
            r.secret.password@.len() == 1,
            r.secret.password@[0]@ == password@,
            r.privileged.hashed_password@.len() == 1,
            r.privileged.hashed_password@[0]@ == hashed_password@,
            r.member_of@ == aux_groups@,
    {
        let mut home_directory = String::from_str("/home/");
        home_directory.append(user_name.as_str());
        let mut passwords: Vec<String> = Vec::new();
        passwords.push(password);
        let mut hashes: Vec<String> = Vec::new();
        hashes.push(hashed_password);
        UserRecord {
            home_directory,
            user_name,
            real_name,
            disposition: String::from_str("regular"),
            shell: String::from_str("/bin/bash"),
            storage: String::from_str("directory"),
            enforce_password_policy: false,
            last_change_u_sec: now,
            last_password_change_u_sec: now,
            member_of: aux_groups,
            secret: SecretSection { password: passwords },
            privileged: PrivilegedSection { hashed_password: hashes },
        }
    }
}

} // verus!

verus! {

/// While the username follows the full name, a change of the full name sets
/// the username to the one derived from that full name with its
/// transliteration, whenever that is non-empty; when the transliteration
/// decodes to a non-empty text it is that text's username. While the username
/// does not follow, nothing is set.
pub proof fn lemma_full_name_update_sets_derived_username(
    converted: Option<Seq<u8>>,
    full_name: Seq<char>,
)
    ensures
        sanitized_username(converted, full_name).len() > 0 ==> full_name_update(
            true,
            converted,
            full_name,
        ) == Some(sanitized_username(converted, full_name)),
        sanitized_username(converted, full_name).len() == 0 ==> full_name_update(
            true,
            converted,
            full_name,
        ) is None,
        converted matches Some(b) ==> (valid_utf8(b) && decode_utf8(b).len() > 0 && filter_username(
            decode_utf8(b),
        ).len() > 0 ==> full_name_update(true, converted, full_name) == Some(
            filter_username(decode_utf8(b)),
        )),
        full_name_update(false, converted, full_name) is None,
{
    if let Some(b) = converted {
        lemma_sanitize_uses_transliteration(b, full_name);
    }
}

/// A form that may be submitted has no running request, two equal PINs, a
/// PIN of at least the minimum length in bytes, and a username of at least
/// the minimum length made of ASCII letters, digits, `_`, `-` and `.` only;
/// and every such form may be submitted.
pub proof fn lemma_ready_iff(
    username_min_len: usize,
    pin_min_len: usize,
    user_name: Seq<char>,
    pin1: Seq<char>,
    pin2: Seq<char>,
    active: bool,
)
    ensures
        ready(username_min_len, pin_min_len, user_name, pin1, pin2, active) ==> pin1 == pin2,
        ready(username_min_len, pin_min_len, user_name, pin1, pin2, active) ==> !active,
        ready(username_min_len, pin_min_len, user_name, pin1, pin2, active) ==> user_name.len()
            >= username_min_len,
        ready(username_min_len, pin_min_len, user_name, pin1, pin2, active) ==> (encode_utf8(
            pin1,
        ).len() as usize) >= pin_min_len,
        ready(username_min_len, pin_min_len, user_name, pin1, pin2, active) <==> (!active && pin1
            == pin2 && (encode_utf8(pin1).len() as usize) >= pin_min_len && user_name.len()
            >= username_min_len && forall|i: int|
            0 <= i < user_name.len() ==> ('a' <= #[trigger] user_name[i] && user_name[i] <= 'z')
                || ('A' <= user_name[i] && user_name[i] <= 'Z') || ('0' <= user_name[i]
                && user_name[i] <= '9') || user_name[i] == '_' || user_name[i] == '-'
                || user_name[i] == '.'),
        pin1 != pin2 ==> !ready(username_min_len, pin_min_len, user_name, pin1, pin2, active),
{
    if forall|i: int|
        0 <= i < user_name.len() ==> ('a' <= #[trigger] user_name[i] && user_name[i] <= 'z') || (
        'A' <= user_name[i] && user_name[i] <= 'Z') || ('0' <= user_name[i] && user_name[i]
            <= '9') || user_name[i] == '_' || user_name[i] == '-' || user_name[i] == '.' {
        assert forall|i: int| 0 <= i < user_name.len() implies #[trigger] crate::username::allowed_username_char(user_name[i]) by {
            crate::username::lemma_allowed_chars_are_ascii_word_chars(user_name[i]);
        }
    }
    if valid_username(user_name, username_min_len as int) {
        assert forall|i: int| 0 <= i < user_name.len() implies ('a' <= #[trigger] user_name[i] && user_name[i] <= 'z') || (
        'A' <= user_name[i] && user_name[i] <= 'Z') || ('0' <= user_name[i] && user_name[i]
            <= '9') || user_name[i] == '_' || user_name[i] == '-' || user_name[i] == '.' by {
            crate::username::lemma_valid_username_chars(user_name, username_min_len as int, i);
        }
    }
}

} // verus!
