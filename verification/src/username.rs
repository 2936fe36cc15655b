//! Usernames: which characters they may hold, when one is valid, and how a
//! username is derived from a person's full name.
use vstd::prelude::*;
use vstd::utf8::*;

use crate::text::{push_char, utf8_decode};

verus! {

broadcast use vstd::utf8::group_utf8_lib;

/// A character that may appear in a username: ASCII letters and digits,
/// `_`, `-` and `.`.
pub open spec fn allowed_username_char(c: char) -> bool {
    ||| ('a' <= c && c <= 'z')
    ||| ('A' <= c && c <= 'Z')
    ||| ('0' <= c && c <= '9')
    ||| c == '_'
    ||| c == '-'
    ||| c == '.'
}

/// ASCII lowercase mapping: `A`..`Z` become `a`..`z`, every other character stays.
pub open spec fn ascii_lower(c: char) -> char {
    if 'A' <= c && c <= 'Z' {
        ((c as u32) + 32) as char
    } else {
        c
    }
}

/// Every character of `s` may appear in a username.
pub open spec fn all_allowed(s: Seq<char>) -> bool {
    forall|i: int| 0 <= i < s.len() ==> #[trigger] allowed_username_char(s[i])
}

/// A valid username: at least `min_len` long and made of allowed characters only.
/// (Such a name is ASCII, so its length in characters is its length in bytes.)
pub open spec fn valid_username(s: Seq<char>, min_len: int) -> bool {
    &&& s.len() >= min_len
    &&& all_allowed(s)
}

/// Keeps the allowed username characters of `s`, in order, lowercased.
pub open spec fn filter_username(s: Seq<char>) -> Seq<char>
    decreases s.len(),
{
    if s.len() == 0 {
        Seq::empty()
    } else {
        let rest = filter_username(s.drop_last());
        if allowed_username_char(s.last()) {
            rest.push(ascii_lower(s.last()))
        } else {
            rest
        }
    }
}

/// The text that a username is derived from: the transliterated bytes when
/// they decode as UTF-8 to a non-empty text, else the full name itself.
pub open spec fn transliterated_name(converted: Option<Seq<u8>>, full_name: Seq<char>) -> Seq<char> {
    let decoded = match converted {
        Some(b) => if valid_utf8(b) {
            decode_utf8(b)
        } else {
            Seq::empty()
        },
        None => Seq::empty(),
    };
    if decoded.len() == 0 {
        full_name
    } else {
        decoded
    }
}

/// The username derived from a full name (see `sanitize_username`).
pub open spec fn sanitized_username(converted: Option<Seq<u8>>, full_name: Seq<char>) -> Seq<char> {
    filter_username(transliterated_name(converted, full_name))
}

/// Whether `c` may appear in a username.
pub fn is_allowed_username_char(c: char) -> (r: bool)
    ensures
        r == allowed_username_char(c),
{
    ('a' <= c && c <= 'z') || ('A' <= c && c <= 'Z') || ('0' <= c && c <= '9') || c == '_'
        || c == '-' || c == '.'
}

fn to_ascii_lower(c: char) -> (r: char)
    ensures
        r == ascii_lower(c),
{
    if 'A' <= c && c <= 'Z' {
        let b: u8 = c as u8;
        (b + 32) as char
    } else {
        c
    }
}

/// Allowed characters are ASCII, so an all-allowed text is as long in UTF-8
/// bytes as in characters.
pub proof fn lemma_allowed_is_ascii(s: Seq<char>)
    requires
        all_allowed(s),
    ensures
        is_ascii_chars(s),
        encode_utf8(s).len() == s.len(),
{
    assert forall|i: int| 0 <= i < s.len() implies '\0' <= #[trigger] s[i] <= '\u{7f}' by {
        assert(allowed_username_char(s[i]));
    }
    is_ascii_chars_encode_utf8(s);
}

/// Whether `s` is a valid username of at least `min_len` bytes.
pub fn is_valid_username(s: &str, min_len: usize) -> (r: bool)
    ensures
        r == (encode_utf8(s@).len() >= min_len && all_allowed(s@)),
        r == valid_username(s@, min_len as int),
{
    let ghost full = s@;
    let mut all: bool = true;
    for c in it: s.chars()
        invariant
            it.seq() == full,
            all == all_allowed(full.take(it.index() as int)),
    {
        proof {
            let t1 = full.take(it.index() + 1);
            let t0 = full.take(it.index() as int);
            assert(t1.drop_last() =~= t0);
            assert(t1[t1.len() - 1] == c);
            if all_allowed(t1) {
                assert(allowed_username_char(t1[t1.len() - 1]));
                assert forall|i: int| 0 <= i < t0.len() implies #[trigger] allowed_username_char(t0[i]) by {
                    assert(t0[i] == t1[i]);
                }
            }
            if all_allowed(t0) && allowed_username_char(c) {
                assert forall|i: int| 0 <= i < t1.len() implies #[trigger] allowed_username_char(t1[i]) by {
                    if i < t0.len() {
                        assert(t1[i] == t0[i]);
                    }
                }
            }
        }
        all = all && is_allowed_username_char(c);
    }
    proof {
        assert(full.take(full.len() as int) =~= full);
        if all {
            lemma_allowed_is_ascii(full);
        }
    }
    all && s.unicode_len() >= min_len
}

/// Keeps the allowed username characters of `s`, lowercased.
fn filter_username_chars(s: &str) -> (r: String)
    ensures
        r@ == filter_username(s@),
{
    let mut out = String::new();
    let ghost full = s@;
    for c in it: s.chars()
        invariant
            it.seq() == full,
            out@ == filter_username(full.take(it.index() as int)),
    {
        assert(full.take(it.index() + 1).drop_last() =~= full.take(it.index() as int));
        if is_allowed_username_char(c) {
            push_char(&mut out, to_ascii_lower(c));
        }
    }
    assert(full.take(full.len() as int) =~= full);
    out
}

/// Derives a username from a full name.
///
/// `converted` is the full name transliterated to ASCII (`None` when the
/// transliteration failed). When it decodes as UTF-8 to a non-empty text
/// that text is used, else the full name itself; of it the allowed username
/// characters are kept, lowercased.
pub fn sanitize_username(converted: Option<&[u8]>, full_name: &str) -> (r: String)
    ensures
        r@ == sanitized_username(
            match converted {
                Some(b) => Some(b@),
                None => None,
            },
            full_name@,
        ),
{
    let decoded: Option<&str> = match converted {
        Some(b) => utf8_decode(b),
        None => None,
    };
    let name: &str = match decoded {
        Some(d) => if d.is_empty() {
            full_name
        } else {
            d
        },
        None => full_name,
    };
    filter_username_chars(name)
}

} // verus!

verus! {

/// Lowercasing keeps a character allowed, and lowercasing twice is lowercasing once.
pub proof fn lemma_ascii_lower_allowed(c: char)
    requires
        allowed_username_char(c),
    ensures
        allowed_username_char(ascii_lower(c)),
        ascii_lower(ascii_lower(c)) == ascii_lower(c),
        !('A' <= ascii_lower(c) && ascii_lower(c) <= 'Z'),
{
}

/// What `filter_username` keeps is made of allowed characters and holds no
/// uppercase letter.
pub proof fn lemma_filter_username_output(s: Seq<char>)
    ensures
        all_allowed(filter_username(s)),
        forall|i: int|
            0 <= i < filter_username(s).len() ==> !('A' <= #[trigger] filter_username(s)[i]
                && filter_username(s)[i] <= 'Z'),
        filter_username(s).len() <= s.len(),
    decreases s.len(),
{
    if s.len() > 0 {
        lemma_filter_username_output(s.drop_last());
        if allowed_username_char(s.last()) {
            lemma_ascii_lower_allowed(s.last());
            let rest = filter_username(s.drop_last());
            let f = filter_username(s);
            assert(f == rest.push(ascii_lower(s.last())));
            assert forall|i: int| 0 <= i < f.len() implies #[trigger] allowed_username_char(f[i]) by {
                if i < rest.len() {
                    assert(f[i] == rest[i]);
                }
            }
            assert forall|i: int| 0 <= i < f.len() implies !('A' <= #[trigger] f[i] && f[i] <= 'Z') by {
                if i < rest.len() {
                    assert(f[i] == rest[i]);
                }
            }
        }
    }
}

/// `filter_username` appends: filtering `s + [c]` is filtering `s`, then `c` if it is kept.
proof fn lemma_filter_username_push(s: Seq<char>, c: char)
    ensures
        filter_username(s.push(c)) == if allowed_username_char(c) {
            filter_username(s).push(ascii_lower(c))
        } else {
            filter_username(s)
        },
{
    assert(s.push(c).drop_last() =~= s);
}

/// Deriving a username from a derived username changes nothing.
pub proof fn lemma_filter_username_idempotent(s: Seq<char>)
    ensures
        filter_username(filter_username(s)) == filter_username(s),
    decreases s.len(),
{
    if s.len() > 0 {
        let rest = filter_username(s.drop_last());
        lemma_filter_username_idempotent(s.drop_last());
        lemma_filter_username_output(s.drop_last());
        if allowed_username_char(s.last()) {
            lemma_ascii_lower_allowed(s.last());
            lemma_filter_username_push(rest, ascii_lower(s.last()));
        }
    }
}

/// A username derived from a full name is valid exactly when it is long enough.
pub proof fn lemma_sanitized_username_valid(
    converted: Option<Seq<u8>>,
    full_name: Seq<char>,
    min_len: int,
)
    ensures
        valid_username(sanitized_username(converted, full_name), min_len) <==> sanitized_username(
            converted,
            full_name,
        ).len() >= min_len,
{
    lemma_filter_username_output(transliterated_name(converted, full_name));
}

/// Deriving a username again from a derived username, with no transliteration,
/// gives the same username.
pub proof fn lemma_sanitize_username_idempotent(converted: Option<Seq<u8>>, full_name: Seq<char>)
    ensures
        sanitized_username(None, sanitized_username(converted, full_name)) == sanitized_username(
            converted,
            full_name,
        ),
{
    lemma_filter_username_idempotent(transliterated_name(converted, full_name));
}

} // verus!

verus! {

/// The characters that may appear in a username are exactly the ASCII
/// letters, the ASCII digits, `_`, `-` and `.`; for example an apostrophe or
/// a space may not.
pub proof fn lemma_allowed_chars_are_ascii_word_chars(c: char)
    ensures
        allowed_username_char(c) <==> (('a' <= c && c <= 'z') || ('A' <= c && c <= 'Z') || ('0'
            <= c && c <= '9') || c == '_' || c == '-' || c == '.'),
        !allowed_username_char('\''),
        !allowed_username_char(' '),
        !allowed_username_char('@'),
        !allowed_username_char('/'),
{
}

/// A valid username holds only ASCII letters, digits, `_`, `-` and `.`.
pub proof fn lemma_valid_username_chars(s: Seq<char>, min_len: int, i: int)
    requires
        valid_username(s, min_len),
        0 <= i < s.len(),
    ensures
        ('a' <= s[i] && s[i] <= 'z') || ('A' <= s[i] && s[i] <= 'Z') || ('0' <= s[i] && s[i]
            <= '9') || s[i] == '_' || s[i] == '-' || s[i] == '.',
        s.len() >= min_len,
{
    assert(allowed_username_char(s[i]));
}

/// Deriving a username from one character: an uppercase ASCII letter gives
/// its lowercase letter, a lowercase letter, digit, `_`, `-` or `.` gives
/// itself, and any other character gives nothing.
pub proof fn lemma_filter_username_single(c: char)
    ensures
        filter_username(seq![c]) == if 'A' <= c && c <= 'Z' {
            seq![((c as u32) + 32) as char]
        } else if ('a' <= c && c <= 'z') || ('0' <= c && c <= '9') || c == '_' || c == '-' || c
            == '.' {
            seq![c]
        } else {
            Seq::<char>::empty()
        },
{
    let s = seq![c];
    assert(s.drop_last() =~= Seq::<char>::empty());
    assert(filter_username(Seq::<char>::empty()) == Seq::<char>::empty());
    assert(filter_username(s.drop_last()) == Seq::<char>::empty());
    assert(s.last() == c);
    if allowed_username_char(c) {
        assert(Seq::<char>::empty().push(ascii_lower(c)) =~= seq![ascii_lower(c)]);
    }
}

/// Deriving a username works character by character: the username of two
/// texts joined is the two usernames joined.
pub proof fn lemma_filter_username_concat(s: Seq<char>, t: Seq<char>)
    ensures
        filter_username(s + t) == filter_username(s) + filter_username(t),
    decreases t.len(),
{
    if t.len() == 0 {
        assert(s + t =~= s);
        assert(filter_username(s) + filter_username(t) =~= filter_username(s));
    } else {
        let t0 = t.drop_last();
        let c = t.last();
        lemma_filter_username_concat(s, t0);
        assert((s + t).drop_last() =~= s + t0);
        assert((s + t).last() == c);
        if allowed_username_char(c) {
            assert(filter_username(s) + filter_username(t0).push(ascii_lower(c)) =~= (
            filter_username(s) + filter_username(t0)).push(ascii_lower(c)));
        }
    }
}

/// When the transliterated bytes are valid UTF-8 and decode to a non-empty
/// text, the username is derived from that text, whatever the full name;
/// otherwise it is derived from the full name.
pub proof fn lemma_sanitize_uses_transliteration(b: Seq<u8>, full_name: Seq<char>)
    ensures
        valid_utf8(b) && decode_utf8(b).len() > 0 ==> transliterated_name(Some(b), full_name)
            == decode_utf8(b) && sanitized_username(Some(b), full_name) == filter_username(
            decode_utf8(b),
        ),
        !valid_utf8(b) ==> sanitized_username(Some(b), full_name) == filter_username(full_name),
        b.len() == 0 ==> sanitized_username(Some(b), full_name) == filter_username(full_name),
        sanitized_username(None, full_name) == filter_username(full_name),
{
    if b.len() == 0 {
        assert(valid_utf8(b));
        assert(decode_utf8(b) =~= Seq::<char>::empty());
    }
}

} // verus!
