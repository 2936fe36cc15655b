//! Defaults that the device's configuration may set: the groups a new user
//! joins, the minimum lengths of username and PIN, the homed storage backend.
use vstd::prelude::*;

verus! {

/// The homed storage backend.
#[derive(Debug, Clone, Copy, PartialEq, Eq, Structural)]
pub enum Storage {
    Luks,
    Directory,
}

/// The lowercase name of a storage backend, as the configuration writes it.
pub open spec fn storage_name(s: Storage) -> Seq<char> {
    match s {
        Storage::Luks => "luks"@,
        Storage::Directory => "directory"@,
    }
}

impl Default for Storage {
    fn default() -> (r: Self)
        ensures
            r == Storage::Luks,
    {
        Storage::Luks
    }
}

impl Storage {
    /// The backend's lowercase name: `luks` or `directory`.
    pub fn to_string(&self) -> (r: String)
        ensures
            r@ == storage_name(*self),
    {
        match self {
            Storage::Luks => String::from_str("luks"),
            Storage::Directory => String::from_str("directory"),
        }
    }
}

/// Different backends have different names.
pub proof fn lemma_storage_name_injective(a: Storage, b: Storage)
    ensures
        storage_name(a) == storage_name(b) <==> a == b,
{
    reveal_strlit("luks");
    reveal_strlit("directory");
    if a != b {
        assert(storage_name(a).len() != storage_name(b).len());
    }
}

/// All configurable defaults.
#[derive(Debug)]
pub struct Defaults {
    pub user: UserDefaults,
}

/// Defaults for the user that is created.
#[derive(Debug)]
pub struct UserDefaults {
    /// Auxiliary groups the user is added to.
    pub aux_groups: Vec<String>,
    /// Minimum username length.
    pub username_min_len: usize,
    /// Minimum PIN / password length.
    pub pin_min_len: usize,
    /// homed storage backend.
    pub storage: Storage,
}

/// The minimum username length that a configuration which names no
/// `username_min_len` gets.
pub fn default_username_min_len() -> (r: usize)
    ensures
        r == 2,
{
    2
}

/// The minimum PIN length that a configuration which names no `pin_min_len` gets.
pub fn default_pin_min_len() -> (r: usize)
    ensures
        r == 4,
{
    4
}

impl Default for UserDefaults {
    /// The defaults used when no configuration could be read: no groups,
    /// no minimum lengths, LUKS storage.
    fn default() -> (r: Self)
        ensures
            r.aux_groups@.len() == 0,
            r.username_min_len == 0,
            r.pin_min_len == 0,
            r.storage == Storage::Luks,
    {
        UserDefaults {
            aux_groups: Vec::new(),
            username_min_len: 0,
            pin_min_len: 0,
            storage: Storage::Luks,
        }
    }
}

impl Default for Defaults {
    fn default() -> (r: Self)
        ensures
            r.user.aux_groups@.len() == 0,
            r.user.username_min_len == 0,
            r.user.pin_min_len == 0,
            r.user.storage == Storage::Luks,
    {
        Defaults { user: UserDefaults::default() }
    }
}

} // verus!
