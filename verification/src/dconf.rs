//! The dconf settings that are exported at the end of the first boot and
//! imported into the new user's session.
use vstd::prelude::*;

verus! {

/// A dconf directory and the file its settings are dumped to.
pub struct DconfItem {
    /// The dconf path.
    pub path: &'static str,
    /// The output file name.
    pub filename: &'static str,
}

/// The exported settings: the on-screen keyboard's configuration, then the
/// keyboard layouts.
pub fn dconf_exports() -> (r: Vec<DconfItem>)
    ensures
        r@.len() == 2,
        r@[0].path@ == "/mobi/phosh/osk/"@,
        r@[0].filename@ == "mobi.phosh.osk.dconf"@,
        r@[1].path@ == "/org/gnome/desktop/input-sources/"@,
        r@[1].filename@ == "org.gnome.desktop.input-sources.dconf"@,
{
    let mut r: Vec<DconfItem> = Vec::new();
    r.push(DconfItem { path: "/mobi/phosh/osk/", filename: "mobi.phosh.osk.dconf" });
    r.push(
        DconfItem {
            path: "/org/gnome/desktop/input-sources/",
            filename: "org.gnome.desktop.input-sources.dconf",
        },
    );
    r
}

} // verus!
