use phosh_first_boot::done_page::{first_run_step, FirstRunStep, FIRST_RUN_KEY, FIRST_RUN_SCHEMA};
use phosh_first_boot::dconf::dconf_exports;
use phosh_first_boot::defaults::{
    default_pin_min_len, default_username_min_len, Defaults, Storage, UserDefaults,
};
use phosh_first_boot::page::variant_text;

#[test]
fn default_lengths() {
    assert_eq!(default_username_min_len(), 2);
    assert_eq!(default_pin_min_len(), 4);
}

#[test]
fn defaults_without_configuration() {
    let d = Defaults::default();
    assert!(d.user.aux_groups.is_empty());
    assert_eq!(d.user.username_min_len, 0);
    assert_eq!(d.user.pin_min_len, 0);
    assert_eq!(d.user.storage, Storage::Luks);
    let u = UserDefaults::default();
    assert_eq!(u.storage, Storage::default());
}

#[test]
fn storage_names() {
    assert_eq!(Storage::Luks.to_string(), "luks");
    assert_eq!(Storage::Directory.to_string(), "directory");
    assert_ne!(Storage::Luks.to_string(), Storage::Directory.to_string());
}

#[test]
fn exported_settings() {
    let e = dconf_exports();
    assert_eq!(e.len(), 2);
    assert_eq!(e[0].path, "/mobi/phosh/osk/");
    assert_eq!(e[0].filename, "mobi.phosh.osk.dconf");
    assert_eq!(e[1].path, "/org/gnome/desktop/input-sources/");
    assert_eq!(e[1].filename, "org.gnome.desktop.input-sources.dconf");
}

#[test]
fn variant_texts() {
    assert_eq!(variant_text(None), "");
    assert_eq!(variant_text(Some("lang".to_string())), "lang");
}

#[test]
fn first_run_steps() {
    assert_eq!(first_run_step(false, false), FirstRunStep::SchemaMissing);
    assert_eq!(first_run_step(false, true), FirstRunStep::SchemaMissing);
    assert_eq!(first_run_step(true, false), FirstRunStep::KeyMissing);
    assert_eq!(first_run_step(true, true), FirstRunStep::ClearKey);
    assert_eq!(FIRST_RUN_SCHEMA, "mobi.phosh.phrog");
    assert_eq!(FIRST_RUN_KEY, "first-run");
}
