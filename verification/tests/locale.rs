use phosh_first_boot::locale::{locale_assignments, region_from_locales};

#[test]
fn assignments_for_region() {
    let a = locale_assignments("de_DE.UTF-8");
    assert_eq!(
        a,
        vec![
            "LANG=de_DE.UTF-8",
            "LC_TIME=de_DE.UTF-8",
            "LC_NUMERIC=de_DE.UTF-8",
            "LC_MONETARY=de_DE.UTF-8",
            "LC_MEASUREMENT=de_DE.UTF-8",
            "LC_PAPER=de_DE.UTF-8",
        ]
    );
}

#[test]
fn region_round_trip() {
    for r in ["de_DE.UTF-8", "en_US.UTF-8", "", "ja_JP.UTF-8@x"] {
        assert_eq!(region_from_locales(&locale_assignments(r)), r);
    }
}

#[test]
fn region_is_first_lang_entry() {
    let l = vec![
        "LC_TIME=fr_FR.UTF-8".to_string(),
        "LANG=pt_BR.UTF-8".to_string(),
        "LANG=es_ES.UTF-8".to_string(),
    ];
    assert_eq!(region_from_locales(&l), "pt_BR.UTF-8");
}

#[test]
fn region_falls_back() {
    assert_eq!(region_from_locales(&vec![]), "C.UTF-8");
    let l = vec!["LC_TIME=fr_FR.UTF-8".to_string(), "LANG".to_string(), "lang=x".to_string()];
    assert_eq!(region_from_locales(&l), "C.UTF-8");
}

#[test]
fn region_after_non_ascii_entries() {
    let l = vec!["ÄÖÜ=1".to_string(), "LANG=ü".to_string()];
    assert_eq!(region_from_locales(&l), "ü");
}
