use mfek_ipc::names::{name, Platform};

#[test]
fn names_without_extension() {
    assert_eq!(
        name("foo", Platform::Other),
        vec!["MFEKfoo".to_string(), "mfek-foo".to_string()]
    );
}

#[test]
fn names_with_extension_on_windows() {
    assert_eq!(
        name("foo", Platform::Windows),
        vec!["MFEKfoo.exe".to_string(), "mfek-foo.exe".to_string()]
    );
}

#[test]
fn the_second_name_has_the_module_in_lower_case() {
    assert_eq!(
        name("Glif", Platform::Other),
        vec!["MFEKGlif".to_string(), "mfek-glif".to_string()]
    );
    assert_eq!(
        name("Path Boolean", Platform::Other),
        vec!["MFEKPath Boolean".to_string(), "mfek-path boolean".to_string()]
    );
    assert_eq!(
        name("STROKE", Platform::Windows),
        vec!["MFEKSTROKE.exe".to_string(), "mfek-stroke.exe".to_string()]
    );
    assert_eq!(
        name("AZaz@[`{09", Platform::Other),
        vec!["MFEKAZaz@[`{09".to_string(), "mfek-azaz@[`{09".to_string()]
    );
}

#[test]
fn letters_beyond_a_to_z_are_kept() {
    assert_eq!(
        name("\u{c9}cole", Platform::Other),
        vec!["MFEK\u{c9}cole".to_string(), "mfek-\u{c9}cole".to_string()]
    );
}

#[test]
fn names_of_an_empty_module() {
    assert_eq!(
        name("", Platform::Other),
        vec!["MFEK".to_string(), "mfek-".to_string()]
    );
    assert_eq!(
        name("", Platform::Windows),
        vec!["MFEK.exe".to_string(), "mfek-.exe".to_string()]
    );
}

#[test]
fn names_are_the_same_each_time() {
    for module in ["foo", "Metadata", "", "é"] {
        for platform in [Platform::Windows, Platform::Other] {
            assert_eq!(name(module, platform), name(module, platform));
            assert_eq!(name(module, platform).len(), 2);
        }
    }
}

#[test]
fn names_differ_between_platforms_by_the_extension_only() {
    let plain = name("Glif", Platform::Other);
    let windows = name("Glif", Platform::Windows);
    for (p, w) in plain.iter().zip(windows.iter()) {
        assert_eq!(format!("{}.exe", p), *w);
    }
}
