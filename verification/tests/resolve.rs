use font_logo::error::{CacheOp, FontLogoError};
use font_logo::table::IconTable;
use font_logo::{get_font_logo, resolve_in, FONT_LOGOS, SUPPORTED_LOGOS};

fn table(pairs: &[(&str, &str)]) -> IconTable {
    IconTable::from_entries(pairs.iter().map(|(k, v)| (k.to_string(), v.to_string())).collect())
}

fn no_match(name: &str) -> Result<String, FontLogoError> {
    Err(FontLogoError::NoMatch { name: name.to_string() })
}

#[test]
fn resolve_in_gives_the_glyph_of_the_match() {
    let t = table(&[("Debian", "D"), ("Arch", "A"), ("Red Hat", "R")]);
    assert_eq!(resolve_in(&t, "Arch Linux"), Ok("A".to_string()));
    assert_eq!(resolve_in(&t, "Debian GNU/Linux 12 (bookworm)"), Ok("D".to_string()));
    assert_eq!(resolve_in(&t, "deb"), Ok("D".to_string()));
    assert_eq!(resolve_in(&t, "RedHat Enterprise"), Ok("R".to_string()));
}

#[test]
fn resolve_in_ignores_letter_case() {
    let t = table(&[("Debian", "D"), ("ArchLabs", "L"), ("Arch", "A")]);
    for name in ["archlabs gnu/linux", "ArchLabs GNU/Linux", "ARCHLABS GNU/LINUX", "aRcHlAbS gNu/LiNuX"] {
        assert_eq!(resolve_in(&t, name), Ok("L".to_string()), "{:?}", name);
    }
    for name in ["unknown", "Unknown", "UNKNOWN"] {
        assert_eq!(resolve_in(&t, name), no_match(name), "{:?}", name);
    }
}

#[test]
fn resolve_in_prefers_a_key_in_the_name_to_every_other_match() {
    let t = table(&[("Arch Linux ARM", "1"), ("GNU Arch", "2"), ("Arch", "3")]);
    assert_eq!(resolve_in(&t, "Arch Linux"), Ok("3".to_string()));
    let t = table(&[("GNU Arch", "2"), ("Arch Linux ARM", "1")]);
    assert_eq!(resolve_in(&t, "Arch Linux"), Ok("1".to_string()));
    let t = table(&[("GNU Arch", "2")]);
    assert_eq!(resolve_in(&t, "Arch Linux"), Ok("2".to_string()));
}

#[test]
fn resolve_in_fails_on_an_unknown_name() {
    let t = table(&[("Arch", "A")]);
    assert_eq!(resolve_in(&t, "totally-unknown-os-xyz"), no_match("totally-unknown-os-xyz"));
}

#[test]
fn resolve_in_reports_the_name_as_it_came() {
    let t = table(&[("Arch", "A")]);
    assert_eq!(resolve_in(&t, "Totally-Unknown OS"), no_match("Totally-Unknown OS"));
}

#[test]
fn resolve_in_an_empty_table_fails() {
    let t = table(&[]);
    assert_eq!(resolve_in(&t, "Arch"), no_match("Arch"));
    assert_eq!(resolve_in(&t, ""), no_match(""));
}

#[test]
fn get_font_logo_reads_the_table_and_resolves() {
    assert_eq!(get_font_logo("{\"fedora\":\"F\"}", "Fedora"), Ok("F".to_string()));
    assert_eq!(get_font_logo("{\"Fedora\":\"F\", \"Arch\":\"A\"}", "fedora linux 39"), Ok("F".to_string()));
}

#[test]
fn get_font_logo_fails_on_an_unknown_name() {
    assert_eq!(
        get_font_logo("{\"Arch\":\"A\"}", "totally-unknown-os-xyz"),
        no_match("totally-unknown-os-xyz")
    );
}

#[test]
fn get_font_logo_fails_on_a_broken_table() {
    for source in ["", "{\"Arch\":", "[]", "{\"Arch\":3}"] {
        assert!(
            matches!(get_font_logo(source, "Arch"), Err(FontLogoError::DataCorruption { .. })),
            "{:?}",
            source
        );
    }
}

#[test]
fn get_font_logo_tries_keys_in_the_order_of_their_names() {
    let source = "{\"Kubuntu\":\"K\", \"Ubuntu\":\"U\", \"Budgie\":\"B\"}";
    assert_eq!(get_font_logo(source, "ubuntu budgie"), Ok("B".to_string()));
    assert_eq!(get_font_logo(source, "untu"), Ok("K".to_string()));
}

#[test]
fn built_in_table_resolves_host_names() {
    let cases = [
        ("Arch Linux", "\u{f303}"),
        ("ARCH LINUX", "\u{f303}"),
        ("ArchLabs GNU/Linux", "\u{f303}"),
        ("Ubuntu 22.04.3 LTS", "\u{f31b}"),
        ("Fedora Linux 39", "\u{f30a}"),
        ("Linux Mint 21", "\u{f30e}"),
        ("Windows 11", "\u{e62a}"),
        ("redhat", "\u{f316}"),
        ("Red Star", "\u{f316}"),
        ("Hat", "\u{f316}"),
        ("ubu", "\u{f333}"),
        ("Pop", "\u{f32a}"),
        ("macOS", "\u{f301}"),
        ("", "\u{f301}"),
    ];
    for (name, glyph) in cases {
        assert_eq!(get_font_logo(FONT_LOGOS, name), Ok(glyph.to_string()), "{:?}", name);
    }
}

#[test]
fn built_in_table_does_not_know_every_name() {
    assert_eq!(get_font_logo(FONT_LOGOS, "RHEL"), no_match("RHEL"));
    assert_eq!(get_font_logo(FONT_LOGOS, "Raspbian"), no_match("Raspbian"));
}

#[test]
fn repeated_resolution_gives_the_same_glyph() {
    for name in ["Arch Linux", "os", "Raspbian", "KDE", "open"] {
        let first = get_font_logo(FONT_LOGOS, name);
        for _ in 0..5 {
            assert_eq!(get_font_logo(FONT_LOGOS, name), first, "{:?}", name);
        }
    }
}

#[test]
fn message_of_no_match_names_the_name_and_the_icon_set() {
    let e = FontLogoError::NoMatch { name: "Totally-Unknown OS".to_string() };
    assert_eq!(
        e.message(),
        "No font logo found for distro: Totally-Unknown OS. The supported logos are in https://github.com/Lukas-W/font-logos"
    );
    assert!(e.message().ends_with(SUPPORTED_LOGOS));
}

#[test]
fn message_of_data_corruption_gives_the_detail() {
    let e = FontLogoError::DataCorruption { detail: "expected value at line 1 column 1".to_string() };
    assert_eq!(
        e.message(),
        "Failed to deserialize font logos JSON file: expected value at line 1 column 1"
    );
}

#[test]
fn message_of_cache_failure_names_the_operation() {
    let failure = |op| FontLogoError::CacheIo { op, cause: "Permission denied (os error 13)".to_string() };
    assert_eq!(
        failure(CacheOp::Read).message(),
        "Failed to read from cache file: Permission denied (os error 13)"
    );
    assert_eq!(
        failure(CacheOp::CreateDir).message(),
        "Failed to create cache directory: Permission denied (os error 13)"
    );
    assert_eq!(
        failure(CacheOp::Write).message(),
        "Failed to write logo to cache file: Permission denied (os error 13)"
    );
}

#[test]
fn describe_gives_the_sentence_of_each_operation() {
    assert_eq!(CacheOp::Read.describe(), "Failed to read from cache file");
    assert_eq!(CacheOp::CreateDir.describe(), "Failed to create cache directory");
    assert_eq!(CacheOp::Write.describe(), "Failed to write logo to cache file");
}
