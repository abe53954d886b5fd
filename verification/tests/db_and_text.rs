use flowlapse::db::Database;
use flowlapse::text::{decimal_text, trim, trim_class, TrimClass};

#[test]
fn database_opens_and_migrates() {
    let db = Database::open("data/flowlapse.db".to_string()).unwrap();
    assert_eq!(db.path(), "data/flowlapse.db");
    assert!(db.migrate().is_ok());
    assert!(db.reconcile_storage("data").is_ok());
}

#[test]
fn decimal_rendering() {
    assert_eq!(decimal_text(0), "0");
    assert_eq!(decimal_text(9), "9");
    assert_eq!(decimal_text(10), "10");
    assert_eq!(decimal_text(u64::MAX), u64::MAX.to_string());
}

#[test]
fn trimming_matches_std() {
    for s in [
        "",
        "   ",
        " a ",
        "\u{2003}x y\u{205f}",
        "\u{85}line\u{2028}",
        "\u{200b}zero width\u{200b}",
        "tab\t",
    ] {
        assert_eq!(trim(s), s.trim());
    }
    assert_eq!(trim_class("--a-b--", TrimClass::Dash), "a-b");
    assert_eq!(trim_class("----", TrimClass::Dash), "");
}
