use rataria::crypto::{derive_key, verify_password};
use rataria::db::Database;
use rataria::error::RatariaError;
use rataria::import_format::{contains_text, detect_import_format, ends_with_text, import_txt, ImportFormat};
use rataria::keys::{clamp, failure_text, optional_text};
use rataria::numbers::parse_i32;
use rataria::queries;

#[test]
fn detects_formats() {
    assert_eq!(detect_import_format("whatever", "subs.txt"), ImportFormat::Txt);
    assert_eq!(detect_import_format("{\"rataria_version\": \"1.0\"}", "scan.json"), ImportFormat::Ratazana);
    assert_eq!(detect_import_format("{\"target\": \"x\"}", "subs.json"), ImportFormat::GenericJson);
    assert_eq!(detect_import_format("{\"rataria_version\": 1}", "a.txt"), ImportFormat::Txt);
    assert_eq!(detect_import_format("rataria_version", "a.json"), ImportFormat::GenericJson);
}

#[test]
fn text_search() {
    assert!(ends_with_text("a.txt", ".txt"));
    assert!(!ends_with_text("a.txt.bak", ".txt"));
    assert!(!ends_with_text("txt", ".txt"));
    assert!(contains_text("abcabd", "abd"));
    assert!(contains_text("x", ""));
    assert!(!contains_text("ab", "abc"));
}

#[test]
fn txt_import_detected_and_imported() {
    let mut db = Database::open_in_memory().unwrap();
    let txt = "api.x.com\nadmin.x.com";
    let r = import_txt(&mut db, txt, Some("Test"), Some("x.com")).unwrap();
    assert_eq!(r.subdomains_added, 2);
    let engs = queries::list_engagements(&db).unwrap();
    assert_eq!(engs[0].name, "Test");
}

#[test]
fn txt_import_without_target_fails() {
    let mut db = Database::open_in_memory().unwrap();
    match import_txt(&mut db, "api.x.com", Some("Test"), None) {
        Err(RatariaError::ImportError(m)) => {
            assert_eq!(m, "Para importar .txt é necessário informar o target")
        },
        _ => panic!("expected an import error"),
    }
    assert!(queries::list_engagements(&db).unwrap().is_empty());
    assert!(import_txt(&mut db, "# nada\n", Some("Test"), Some("x.com")).is_err());
    assert!(import_txt(&mut db, "a.x.com", Some("Test"), Some("  ")).is_err());
}

#[test]
fn parses_status_codes() {
    assert_eq!(parse_i32("404"), Some(404));
    assert_eq!(parse_i32("+7"), Some(7));
    assert_eq!(parse_i32("-2147483648"), Some(i32::MIN));
    assert_eq!(parse_i32("2147483647"), Some(i32::MAX));
    assert_eq!(parse_i32("2147483648"), None);
    assert_eq!(parse_i32("99999999999999999999"), None);
    assert_eq!(parse_i32(""), None);
    assert_eq!(parse_i32("-"), None);
    assert_eq!(parse_i32("4 04"), None);
    assert_eq!(parse_i32("0x10"), None);
    assert_eq!(parse_i32("007"), Some(7));
}

#[test]
fn small_helpers() {
    assert_eq!(clamp(5, 3), 2);
    assert_eq!(clamp(5, 0), 5);
    assert_eq!(clamp(1, 3), 1);
    assert_eq!(optional_text("  a b "), Some("a b".to_string()));
    assert_eq!(optional_text(" \t "), None);
    assert_eq!(failure_text(&RatariaError::NotFound("X".to_string())), "✗ Não encontrado: X");
    assert_eq!(RatariaError::WrongPassword.message(), "Senha incorreta ou banco corrompido");
    assert_eq!(RatariaError::CryptoError("c".to_string()).message(), "Erro de criptografia: c");
}

#[test]
fn derived_key_verifies() {
    let key = derive_key("senha-mestra").unwrap();
    assert!(key.as_str().starts_with("$argon2id$"));
    assert_eq!(verify_password("senha-mestra", key.as_str()).unwrap(), true);
    assert_eq!(verify_password("outra", key.as_str()).unwrap(), false);
    let other = derive_key("senha-mestra").unwrap();
    assert_ne!(other.as_str(), key.as_str());
}

#[test]
fn malformed_hash_is_a_crypto_error() {
    match verify_password("x", "não é um hash") {
        Err(RatariaError::CryptoError(m)) => assert!(!m.is_empty()),
        _ => panic!("expected a crypto error"),
    }
}
