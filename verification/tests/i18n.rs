use status_page::i18n::{detect_lang, en, ru, t, Lang, LANG_KEY};
use status_page::services::ServiceStatus;

#[test]
fn lang_codes() {
    assert_eq!(Lang::Ru.as_str(), "ru");
    assert_eq!(Lang::En.as_str(), "en");
    assert_eq!(LANG_KEY, "frkn-lang");
}

#[test]
fn lang_from_tag_ignores_case() {
    assert_eq!(Lang::from_str("ru"), Lang::Ru);
    assert_eq!(Lang::from_str("ru-RU"), Lang::Ru);
    assert_eq!(Lang::from_str("RU"), Lang::Ru);
    assert_eq!(Lang::from_str("Ru-ru"), Lang::Ru);
    assert_eq!(Lang::from_str("en-US"), Lang::En);
    assert_eq!(Lang::from_str("r"), Lang::En);
    assert_eq!(Lang::from_str(""), Lang::En);
    assert_eq!(Lang::from_str("uk-UA"), Lang::En);
}

#[test]
fn lang_from_lowercase_tag() {
    assert_eq!(Lang::from_lowercase("ru"), Lang::Ru);
    assert_eq!(Lang::from_lowercase("RU"), Lang::En);
    assert_eq!(Lang::from_lowercase("rus"), Lang::Ru);
}

#[test]
fn saved_lang_reads_back() {
    for lang in [Lang::Ru, Lang::En] {
        assert_eq!(Lang::from_str(lang.as_str()), lang);
    }
}

#[test]
fn detect_lang_prefers_storage() {
    assert_eq!(detect_lang(true, Some("ru"), Some("en-US")), Lang::Ru);
    assert_eq!(detect_lang(true, Some("en"), Some("ru-RU")), Lang::En);
    assert_eq!(detect_lang(true, None, Some("ru-RU")), Lang::Ru);
    assert_eq!(detect_lang(true, None, None), Lang::En);
    assert_eq!(detect_lang(false, Some("ru"), Some("ru")), Lang::En);
}

#[test]
fn translations() {
    assert_eq!(t(Lang::Ru, "vpn_detected"), "VPN обнаружен");
    assert_eq!(t(Lang::En, "vpn_detected"), "VPN detected");
    assert_eq!(t(Lang::Ru, "header_title"), "Status Page");
    assert_eq!(t(Lang::En, "lang_en"), "EN");
    assert_eq!(t(Lang::Ru, "of_available"), "{online} из {total} доступны");
    assert_eq!(t(Lang::En, "show_servers"), "Show {total} servers");
    assert_eq!(t(Lang::En, "privacy_ru"), "Политика конфиденциальности");
}

#[test]
fn unknown_key_shown_as_is() {
    assert_eq!(t(Lang::Ru, "no_such_key"), "no_such_key");
    assert_eq!(t(Lang::En, ""), "");
}

#[test]
fn service_labels_and_colors() {
    assert_eq!(ServiceStatus::Online.label_for(Lang::Ru), "Доступен");
    assert_eq!(ServiceStatus::Offline.label_for(Lang::En), "Unavailable");
    assert_eq!(ServiceStatus::Checking.label_for(Lang::En), "Checking...");
    assert_eq!(ServiceStatus::Error.label_for(Lang::Ru), "Ошибка");
    assert_eq!(ServiceStatus::Checking.color_class(), "text-yellow-400");
    assert_eq!(ServiceStatus::Online.color_class(), "text-emerald-400");
    assert_eq!(ServiceStatus::Offline.color_class(), "text-rose-400");
    assert_eq!(ServiceStatus::Error.color_class(), "text-orange-400");
}

#[test]
fn both_languages_translate_the_same_keys() {
    let keys = [
        "header_title", "refresh", "mbps", "of_available", "show_servers", "hide",
        "aggregate_error", "service_error", "store_firefox", "lang_ru", "lang_en",
    ];
    for key in keys {
        assert_ne!(t(Lang::Ru, key), key);
        assert_ne!(t(Lang::En, key), key);
    }
    assert_eq!(t(Lang::Ru, "mbps"), "Мбит/с");
    assert_eq!(t(Lang::En, "mbps"), "Mbps");
}

#[test]
fn cyrillic_tag_lowercases_before_the_decision() {
    assert_eq!(Lang::from_str("ПРИВЕТ"), Lang::En);
    assert_eq!(Lang::from_str("RU-ru"), Lang::Ru);
}

#[test]
fn placeholders_kept_in_both_languages() {
    for lang in [Lang::Ru, Lang::En] {
        assert!(t(lang, "of_available").contains("{online}"));
        assert!(t(lang, "of_available").contains("{total}"));
        assert!(t(lang, "show_servers").contains("{total}"));
        assert_eq!(t(lang, "missing_key") == "missing_key", true);
    }
}

#[test]
fn ru_and_en_leave_the_same_keys() {

    for key in ["hide", "mbps", "api_hostname", "unknown", ""] {
        assert_eq!(en(key) == key, ru(key) == key);
    }
}
