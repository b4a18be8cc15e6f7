//! Interface language, its persisted code, and the translation tables.
use vstd::prelude::*;

use crate::text::{ascii_lower, is_ascii_text, lowercase, seq_contains, str_eq, to_lowercase};

verus! {

/// Key under which the chosen language is kept in the browser's storage.
pub const LANG_KEY: &'static str = "frkn-lang";

/// Interface language.
#[derive(Clone, Copy, Debug, PartialEq, Eq, Structural)]
pub enum Lang {
    Ru,
    En,
}

/// The language selected by an already lowercased language tag: Russian
/// exactly when the tag begins with `ru`.
pub open spec fn lang_of_lowercase(lower: Seq<char>) -> Lang {
    if lower.len() >= 2 && lower[0] == 'r' && lower[1] == 'u' {
        Lang::Ru
    } else {
        Lang::En
    }
}

/// The language selected by a language tag such as `ru-RU` or `en-US`.
pub open spec fn lang_of_tag(tag: Seq<char>) -> Lang {
    lang_of_lowercase(lowercase(tag))
}

impl Lang {
    /// The code written to storage for this language.
    pub open spec fn code(self) -> Seq<char> {
        match self {
            Lang::Ru => "ru"@,
            Lang::En => "en"@,
        }
    }

    /// The language code, `ru` or `en`.
    pub fn as_str(&self) -> (r: &'static str)
        ensures
            r@ == self.code(),
    {
        match self {
            Lang::Ru => "ru",
            Lang::En => "en",
        }
    }

    /// Parses a language tag: Russian when its lowercase form begins with
    /// `ru`, English otherwise.
    pub fn from_str(s: &str) -> (r: Lang)
        ensures
            r == lang_of_tag(s@),
            is_ascii_text(s@) ==> r == lang_of_lowercase(s@.map_values(|c: char| ascii_lower(c))),
    {
        let lower = to_lowercase(s);
        Lang::from_lowercase(lower.as_str())
    }

    /// The decision of `from_str`, taken on a tag that is already lowercase.
    pub fn from_lowercase(lower: &str) -> (r: Lang)
        ensures
            r == lang_of_lowercase(lower@),
    {
        if lower.unicode_len() >= 2 && lower.get_char(0) == 'r' && lower.get_char(1) == 'u' {
            Lang::Ru
        } else {
            Lang::En
        }
    }
}

/// Saving a language and reading it back gives the same language: its code is
/// ASCII, so `from_str` decides on the code's ASCII lowercase form, which
/// selects the language again.
pub proof fn lemma_saved_lang_reads_back(lang: Lang)
    ensures
        is_ascii_text(lang.code()),
        lang_of_lowercase(lang.code().map_values(|c: char| ascii_lower(c))) == lang,
{
    reveal_strlit("ru");
    reveal_strlit("en");
    let lowered = lang.code().map_values(|c: char| ascii_lower(c));
    assert(lowered[0] == ascii_lower(lang.code()[0]));
    assert(lowered[1] == ascii_lower(lang.code()[1]));
}

/// The interface language at start-up: the stored choice when the browser
/// has one, else the navigator's language (empty when it has none); English
/// outside a browser window.
pub fn detect_lang(has_window: bool, stored: Option<&str>, navigator: Option<&str>) -> (r: Lang)
    ensures
        r == (if !has_window {
            Lang::En
        } else {
            match stored {
                Some(v) => lang_of_tag(v@),
                None => match navigator {
                    Some(n) => lang_of_tag(n@),
                    None => lang_of_tag(Seq::<char>::empty()),
                },
            }
        }),
{
    if !has_window {
        return Lang::En;
    }
    match stored {
        Some(v) => Lang::from_str(v),
        None => match navigator {
            Some(n) => Lang::from_str(n),
            None => {
                let empty = "";
                proof {
                    reveal_strlit("");
                }
                assert(empty@ =~= Seq::<char>::empty());
                Lang::from_str(empty)
            },
        },
    }
}

/// A translation table: pairs of key and text.
pub open spec fn entries_view(entries: Seq<(&str, &str)>) -> Seq<(Seq<char>, Seq<char>)> {
    entries.map_values(|e: (&str, &str)| (e.0@, e.1@))
}

/// The text of `key` in `table`: the first entry with that key, or the key
/// itself when the table has none.
pub open spec fn lookup(table: Seq<(Seq<char>, Seq<char>)>, key: Seq<char>) -> Seq<char>
    decreases table.len(),
{
    if table.len() == 0 {
        key
    } else if table[0].0 == key {
        table[0].1
    } else {
        lookup(table.drop_first(), key)
    }
}

/// `key` has an entry in `table`.
pub open spec fn has_key(table: Seq<(Seq<char>, Seq<char>)>, key: Seq<char>) -> bool {
    exists|i: int| 0 <= i < table.len() && #[trigger] table[i].0 == key
}

/// Russian interface texts.
pub open spec fn ru_table() -> Seq<(Seq<char>, Seq<char>)> {
    seq![
        ("header_title"@, "Status Page"@),
        ("header_subtitle"@, "Проверьте VPN, статус серверов FRKN и скорость соединения"@),
        ("how_we_measure"@, "Как мы измеряем?"@),
        ("vpn_detected"@, "VPN обнаружен"@),
        ("vpn_not_detected"@, "VPN не обнаружен"@),
        ("determining_ip"@, "Определяем ваш IP..."@),
        ("refresh"@, "Обновить"@),
        ("checking"@, "Проверяем..."@),
        ("frkn_badge"@, "FRKN"@),
        ("protected"@, "Защищённо"@),
        ("enable_vpn"@, "Включите VPN"@),
        ("speed_title"@, "Скорость соединения"@),
        ("speed_subtitle"@, "Загружаем тестовый файл без кэша"@),
        ("measure_speed"@, "Проверить скорость"@),
        ("measuring"@, "Измеряем..."@),
        ("speed_failed"@, "Не удалось измерить скорость"@),
        ("speed_prompt"@, "Нажмите кнопку, чтобы начать замер"@),
        ("mbps"@, "Мбит/с"@),
        ("frkn_servers_title"@, "Серверы FRKN"@),
        ("frkn_servers_note"@, "Проверка портов через WebSocket handshake (TCP/TLS). UDP-протоколы из браузера недоступны."@),
        ("of_available"@, "{online} из {total} доступны"@),
        ("show_servers"@, "Показать {total} серверов"@),
        ("hide"@, "Скрыть"@),
        ("api_label"@, "FRKN"@),
        ("api_hostname"@, "api.frkn.org"@),
        ("aggregate_all_online"@, "Все доступны"@),
        ("aggregate_partial"@, "Частично доступны"@),
        ("aggregate_all_offline"@, "Недоступны"@),
        ("aggregate_error"@, "Не удалось загрузить"@),
        ("service_checking"@, "Проверка..."@),
        ("service_online"@, "Доступен"@),
        ("service_offline"@, "Недоступен"@),
        ("service_error"@, "Ошибка"@),
        ("browser_extension_title"@, "Браузерное расширение"@),
        ("browser_extension_text"@, "Проверка доступности YouTube, X/Twitter, Instagram, Telegram и других сервисов, IP/VPN и скорость — всё в одном расширении."@),
        ("store_chrome"@, "Chrome Web Store"@),
        ("store_firefox"@, "Firefox Add-ons"@),
        ("zip_fallback"@, "Если магазин недоступен в вашем регионе, можно установить расширение вручную из архива."@),
        ("download_zip_chrome"@, "Скачать .zip для Chrome"@),
        ("download_zip_firefox"@, "Скачать .zip для Firefox"@),
        ("footer_powered"@, "powered by"@),
        ("privacy_ru"@, "Политика конфиденциальности"@),
        ("privacy_en"@, "Privacy Policy"@),
        ("lang_ru"@, "RU"@),
        ("lang_en"@, "EN"@)
    ]
}

/// English interface texts.
pub open spec fn en_table() -> Seq<(Seq<char>, Seq<char>)> {
    seq![
        ("header_title"@, "Status Page"@),
        ("header_subtitle"@, "Check VPN, FRKN server status and connection speed"@),
        ("how_we_measure"@, "How do we measure?"@),
        ("vpn_detected"@, "VPN detected"@),
        ("vpn_not_detected"@, "VPN not detected"@),
        ("determining_ip"@, "Determining your IP..."@),
        ("refresh"@, "Refresh"@),
        ("checking"@, "Checking..."@),
        ("frkn_badge"@, "FRKN"@),
        ("protected"@, "Protected"@),
        ("enable_vpn"@, "Enable VPN"@),
        ("speed_title"@, "Connection speed"@),
        ("speed_subtitle"@, "Downloading test file without cache"@),
        ("measure_speed"@, "Measure speed"@),
        ("measuring"@, "Measuring..."@),
        ("speed_failed"@, "Failed to measure speed"@),
        ("speed_prompt"@, "Click the button to start measurement"@),
        ("mbps"@, "Mbps"@),
        ("frkn_servers_title"@, "FRKN servers"@),
        ("frkn_servers_note"@, "Port checks via WebSocket handshake (TCP/TLS). UDP protocols are not available from the browser."@),
        ("of_available"@, "{online} of {total} available"@),
        ("show_servers"@, "Show {total} servers"@),
        ("hide"@, "Hide"@),
        ("api_label"@, "FRKN"@),
        ("api_hostname"@, "api.frkn.org"@),
        ("aggregate_all_online"@, "All available"@),
        ("aggregate_partial"@, "Partially available"@),
        ("aggregate_all_offline"@, "Unavailable"@),
        ("aggregate_error"@, "Failed to load"@),
        ("service_checking"@, "Checking..."@),
        ("service_online"@, "Available"@),
        ("service_offline"@, "Unavailable"@),
        ("service_error"@, "Error"@),
        ("browser_extension_title"@, "Browser extension"@),
        ("browser_extension_text"@, "Check availability of YouTube, X/Twitter, Instagram, Telegram and other services, IP/VPN and speed — all in one extension."@),
        ("store_chrome"@, "Chrome Web Store"@),
        ("store_firefox"@, "Firefox Add-ons"@),
        ("zip_fallback"@, "If the store is unavailable in your region, you can install the extension manually from the archive."@),
        ("download_zip_chrome"@, "Download .zip for Chrome"@),
        ("download_zip_firefox"@, "Download .zip for Firefox"@),
        ("footer_powered"@, "powered by"@),
        ("privacy_ru"@, "Политика конфиденциальности"@),
        ("privacy_en"@, "Privacy Policy"@),
        ("lang_ru"@, "RU"@),
        ("lang_en"@, "EN"@)
    ]
}

/// The table of a language.
pub open spec fn table_of(lang: Lang) -> Seq<(Seq<char>, Seq<char>)> {
    match lang {
        Lang::Ru => ru_table(),
        Lang::En => en_table(),
    }
}

/// The text shown for `key` in `lang`.
pub open spec fn translation(lang: Lang, key: Seq<char>) -> Seq<char> {
    lookup(table_of(lang), key)
}

fn ru_entries() -> (r: Vec<(&'static str, &'static str)>)
    ensures
        entries_view(r@) == ru_table(),
{
    let r = vec![
        ("header_title", "Status Page"),
        ("header_subtitle", "Проверьте VPN, статус серверов FRKN и скорость соединения"),
        ("how_we_measure", "Как мы измеряем?"),
        ("vpn_detected", "VPN обнаружен"),
        ("vpn_not_detected", "VPN не обнаружен"),
        ("determining_ip", "Определяем ваш IP..."),
        ("refresh", "Обновить"),
        ("checking", "Проверяем..."),
        ("frkn_badge", "FRKN"),
        ("protected", "Защищённо"),
        ("enable_vpn", "Включите VPN"),
        ("speed_title", "Скорость соединения"),
        ("speed_subtitle", "Загружаем тестовый файл без кэша"),
        ("measure_speed", "Проверить скорость"),
        ("measuring", "Измеряем..."),
        ("speed_failed", "Не удалось измерить скорость"),
        ("speed_prompt", "Нажмите кнопку, чтобы начать замер"),
        ("mbps", "Мбит/с"),
        ("frkn_servers_title", "Серверы FRKN"),
        ("frkn_servers_note", "Проверка портов через WebSocket handshake (TCP/TLS). UDP-протоколы из браузера недоступны."),
        ("of_available", "{online} из {total} доступны"),
        ("show_servers", "Показать {total} серверов"),
        ("hide", "Скрыть"),
        ("api_label", "FRKN"),
        ("api_hostname", "api.frkn.org"),
        ("aggregate_all_online", "Все доступны"),
        ("aggregate_partial", "Частично доступны"),
        ("aggregate_all_offline", "Недоступны"),
        ("aggregate_error", "Не удалось загрузить"),
        ("service_checking", "Проверка..."),
        ("service_online", "Доступен"),
        ("service_offline", "Недоступен"),
        ("service_error", "Ошибка"),
        ("browser_extension_title", "Браузерное расширение"),
        ("browser_extension_text", "Проверка доступности YouTube, X/Twitter, Instagram, Telegram и других сервисов, IP/VPN и скорость — всё в одном расширении."),
        ("store_chrome", "Chrome Web Store"),
        ("store_firefox", "Firefox Add-ons"),
        ("zip_fallback", "Если магазин недоступен в вашем регионе, можно установить расширение вручную из архива."),
        ("download_zip_chrome", "Скачать .zip для Chrome"),
        ("download_zip_firefox", "Скачать .zip для Firefox"),
        ("footer_powered", "powered by"),
        ("privacy_ru", "Политика конфиденциальности"),
        ("privacy_en", "Privacy Policy"),
        ("lang_ru", "RU"),
        ("lang_en", "EN")
    ];
    assert(entries_view(r@) =~= ru_table());
    r
}

fn en_entries() -> (r: Vec<(&'static str, &'static str)>)
    ensures
        entries_view(r@) == en_table(),
{
    let r = vec![
        ("header_title", "Status Page"),
        ("header_subtitle", "Check VPN, FRKN server status and connection speed"),
        ("how_we_measure", "How do we measure?"),
        ("vpn_detected", "VPN detected"),
        ("vpn_not_detected", "VPN not detected"),
        ("determining_ip", "Determining your IP..."),
        ("refresh", "Refresh"),
        ("checking", "Checking..."),
        ("frkn_badge", "FRKN"),
        ("protected", "Protected"),
        ("enable_vpn", "Enable VPN"),
        ("speed_title", "Connection speed"),
        ("speed_subtitle", "Downloading test file without cache"),
        ("measure_speed", "Measure speed"),
        ("measuring", "Measuring..."),
        ("speed_failed", "Failed to measure speed"),
        ("speed_prompt", "Click the button to start measurement"),
        ("mbps", "Mbps"),
        ("frkn_servers_title", "FRKN servers"),
        ("frkn_servers_note", "Port checks via WebSocket handshake (TCP/TLS). UDP protocols are not available from the browser."),
        ("of_available", "{online} of {total} available"),
        ("show_servers", "Show {total} servers"),
        ("hide", "Hide"),
        ("api_label", "FRKN"),
        ("api_hostname", "api.frkn.org"),
        ("aggregate_all_online", "All available"),
        ("aggregate_partial", "Partially available"),
        ("aggregate_all_offline", "Unavailable"),
        ("aggregate_error", "Failed to load"),
        ("service_checking", "Checking..."),
        ("service_online", "Available"),
        ("service_offline", "Unavailable"),
        ("service_error", "Error"),
        ("browser_extension_title", "Browser extension"),
        ("browser_extension_text", "Check availability of YouTube, X/Twitter, Instagram, Telegram and other services, IP/VPN and speed — all in one extension."),
        ("store_chrome", "Chrome Web Store"),
        ("store_firefox", "Firefox Add-ons"),
        ("zip_fallback", "If the store is unavailable in your region, you can install the extension manually from the archive."),
        ("download_zip_chrome", "Download .zip for Chrome"),
        ("download_zip_firefox", "Download .zip for Firefox"),
        ("footer_powered", "powered by"),
        ("privacy_ru", "Политика конфиденциальности"),
        ("privacy_en", "Privacy Policy"),
        ("lang_ru", "RU"),
        ("lang_en", "EN")
    ];
    assert(entries_view(r@) =~= en_table());
    r
}

/// The text of `key` among `entries`, or `key` itself.
fn lookup_entries<'a>(entries: &Vec<(&'static str, &'static str)>, key: &'a str) -> (r: &'a str)
    ensures
        r@ == lookup(entries_view(entries@), key@),
{
    let n = entries.len();
    let ghost tab = entries_view(entries@);
    let mut i: usize = 0;
    assert(tab.subrange(0, n as int) =~= tab);
    while i < n
        invariant
            n == entries@.len(),
            tab == entries_view(entries@),
            i <= n,
            lookup(tab.subrange(i as int, n as int), key@) == lookup(tab, key@),
        decreases n - i,
    {
        let entry = entries[i];
        assert(tab.subrange(i as int, n as int)[0] == (entry.0@, entry.1@));
        if str_eq(entry.0, key) {
            return entry.1;
        }
        assert(tab.subrange(i as int, n as int).drop_first() =~= tab.subrange(i + 1, n as int));
        i = i + 1;
    }
    key
}

/// The Russian text of `key`, or `key` itself.
pub fn ru<'a>(key: &'a str) -> (r: &'a str)
    ensures
        r@ == lookup(ru_table(), key@),
{
    let entries = ru_entries();
    lookup_entries(&entries, key)
}

/// The English text of `key`, or `key` itself.
pub fn en<'a>(key: &'a str) -> (r: &'a str)
    ensures
        r@ == lookup(en_table(), key@),
{
    let entries = en_entries();
    lookup_entries(&entries, key)
}

/// Translates an interface key; a key without a text is shown as it is.
pub fn t<'a>(lang: Lang, key: &'a str) -> (r: &'a str)
    ensures
        r@ == translation(lang, key@),
{
    match lang {
        Lang::Ru => ru(key),
        Lang::En => en(key),
    }
}

/// A key that has no text is shown unchanged.
pub proof fn lemma_unknown_key_shown_as_is(lang: Lang, key: Seq<char>)
    requires
        !has_key(table_of(lang), key),
    ensures
        translation(lang, key) == key,
{
    lemma_lookup_missing(table_of(lang), key);
}

proof fn lemma_lookup_missing(table: Seq<(Seq<char>, Seq<char>)>, key: Seq<char>)
    requires
        !has_key(table, key),
    ensures
        lookup(table, key) == key,
    decreases table.len(),
{
    if table.len() > 0 {
        assert(table[0].0 != key);
        assert forall|i: int| 0 <= i < table.drop_first().len() implies #[trigger] table.drop_first()[i].0 != key by {
            assert(table.drop_first()[i] == table[i + 1]);
        }
        lemma_lookup_missing(table.drop_first(), key);
    }
}

/// Both languages translate exactly the same keys, in the same order.
pub proof fn lemma_tables_share_keys()
    ensures
        ru_table().len() == en_table().len(),
        forall|i: int| 0 <= i < ru_table().len() ==> #[trigger] ru_table()[i].0 == en_table()[i].0,
        forall|key: Seq<char>| has_key(ru_table(), key) <==> has_key(en_table(), key),
{
    let a = ru_table().map_values(|e: (Seq<char>, Seq<char>)| e.0);
    let b = en_table().map_values(|e: (Seq<char>, Seq<char>)| e.0);
    assert(a =~= b);
    assert forall|i: int| 0 <= i < ru_table().len() implies #[trigger] ru_table()[i].0 == en_table()[i].0 by {
        assert(a[i] == b[i]);
    }
    assert forall|key: Seq<char>| has_key(ru_table(), key) <==> has_key(en_table(), key) by {
        if has_key(ru_table(), key) {
            let i = choose|i: int| 0 <= i < ru_table().len() && #[trigger] ru_table()[i].0 == key;
            assert(a[i] == b[i]);
        }
        if has_key(en_table(), key) {
            let i = choose|i: int| 0 <= i < en_table().len() && #[trigger] en_table()[i].0 == key;
            assert(a[i] == b[i]);
        }
    }
}

/// No text of `table` equals its own key.
pub open spec fn texts_differ_from_keys(table: Seq<(Seq<char>, Seq<char>)>) -> bool {
    forall|i: int| 0 <= i < table.len() ==> #[trigger] table[i].0 != table[i].1
}

proof fn lemma_lookup_found(table: Seq<(Seq<char>, Seq<char>)>, key: Seq<char>)
    requires
        has_key(table, key),
        texts_differ_from_keys(table),
    ensures
        lookup(table, key) != key,
    decreases table.len(),
{
    if table[0].0 != key {
        let i = choose|i: int| 0 <= i < table.len() && #[trigger] table[i].0 == key;
        let rest = table.drop_first();
        assert(rest[i - 1] == table[i]);
        assert forall|j: int| 0 <= j < rest.len() implies #[trigger] rest[j].0 != rest[j].1 by {
            assert(rest[j] == table[j + 1]);
        }
        lemma_lookup_found(rest, key);
    } else {
        assert(table[0].0 != table[0].1);
    }
}

proof fn lemma_ru_texts_differ()
    ensures
        texts_differ_from_keys(ru_table()),
{
    reveal_strlit("Chrome Web Store");
    reveal_strlit("EN");
    reveal_strlit("FRKN");
    reveal_strlit("Firefox Add-ons");
    reveal_strlit("Privacy Policy");
    reveal_strlit("RU");
    reveal_strlit("Status Page");
    reveal_strlit("VPN не обнаружен");
    reveal_strlit("VPN обнаружен");
    reveal_strlit("aggregate_all_offline");
    reveal_strlit("aggregate_all_online");
    reveal_strlit("aggregate_error");
    reveal_strlit("aggregate_partial");
    reveal_strlit("api.frkn.org");
    reveal_strlit("api_hostname");
    reveal_strlit("api_label");
    reveal_strlit("browser_extension_text");
    reveal_strlit("browser_extension_title");
    reveal_strlit("checking");
    reveal_strlit("determining_ip");
    reveal_strlit("download_zip_chrome");
    reveal_strlit("download_zip_firefox");
    reveal_strlit("enable_vpn");
    reveal_strlit("footer_powered");
    reveal_strlit("frkn_badge");
    reveal_strlit("frkn_servers_note");
    reveal_strlit("frkn_servers_title");
    reveal_strlit("header_subtitle");
    reveal_strlit("header_title");
    reveal_strlit("hide");
    reveal_strlit("how_we_measure");
    reveal_strlit("lang_en");
    reveal_strlit("lang_ru");
    reveal_strlit("mbps");
    reveal_strlit("measure_speed");
    reveal_strlit("measuring");
    reveal_strlit("of_available");
    reveal_strlit("powered by");
    reveal_strlit("privacy_en");
    reveal_strlit("privacy_ru");
    reveal_strlit("protected");
    reveal_strlit("refresh");
    reveal_strlit("service_checking");
    reveal_strlit("service_error");
    reveal_strlit("service_offline");
    reveal_strlit("service_online");
    reveal_strlit("show_servers");
    reveal_strlit("speed_failed");
    reveal_strlit("speed_prompt");
    reveal_strlit("speed_subtitle");
    reveal_strlit("speed_title");
    reveal_strlit("store_chrome");
    reveal_strlit("store_firefox");
    reveal_strlit("vpn_detected");
    reveal_strlit("vpn_not_detected");
    reveal_strlit("zip_fallback");
    reveal_strlit("{online} из {total} доступны");
    reveal_strlit("Браузерное расширение");
    reveal_strlit("Включите VPN");
    reveal_strlit("Все доступны");
    reveal_strlit("Доступен");
    reveal_strlit("Если магазин недоступен в вашем регионе, можно установить расширение вручную из архива.");
    reveal_strlit("Загружаем тестовый файл без кэша");
    reveal_strlit("Защищённо");
    reveal_strlit("Измеряем...");
    reveal_strlit("Как мы измеряем?");
    reveal_strlit("Мбит/с");
    reveal_strlit("Нажмите кнопку, чтобы начать замер");
    reveal_strlit("Не удалось загрузить");
    reveal_strlit("Не удалось измерить скорость");
    reveal_strlit("Недоступен");
    reveal_strlit("Недоступны");
    reveal_strlit("Обновить");
    reveal_strlit("Определяем ваш IP...");
    reveal_strlit("Ошибка");
    reveal_strlit("Показать {total} серверов");
    reveal_strlit("Политика конфиденциальности");
    reveal_strlit("Проверить скорость");
    reveal_strlit("Проверка доступности YouTube, X/Twitter, Instagram, Telegram и других сервисов, IP/VPN и скорость — всё в одном расширении.");
    reveal_strlit("Проверка портов через WebSocket handshake (TCP/TLS). UDP-протоколы из браузера недоступны.");
    reveal_strlit("Проверка...");
    reveal_strlit("Проверьте VPN, статус серверов FRKN и скорость соединения");
    reveal_strlit("Проверяем...");
    reveal_strlit("Серверы FRKN");
    reveal_strlit("Скачать .zip для Chrome");
    reveal_strlit("Скачать .zip для Firefox");
    reveal_strlit("Скорость соединения");
    reveal_strlit("Скрыть");
    reveal_strlit("Частично доступны");
    let t = ru_table();
    assert(t.len() == 45);
    assert forall|i: int| 0 <= i < t.len() implies #[trigger] t[i].0 != t[i].1 by {
        if i == 0 {
            assert(t[0] == ("header_title"@, "Status Page"@));
            assert(t[0].0.len() != t[0].1.len());
        } else if i == 1 {
            assert(t[1] == ("header_subtitle"@, "Проверьте VPN, статус серверов FRKN и скорость соединения"@));
            assert(t[1].0.len() != t[1].1.len());
        } else if i == 2 {
            assert(t[2] == ("how_we_measure"@, "Как мы измеряем?"@));
            assert(t[2].0.len() != t[2].1.len());
        } else if i == 3 {
            assert(t[3] == ("vpn_detected"@, "VPN обнаружен"@));
            assert(t[3].0.len() != t[3].1.len());
        } else if i == 4 {
            assert(t[4] == ("vpn_not_detected"@, "VPN не обнаружен"@));
            assert(t[4].0[0] != t[4].1[0]);
        } else if i == 5 {
            assert(t[5] == ("determining_ip"@, "Определяем ваш IP..."@));
            assert(t[5].0.len() != t[5].1.len());
        } else if i == 6 {
            assert(t[6] == ("refresh"@, "Обновить"@));
            assert(t[6].0.len() != t[6].1.len());
        } else if i == 7 {
            assert(t[7] == ("checking"@, "Проверяем..."@));
            assert(t[7].0.len() != t[7].1.len());
        } else if i == 8 {
            assert(t[8] == ("frkn_badge"@, "FRKN"@));
            assert(t[8].0.len() != t[8].1.len());
        } else if i == 9 {
            assert(t[9] == ("protected"@, "Защищённо"@));
            assert(t[9].0[0] != t[9].1[0]);
        } else if i == 10 {
            assert(t[10] == ("enable_vpn"@, "Включите VPN"@));
            assert(t[10].0.len() != t[10].1.len());
        } else if i == 11 {
            assert(t[11] == ("speed_title"@, "Скорость соединения"@));
            assert(t[11].0.len() != t[11].1.len());
        } else if i == 12 {
            assert(t[12] == ("speed_subtitle"@, "Загружаем тестовый файл без кэша"@));
            assert(t[12].0.len() != t[12].1.len());
        } else if i == 13 {
            assert(t[13] == ("measure_speed"@, "Проверить скорость"@));
            assert(t[13].0.len() != t[13].1.len());
        } else if i == 14 {
            assert(t[14] == ("measuring"@, "Измеряем..."@));
            assert(t[14].0.len() != t[14].1.len());
        } else if i == 15 {
            assert(t[15] == ("speed_failed"@, "Не удалось измерить скорость"@));
            assert(t[15].0.len() != t[15].1.len());
        } else if i == 16 {
            assert(t[16] == ("speed_prompt"@, "Нажмите кнопку, чтобы начать замер"@));
            assert(t[16].0.len() != t[16].1.len());
        } else if i == 17 {
            assert(t[17] == ("mbps"@, "Мбит/с"@));
            assert(t[17].0.len() != t[17].1.len());
        } else if i == 18 {
            assert(t[18] == ("frkn_servers_title"@, "Серверы FRKN"@));
            assert(t[18].0.len() != t[18].1.len());
        } else if i == 19 {
            assert(t[19] == ("frkn_servers_note"@, "Проверка портов через WebSocket handshake (TCP/TLS). UDP-протоколы из браузера недоступны."@));
            assert(t[19].0.len() != t[19].1.len());
        } else if i == 20 {
            assert(t[20] == ("of_available"@, "{online} из {total} доступны"@));
            assert(t[20].0.len() != t[20].1.len());
        } else if i == 21 {
            assert(t[21] == ("show_servers"@, "Показать {total} серверов"@));
            assert(t[21].0.len() != t[21].1.len());
        } else if i == 22 {
            assert(t[22] == ("hide"@, "Скрыть"@));
            assert(t[22].0.len() != t[22].1.len());
        } else if i == 23 {
            assert(t[23] == ("api_label"@, "FRKN"@));
            assert(t[23].0.len() != t[23].1.len());
        } else if i == 24 {
            assert(t[24] == ("api_hostname"@, "api.frkn.org"@));
            assert(t[24].0[3] != t[24].1[3]);
        } else if i == 25 {
            assert(t[25] == ("aggregate_all_online"@, "Все доступны"@));
            assert(t[25].0.len() != t[25].1.len());
        } else if i == 26 {
            assert(t[26] == ("aggregate_partial"@, "Частично доступны"@));
            assert(t[26].0[0] != t[26].1[0]);
        } else if i == 27 {
            assert(t[27] == ("aggregate_all_offline"@, "Недоступны"@));
            assert(t[27].0.len() != t[27].1.len());
        } else if i == 28 {
            assert(t[28] == ("aggregate_error"@, "Не удалось загрузить"@));
            assert(t[28].0.len() != t[28].1.len());
        } else if i == 29 {
            assert(t[29] == ("service_checking"@, "Проверка..."@));
            assert(t[29].0.len() != t[29].1.len());
        } else if i == 30 {
            assert(t[30] == ("service_online"@, "Доступен"@));
            assert(t[30].0.len() != t[30].1.len());
        } else if i == 31 {
            assert(t[31] == ("service_offline"@, "Недоступен"@));
            assert(t[31].0.len() != t[31].1.len());
        } else if i == 32 {
            assert(t[32] == ("service_error"@, "Ошибка"@));
            assert(t[32].0.len() != t[32].1.len());
        } else if i == 33 {
            assert(t[33] == ("browser_extension_title"@, "Браузерное расширение"@));
            assert(t[33].0.len() != t[33].1.len());
        } else if i == 34 {
            assert(t[34] == ("browser_extension_text"@, "Проверка доступности YouTube, X/Twitter, Instagram, Telegram и других сервисов, IP/VPN и скорость — всё в одном расширении."@));
            assert(t[34].0.len() != t[34].1.len());
        } else if i == 35 {
            assert(t[35] == ("store_chrome"@, "Chrome Web Store"@));
            assert(t[35].0.len() != t[35].1.len());
        } else if i == 36 {
            assert(t[36] == ("store_firefox"@, "Firefox Add-ons"@));
            assert(t[36].0.len() != t[36].1.len());
        } else if i == 37 {
            assert(t[37] == ("zip_fallback"@, "Если магазин недоступен в вашем регионе, можно установить расширение вручную из архива."@));
            assert(t[37].0.len() != t[37].1.len());
        } else if i == 38 {
            assert(t[38] == ("download_zip_chrome"@, "Скачать .zip для Chrome"@));
            assert(t[38].0.len() != t[38].1.len());
        } else if i == 39 {
            assert(t[39] == ("download_zip_firefox"@, "Скачать .zip для Firefox"@));
            assert(t[39].0.len() != t[39].1.len());
        } else if i == 40 {
            assert(t[40] == ("footer_powered"@, "powered by"@));
            assert(t[40].0.len() != t[40].1.len());
        } else if i == 41 {
            assert(t[41] == ("privacy_ru"@, "Политика конфиденциальности"@));
            assert(t[41].0.len() != t[41].1.len());
        } else if i == 42 {
            assert(t[42] == ("privacy_en"@, "Privacy Policy"@));
            assert(t[42].0.len() != t[42].1.len());
        } else if i == 43 {
            assert(t[43] == ("lang_ru"@, "RU"@));
            assert(t[43].0.len() != t[43].1.len());
        } else {
            assert(t[44] == ("lang_en"@, "EN"@));
            assert(t[44].0.len() != t[44].1.len());
        }
    }
}

proof fn lemma_en_texts_differ()
    ensures
        texts_differ_from_keys(en_table()),
{
    reveal_strlit("All available");
    reveal_strlit("Available");
    reveal_strlit("Browser extension");
    reveal_strlit("Check VPN, FRKN server status and connection speed");
    reveal_strlit("Check availability of YouTube, X/Twitter, Instagram, Telegram and other services, IP/VPN and speed — all in one extension.");
    reveal_strlit("Checking...");
    reveal_strlit("Chrome Web Store");
    reveal_strlit("Click the button to start measurement");
    reveal_strlit("Connection speed");
    reveal_strlit("Determining your IP...");
    reveal_strlit("Download .zip for Chrome");
    reveal_strlit("Download .zip for Firefox");
    reveal_strlit("Downloading test file without cache");
    reveal_strlit("EN");
    reveal_strlit("Enable VPN");
    reveal_strlit("Error");
    reveal_strlit("FRKN");
    reveal_strlit("FRKN servers");
    reveal_strlit("Failed to load");
    reveal_strlit("Failed to measure speed");
    reveal_strlit("Firefox Add-ons");
    reveal_strlit("Hide");
    reveal_strlit("How do we measure?");
    reveal_strlit("If the store is unavailable in your region, you can install the extension manually from the archive.");
    reveal_strlit("Mbps");
    reveal_strlit("Measure speed");
    reveal_strlit("Measuring...");
    reveal_strlit("Partially available");
    reveal_strlit("Port checks via WebSocket handshake (TCP/TLS). UDP protocols are not available from the browser.");
    reveal_strlit("Privacy Policy");
    reveal_strlit("Protected");
    reveal_strlit("RU");
    reveal_strlit("Refresh");
    reveal_strlit("Show {total} servers");
    reveal_strlit("Status Page");
    reveal_strlit("Unavailable");
    reveal_strlit("VPN detected");
    reveal_strlit("VPN not detected");
    reveal_strlit("aggregate_all_offline");
    reveal_strlit("aggregate_all_online");
    reveal_strlit("aggregate_error");
    reveal_strlit("aggregate_partial");
    reveal_strlit("api.frkn.org");
    reveal_strlit("api_hostname");
    reveal_strlit("api_label");
    reveal_strlit("browser_extension_text");
    reveal_strlit("browser_extension_title");
    reveal_strlit("checking");
    reveal_strlit("determining_ip");
    reveal_strlit("download_zip_chrome");
    reveal_strlit("download_zip_firefox");
    reveal_strlit("enable_vpn");
    reveal_strlit("footer_powered");
    reveal_strlit("frkn_badge");
    reveal_strlit("frkn_servers_note");
    reveal_strlit("frkn_servers_title");
    reveal_strlit("header_subtitle");
    reveal_strlit("header_title");
    reveal_strlit("hide");
    reveal_strlit("how_we_measure");
    reveal_strlit("lang_en");
    reveal_strlit("lang_ru");
    reveal_strlit("mbps");
    reveal_strlit("measure_speed");
    reveal_strlit("measuring");
    reveal_strlit("of_available");
    reveal_strlit("powered by");
    reveal_strlit("privacy_en");
    reveal_strlit("privacy_ru");
    reveal_strlit("protected");
    reveal_strlit("refresh");
    reveal_strlit("service_checking");
    reveal_strlit("service_error");
    reveal_strlit("service_offline");
    reveal_strlit("service_online");
    reveal_strlit("show_servers");
    reveal_strlit("speed_failed");
    reveal_strlit("speed_prompt");
    reveal_strlit("speed_subtitle");
    reveal_strlit("speed_title");
    reveal_strlit("store_chrome");
    reveal_strlit("store_firefox");
    reveal_strlit("vpn_detected");
    reveal_strlit("vpn_not_detected");
    reveal_strlit("zip_fallback");
    reveal_strlit("{online} of {total} available");
    reveal_strlit("Политика конфиденциальности");
    let t = en_table();
    assert(t.len() == 45);
    assert forall|i: int| 0 <= i < t.len() implies #[trigger] t[i].0 != t[i].1 by {
        if i == 0 {
            assert(t[0] == ("header_title"@, "Status Page"@));
            assert(t[0].0.len() != t[0].1.len());
        } else if i == 1 {
            assert(t[1] == ("header_subtitle"@, "Check VPN, FRKN server status and connection speed"@));
            assert(t[1].0.len() != t[1].1.len());
        } else if i == 2 {
            assert(t[2] == ("how_we_measure"@, "How do we measure?"@));
            assert(t[2].0.len() != t[2].1.len());
        } else if i == 3 {
            assert(t[3] == ("vpn_detected"@, "VPN detected"@));
            assert(t[3].0[0] != t[3].1[0]);
        } else if i == 4 {
            assert(t[4] == ("vpn_not_detected"@, "VPN not detected"@));
            assert(t[4].0[0] != t[4].1[0]);
        } else if i == 5 {
            assert(t[5] == ("determining_ip"@, "Determining your IP..."@));
            assert(t[5].0.len() != t[5].1.len());
        } else if i == 6 {
            assert(t[6] == ("refresh"@, "Refresh"@));
            assert(t[6].0[0] != t[6].1[0]);
        } else if i == 7 {
            assert(t[7] == ("checking"@, "Checking..."@));
            assert(t[7].0.len() != t[7].1.len());
        } else if i == 8 {
            assert(t[8] == ("frkn_badge"@, "FRKN"@));
            assert(t[8].0.len() != t[8].1.len());
        } else if i == 9 {
            assert(t[9] == ("protected"@, "Protected"@));
            assert(t[9].0[0] != t[9].1[0]);
        } else if i == 10 {
            assert(t[10] == ("enable_vpn"@, "Enable VPN"@));
            assert(t[10].0[0] != t[10].1[0]);
        } else if i == 11 {
            assert(t[11] == ("speed_title"@, "Connection speed"@));
            assert(t[11].0.len() != t[11].1.len());
        } else if i == 12 {
            assert(t[12] == ("speed_subtitle"@, "Downloading test file without cache"@));
            assert(t[12].0.len() != t[12].1.len());
        } else if i == 13 {
            assert(t[13] == ("measure_speed"@, "Measure speed"@));
            assert(t[13].0[0] != t[13].1[0]);
        } else if i == 14 {
            assert(t[14] == ("measuring"@, "Measuring..."@));
            assert(t[14].0.len() != t[14].1.len());
        } else if i == 15 {
            assert(t[15] == ("speed_failed"@, "Failed to measure speed"@));
            assert(t[15].0.len() != t[15].1.len());
        } else if i == 16 {
            assert(t[16] == ("speed_prompt"@, "Click the button to start measurement"@));
            assert(t[16].0.len() != t[16].1.len());
        } else if i == 17 {
            assert(t[17] == ("mbps"@, "Mbps"@));
            assert(t[17].0[0] != t[17].1[0]);
        } else if i == 18 {
            assert(t[18] == ("frkn_servers_title"@, "FRKN servers"@));
            assert(t[18].0.len() != t[18].1.len());
        } else if i == 19 {
            assert(t[19] == ("frkn_servers_note"@, "Port checks via WebSocket handshake (TCP/TLS). UDP protocols are not available from the browser."@));
            assert(t[19].0.len() != t[19].1.len());
        } else if i == 20 {
            assert(t[20] == ("of_available"@, "{online} of {total} available"@));
            assert(t[20].0.len() != t[20].1.len());
        } else if i == 21 {
            assert(t[21] == ("show_servers"@, "Show {total} servers"@));
            assert(t[21].0.len() != t[21].1.len());
        } else if i == 22 {
            assert(t[22] == ("hide"@, "Hide"@));
            assert(t[22].0[0] != t[22].1[0]);
        } else if i == 23 {
            assert(t[23] == ("api_label"@, "FRKN"@));
            assert(t[23].0.len() != t[23].1.len());
        } else if i == 24 {
            assert(t[24] == ("api_hostname"@, "api.frkn.org"@));
            assert(t[24].0[3] != t[24].1[3]);
        } else if i == 25 {
            assert(t[25] == ("aggregate_all_online"@, "All available"@));
            assert(t[25].0.len() != t[25].1.len());
        } else if i == 26 {
            assert(t[26] == ("aggregate_partial"@, "Partially available"@));
            assert(t[26].0.len() != t[26].1.len());
        } else if i == 27 {
            assert(t[27] == ("aggregate_all_offline"@, "Unavailable"@));
            assert(t[27].0.len() != t[27].1.len());
        } else if i == 28 {
            assert(t[28] == ("aggregate_error"@, "Failed to load"@));
            assert(t[28].0.len() != t[28].1.len());
        } else if i == 29 {
            assert(t[29] == ("service_checking"@, "Checking..."@));
            assert(t[29].0.len() != t[29].1.len());
        } else if i == 30 {
            assert(t[30] == ("service_online"@, "Available"@));
            assert(t[30].0.len() != t[30].1.len());
        } else if i == 31 {
            assert(t[31] == ("service_offline"@, "Unavailable"@));
            assert(t[31].0.len() != t[31].1.len());
        } else if i == 32 {
            assert(t[32] == ("service_error"@, "Error"@));
            assert(t[32].0.len() != t[32].1.len());
        } else if i == 33 {
            assert(t[33] == ("browser_extension_title"@, "Browser extension"@));
            assert(t[33].0.len() != t[33].1.len());
        } else if i == 34 {
            assert(t[34] == ("browser_extension_text"@, "Check availability of YouTube, X/Twitter, Instagram, Telegram and other services, IP/VPN and speed — all in one extension."@));
            assert(t[34].0.len() != t[34].1.len());
        } else if i == 35 {
            assert(t[35] == ("store_chrome"@, "Chrome Web Store"@));
            assert(t[35].0.len() != t[35].1.len());
        } else if i == 36 {
            assert(t[36] == ("store_firefox"@, "Firefox Add-ons"@));
            assert(t[36].0.len() != t[36].1.len());
        } else if i == 37 {
            assert(t[37] == ("zip_fallback"@, "If the store is unavailable in your region, you can install the extension manually from the archive."@));
            assert(t[37].0.len() != t[37].1.len());
        } else if i == 38 {
            assert(t[38] == ("download_zip_chrome"@, "Download .zip for Chrome"@));
            assert(t[38].0.len() != t[38].1.len());
        } else if i == 39 {
            assert(t[39] == ("download_zip_firefox"@, "Download .zip for Firefox"@));
            assert(t[39].0.len() != t[39].1.len());
        } else if i == 40 {
            assert(t[40] == ("footer_powered"@, "powered by"@));
            assert(t[40].0.len() != t[40].1.len());
        } else if i == 41 {
            assert(t[41] == ("privacy_ru"@, "Политика конфиденциальности"@));
            assert(t[41].0.len() != t[41].1.len());
        } else if i == 42 {
            assert(t[42] == ("privacy_en"@, "Privacy Policy"@));
            assert(t[42].0.len() != t[42].1.len());
        } else if i == 43 {
            assert(t[43] == ("lang_ru"@, "RU"@));
            assert(t[43].0.len() != t[43].1.len());
        } else {
            assert(t[44] == ("lang_en"@, "EN"@));
            assert(t[44].0.len() != t[44].1.len());
        }
    }
}

/// Both languages leave the same keys untranslated: a key is shown as it is
/// in English exactly when it is in Russian, which is exactly when the
/// tables have no entry for it; every listed key has a text of its own.
pub proof fn lemma_same_keys_translated(key: Seq<char>)
    ensures
        (translation(Lang::En, key) == key) <==> (translation(Lang::Ru, key) == key),
        (translation(Lang::Ru, key) == key) <==> !has_key(ru_table(), key),
        texts_differ_from_keys(ru_table()),
        texts_differ_from_keys(en_table()),
{
    lemma_tables_share_keys();
    lemma_ru_texts_differ();
    lemma_en_texts_differ();
    if has_key(ru_table(), key) {
        lemma_lookup_found(ru_table(), key);
        lemma_lookup_found(en_table(), key);
    } else {
        lemma_lookup_missing(ru_table(), key);
        lemma_lookup_missing(en_table(), key);
    }
}

/// The counting texts keep their placeholders in both languages: the
/// availability text holds `{online}` and `{total}`, the show-servers label
/// holds `{total}`.
pub proof fn lemma_placeholders_kept()
    ensures
        seq_contains(translation(Lang::Ru, "of_available"@), "{online}"@),
        seq_contains(translation(Lang::Ru, "of_available"@), "{total}"@),
        seq_contains(translation(Lang::En, "of_available"@), "{online}"@),
        seq_contains(translation(Lang::En, "of_available"@), "{total}"@),
        seq_contains(translation(Lang::Ru, "show_servers"@), "{total}"@),
        seq_contains(translation(Lang::En, "show_servers"@), "{total}"@),
        translation(Lang::Ru, "of_available"@) == "{online} из {total} доступны"@,
        translation(Lang::En, "of_available"@) == "{online} of {total} available"@,
        translation(Lang::Ru, "show_servers"@) == "Показать {total} серверов"@,
        translation(Lang::En, "show_servers"@) == "Show {total} servers"@,
{
    reveal_strlit("header_title");
    reveal_strlit("header_subtitle");
    reveal_strlit("how_we_measure");
    reveal_strlit("vpn_detected");
    reveal_strlit("vpn_not_detected");
    reveal_strlit("determining_ip");
    reveal_strlit("refresh");
    reveal_strlit("checking");
    reveal_strlit("frkn_badge");
    reveal_strlit("protected");
    reveal_strlit("enable_vpn");
    reveal_strlit("speed_title");
    reveal_strlit("speed_subtitle");
    reveal_strlit("measure_speed");
    reveal_strlit("measuring");
    reveal_strlit("speed_failed");
    reveal_strlit("speed_prompt");
    reveal_strlit("mbps");
    reveal_strlit("frkn_servers_title");
    reveal_strlit("frkn_servers_note");
    reveal_strlit("of_available");
    reveal_strlit("show_servers");
    reveal_strlit("{online}");
    reveal_strlit("{total}");
    assert("header_title"@[0] != "of_available"@[0]);
    assert("vpn_detected"@[0] != "of_available"@[0]);
    assert("speed_failed"@[0] != "of_available"@[0]);
    assert("speed_prompt"@[0] != "of_available"@[0]);
    assert("header_title"@[0] != "show_servers"@[0]);
    assert("vpn_detected"@[0] != "show_servers"@[0]);
    assert("speed_failed"@[1] != "show_servers"@[1]);
    assert("speed_prompt"@[1] != "show_servers"@[1]);
    assert("of_available"@[0] != "show_servers"@[0]);
    reveal_with_fuel(lookup, 23);
    assert(translation(Lang::Ru, "of_available"@) == ru_table()[20].1);
    assert(translation(Lang::En, "of_available"@) == en_table()[20].1);
    assert(translation(Lang::Ru, "show_servers"@) == ru_table()[21].1);
    assert(translation(Lang::En, "show_servers"@) == en_table()[21].1);
    reveal_strlit("{online} из {total} доступны");
    assert(ru_table()[20].1 == "{online} из {total} доступны"@);
    assert(ru_table()[20].1.subrange(0int, 0int + "{online}"@.len()) =~= "{online}"@);
    assert(ru_table()[20].1.subrange(12int, 12int + "{total}"@.len()) =~= "{total}"@);
    reveal_strlit("Показать {total} серверов");
    assert(ru_table()[21].1 == "Показать {total} серверов"@);
    assert(ru_table()[21].1.subrange(9int, 9int + "{total}"@.len()) =~= "{total}"@);
    reveal_strlit("{online} of {total} available");
    assert(en_table()[20].1 == "{online} of {total} available"@);
    assert(en_table()[20].1.subrange(0int, 0int + "{online}"@.len()) =~= "{online}"@);
    assert(en_table()[20].1.subrange(12int, 12int + "{total}"@.len()) =~= "{total}"@);
    reveal_strlit("Show {total} servers");
    assert(en_table()[21].1 == "Show {total} servers"@);
    assert(en_table()[21].1.subrange(5int, 5int + "{total}"@.len()) =~= "{total}"@);
}

} // verus!
