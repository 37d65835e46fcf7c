use eshara::i18n::{parse_language, sys_msg, Language, LocalizedString, Msg};

#[test]
fn test_localized_string_get() {
    let s = LocalizedString::new("Hello", "Bonjour");
    assert_eq!(s.get(Language::En), "Hello");
    assert_eq!(s.get(Language::Fr), "Bonjour");
}

#[test]
fn test_sys_msg_returns_content() {
    let msg = sys_msg(Msg::ElaraTyping, Language::En);
    assert_eq!(msg, "Elara is typing");
    let msg = sys_msg(Msg::ElaraTyping, Language::Fr);
    assert_eq!(msg, "Elara \u{00e9}crit");
}

#[test]
fn test_parse_language() {
    assert_eq!(parse_language("en"), Some(Language::En));
    assert_eq!(parse_language("EN"), Some(Language::En));
    assert_eq!(parse_language("fr"), Some(Language::Fr));
    assert_eq!(parse_language("français"), Some(Language::Fr));
    assert_eq!(parse_language("invalid"), None);
}

#[test]
fn test_parse_language_more_spellings() {
    assert_eq!(parse_language("English"), Some(Language::En));
    assert_eq!(parse_language("FRANCAIS"), Some(Language::Fr));
    assert_eq!(parse_language("FRANÇAIS"), Some(Language::Fr));
    assert_eq!(parse_language(""), None);
}

#[test]
fn test_language_prompt_bilingual() {
    // Language prompt should be the same regardless of language passed
    let en = sys_msg(Msg::LanguagePrompt, Language::En);
    let fr = sys_msg(Msg::LanguagePrompt, Language::Fr);
    assert_eq!(en, fr);
    assert!(en.contains("English") || en.contains("language"));
}
