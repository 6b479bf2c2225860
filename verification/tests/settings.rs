use scrivano::settings::{
    format_shortcut_display, get_api_key_for_provider, get_endpoint_for_provider,
    get_model_for_provider, key_label, key_named, modifier_named, modifier_symbol, parse_key,
    parse_modifiers, provider_id, provider_named, ApiKeysConfig, Code, Modifier, Modifiers,
    Settings, ShortcutConfig, TranscriptionConfig, TranscriptionProvider,
};

#[test]
fn test_shortcut_config_default() {
    let config = ShortcutConfig::default();
    assert_eq!(config.modifiers, vec!["super", "shift"]);
    assert_eq!(config.key, "Space");
}

#[test]
fn test_transcription_provider_default() {
    let provider = TranscriptionProvider::default();
    assert_eq!(provider, TranscriptionProvider::OpenAI);
}

#[test]
fn test_transcription_config_default() {
    let config = TranscriptionConfig::default();
    assert_eq!(config.provider, TranscriptionProvider::OpenAI);
}

#[test]
fn test_settings_default() {
    let settings = Settings::default();
    assert_eq!(settings.shortcut.modifiers, vec!["super", "shift"]);
    assert_eq!(settings.shortcut.key, "Space");
    assert_eq!(
        settings.transcription.provider,
        TranscriptionProvider::OpenAI
    );
}

#[test]
fn test_parse_modifiers_super() {
    let modifiers = vec!["super".to_string()];
    let result = parse_modifiers(&modifiers);
    assert!(result.contains(Modifiers::SUPER));
}

#[test]
fn test_parse_modifiers_shift() {
    let modifiers = vec!["shift".to_string()];
    let result = parse_modifiers(&modifiers);
    assert!(result.contains(Modifiers::SHIFT));
}

#[test]
fn test_parse_modifiers_multiple() {
    let modifiers = vec!["super".to_string(), "shift".to_string(), "ctrl".to_string()];
    let result = parse_modifiers(&modifiers);
    assert!(result.contains(Modifiers::SUPER));
    assert!(result.contains(Modifiers::SHIFT));
    assert!(result.contains(Modifiers::CONTROL));
}

#[test]
fn test_parse_key_letter() {
    assert_eq!(parse_key("a"), Some(Code::KeyA));
    assert_eq!(parse_key("z"), Some(Code::KeyZ));
    assert_eq!(parse_key("A"), Some(Code::KeyA)); // Test case insensitivity
}

#[test]
fn test_parse_key_special() {
    assert_eq!(parse_key("space"), Some(Code::Space));
    assert_eq!(parse_key("enter"), Some(Code::Enter));
    assert_eq!(parse_key("return"), Some(Code::Enter));
    assert_eq!(parse_key("tab"), Some(Code::Tab));
}

#[test]
fn test_parse_key_function() {
    assert_eq!(parse_key("f1"), Some(Code::F1));
    assert_eq!(parse_key("f12"), Some(Code::F12));
}

#[test]
fn test_parse_key_invalid() {
    assert_eq!(parse_key("invalid_key"), None);
}

#[test]
fn test_format_shortcut_display() {
    let config = ShortcutConfig {
        modifiers: vec!["super".to_string(), "shift".to_string()],
        key: "space".to_string(),
    };
    let display = format_shortcut_display(&config);
    assert_eq!(display, "⌘⇧Space");
}

#[test]
fn test_format_shortcut_display_letter() {
    let config = ShortcutConfig {
        modifiers: vec!["ctrl".to_string()],
        key: "c".to_string(),
    };
    let display = format_shortcut_display(&config);
    assert_eq!(display, "⌃C");
}

#[test]
fn test_get_model_for_provider_openai() {
    let model = get_model_for_provider(&TranscriptionProvider::OpenAI);
    assert_eq!(model, "whisper-1");
}

#[test]
fn test_get_model_for_provider_groq() {
    let model = get_model_for_provider(&TranscriptionProvider::Groq);
    assert_eq!(model, "whisper-large-v3-turbo");
}

#[test]
fn test_get_endpoint_for_provider_openai() {
    let endpoint = get_endpoint_for_provider(&TranscriptionProvider::OpenAI);
    assert_eq!(endpoint, "https://api.openai.com/v1/audio/transcriptions");
}

#[test]
fn test_get_endpoint_for_provider_groq() {
    let endpoint = get_endpoint_for_provider(&TranscriptionProvider::Groq);
    assert_eq!(
        endpoint,
        "https://api.groq.com/openai/v1/audio/transcriptions"
    );
}

#[test]
fn test_get_api_key_for_provider_no_key() {
    let key = get_api_key_for_provider(&TranscriptionProvider::Groq);
    // Should be None if no keychain key is set
    // (unless developer has a real key in keychain, so we just verify it returns Option<String>)
    assert!(key.is_none() || key.is_some());
}

#[test]
fn parse_modifiers_knows_every_alias_in_any_case() {
    for name in ["super", "cmd", "command", "meta", "SUPER", "Cmd"] {
        let set = parse_modifiers(&[name.to_string()]);
        assert!(set.contains(Modifiers::SUPER), "{}", name);
        assert!(!set.contains(Modifiers::SHIFT));
        assert!(!set.contains(Modifiers::CONTROL));
        assert!(!set.contains(Modifiers::ALT));
    }
    for name in ["ctrl", "control", "Control"] {
        assert!(parse_modifiers(&[name.to_string()]).contains(Modifiers::CONTROL));
    }
    for name in ["alt", "option", "OPTION"] {
        assert!(parse_modifiers(&[name.to_string()]).contains(Modifiers::ALT));
    }
    assert!(parse_modifiers(&["Shift".to_string()]).contains(Modifiers::SHIFT));
}

#[test]
fn parse_modifiers_passes_over_unknown_names() {
    let set = parse_modifiers(&["hyper".to_string(), "".to_string()]);
    assert!(set.is_empty());
    assert_eq!(set, Modifiers::empty());
    let none: Vec<String> = Vec::new();
    assert!(parse_modifiers(&none).is_empty());
}

#[test]
fn modifiers_insert_adds_exactly_one() {
    let mut set = Modifiers::empty();
    set.insert(Modifier::Alt);
    assert!(set.contains(Modifier::Alt));
    assert!(!set.contains(Modifier::Super));
    assert!(!set.is_empty());
    set.insert(Modifier::Alt);
    assert_eq!(
        set,
        Modifiers { super_key: false, shift: false, control: false, alt: true }
    );
}

#[test]
fn modifier_named_wants_lower_case() {
    assert_eq!(modifier_named("shift"), Some(Modifier::Shift));
    assert_eq!(modifier_named("Shift"), None);
    assert_eq!(modifier_named("meta"), Some(Modifier::Super));
    assert_eq!(modifier_named(""), None);
}

#[test]
fn parse_key_knows_digits_under_both_names() {
    assert_eq!(parse_key("0"), Some(Code::Digit0));
    assert_eq!(parse_key("digit0"), Some(Code::Digit0));
    assert_eq!(parse_key("9"), Some(Code::Digit9));
    assert_eq!(parse_key("Digit7"), Some(Code::Digit7));
}

#[test]
fn parse_key_knows_navigation_and_punctuation() {
    assert_eq!(parse_key("escape"), Some(Code::Escape));
    assert_eq!(parse_key("esc"), Some(Code::Escape));
    assert_eq!(parse_key("backspace"), Some(Code::Backspace));
    assert_eq!(parse_key("delete"), Some(Code::Delete));
    assert_eq!(parse_key("insert"), Some(Code::Insert));
    assert_eq!(parse_key("home"), Some(Code::Home));
    assert_eq!(parse_key("end"), Some(Code::End));
    assert_eq!(parse_key("pageup"), Some(Code::PageUp));
    assert_eq!(parse_key("PageDown"), Some(Code::PageDown));
    assert_eq!(parse_key("up"), Some(Code::ArrowUp));
    assert_eq!(parse_key("arrowdown"), Some(Code::ArrowDown));
    assert_eq!(parse_key("left"), Some(Code::ArrowLeft));
    assert_eq!(parse_key("ArrowRight"), Some(Code::ArrowRight));
    assert_eq!(parse_key("-"), Some(Code::Minus));
    assert_eq!(parse_key("equal"), Some(Code::Equal));
    assert_eq!(parse_key("["), Some(Code::BracketLeft));
    assert_eq!(parse_key("]"), Some(Code::BracketRight));
    assert_eq!(parse_key("\\"), Some(Code::Backslash));
    assert_eq!(parse_key(";"), Some(Code::Semicolon));
    assert_eq!(parse_key("'"), Some(Code::Quote));
    assert_eq!(parse_key("`"), Some(Code::Backquote));
    assert_eq!(parse_key(","), Some(Code::Comma));
    assert_eq!(parse_key("."), Some(Code::Period));
    assert_eq!(parse_key("/"), Some(Code::Slash));
}

#[test]
fn parse_key_refuses_what_it_does_not_know() {
    assert_eq!(parse_key(""), None);
    assert_eq!(parse_key("f13"), None);
    assert_eq!(parse_key("r+l"), None);
    assert_eq!(parse_key(" a"), None);
}

#[test]
fn key_named_wants_lower_case() {
    assert_eq!(key_named("q"), Some(Code::KeyQ));
    assert_eq!(key_named("Q"), None);
    assert_eq!(key_named("f10"), Some(Code::F10));
}

#[test]
fn key_label_shows_signs_words_and_capitals() {
    assert_eq!(key_label("space"), "Space");
    assert_eq!(key_label("enter"), "↩");
    assert_eq!(key_label("return"), "↩");
    assert_eq!(key_label("tab"), "⇥");
    assert_eq!(key_label("esc"), "⎋");
    assert_eq!(key_label("escape"), "⎋");
    assert_eq!(key_label("backspace"), "⌫");
    assert_eq!(key_label("delete"), "⌦");
    assert_eq!(key_label("up"), "↑");
    assert_eq!(key_label("arrowdown"), "↓");
    assert_eq!(key_label("left"), "←");
    assert_eq!(key_label("arrowright"), "→");
    assert_eq!(key_label("f5"), "F5");
    assert_eq!(key_label("x"), "X");
}

#[test]
fn format_shortcut_display_keeps_order_and_skips_unknown() {
    let config = ShortcutConfig {
        modifiers: vec![
            "Alt".to_string(),
            "bogus".to_string(),
            "command".to_string(),
            "Control".to_string(),
            "shift".to_string(),
        ],
        key: "Return".to_string(),
    };
    assert_eq!(format_shortcut_display(&config), "⌥⌘⌃⇧↩");
    let bare = ShortcutConfig { modifiers: vec![], key: "F9".to_string() };
    assert_eq!(format_shortcut_display(&bare), "F9");
}

#[test]
fn modifier_symbols() {
    assert_eq!(modifier_symbol(Modifier::Super), "⌘");
    assert_eq!(modifier_symbol(Modifier::Shift), "⇧");
    assert_eq!(modifier_symbol(Modifier::Control), "⌃");
    assert_eq!(modifier_symbol(Modifier::Alt), "⌥");
}

#[test]
fn providers_have_ids() {
    assert_eq!(provider_id(&TranscriptionProvider::OpenAI), "openai");
    assert_eq!(provider_id(&TranscriptionProvider::Groq), "groq");
    assert_eq!(provider_named("openai"), Some(TranscriptionProvider::OpenAI));
    assert_eq!(provider_named("groq"), Some(TranscriptionProvider::Groq));
    assert_eq!(provider_named("OpenAI"), None);
    assert_eq!(provider_named("whisper"), None);
}

#[test]
fn settings_default_has_no_device_and_no_legacy_keys() {
    let settings = Settings::default();
    assert_eq!(settings.audio_input_device, None);
    assert_eq!(settings.api_keys, ApiKeysConfig::default());
    assert_eq!(settings.api_keys, ApiKeysConfig::from_legacy(None, None));
}
