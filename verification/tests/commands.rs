use scrivano::commands::{
    api_key_status, available_providers, bind, clone_names, get_api_key_status,
    get_available_providers, get_shortcut, get_transcription_settings, key_prefix, key_source,
    plan_key_update, plan_provider_switch, plan_shortcut, provider_info, set_api_key,
    set_transcription_provider, startup_binding, ApiKeyStatus, Binding, KeyError, KeyUpdate,
    ProviderInfo, ShortcutError, ShortcutInfo, TranscriptionSettings,
};
use scrivano::settings::{Code, Modifier, Modifiers, Settings, ShortcutConfig, TranscriptionProvider};

fn names(list: &[&str]) -> Vec<String> {
    list.iter().map(|s| s.to_string()).collect()
}

fn set_of(list: &[Modifier]) -> Modifiers {
    let mut set = Modifiers::empty();
    for m in list {
        set.insert(*m);
    }
    set
}

#[test]
fn shortcut_is_described_with_its_display() {
    let info = get_shortcut(&ShortcutConfig::default());
    assert_eq!(
        info,
        ShortcutInfo {
            modifiers: names(&["super", "shift"]),
            key: "Space".to_string(),
            display: "⌘⇧Space".to_string(),
        }
    );
    assert_eq!(clone_names(&names(&["a", "", "ç"])), names(&["a", "", "ç"]));
}

#[test]
fn multi_key_shortcuts_are_refused() {
    assert_eq!(plan_shortcut(&names(&["super"]), "R+L"), Err(ShortcutError::MultiKey));
    assert_eq!(plan_shortcut(&names(&[]), "+"), Err(ShortcutError::MultiKey));
    assert_eq!(
        ShortcutError::MultiKey.message(),
        "Multi-key shortcuts (e.g., R+L) are not supported. Use modifier keys (⌘⇧⌃⌥) with a single key."
    );
}

#[test]
fn unknown_keys_are_refused_by_name() {
    assert_eq!(
        plan_shortcut(&names(&["super"]), "Hyper"),
        Err(ShortcutError::InvalidKey("Hyper".to_string()))
    );
    assert_eq!(ShortcutError::InvalidKey("Hyper".to_string()).message(), "Invalid key: Hyper");
    assert_eq!(
        ShortcutError::Registration("taken".to_string()).message(),
        "Failed to register shortcut: taken"
    );
}

#[test]
fn known_shortcuts_become_bindings() {
    assert_eq!(
        plan_shortcut(&names(&["Super", "shift"]), "Space"),
        Ok(Binding {
            modifiers: Some(set_of(&[Modifier::Super, Modifier::Shift])),
            code: Code::Space
        })
    );
    assert_eq!(
        plan_shortcut(&names(&[]), "f5"),
        Ok(Binding { modifiers: None, code: Code::F5 })
    );
    assert_eq!(
        plan_shortcut(&names(&["nonsense"]), "a"),
        Ok(Binding { modifiers: None, code: Code::KeyA })
    );
    assert_eq!(bind(Modifiers::empty(), Code::Tab), Binding { modifiers: None, code: Code::Tab });
}

#[test]
fn startup_binding_falls_back_to_space() {
    let stored = ShortcutConfig { modifiers: names(&["alt"]), key: "no such key".to_string() };
    assert_eq!(
        startup_binding(&stored),
        Binding { modifiers: Some(set_of(&[Modifier::Alt])), code: Code::Space }
    );
    assert_eq!(
        startup_binding(&ShortcutConfig::default()),
        Binding {
            modifiers: Some(set_of(&[Modifier::Super, Modifier::Shift])),
            code: Code::Space
        }
    );
    let plain = ShortcutConfig { modifiers: names(&[]), key: "F12".to_string() };
    assert_eq!(startup_binding(&plain), Binding { modifiers: None, code: Code::F12 });
}

#[test]
fn keychain_takes_precedence_over_environment() {
    assert_eq!(key_source(true, true), Some("keychain".to_string()));
    assert_eq!(key_source(true, false), Some("keychain".to_string()));
    assert_eq!(key_source(false, true), Some("env".to_string()));
    assert_eq!(key_source(false, false), None);
    assert_eq!(
        api_key_status(false, true, true, true),
        ApiKeyStatus {
            openai_configured: true,
            groq_configured: true,
            openai_source: Some("env".to_string()),
            groq_source: Some("keychain".to_string()),
        }
    );
    assert_eq!(
        api_key_status(false, false, false, false),
        ApiKeyStatus {
            openai_configured: false,
            groq_configured: false,
            openai_source: None,
            groq_source: None,
        }
    );
}

#[test]
fn status_counts_the_environment_whatever_the_store_holds() {
    let status = get_api_key_status(true, false);
    assert!(status.openai_configured);
    assert!(status.openai_source.is_some());
    assert_eq!(status.groq_configured, status.groq_source.is_some());
    let status = get_api_key_status(false, true);
    assert!(status.groq_configured);
    assert_eq!(status.openai_configured, status.openai_source.is_some());
}

#[test]
fn key_updates_are_planned() {
    assert_eq!(
        plan_key_update("OpenAI", "openai", "sk-abc"),
        Ok(KeyUpdate::Store(TranscriptionProvider::OpenAI, "sk-abc".to_string()))
    );
    assert_eq!(
        plan_key_update("groq", "groq", "gsk_abc"),
        Ok(KeyUpdate::Store(TranscriptionProvider::Groq, "gsk_abc".to_string()))
    );
    assert_eq!(
        plan_key_update("groq", "groq", ""),
        Ok(KeyUpdate::Delete(TranscriptionProvider::Groq))
    );
    assert_eq!(
        plan_key_update("openai", "openai", "gsk_abc"),
        Err(KeyError::WrongPrefix(TranscriptionProvider::OpenAI))
    );
    assert_eq!(
        plan_key_update("groq", "groq", "sk-abc"),
        Err(KeyError::WrongPrefix(TranscriptionProvider::Groq))
    );
    assert_eq!(
        plan_key_update("openai", "openai", "sk"),
        Err(KeyError::WrongPrefix(TranscriptionProvider::OpenAI))
    );
    assert_eq!(
        plan_key_update("Azure", "azure", "sk-abc"),
        Err(KeyError::UnknownProvider("Azure".to_string()))
    );
    assert_eq!(key_prefix(TranscriptionProvider::OpenAI), "sk-");
    assert_eq!(key_prefix(TranscriptionProvider::Groq), "gsk_");
}

#[test]
fn key_error_messages() {
    assert_eq!(
        KeyError::UnknownProvider("Azure".to_string()).message(),
        "Unknown provider: Azure"
    );
    assert_eq!(
        KeyError::WrongPrefix(TranscriptionProvider::OpenAI).message(),
        "OpenAI API keys should start with 'sk-'"
    );
    assert_eq!(
        KeyError::WrongPrefix(TranscriptionProvider::Groq).message(),
        "Groq API keys should start with 'gsk_'"
    );
    assert_eq!(
        KeyError::NotConfigured("Groq".to_string()).message(),
        "No API key configured for Groq"
    );
}

#[test]
fn refused_keys_never_reach_the_store() {
    assert_eq!(set_api_key("Azure", "sk-abc"), Err("Unknown provider: Azure".to_string()));
    assert_eq!(
        set_api_key("OpenAI", "  abc  "),
        Err("OpenAI API keys should start with 'sk-'".to_string())
    );
    assert_eq!(
        set_api_key("GROQ", "sk-abc"),
        Err("Groq API keys should start with 'gsk_'".to_string())
    );
}

#[test]
fn providers_are_listed_openai_first() {
    let list = available_providers(true, false);
    assert_eq!(
        list,
        vec![
            ProviderInfo {
                id: "openai".to_string(),
                name: "OpenAI Whisper".to_string(),
                model: "whisper-1".to_string(),
                available: true,
            },
            ProviderInfo {
                id: "groq".to_string(),
                name: "Groq Whisper".to_string(),
                model: "whisper-large-v3-turbo".to_string(),
                available: false,
            },
        ]
    );
    assert_eq!(provider_info(TranscriptionProvider::Groq, true).name, "Groq Whisper");
    let now = get_available_providers();
    assert_eq!(now.len(), 2);
    assert_eq!(now[0].id, "openai");
    assert_eq!(now[1].id, "groq");
    assert_eq!(now[1].model, "whisper-large-v3-turbo");
}

#[test]
fn transcription_settings_name_provider_and_model() {
    let mut settings = Settings::default();
    assert_eq!(
        get_transcription_settings(&settings),
        TranscriptionSettings { provider: "openai".to_string(), model: "whisper-1".to_string() }
    );
    settings.transcription.provider = TranscriptionProvider::Groq;
    assert_eq!(
        get_transcription_settings(&settings),
        TranscriptionSettings {
            provider: "groq".to_string(),
            model: "whisper-large-v3-turbo".to_string()
        }
    );
}

#[test]
fn provider_switch_needs_a_known_name_and_a_key() {
    assert_eq!(
        plan_provider_switch("Groq".to_string(), "groq", true),
        Ok((
            TranscriptionProvider::Groq,
            TranscriptionSettings {
                provider: "Groq".to_string(),
                model: "whisper-large-v3-turbo".to_string()
            }
        ))
    );
    assert_eq!(
        plan_provider_switch("Groq".to_string(), "groq", false),
        Err(KeyError::NotConfigured("Groq".to_string()))
    );
    assert_eq!(
        plan_provider_switch("Azure".to_string(), "azure", true),
        Err(KeyError::UnknownProvider("Azure".to_string()))
    );
}

#[test]
fn refused_switch_leaves_the_settings_alone() {
    let mut settings = Settings::default();
    settings.audio_input_device = Some("USB Mic".to_string());
    let before = settings.clone();
    assert_eq!(
        set_transcription_provider(&mut settings, "Azure".to_string()),
        Err(KeyError::UnknownProvider("Azure".to_string()))
    );
    assert_eq!(settings, before);
    match set_transcription_provider(&mut settings, "Groq".to_string()) {
        Ok(described) => {
            assert_eq!(described.provider, "Groq");
            assert_eq!(described.model, "whisper-large-v3-turbo");
            assert_eq!(settings.transcription.provider, TranscriptionProvider::Groq);
        }
        Err(refusal) => {
            assert_eq!(refusal, KeyError::NotConfigured("Groq".to_string()));
            assert_eq!(settings, before);
        }
    }
    assert_eq!(settings.shortcut, before.shortcut);
    assert_eq!(settings.audio_input_device, before.audio_input_device);
}
