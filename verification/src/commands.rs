//! What the settings window asks of the application: the shortcut as it is
//! and as the user wants it, which providers hold a key, and the changes to
//! keys and provider.

use vstd::prelude::*;
use crate::keychain::{delete_api_key, has_api_key, store_api_key};
use crate::settings::{
    format_shortcut_display, get_api_key_for_provider, get_model_for_provider, key_for,
    key_named, modifiers_of, parse_modifiers, provider_for, provider_id, provider_id_text,
    provider_named, shortcut_display, Code, Modifiers, Settings, ShortcutConfig,
    TranscriptionProvider,
};
use crate::text::{
    contains, has_prefix, lowercase_of, occurs_in, opt_text, prefixed, starts_with, to_lowercase,
    trim, trimmed_of,
};

verus! {

/// The shortcut as the settings window shows it.
#[derive(Debug, Clone, PartialEq, Eq)]
pub struct ShortcutInfo {
    pub modifiers: Vec<String>,
    pub key: String,
    pub display: String,
}

/// The texts of a list of strings.
pub open spec fn texts(v: Seq<String>) -> Seq<Seq<char>> {
    Seq::new(v.len(), |i: int| v[i]@)
}

/// A copy of a list of strings.
pub fn clone_names(names: &Vec<String>) -> (r: Vec<String>)
    ensures
        texts(r@) == texts(names@),
{
    let mut out: Vec<String> = Vec::new();
    let mut i: usize = 0;
    while i < names.len()
        invariant
            i <= names.len(),
            out@.len() == i,
            forall|j: int| 0 <= j < i ==> (#[trigger] out@[j])@ == names@[j]@,
        decreases names.len() - i,
    {
        out.push(names[i].clone());
        i = i + 1;
    }
    out
}

/// Describes a shortcut for the settings window: its parts as stored, and
/// the way it is shown.
pub fn get_shortcut(config: &ShortcutConfig) -> (info: ShortcutInfo)
    ensures
        texts(info.modifiers@) == texts(config.modifiers@),
        info.key@ == config.key@,
        info.display@ == shortcut_display(config.modifiers@, config.key@),
{
    ShortcutInfo {
        modifiers: clone_names(&config.modifiers),
        key: config.key.clone(),
        display: format_shortcut_display(config),
    }
}

/// Why a shortcut was refused.
#[derive(Debug, PartialEq, Eq)]
pub enum ShortcutError {
    /// The key names more than one key.
    MultiKey,
    /// The key is not known; its name is attached.
    InvalidKey(String),
    /// The system would not register the shortcut, for the reason attached.
    Registration(String),
}

impl ShortcutError {
    /// The readable message of this error.
    pub open spec fn message_text(self) -> Seq<char> {
        match self {
            ShortcutError::MultiKey =>
                "Multi-key shortcuts (e.g., R+L) are not supported. Use modifier keys (⌘⇧⌃⌥) with a single key."@,
            ShortcutError::InvalidKey(key) => "Invalid key: "@ + key@,
            ShortcutError::Registration(d) => "Failed to register shortcut: "@ + d@,
        }
    }

    /// Renders the message shown to the user for this error.
    pub fn message(&self) -> (r: String)
        ensures
            r@ == self.message_text(),
    {
        match self {
            ShortcutError::MultiKey =>
                "Multi-key shortcuts (e.g., R+L) are not supported. Use modifier keys (⌘⇧⌃⌥) with a single key.".to_owned(),
            ShortcutError::InvalidKey(key) => prefixed("Invalid key: ", key.as_str()),
            ShortcutError::Registration(d) => prefixed("Failed to register shortcut: ", d.as_str()),
        }
    }
}

/// A shortcut ready to be registered.
#[derive(Debug, Clone, Copy, PartialEq, Eq, Structural)]
pub struct Binding {
    /// The modifiers to hold; `None` where there are none.
    pub modifiers: Option<Modifiers>,
    pub code: Code,
}

/// The modifiers of a binding: `None` stands for the empty set.
pub open spec fn binding_modifiers(set: Modifiers) -> Option<Modifiers> {
    if set == Modifiers::none() {
        None
    } else {
        Some(set)
    }
}

/// What a requested shortcut comes to. A key with a `+` in it asks for
/// several keys and is refused; so is a key whose name is unknown.
pub open spec fn binding_for(modifiers: Seq<String>, key: Seq<char>) -> Option<Binding> {
    if occurs_in(key, "+"@) {
        None
    } else {
        match key_for(lowercase_of(key)) {
            Some(code) => Some(
                Binding { modifiers: binding_modifiers(modifiers_of(modifiers)), code },
            ),
            None => None,
        }
    }
}

/// Builds the binding of a set of modifiers and a key.
pub fn bind(set: Modifiers, code: Code) -> (b: Binding)
    ensures
        b == (Binding { modifiers: binding_modifiers(set), code }),
{
    let modifiers = if set.is_empty() {
        None
    } else {
        Some(set)
    };
    Binding { modifiers, code }
}

/// Checks a shortcut the user asks for and turns it into a binding.
pub fn plan_shortcut(modifiers: &[String], key: &str) -> (r: Result<Binding, ShortcutError>)
    ensures
        binding_for(modifiers@, key@) matches Some(b) ==> r == Ok::<Binding, ShortcutError>(b),
        binding_for(modifiers@, key@) is None ==> r is Err,
        occurs_in(key@, "+"@) ==> r == Err::<Binding, ShortcutError>(ShortcutError::MultiKey),
        !occurs_in(key@, "+"@) && key_for(lowercase_of(key@)) is None ==> (r matches Err(
            ShortcutError::InvalidKey(name),
        ) && name@ == key@),
{
    if contains(key, "+") {
        return Err(ShortcutError::MultiKey);
    }
    let lowered = to_lowercase(key);
    match key_named(lowered.as_str()) {
        Some(code) => Ok(bind(parse_modifiers(modifiers), code)),
        None => Err(ShortcutError::InvalidKey(key.to_owned())),
    }
}

/// The binding registered at start-up for the stored shortcut. A stored key
/// that is not known falls back to Space.
pub fn startup_binding(config: &ShortcutConfig) -> (b: Binding)
    ensures
        b.modifiers == binding_modifiers(modifiers_of(config.modifiers@)),
        b.code == match key_for(lowercase_of(config.key@)) {
            Some(code) => code,
            None => Code::Space,
        },
{
    let lowered = to_lowercase(config.key.as_str());
    let code = match key_named(lowered.as_str()) {
        Some(code) => code,
        None => Code::Space,
    };
    bind(parse_modifiers(config.modifiers.as_slice()), code)
}

/// Where the key of a provider was found.
#[derive(Debug, Clone, Copy, PartialEq, Eq, Structural)]
pub enum KeySource {
    Keychain,
    Environment,
}

/// Where a key comes from, the credential store taking precedence.
pub open spec fn source_of(in_keychain: bool, in_environment: bool) -> Option<KeySource> {
    if in_keychain {
        Some(KeySource::Keychain)
    } else if in_environment {
        Some(KeySource::Environment)
    } else {
        None
    }
}

/// The name of a source, as the settings window receives it.
pub open spec fn source_name(source: Option<KeySource>) -> Option<Seq<char>> {
    match source {
        Some(KeySource::Keychain) => Some("keychain"@),
        Some(KeySource::Environment) => Some("env"@),
        None => None,
    }
}

/// Which providers have a key, and from where.
#[derive(Debug, Clone, PartialEq, Eq)]
pub struct ApiKeyStatus {
    pub openai_configured: bool,
    pub groq_configured: bool,
    pub openai_source: Option<String>,
    pub groq_source: Option<String>,
}

/// Names where a key comes from, the credential store taking precedence.
pub fn key_source(in_keychain: bool, in_environment: bool) -> (r: Option<String>)
    ensures
        opt_text(r) == source_name(source_of(in_keychain, in_environment)),
{
    if in_keychain {
        Some("keychain".to_owned())
    } else if in_environment {
        Some("env".to_owned())
    } else {
        None
    }
}

/// The status of the keys, given for each provider whether the credential
/// store and the environment hold one.
pub fn api_key_status(
    openai_in_keychain: bool,
    openai_in_environment: bool,
    groq_in_keychain: bool,
    groq_in_environment: bool,
) -> (s: ApiKeyStatus)
    ensures
        s.openai_configured == (openai_in_keychain || openai_in_environment),
        s.groq_configured == (groq_in_keychain || groq_in_environment),
        opt_text(s.openai_source) == source_name(
            source_of(openai_in_keychain, openai_in_environment),
        ),
        opt_text(s.groq_source) == source_name(
            source_of(groq_in_keychain, groq_in_environment),
        ),
{
    ApiKeyStatus {
        openai_configured: openai_in_keychain || openai_in_environment,
        groq_configured: groq_in_keychain || groq_in_environment,
        openai_source: key_source(openai_in_keychain, openai_in_environment),
        groq_source: key_source(groq_in_keychain, groq_in_environment),
    }
}

/// The status of the keys as the credential store has them now, given
/// whether the environment holds a key for each provider. A provider whose
/// key is in the environment is configured whatever the store says.
pub fn get_api_key_status(openai_in_environment: bool, groq_in_environment: bool) -> (s:
    ApiKeyStatus)
    ensures
        openai_in_environment ==> s.openai_configured,
        groq_in_environment ==> s.groq_configured,
        s.openai_configured == (s.openai_source is Some),
        s.groq_configured == (s.groq_source is Some),
{
    let openai_in_keychain = has_api_key("openai");
    let groq_in_keychain = has_api_key("groq");
    api_key_status(
        openai_in_keychain,
        openai_in_environment,
        groq_in_keychain,
        groq_in_environment,
    )
}

/// A change to the credential store.
#[derive(Debug, PartialEq, Eq)]
pub enum KeyUpdate {
    /// Remove the key of this provider.
    Delete(TranscriptionProvider),
    /// Save this key for this provider.
    Store(TranscriptionProvider, String),
}

/// Why a key was refused.
#[derive(Debug, PartialEq, Eq)]
pub enum KeyError {
    /// The provider is not known; its name is attached as given.
    UnknownProvider(String),
    /// The key does not begin the way this provider's keys do.
    WrongPrefix(TranscriptionProvider),
    /// No key is saved for the provider; its name is attached as given.
    NotConfigured(String),
}

impl KeyError {
    /// The readable message of this error.
    pub open spec fn message_text(self) -> Seq<char> {
        match self {
            KeyError::UnknownProvider(name) => "Unknown provider: "@ + name@,
            KeyError::WrongPrefix(TranscriptionProvider::OpenAI) =>
                "OpenAI API keys should start with 'sk-'"@,
            KeyError::WrongPrefix(TranscriptionProvider::Groq) =>
                "Groq API keys should start with 'gsk_'"@,
            KeyError::NotConfigured(name) => "No API key configured for "@ + name@,
        }
    }

    /// Renders the message shown to the user for this error.
    pub fn message(&self) -> (r: String)
        ensures
            r@ == self.message_text(),
    {
        match self {
            KeyError::UnknownProvider(name) => prefixed("Unknown provider: ", name.as_str()),
            KeyError::WrongPrefix(TranscriptionProvider::OpenAI) =>
                "OpenAI API keys should start with 'sk-'".to_owned(),
            KeyError::WrongPrefix(TranscriptionProvider::Groq) =>
                "Groq API keys should start with 'gsk_'".to_owned(),
            KeyError::NotConfigured(name) => prefixed(
                "No API key configured for ",
                name.as_str(),
            ),
        }
    }
}

/// The way the keys of a provider begin.
pub open spec fn key_prefix_text(provider: TranscriptionProvider) -> Seq<char> {
    match provider {
        TranscriptionProvider::OpenAI => "sk-"@,
        TranscriptionProvider::Groq => "gsk_"@,
    }
}

/// The way the keys of a provider begin.
pub fn key_prefix(provider: TranscriptionProvider) -> (r: &'static str)
    ensures
        r@ == key_prefix_text(provider),
{
    match provider {
        TranscriptionProvider::OpenAI => "sk-",
        TranscriptionProvider::Groq => "gsk_",
    }
}

/// Decides what a request to set a key asks for. `provider` is the name as
/// given, `lowered_provider` the same in lower case, `trimmed_key` the key
/// without the white space around it.
pub fn plan_key_update(provider: &str, lowered_provider: &str, trimmed_key: &str) -> (r: Result<
    KeyUpdate,
    KeyError,
>)
    ensures
        provider_for(lowered_provider@) is None ==> (r matches Err(KeyError::UnknownProvider(name))
            && name@ == provider@),
        provider_for(lowered_provider@) matches Some(p) ==> {
            &&& trimmed_key@.len() == 0 ==> r == Ok::<KeyUpdate, KeyError>(KeyUpdate::Delete(p))
            &&& trimmed_key@.len() > 0 && has_prefix(trimmed_key@, key_prefix_text(p)) ==> (
            r matches Ok(KeyUpdate::Store(q, key)) && q == p && key@ == trimmed_key@)
            &&& trimmed_key@.len() > 0 && !has_prefix(trimmed_key@, key_prefix_text(p)) ==> r
                == Err::<KeyUpdate, KeyError>(KeyError::WrongPrefix(p))
        },
{
    let target = match provider_named(lowered_provider) {
        Some(p) => p,
        None => {
            return Err(KeyError::UnknownProvider(provider.to_owned()));
        },
    };
    if trimmed_key.is_empty() {
        Ok(KeyUpdate::Delete(target))
    } else if starts_with(trimmed_key, key_prefix(target)) {
        Ok(KeyUpdate::Store(target, trimmed_key.to_owned()))
    } else {
        Err(KeyError::WrongPrefix(target))
    }
}

/// Sets, replaces or, with an empty key, removes the key of a provider in
/// the credential store. A request for an unknown provider, or with a key
/// that does not begin as the provider's keys do, never reaches the store and
/// fails with the message of its error.
pub fn set_api_key(provider: &str, api_key: &str) -> (r: Result<(), String>)
    ensures
        provider_for(lowercase_of(provider@)) is None ==> (r matches Err(message) && message@
            == "Unknown provider: "@ + provider@),
        provider_for(lowercase_of(provider@)) matches Some(p) ==> (trimmed_of(api_key@).len() > 0
            && !has_prefix(trimmed_of(api_key@), key_prefix_text(p)) ==> (r matches Err(message)
            && message@ == KeyError::WrongPrefix(p).message_text())),
{
    let lowered = to_lowercase(provider);
    let trimmed = trim(api_key);
    match plan_key_update(provider, lowered.as_str(), trimmed) {
        Ok(KeyUpdate::Delete(target)) => delete_api_key(provider_id(&target)),
        Ok(KeyUpdate::Store(target, key)) => store_api_key(provider_id(&target), key.as_str()),
        Err(refusal) => Err(refusal.message()),
    }
}

/// A provider as the settings window lists it.
#[derive(Debug, Clone, PartialEq, Eq)]
pub struct ProviderInfo {
    pub id: String,
    pub name: String,
    pub model: String,
    pub available: bool,
}

/// The name a provider is listed under.
pub open spec fn provider_title(provider: TranscriptionProvider) -> Seq<char> {
    match provider {
        TranscriptionProvider::OpenAI => "OpenAI Whisper"@,
        TranscriptionProvider::Groq => "Groq Whisper"@,
    }
}

/// The model a provider is asked for.
pub open spec fn provider_model(provider: TranscriptionProvider) -> Seq<char> {
    match provider {
        TranscriptionProvider::OpenAI => "whisper-1"@,
        TranscriptionProvider::Groq => "whisper-large-v3-turbo"@,
    }
}

/// `info` lists `provider`, available or not.
pub open spec fn lists(info: ProviderInfo, provider: TranscriptionProvider, available: bool) -> bool {
    &&& info.id@ == provider_id_text(provider)
    &&& info.name@ == provider_title(provider)
    &&& info.model@ == provider_model(provider)
    &&& info.available == available
}

/// The entry of one provider.
pub fn provider_info(provider: TranscriptionProvider, available: bool) -> (info: ProviderInfo)
    ensures
        lists(info, provider, available),
{
    let name = match provider {
        TranscriptionProvider::OpenAI => "OpenAI Whisper",
        TranscriptionProvider::Groq => "Groq Whisper",
    };
    ProviderInfo {
        id: provider_id(&provider).to_owned(),
        name: name.to_owned(),
        model: get_model_for_provider(&provider).to_owned(),
        available,
    }
}

/// The list of providers, OpenAI first, given for each whether a key is at
/// hand.
pub fn available_providers(openai_available: bool, groq_available: bool) -> (list: Vec<
    ProviderInfo,
>)
    ensures
        list@.len() == 2,
        lists(list@[0], TranscriptionProvider::OpenAI, openai_available),
        lists(list@[1], TranscriptionProvider::Groq, groq_available),
{
    let mut list: Vec<ProviderInfo> = Vec::new();
    list.push(provider_info(TranscriptionProvider::OpenAI, openai_available));
    list.push(provider_info(TranscriptionProvider::Groq, groq_available));
    list
}

/// The list of providers, each marked available where the credential store
/// holds a key for it now.
pub fn get_available_providers() -> (list: Vec<ProviderInfo>)
    ensures
        list@.len() == 2,
        lists(list@[0], TranscriptionProvider::OpenAI, list@[0].available),
        lists(list@[1], TranscriptionProvider::Groq, list@[1].available),
{
    let openai = get_api_key_for_provider(&TranscriptionProvider::OpenAI).is_some();
    let groq = get_api_key_for_provider(&TranscriptionProvider::Groq).is_some();
    available_providers(openai, groq)
}

/// The transcription settings as the settings window shows them.
#[derive(Debug, Clone, PartialEq, Eq)]
pub struct TranscriptionSettings {
    pub provider: String,
    pub model: String,
}

/// Describes the provider in use and its model.
pub fn get_transcription_settings(settings: &Settings) -> (t: TranscriptionSettings)
    ensures
        t.provider@ == provider_id_text(settings.transcription.provider),
        t.model@ == provider_model(settings.transcription.provider),
{
    TranscriptionSettings {
        provider: provider_id(&settings.transcription.provider).to_owned(),
        model: get_model_for_provider(&settings.transcription.provider).to_owned(),
    }
}

/// Decides a request to switch provider. `provider` is the name as given,
/// `lowered_provider` the same in lower case, `has_key` whether a key is at
/// hand for the provider it names. The answer names the provider as given.
pub fn plan_provider_switch(provider: String, lowered_provider: &str, has_key: bool) -> (r: Result<
    (TranscriptionProvider, TranscriptionSettings),
    KeyError,
>)
    ensures
        provider_for(lowered_provider@) is None ==> r == Err::<
            (TranscriptionProvider, TranscriptionSettings),
            KeyError,
        >(KeyError::UnknownProvider(provider)),
        provider_for(lowered_provider@) is Some && !has_key ==> r == Err::<
            (TranscriptionProvider, TranscriptionSettings),
            KeyError,
        >(KeyError::NotConfigured(provider)),
        provider_for(lowered_provider@) matches Some(p) ==> (has_key ==> (r matches Ok((q, t))
            && q == p && t.provider == provider && t.model@ == provider_model(p))),
{
    let target = match provider_named(lowered_provider) {
        Some(p) => p,
        None => {
            return Err(KeyError::UnknownProvider(provider));
        },
    };
    if !has_key {
        return Err(KeyError::NotConfigured(provider));
    }
    Ok(
        (
            target,
            TranscriptionSettings {
                provider,
                model: get_model_for_provider(&target).to_owned(),
            },
        ),
    )
}

/// Switches the provider in `settings`, provided the name is known and the
/// credential store holds a key for it. On refusal the settings are left as
/// they were.
pub fn set_transcription_provider(settings: &mut Settings, provider: String) -> (r: Result<
    TranscriptionSettings,
    KeyError,
>)
    ensures
        provider_for(lowercase_of(provider@)) is None ==> r == Err::<
            TranscriptionSettings,
            KeyError,
        >(KeyError::UnknownProvider(provider)),
        r is Err ==> *final(settings) == *old(settings),
        r matches Ok(t) ==> (provider_for(lowercase_of(provider@)) == Some(
            final(settings).transcription.provider,
        ) && t.provider == provider && t.model@ == provider_model(
            final(settings).transcription.provider,
        )),
        final(settings).shortcut == old(settings).shortcut,
        final(settings).api_keys == old(settings).api_keys,
        final(settings).audio_input_device == old(settings).audio_input_device,
{
    let lowered = to_lowercase(provider.as_str());
    let has_key = match provider_named(lowered.as_str()) {
        Some(p) => get_api_key_for_provider(&p).is_some(),
        None => false,
    };
    match plan_provider_switch(provider, lowered.as_str(), has_key) {
        Ok((target, described)) => {
            settings.transcription.provider = target;
            Ok(described)
        },
        Err(refusal) => Err(refusal),
    }
}

} // verus!
