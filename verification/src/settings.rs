//! The settings of the application: the recording shortcut, the
//! transcription provider, and how both are read from and shown as text.

use vstd::prelude::*;
use crate::keychain::get_api_key;
use crate::text::{lowercase_of, str_eq, to_lowercase, to_uppercase, uppercase_of};

verus! {

/// The shortcut that starts and stops a recording, as it is stored: modifier
/// names such as `super` or `shift`, and the name of one key.
#[derive(Debug, Clone, PartialEq, Eq)]
pub struct ShortcutConfig {
    pub modifiers: Vec<String>,
    pub key: String,
}

impl Default for ShortcutConfig {
    /// Super and Shift with Space.
    fn default() -> (c: Self)
        ensures
            c.modifiers@.len() == 2,
            c.modifiers@[0]@ == "super"@,
            c.modifiers@[1]@ == "shift"@,
            c.key@ == "Space"@,
    {
        let mut modifiers: Vec<String> = Vec::new();
        modifiers.push("super".to_owned());
        modifiers.push("shift".to_owned());
        ShortcutConfig { modifiers, key: "Space".to_owned() }
    }
}

/// The services that can transcribe a recording.
#[derive(Debug, Clone, Copy, PartialEq, Eq, Structural)]
pub enum TranscriptionProvider {
    OpenAI,
    Groq,
}

impl Default for TranscriptionProvider {
    fn default() -> (p: Self)
        ensures
            p == TranscriptionProvider::OpenAI,
    {
        TranscriptionProvider::OpenAI
    }
}

/// Keys that older settings files carried in the clear. They are read so
/// that such files still load, and never written back: keys live in the
/// credential store.
#[derive(Debug, Clone, PartialEq, Eq)]
pub struct ApiKeysConfig {
    openai_api_key: Option<String>,
    groq_api_key: Option<String>,
}

impl Default for ApiKeysConfig {
    fn default() -> (k: Self)
        ensures
            k.legacy_openai() is None,
            k.legacy_groq() is None,
    {
        ApiKeysConfig { openai_api_key: None, groq_api_key: None }
    }
}

impl ApiKeysConfig {
    /// The OpenAI key an old settings file carried.
    pub closed spec fn legacy_openai(&self) -> Option<String> {
        self.openai_api_key
    }

    /// The Groq key an old settings file carried.
    pub closed spec fn legacy_groq(&self) -> Option<String> {
        self.groq_api_key
    }

    /// The legacy keys as read from a settings file.
    pub fn from_legacy(openai_api_key: Option<String>, groq_api_key: Option<String>) -> (k: Self)
        ensures
            k.legacy_openai() == openai_api_key,
            k.legacy_groq() == groq_api_key,
    {
        ApiKeysConfig { openai_api_key, groq_api_key }
    }
}

/// Which provider transcribes.
#[derive(Debug, Clone, PartialEq, Eq)]
pub struct TranscriptionConfig {
    pub provider: TranscriptionProvider,
}

impl Default for TranscriptionConfig {
    fn default() -> (c: Self)
        ensures
            c.provider == TranscriptionProvider::OpenAI,
    {
        TranscriptionConfig { provider: TranscriptionProvider::OpenAI }
    }
}

/// Everything the application persists.
#[derive(Debug, Clone, PartialEq, Eq)]
pub struct Settings {
    pub shortcut: ShortcutConfig,
    pub api_keys: ApiKeysConfig,
    pub transcription: TranscriptionConfig,
    /// The input device to record from; `None` selects the system default.
    pub audio_input_device: Option<String>,
}

impl Default for Settings {
    fn default() -> (s: Self)
        ensures
            s.shortcut.modifiers@.len() == 2,
            s.shortcut.modifiers@[0]@ == "super"@,
            s.shortcut.modifiers@[1]@ == "shift"@,
            s.shortcut.key@ == "Space"@,
            s.transcription.provider == TranscriptionProvider::OpenAI,
            s.audio_input_device is None,
    {
        Settings {
            shortcut: ShortcutConfig::default(),
            api_keys: ApiKeysConfig::default(),
            transcription: TranscriptionConfig::default(),
            audio_input_device: None,
        }
    }
}

/// One modifier key.
#[derive(Debug, Clone, Copy, PartialEq, Eq, Structural)]
pub enum Modifier {
    Super,
    Shift,
    Control,
    Alt,
}

/// A set of modifier keys.
#[derive(Debug, Clone, Copy, PartialEq, Eq, Structural)]
pub struct Modifiers {
    pub super_key: bool,
    pub shift: bool,
    pub control: bool,
    pub alt: bool,
}

impl Modifiers {
    pub const SUPER: Modifier = Modifier::Super;

    pub const SHIFT: Modifier = Modifier::Shift;

    pub const CONTROL: Modifier = Modifier::Control;

    pub const ALT: Modifier = Modifier::Alt;

    /// The set without any modifier.
    pub open spec fn none() -> Modifiers {
        Modifiers { super_key: false, shift: false, control: false, alt: false }
    }

    /// This set with `m` added, where `m` names a modifier.
    pub open spec fn with(self, m: Option<Modifier>) -> Modifiers {
        match m {
            Some(Modifier::Super) => Modifiers { super_key: true, ..self },
            Some(Modifier::Shift) => Modifiers { shift: true, ..self },
            Some(Modifier::Control) => Modifiers { control: true, ..self },
            Some(Modifier::Alt) => Modifiers { alt: true, ..self },
            None => self,
        }
    }

    /// `m` is in this set.
    pub open spec fn has(self, m: Modifier) -> bool {
        match m {
            Modifier::Super => self.super_key,
            Modifier::Shift => self.shift,
            Modifier::Control => self.control,
            Modifier::Alt => self.alt,
        }
    }

    /// The set without any modifier.
    pub fn empty() -> (m: Self)
        ensures
            m == Modifiers::none(),
    {
        Modifiers { super_key: false, shift: false, control: false, alt: false }
    }

    /// Whether the set holds no modifier.
    pub fn is_empty(&self) -> (b: bool)
        ensures
            b == (*self == Modifiers::none()),
    {
        !self.super_key && !self.shift && !self.control && !self.alt
    }

    /// Whether `m` is in this set.
    pub fn contains(&self, m: Modifier) -> (b: bool)
        ensures
            b == self.has(m),
    {
        match m {
            Modifier::Super => self.super_key,
            Modifier::Shift => self.shift,
            Modifier::Control => self.control,
            Modifier::Alt => self.alt,
        }
    }

    /// Adds one modifier to the set.
    pub fn insert(&mut self, m: Modifier)
        ensures
            *final(self) == old(self).with(Some(m)),
    {
        match m {
            Modifier::Super => {
                self.super_key = true;
            },
            Modifier::Shift => {
                self.shift = true;
            },
            Modifier::Control => {
                self.control = true;
            },
            Modifier::Alt => {
                self.alt = true;
            },
        }
    }
}

/// The modifier that a name, already in lower case, stands for.
pub open spec fn modifier_for(name: Seq<char>) -> Option<Modifier> {
    if name == "super"@ || name == "cmd"@ || name == "command"@ || name == "meta"@ {
        Some(Modifier::Super)
    } else if name == "shift"@ {
        Some(Modifier::Shift)
    } else if name == "ctrl"@ || name == "control"@ {
        Some(Modifier::Control)
    } else if name == "alt"@ || name == "option"@ {
        Some(Modifier::Alt)
    } else {
        None
    }
}

/// Reads one modifier name that is already in lower case. Names that stand
/// for no modifier give `None`.
pub fn modifier_named(lowered: &str) -> (r: Option<Modifier>)
    ensures
        r == modifier_for(lowered@),
{
    if str_eq(lowered, "super") || str_eq(lowered, "cmd") || str_eq(lowered, "command") || str_eq(
        lowered,
        "meta",
    ) {
        Some(Modifier::Super)
    } else if str_eq(lowered, "shift") {
        Some(Modifier::Shift)
    } else if str_eq(lowered, "ctrl") || str_eq(lowered, "control") {
        Some(Modifier::Control)
    } else if str_eq(lowered, "alt") || str_eq(lowered, "option") {
        Some(Modifier::Alt)
    } else {
        None
    }
}

/// The set of modifiers that a list of names stands for, whatever their
/// case; names that stand for none are passed over.
pub open spec fn modifiers_of(names: Seq<String>) -> Modifiers
    decreases names.len(),
{
    if names.len() == 0 {
        Modifiers::none()
    } else {
        modifiers_of(names.drop_last()).with(modifier_for(lowercase_of(names.last()@)))
    }
}

/// Reads a list of modifier names.
pub fn parse_modifiers(modifiers: &[String]) -> (result: Modifiers)
    ensures
        result == modifiers_of(modifiers@),
{
    let mut result = Modifiers::empty();
    let mut i: usize = 0;
    while i < modifiers.len()
        invariant
            i <= modifiers.len(),
            result == modifiers_of(modifiers@.subrange(0, i as int)),
        decreases modifiers.len() - i,
    {
        let lowered = to_lowercase(modifiers[i].as_str());
        proof {
            let upto = modifiers@.subrange(0, i + 1);
            assert(upto.drop_last() =~= modifiers@.subrange(0, i as int));
        }
        if let Some(m) = modifier_named(lowered.as_str()) {
            result.insert(m);
        }
        i = i + 1;
    }
    assert(modifiers@.subrange(0, i as int) =~= modifiers@);
    result
}

/// The keys a shortcut can end in.
#[derive(Debug, Clone, Copy, PartialEq, Eq, Structural)]
pub enum Code {
    KeyA,
    KeyB,
    KeyC,
    KeyD,
    KeyE,
    KeyF,
    KeyG,
    KeyH,
    KeyI,
    KeyJ,
    KeyK,
    KeyL,
    KeyM,
    KeyN,
    KeyO,
    KeyP,
    KeyQ,
    KeyR,
    KeyS,
    KeyT,
    KeyU,
    KeyV,
    KeyW,
    KeyX,
    KeyY,
    KeyZ,
    Digit0,
    Digit1,
    Digit2,
    Digit3,
    Digit4,
    Digit5,
    Digit6,
    Digit7,
    Digit8,
    Digit9,
    F1,
    F2,
    F3,
    F4,
    F5,
    F6,
    F7,
    F8,
    F9,
    F10,
    F11,
    F12,
    Space,
    Enter,
    Tab,
    Escape,
    Backspace,
    Delete,
    Insert,
    Home,
    End,
    PageUp,
    PageDown,
    ArrowUp,
    ArrowDown,
    ArrowLeft,
    ArrowRight,
    Minus,
    Equal,
    BracketLeft,
    BracketRight,
    Backslash,
    Semicolon,
    Quote,
    Backquote,
    Comma,
    Period,
    Slash,
}

/// The key that a name, already in lower case, stands for.
pub open spec fn key_for(name: Seq<char>) -> Option<Code> {
    if name == "a"@ {
        Some(Code::KeyA)
    } else if name == "b"@ {
        Some(Code::KeyB)
    } else if name == "c"@ {
        Some(Code::KeyC)
    } else if name == "d"@ {
        Some(Code::KeyD)
    } else if name == "e"@ {
        Some(Code::KeyE)
    } else if name == "f"@ {
        Some(Code::KeyF)
    } else if name == "g"@ {
        Some(Code::KeyG)
    } else if name == "h"@ {
        Some(Code::KeyH)
    } else if name == "i"@ {
        Some(Code::KeyI)
    } else if name == "j"@ {
        Some(Code::KeyJ)
    } else if name == "k"@ {
        Some(Code::KeyK)
    } else if name == "l"@ {
        Some(Code::KeyL)
    } else if name == "m"@ {
        Some(Code::KeyM)
    } else if name == "n"@ {
        Some(Code::KeyN)
    } else if name == "o"@ {
        Some(Code::KeyO)
    } else if name == "p"@ {
        Some(Code::KeyP)
    } else if name == "q"@ {
        Some(Code::KeyQ)
    } else if name == "r"@ {
        Some(Code::KeyR)
    } else if name == "s"@ {
        Some(Code::KeyS)
    } else if name == "t"@ {
        Some(Code::KeyT)
    } else if name == "u"@ {
        Some(Code::KeyU)
    } else if name == "v"@ {
        Some(Code::KeyV)
    } else if name == "w"@ {
        Some(Code::KeyW)
    } else if name == "x"@ {
        Some(Code::KeyX)
    } else if name == "y"@ {
        Some(Code::KeyY)
    } else if name == "z"@ {
        Some(Code::KeyZ)
    } else if name == "0"@ || name == "digit0"@ {
        Some(Code::Digit0)
    } else if name == "1"@ || name == "digit1"@ {
        Some(Code::Digit1)
    } else if name == "2"@ || name == "digit2"@ {
        Some(Code::Digit2)
    } else if name == "3"@ || name == "digit3"@ {
        Some(Code::Digit3)
    } else if name == "4"@ || name == "digit4"@ {
        Some(Code::Digit4)
    } else if name == "5"@ || name == "digit5"@ {
        Some(Code::Digit5)
    } else if name == "6"@ || name == "digit6"@ {
        Some(Code::Digit6)
    } else if name == "7"@ || name == "digit7"@ {
        Some(Code::Digit7)
    } else if name == "8"@ || name == "digit8"@ {
        Some(Code::Digit8)
    } else if name == "9"@ || name == "digit9"@ {
        Some(Code::Digit9)
    } else if name == "f1"@ {
        Some(Code::F1)
    } else if name == "f2"@ {
        Some(Code::F2)
    } else if name == "f3"@ {
        Some(Code::F3)
    } else if name == "f4"@ {
        Some(Code::F4)
    } else if name == "f5"@ {
        Some(Code::F5)
    } else if name == "f6"@ {
        Some(Code::F6)
    } else if name == "f7"@ {
        Some(Code::F7)
    } else if name == "f8"@ {
        Some(Code::F8)
    } else if name == "f9"@ {
        Some(Code::F9)
    } else if name == "f10"@ {
        Some(Code::F10)
    } else if name == "f11"@ {
        Some(Code::F11)
    } else if name == "f12"@ {
        Some(Code::F12)
    } else if name == "space"@ {
        Some(Code::Space)
    } else if name == "enter"@ || name == "return"@ {
        Some(Code::Enter)
    } else if name == "tab"@ {
        Some(Code::Tab)
    } else if name == "escape"@ || name == "esc"@ {
        Some(Code::Escape)
    } else if name == "backspace"@ {
        Some(Code::Backspace)
    } else if name == "delete"@ {
        Some(Code::Delete)
    } else if name == "insert"@ {
        Some(Code::Insert)
    } else if name == "home"@ {
        Some(Code::Home)
    } else if name == "end"@ {
        Some(Code::End)
    } else if name == "pageup"@ {
        Some(Code::PageUp)
    } else if name == "pagedown"@ {
        Some(Code::PageDown)
    } else if name == "arrowup"@ || name == "up"@ {
        Some(Code::ArrowUp)
    } else if name == "arrowdown"@ || name == "down"@ {
        Some(Code::ArrowDown)
    } else if name == "arrowleft"@ || name == "left"@ {
        Some(Code::ArrowLeft)
    } else if name == "arrowright"@ || name == "right"@ {
        Some(Code::ArrowRight)
    } else if name == "minus"@ || name == "-"@ {
        Some(Code::Minus)
    } else if name == "equal"@ || name == "="@ {
        Some(Code::Equal)
    } else if name == "bracketleft"@ || name == "["@ {
        Some(Code::BracketLeft)
    } else if name == "bracketright"@ || name == "]"@ {
        Some(Code::BracketRight)
    } else if name == "backslash"@ || name == "\\"@ {
        Some(Code::Backslash)
    } else if name == "semicolon"@ || name == ";"@ {
        Some(Code::Semicolon)
    } else if name == "quote"@ || name == "'"@ {
        Some(Code::Quote)
    } else if name == "backquote"@ || name == "`"@ {
        Some(Code::Backquote)
    } else if name == "comma"@ || name == ","@ {
        Some(Code::Comma)
    } else if name == "period"@ || name == "."@ {
        Some(Code::Period)
    } else if name == "slash"@ || name == "/"@ {
        Some(Code::Slash)
    } else {
        None
    }
}

/// Reads a key name that is already in lower case.
pub fn key_named(lowered: &str) -> (r: Option<Code>)
    ensures
        r == key_for(lowered@),
{
    if str_eq(lowered, "a") {
        Some(Code::KeyA)
    } else if str_eq(lowered, "b") {
        Some(Code::KeyB)
    } else if str_eq(lowered, "c") {
        Some(Code::KeyC)
    } else if str_eq(lowered, "d") {
        Some(Code::KeyD)
    } else if str_eq(lowered, "e") {
        Some(Code::KeyE)
    } else if str_eq(lowered, "f") {
        Some(Code::KeyF)
    } else if str_eq(lowered, "g") {
        Some(Code::KeyG)
    } else if str_eq(lowered, "h") {
        Some(Code::KeyH)
    } else if str_eq(lowered, "i") {
        Some(Code::KeyI)
    } else if str_eq(lowered, "j") {
        Some(Code::KeyJ)
    } else if str_eq(lowered, "k") {
        Some(Code::KeyK)
    } else if str_eq(lowered, "l") {
        Some(Code::KeyL)
    } else if str_eq(lowered, "m") {
        Some(Code::KeyM)
    } else if str_eq(lowered, "n") {
        Some(Code::KeyN)
    } else if str_eq(lowered, "o") {
        Some(Code::KeyO)
    } else if str_eq(lowered, "p") {
        Some(Code::KeyP)
    } else if str_eq(lowered, "q") {
        Some(Code::KeyQ)
    } else if str_eq(lowered, "r") {
        Some(Code::KeyR)
    } else if str_eq(lowered, "s") {
        Some(Code::KeyS)
    } else if str_eq(lowered, "t") {
        Some(Code::KeyT)
    } else if str_eq(lowered, "u") {
        Some(Code::KeyU)
    } else if str_eq(lowered, "v") {
        Some(Code::KeyV)
    } else if str_eq(lowered, "w") {
        Some(Code::KeyW)
    } else if str_eq(lowered, "x") {
        Some(Code::KeyX)
    } else if str_eq(lowered, "y") {
        Some(Code::KeyY)
    } else if str_eq(lowered, "z") {
        Some(Code::KeyZ)
    } else if str_eq(lowered, "0") || str_eq(lowered, "digit0") {
        Some(Code::Digit0)
    } else if str_eq(lowered, "1") || str_eq(lowered, "digit1") {
        Some(Code::Digit1)
    } else if str_eq(lowered, "2") || str_eq(lowered, "digit2") {
        Some(Code::Digit2)
    } else if str_eq(lowered, "3") || str_eq(lowered, "digit3") {
        Some(Code::Digit3)
    } else if str_eq(lowered, "4") || str_eq(lowered, "digit4") {
        Some(Code::Digit4)
    } else if str_eq(lowered, "5") || str_eq(lowered, "digit5") {
        Some(Code::Digit5)
    } else if str_eq(lowered, "6") || str_eq(lowered, "digit6") {
        Some(Code::Digit6)
    } else if str_eq(lowered, "7") || str_eq(lowered, "digit7") {
        Some(Code::Digit7)
    } else if str_eq(lowered, "8") || str_eq(lowered, "digit8") {
        Some(Code::Digit8)
    } else if str_eq(lowered, "9") || str_eq(lowered, "digit9") {
        Some(Code::Digit9)
    } else if str_eq(lowered, "f1") {
        Some(Code::F1)
    } else if str_eq(lowered, "f2") {
        Some(Code::F2)
    } else if str_eq(lowered, "f3") {
        Some(Code::F3)
    } else if str_eq(lowered, "f4") {
        Some(Code::F4)
    } else if str_eq(lowered, "f5") {
        Some(Code::F5)
    } else if str_eq(lowered, "f6") {
        Some(Code::F6)
    } else if str_eq(lowered, "f7") {
        Some(Code::F7)
    } else if str_eq(lowered, "f8") {
        Some(Code::F8)
    } else if str_eq(lowered, "f9") {
        Some(Code::F9)
    } else if str_eq(lowered, "f10") {
        Some(Code::F10)
    } else if str_eq(lowered, "f11") {
        Some(Code::F11)
    } else if str_eq(lowered, "f12") {
        Some(Code::F12)
    } else if str_eq(lowered, "space") {
        Some(Code::Space)
    } else if str_eq(lowered, "enter") || str_eq(lowered, "return") {
        Some(Code::Enter)
    } else if str_eq(lowered, "tab") {
        Some(Code::Tab)
    } else if str_eq(lowered, "escape") || str_eq(lowered, "esc") {
        Some(Code::Escape)
    } else if str_eq(lowered, "backspace") {
        Some(Code::Backspace)
    } else if str_eq(lowered, "delete") {
        Some(Code::Delete)
    } else if str_eq(lowered, "insert") {
        Some(Code::Insert)
    } else if str_eq(lowered, "home") {
        Some(Code::Home)
    } else if str_eq(lowered, "end") {
        Some(Code::End)
    } else if str_eq(lowered, "pageup") {
        Some(Code::PageUp)
    } else if str_eq(lowered, "pagedown") {
        Some(Code::PageDown)
    } else if str_eq(lowered, "arrowup") || str_eq(lowered, "up") {
        Some(Code::ArrowUp)
    } else if str_eq(lowered, "arrowdown") || str_eq(lowered, "down") {
        Some(Code::ArrowDown)
    } else if str_eq(lowered, "arrowleft") || str_eq(lowered, "left") {
        Some(Code::ArrowLeft)
    } else if str_eq(lowered, "arrowright") || str_eq(lowered, "right") {
        Some(Code::ArrowRight)
    } else if str_eq(lowered, "minus") || str_eq(lowered, "-") {
        Some(Code::Minus)
    } else if str_eq(lowered, "equal") || str_eq(lowered, "=") {
        Some(Code::Equal)
    } else if str_eq(lowered, "bracketleft") || str_eq(lowered, "[") {
        Some(Code::BracketLeft)
    } else if str_eq(lowered, "bracketright") || str_eq(lowered, "]") {
        Some(Code::BracketRight)
    } else if str_eq(lowered, "backslash") || str_eq(lowered, "\\") {
        Some(Code::Backslash)
    } else if str_eq(lowered, "semicolon") || str_eq(lowered, ";") {
        Some(Code::Semicolon)
    } else if str_eq(lowered, "quote") || str_eq(lowered, "'") {
        Some(Code::Quote)
    } else if str_eq(lowered, "backquote") || str_eq(lowered, "`") {
        Some(Code::Backquote)
    } else if str_eq(lowered, "comma") || str_eq(lowered, ",") {
        Some(Code::Comma)
    } else if str_eq(lowered, "period") || str_eq(lowered, ".") {
        Some(Code::Period)
    } else if str_eq(lowered, "slash") || str_eq(lowered, "/") {
        Some(Code::Slash)
    } else {
        None
    }
}

/// Reads a key name, whatever its case. Letters, digits, function keys and
/// the named keys are known, some under several names; any other name gives
/// `None`.
pub fn parse_key(key: &str) -> (r: Option<Code>)
    ensures
        r == key_for(lowercase_of(key@)),
{
    let lowered = to_lowercase(key);
    key_named(lowered.as_str())
}

/// The sign a modifier is shown as.
pub open spec fn symbol_text(m: Option<Modifier>) -> Seq<char> {
    match m {
        Some(Modifier::Super) => "⌘"@,
        Some(Modifier::Shift) => "⇧"@,
        Some(Modifier::Control) => "⌃"@,
        Some(Modifier::Alt) => "⌥"@,
        None => Seq::empty(),
    }
}

/// The sign a modifier is shown as.
pub fn modifier_symbol(m: Modifier) -> (r: &'static str)
    ensures
        r@ == symbol_text(Some(m)),
{
    match m {
        Modifier::Super => "⌘",
        Modifier::Shift => "⇧",
        Modifier::Control => "⌃",
        Modifier::Alt => "⌥",
    }
}

/// The signs of a list of modifier names, in the order of the list.
pub open spec fn symbols_of(names: Seq<String>) -> Seq<char>
    decreases names.len(),
{
    if names.len() == 0 {
        Seq::empty()
    } else {
        symbols_of(names.drop_last()) + symbol_text(modifier_for(lowercase_of(names.last()@)))
    }
}

/// How a key, named in lower case, is shown: a word or a sign for the keys
/// that have one, and the name in upper case for the others.
pub open spec fn key_label_text(name: Seq<char>) -> Seq<char> {
    if name == "space"@ {
        "Space"@
    } else if name == "enter"@ || name == "return"@ {
        "↩"@
    } else if name == "tab"@ {
        "⇥"@
    } else if name == "escape"@ || name == "esc"@ {
        "⎋"@
    } else if name == "backspace"@ {
        "⌫"@
    } else if name == "delete"@ {
        "⌦"@
    } else if name == "arrowup"@ || name == "up"@ {
        "↑"@
    } else if name == "arrowdown"@ || name == "down"@ {
        "↓"@
    } else if name == "arrowleft"@ || name == "left"@ {
        "←"@
    } else if name == "arrowright"@ || name == "right"@ {
        "→"@
    } else {
        uppercase_of(name)
    }
}

/// Shows a key whose name is already in lower case.
pub fn key_label(lowered: &str) -> (r: String)
    ensures
        r@ == key_label_text(lowered@),
{
    if str_eq(lowered, "space") {
        "Space".to_owned()
    } else if str_eq(lowered, "enter") || str_eq(lowered, "return") {
        "↩".to_owned()
    } else if str_eq(lowered, "tab") {
        "⇥".to_owned()
    } else if str_eq(lowered, "escape") || str_eq(lowered, "esc") {
        "⎋".to_owned()
    } else if str_eq(lowered, "backspace") {
        "⌫".to_owned()
    } else if str_eq(lowered, "delete") {
        "⌦".to_owned()
    } else if str_eq(lowered, "arrowup") || str_eq(lowered, "up") {
        "↑".to_owned()
    } else if str_eq(lowered, "arrowdown") || str_eq(lowered, "down") {
        "↓".to_owned()
    } else if str_eq(lowered, "arrowleft") || str_eq(lowered, "left") {
        "←".to_owned()
    } else if str_eq(lowered, "arrowright") || str_eq(lowered, "right") {
        "→".to_owned()
    } else {
        to_uppercase(lowered)
    }
}

/// How a shortcut is shown: the signs of its modifiers, then its key.
pub open spec fn shortcut_display(modifiers: Seq<String>, key: Seq<char>) -> Seq<char> {
    symbols_of(modifiers) + key_label_text(lowercase_of(key))
}

/// Shows a shortcut the way the menu bar does.
pub fn format_shortcut_display(config: &ShortcutConfig) -> (display: String)
    ensures
        display@ == shortcut_display(config.modifiers@, config.key@),
{
    let mut display = String::new();
    let mut i: usize = 0;
    while i < config.modifiers.len()
        invariant
            i <= config.modifiers.len(),
            display@ == symbols_of(config.modifiers@.subrange(0, i as int)),
        decreases config.modifiers.len() - i,
    {
        let lowered = to_lowercase(config.modifiers[i].as_str());
        proof {
            let upto = config.modifiers@.subrange(0, i + 1);
            assert(upto.drop_last() =~= config.modifiers@.subrange(0, i as int));
        }
        if let Some(m) = modifier_named(lowered.as_str()) {
            display.append(modifier_symbol(m));
        }
        i = i + 1;
    }
    assert(config.modifiers@.subrange(0, i as int) =~= config.modifiers@);
    let lowered_key = to_lowercase(config.key.as_str());
    let label = key_label(lowered_key.as_str());
    display.append(label.as_str());
    display
}

/// The name a provider goes by in settings and in the credential store.
pub open spec fn provider_id_text(provider: TranscriptionProvider) -> Seq<char> {
    match provider {
        TranscriptionProvider::OpenAI => "openai"@,
        TranscriptionProvider::Groq => "groq"@,
    }
}

/// The name a provider goes by in settings and in the credential store.
pub fn provider_id(provider: &TranscriptionProvider) -> (r: &'static str)
    ensures
        r@ == provider_id_text(*provider),
{
    match provider {
        TranscriptionProvider::OpenAI => "openai",
        TranscriptionProvider::Groq => "groq",
    }
}

/// The provider that a name, already in lower case, stands for.
pub open spec fn provider_for(name: Seq<char>) -> Option<TranscriptionProvider> {
    if name == "openai"@ {
        Some(TranscriptionProvider::OpenAI)
    } else if name == "groq"@ {
        Some(TranscriptionProvider::Groq)
    } else {
        None
    }
}

/// Reads a provider name that is already in lower case.
pub fn provider_named(lowered: &str) -> (r: Option<TranscriptionProvider>)
    ensures
        r == provider_for(lowered@),
{
    if str_eq(lowered, "openai") {
        Some(TranscriptionProvider::OpenAI)
    } else if str_eq(lowered, "groq") {
        Some(TranscriptionProvider::Groq)
    } else {
        None
    }
}

/// The key saved for a provider in the credential store, if there is one.
pub fn get_api_key_for_provider(provider: &TranscriptionProvider) -> (r: Option<String>) {
    get_api_key(provider_id(provider))
}

/// The model a provider is asked for.
pub fn get_model_for_provider(provider: &TranscriptionProvider) -> (r: &'static str)
    ensures
        *provider == TranscriptionProvider::OpenAI ==> r@ == "whisper-1"@,
        *provider == TranscriptionProvider::Groq ==> r@ == "whisper-large-v3-turbo"@,
{
    match provider {
        TranscriptionProvider::OpenAI => "whisper-1",
        TranscriptionProvider::Groq => "whisper-large-v3-turbo",
    }
}

/// The address a provider takes recordings at.
pub fn get_endpoint_for_provider(provider: &TranscriptionProvider) -> (r: &'static str)
    ensures
        *provider == TranscriptionProvider::OpenAI ==> r@
            == "https://api.openai.com/v1/audio/transcriptions"@,
        *provider == TranscriptionProvider::Groq ==> r@
            == "https://api.groq.com/openai/v1/audio/transcriptions"@,
{
    match provider {
        TranscriptionProvider::OpenAI => "https://api.openai.com/v1/audio/transcriptions",
        TranscriptionProvider::Groq => "https://api.groq.com/openai/v1/audio/transcriptions",
    }
}

} // verus!
