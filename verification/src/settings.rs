//! The settings of the application: their defaults, what is mended in them,
//! and what is read back from the store.

use vstd::prelude::*;

use crate::text::{blank, is_blank, is_white_space};

verus! {

/// How the global shortcut works.
#[derive(Debug, Clone, Copy, PartialEq, Eq, Structural)]
pub enum HotkeyMode {
    /// Recording lasts as long as the keys are held.
    PushToTalk,
    /// One stroke starts, the next one stops.
    Toggle,
}

/// How text reaches the focused window.
#[derive(Debug, Clone, Copy, PartialEq, Eq, Structural)]
pub enum InjectionMode {
    /// Short text is typed, long text is pasted.
    Auto,
    /// Text is always typed.
    Typing,
    /// Text is always pasted.
    Paste,
}

/// Who turns speech into text.
#[derive(Debug, Clone, Copy, PartialEq, Eq, Structural)]
pub enum ApiProvider {
    /// The local model.
    Offline,
    /// The Groq cloud service; it needs an API key.
    Groq,
}

impl Default for ApiProvider {
    fn default() -> (r: Self)
        ensures
            r == ApiProvider::Offline,
    {
        ApiProvider::Offline
    }
}

/// The settings.
#[derive(Debug, Clone)]
pub struct Settings {
    /// The name of the microphone; `None` is the system's default.
    pub input_device: Option<String>,
    /// Where the model file is, relative to the application's data.
    pub model_path: String,
    /// The language of the speech: `"tr"`, `"en"`, or `"auto"`.
    pub language: String,
    /// The global shortcut, such as `"Ctrl+Shift+Space"`.
    pub hotkey: String,
    /// How the shortcut works.
    pub hotkey_mode: HotkeyMode,
    /// How text reaches the focused window.
    pub injection_mode: InjectionMode,
    /// Whether recording stops by itself when the speech ends.
    pub vad_enabled: bool,
    /// The silence after which it does, in milliseconds.
    pub vad_silence_ms: u32,
    /// How readily the detector takes sound for noise, from 1 to 3.
    pub vad_aggressiveness: u8,
    /// Who turns speech into text.
    pub api_provider: ApiProvider,
    /// The key for the cloud service.
    pub api_key: Option<String>,
}

/// The mathematical counterpart of [`Settings`].
pub ghost struct SettingsModel {
    pub input_device: Option<Seq<char>>,
    pub model_path: Seq<char>,
    pub language: Seq<char>,
    pub hotkey: Seq<char>,
    pub hotkey_mode: HotkeyMode,
    pub injection_mode: InjectionMode,
    pub vad_enabled: bool,
    pub vad_silence_ms: u32,
    pub vad_aggressiveness: u8,
    pub api_provider: ApiProvider,
    pub api_key: Option<Seq<char>>,
}

/// The text of an optional string.
pub open spec fn text_of(s: Option<String>) -> Option<Seq<char>> {
    match s {
        Some(t) => Some(t@),
        None => None,
    }
}

impl View for Settings {
    type V = SettingsModel;

    open spec fn view(&self) -> SettingsModel {
        SettingsModel {
            input_device: text_of(self.input_device),
            model_path: self.model_path@,
            language: self.language@,
            hotkey: self.hotkey@,
            hotkey_mode: self.hotkey_mode,
            injection_mode: self.injection_mode,
            vad_enabled: self.vad_enabled,
            vad_silence_ms: self.vad_silence_ms,
            vad_aggressiveness: self.vad_aggressiveness,
            api_provider: self.api_provider,
            api_key: text_of(self.api_key),
        }
    }
}

/// What the audio side needs to know of the settings.
#[derive(Debug, Clone, Copy, PartialEq, Eq, Structural)]
pub struct VadCfg {
    pub enabled: bool,
    pub silence_ms: u32,
    pub aggressiveness: u8,
}

/// There is a key that is more than white space.
pub open spec fn has_key(api_key: Option<Seq<char>>) -> bool {
    api_key matches Some(key) && !blank(key)
}

/// The settings with their critical fields mended: a blank shortcut becomes
/// the default one, and without a key the cloud service is switched off.
pub open spec fn sanitized(s: SettingsModel) -> SettingsModel {
    SettingsModel {
        hotkey: if blank(s.hotkey) {
            "Ctrl+Shift+Space"@
        } else {
            s.hotkey
        },
        api_provider: if has_key(s.api_key) {
            s.api_provider
        } else {
            ApiProvider::Offline
        },
        ..s
    }
}

/// The settings of a first start.
pub open spec fn defaults() -> SettingsModel {
    SettingsModel {
        input_device: None,
        model_path: "models/ggml-small.bin"@,
        language: "auto"@,
        hotkey: "Ctrl+Shift+Space"@,
        hotkey_mode: HotkeyMode::PushToTalk,
        injection_mode: InjectionMode::Auto,
        vad_enabled: true,
        vad_silence_ms: 1200,
        vad_aggressiveness: 2,
        api_provider: ApiProvider::Offline,
        api_key: None,
    }
}

pub fn default_model_path() -> (r: String)
    ensures
        r@ == "models/ggml-small.bin"@,
{
    "models/ggml-small.bin".to_owned()
}

pub fn default_language() -> (r: String)
    ensures
        r@ == "auto"@,
{
    "auto".to_owned()
}

pub fn default_hotkey() -> (r: String)
    ensures
        r@ == "Ctrl+Shift+Space"@,
{
    "Ctrl+Shift+Space".to_owned()
}

pub fn default_hotkey_mode() -> (r: HotkeyMode)
    ensures
        r == HotkeyMode::PushToTalk,
{
    HotkeyMode::PushToTalk
}

pub fn default_injection_mode() -> (r: InjectionMode)
    ensures
        r == InjectionMode::Auto,
{
    InjectionMode::Auto
}

pub fn default_vad_enabled() -> (r: bool)
    ensures
        r,
{
    true
}

pub fn default_vad_silence_ms() -> (r: u32)
    ensures
        r == 1200,
{
    1200
}

pub fn default_vad_aggressiveness() -> (r: u8)
    ensures
        r == 2,
{
    2
}

pub fn default_api_provider() -> (r: ApiProvider)
    ensures
        r == ApiProvider::Offline,
{
    ApiProvider::Offline
}

impl Default for Settings {
    fn default() -> (r: Self)
        ensures
            r@ == defaults(),
    {
        Settings {
            input_device: None,
            model_path: default_model_path(),
            language: default_language(),
            hotkey: default_hotkey(),
            hotkey_mode: default_hotkey_mode(),
            injection_mode: default_injection_mode(),
            vad_enabled: default_vad_enabled(),
            vad_silence_ms: default_vad_silence_ms(),
            vad_aggressiveness: default_vad_aggressiveness(),
            api_provider: default_api_provider(),
            api_key: None,
        }
    }
}

impl Settings {
    /// The part of the settings that the audio side needs.
    pub fn vad_cfg(&self) -> (r: VadCfg)
        ensures
            r == (VadCfg {
                enabled: self.vad_enabled,
                silence_ms: self.vad_silence_ms,
                aggressiveness: self.vad_aggressiveness,
            }),
    {
        VadCfg {
            enabled: self.vad_enabled,
            silence_ms: self.vad_silence_ms,
            aggressiveness: self.vad_aggressiveness,
        }
    }

    /// Whether there is a key that is more than white space.
    pub fn has_api_key(&self) -> (r: bool)
        ensures
            r == has_key(self@.api_key),
    {
        match &self.api_key {
            Some(key) => !is_blank(key.as_str()),
            None => false,
        }
    }

    /// Mends the critical fields.
    pub fn sanitize(&mut self)
        ensures
            final(self)@ == sanitized(old(self)@),
    {
        if is_blank(self.hotkey.as_str()) {
            self.hotkey = default_hotkey();
        }
        if self.api_provider == ApiProvider::Groq {
            if !self.has_api_key() {
                self.api_provider = ApiProvider::Offline;
            }
        }
    }
}

/// What the store holds for the settings.
#[derive(Debug)]
pub enum StoredSettings {
    /// Nothing yet.
    Absent,
    /// Something that is no settings.
    Unreadable,
    /// Settings.
    Found(Settings),
}

impl StoredSettings {
    /// The settings that come of it.
    pub open spec fn settings(self) -> SettingsModel {
        match self {
            StoredSettings::Found(s) => sanitized(s@),
            _ => sanitized(defaults()),
        }
    }
}

/// What the store gave.
#[derive(Debug)]
pub struct LoadedSettings {
    pub settings: Settings,
    /// The store held nothing, so the settings are to be written to it.
    pub save: bool,
}

/// The settings to run with: the stored ones, or the defaults where there
/// are none, with the critical fields mended. Where the store held nothing,
/// the defaults are to be saved.
pub fn load(stored: StoredSettings) -> (r: LoadedSettings)
    ensures
        r.settings@ == stored.settings(),
        r.save == (stored is Absent),
{
    let (mut settings, save) = match stored {
        StoredSettings::Found(s) => (s, false),
        StoredSettings::Unreadable => (Settings::default(), false),
        StoredSettings::Absent => (Settings::default(), true),
    };
    settings.sanitize();
    LoadedSettings { settings, save }
}

/// The default shortcut is not blank.
proof fn lemma_default_hotkey()
    ensures
        !blank("Ctrl+Shift+Space"@),
{
    reveal_strlit("Ctrl+Shift+Space");
    assert("Ctrl+Shift+Space"@[0] == 'C');
}

/// Mended settings have nothing left to mend.
pub proof fn law_sanitize_is_idempotent(s: SettingsModel)
    ensures
        sanitized(sanitized(s)) == sanitized(s),
{
    lemma_default_hotkey();
}

/// The defaults need no mending.
pub proof fn law_defaults_are_sane()
    ensures
        sanitized(defaults()) == defaults(),
{
    lemma_default_hotkey();
}

/// Mended settings have a shortcut, use the cloud service only with a key,
/// and keep everything else.
pub proof fn law_sanitized_is_usable(s: SettingsModel)
    ensures
        !blank(sanitized(s).hotkey),
        sanitized(s).api_provider == ApiProvider::Groq ==> has_key(sanitized(s).api_key),
        sanitized(s) == (SettingsModel {
            hotkey: sanitized(s).hotkey,
            api_provider: sanitized(s).api_provider,
            ..s
        }),
{
    lemma_default_hotkey();
}

/// Mending follows the user's choice: the local model stays chosen, with a key
/// or without, and the cloud service stays chosen where there is a key with a
/// character that is no white space. Only the cloud service without such a key
/// gives way, to the local model.
pub proof fn law_mending_keeps_the_provider(s: SettingsModel)
    ensures
        s.api_provider == ApiProvider::Offline ==> sanitized(s).api_provider
            == ApiProvider::Offline,
        s.api_provider == ApiProvider::Groq ==> (sanitized(s).api_provider == ApiProvider::Groq
            <==> (s.api_key matches Some(key) && exists|i: int|
            0 <= i < key.len() && !is_white_space(#[trigger] key[i]))),
{
}

/// Mending keeps a shortcut that has a character that is no white space, and
/// replaces any other by the default one.
pub proof fn law_mending_keeps_the_shortcut(s: SettingsModel)
    ensures
        (exists|i: int| 0 <= i < s.hotkey.len() && !is_white_space(#[trigger] s.hotkey[i]))
            ==> sanitized(s).hotkey == s.hotkey,
        (forall|i: int| 0 <= i < s.hotkey.len() ==> is_white_space(#[trigger] s.hotkey[i]))
            ==> sanitized(s).hotkey == "Ctrl+Shift+Space"@,
{
}

/// Mending leaves every other field as it is.
pub proof fn law_mending_keeps_the_rest(s: SettingsModel)
    ensures
        sanitized(s).input_device == s.input_device,
        sanitized(s).model_path == s.model_path,
        sanitized(s).language == s.language,
        sanitized(s).hotkey_mode == s.hotkey_mode,
        sanitized(s).injection_mode == s.injection_mode,
        sanitized(s).vad_enabled == s.vad_enabled,
        sanitized(s).vad_silence_ms == s.vad_silence_ms,
        sanitized(s).vad_aggressiveness == s.vad_aggressiveness,
        sanitized(s).api_key == s.api_key,
{
}

/// There is a key exactly where one was entered that has a character that is
/// no white space.
pub proof fn law_a_key_is_more_than_white_space(api_key: Option<Seq<char>>)
    ensures
        api_key is None ==> !has_key(api_key),
        api_key matches Some(key) ==> (has_key(api_key) <==> exists|i: int|
            0 <= i < key.len() && !is_white_space(#[trigger] key[i])),
{
}

/// The settings of a first start record from the default device, stop after
/// more than 1.2 s of silence, and stay on the device.
pub proof fn law_defaults_stay_on_the_device()
    ensures
        defaults().input_device is None,
        defaults().api_provider == ApiProvider::Offline,
        defaults().api_key is None,
        defaults().vad_enabled,
        defaults().vad_silence_ms == 1200,
        defaults().vad_aggressiveness == 2,
        defaults().hotkey_mode == HotkeyMode::PushToTalk,
        defaults().injection_mode == InjectionMode::Auto,
        defaults().language == "auto"@,
        defaults().hotkey == "Ctrl+Shift+Space"@,
        defaults().model_path == "models/ggml-small.bin"@,
{
}

/// Stored settings are run with as they are where nothing in them needs
/// mending; where the store holds none, the defaults are.
pub proof fn law_stored_settings_are_used(stored: Settings)
    requires
        exists|i: int|
            0 <= i < stored@.hotkey.len() && !is_white_space(#[trigger] stored@.hotkey[i]),
        stored@.api_provider == ApiProvider::Offline,
    ensures
        StoredSettings::Found(stored).settings() == stored@,
        StoredSettings::Absent.settings() == defaults(),
        StoredSettings::Unreadable.settings() == defaults(),
{
    law_defaults_are_sane();
}

/// The settings are seen as they are, field by field.
pub proof fn law_settings_are_seen_as_they_are(s: Settings)
    ensures
        s.input_device matches Some(name) ==> s@.input_device == Some(name@),
        s.input_device is None ==> s@.input_device is None,
        s@.model_path == s.model_path@,
        s@.language == s.language@,
        s@.hotkey == s.hotkey@,
        s@.hotkey_mode == s.hotkey_mode,
        s@.injection_mode == s.injection_mode,
        s@.vad_enabled == s.vad_enabled,
        s@.vad_silence_ms == s.vad_silence_ms,
        s@.vad_aggressiveness == s.vad_aggressiveness,
        s@.api_provider == s.api_provider,
        s.api_key matches Some(key) ==> s@.api_key == Some(key@),
        s.api_key is None ==> s@.api_key is None,
{
}

/// An optional text is its text where there is one.
pub proof fn law_an_optional_text_is_its_text(t: String)
    ensures
        text_of(Some(t)) == Some(t@),
        text_of(None) is None,
{
}

} // verus!
