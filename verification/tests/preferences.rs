use eightvoice::settings::{
    default_hotkey, default_language, default_model_path, load, ApiProvider, HotkeyMode,
    InjectionMode, Settings, StoredSettings, VadCfg,
};
use eightvoice::startup::{
    bootstrap, cmd_save_settings, loads_model, resolve_model_path, ModelLocation,
};

fn same(a: &Settings, b: &Settings) -> bool {
    format!("{a:?}") == format!("{b:?}")
}

#[test]
fn defaults_are_those_of_a_first_start() {
    let s = Settings::default();
    assert_eq!(s.input_device, None);
    assert_eq!(s.model_path, "models/ggml-small.bin");
    assert_eq!(s.language, "auto");
    assert_eq!(s.hotkey, "Ctrl+Shift+Space");
    assert_eq!(s.hotkey_mode, HotkeyMode::PushToTalk);
    assert_eq!(s.injection_mode, InjectionMode::Auto);
    assert!(s.vad_enabled);
    assert_eq!(s.vad_silence_ms, 1200);
    assert_eq!(s.vad_aggressiveness, 2);
    assert_eq!(s.api_provider, ApiProvider::Offline);
    assert_eq!(ApiProvider::default(), ApiProvider::Offline);
    assert_eq!(s.api_key, None);
    assert_eq!(default_model_path(), s.model_path);
    assert_eq!(default_language(), s.language);
    assert_eq!(default_hotkey(), s.hotkey);
}

#[test]
fn vad_cfg_is_part_of_the_settings() {
    let mut s = Settings::default();
    s.vad_enabled = false;
    s.vad_silence_ms = 7;
    s.vad_aggressiveness = 9;
    assert_eq!(
        s.vad_cfg(),
        VadCfg { enabled: false, silence_ms: 7, aggressiveness: 9 }
    );
}

#[test]
fn sanitize_mends_a_blank_hotkey() {
    for (given, mended) in [
        ("", "Ctrl+Shift+Space"),
        (" \t\u{a0}", "Ctrl+Shift+Space"),
        (" F9 ", " F9 "),
    ] {
        let mut s = Settings::default();
        s.hotkey = given.to_string();
        s.sanitize();
        assert_eq!(s.hotkey, mended);
    }
}

#[test]
fn sanitize_needs_a_key_for_the_cloud() {
    for (key, provider) in [
        (None, ApiProvider::Offline),
        (Some("".to_string()), ApiProvider::Offline),
        (Some(" \n".to_string()), ApiProvider::Offline),
        (Some(" k ".to_string()), ApiProvider::Groq),
    ] {
        let mut s = Settings::default();
        s.api_provider = ApiProvider::Groq;
        s.api_key = key.clone();
        s.sanitize();
        assert_eq!(s.api_provider, provider);
        assert_eq!(s.api_key, key);
        assert_eq!(s.has_api_key(), provider == ApiProvider::Groq);
        let once = s.clone();
        s.sanitize();
        assert!(same(&s, &once));
    }
}

#[test]
fn load_gives_back_what_was_saved() {
    let mut s = Settings::default();
    s.hotkey = "  ".to_string();
    s.api_provider = ApiProvider::Groq;
    s.language = "tr".to_string();
    s.input_device = Some("Mikrofon".to_string());
    s.sanitize();
    let loaded = load(StoredSettings::Found(s.clone()));
    assert!(same(&loaded.settings, &s));
    assert!(!loaded.save);
}

#[test]
fn load_mends_what_it_finds() {
    let mut s = Settings::default();
    s.hotkey = "".to_string();
    let loaded = load(StoredSettings::Found(s));
    assert_eq!(loaded.settings.hotkey, "Ctrl+Shift+Space");
}

#[test]
fn load_without_settings_gives_the_defaults() {
    let absent = load(StoredSettings::Absent);
    assert!(absent.save);
    assert!(same(&absent.settings, &Settings::default()));
    let unreadable = load(StoredSettings::Unreadable);
    assert!(!unreadable.save);
    assert!(same(&unreadable.settings, &Settings::default()));
}

#[test]
fn bootstrap_takes_the_stored_settings() {
    let mut shared = Settings::default();
    let mut stored = Settings::default();
    stored.api_provider = ApiProvider::Groq;
    stored.api_key = Some("k".to_string());
    let b = bootstrap(&mut shared, Ok(StoredSettings::Found(stored.clone())));
    assert!(same(&shared, &stored));
    assert!(!b.save);
    assert!(!b.load_model);
    let b = bootstrap(&mut shared, Err("bozuk".to_string()));
    assert!(same(&shared, &Settings::default()));
    assert!(!b.save);
    assert!(b.load_model);
    let b = bootstrap(&mut shared, Ok(StoredSettings::Absent));
    assert!(b.save);
    let first = shared.clone();
    let b = bootstrap(&mut shared, Ok(StoredSettings::Found(first.clone())));
    assert!(!b.save);
    assert!(same(&shared, &first));
}

#[test]
fn settings_that_cannot_be_saved_are_not_taken() {
    let mut shared = Settings::default();
    let mut new = Settings::default();
    new.language = "en".to_string();
    let r = cmd_save_settings(new.clone()).saved(&mut shared, Err("disk dolu".to_string()));
    assert_eq!(r, Err("disk dolu".to_string()));
    assert_eq!(shared.language, "auto");
    assert_eq!(cmd_save_settings(new).saved(&mut shared, Ok(())), Ok(true));
    assert_eq!(shared.language, "en");
}

#[test]
fn settings_are_mended_before_they_are_saved() {
    let mut shared = Settings::default();
    let mut new = Settings::default();
    new.hotkey = "  ".to_string();
    new.api_provider = ApiProvider::Groq;
    let pending = cmd_save_settings(new.clone());
    assert_eq!(pending.settings().hotkey, "Ctrl+Shift+Space");
    assert_eq!(pending.settings().api_provider, ApiProvider::Offline);
    assert_eq!(pending.saved(&mut shared, Ok(())), Ok(true));
    new.api_key = Some("anahtar".to_string());
    assert_eq!(cmd_save_settings(new).saved(&mut shared, Ok(())), Ok(false));
    assert_eq!(shared.api_provider, ApiProvider::Groq);
    assert_eq!(shared.hotkey, "Ctrl+Shift+Space");
}

#[test]
fn model_is_loaded_where_it_is_wanted_and_there() {
    assert!(loads_model(true, true));
    assert!(!loads_model(true, false));
    assert!(!loads_model(false, true));
    assert!(!loads_model(false, false));
}

#[test]
fn model_path_is_searched_in_order() {
    assert_eq!(resolve_model_path(true, true, &[true]), ModelLocation::Stored);
    assert_eq!(resolve_model_path(false, true, &[true]), ModelLocation::LocalData);
    assert_eq!(
        resolve_model_path(false, false, &[false, true, true]),
        ModelLocation::Ancestor(1)
    );
    assert_eq!(
        resolve_model_path(false, false, &[false, false, false, true]),
        ModelLocation::Ancestor(3)
    );
    assert_eq!(
        resolve_model_path(false, false, &[false, false, false, false, true]),
        ModelLocation::Stored
    );
    assert_eq!(resolve_model_path(false, false, &[]), ModelLocation::Stored);
}
