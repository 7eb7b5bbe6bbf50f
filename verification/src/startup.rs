//! The settings at start-up and when the user saves them, and where the model
//! file is looked for.

use vstd::prelude::*;

use crate::settings::{
    defaults, load, sanitized, ApiProvider, Settings, SettingsModel, StoredSettings,
};

verus! {

/// How many directories above the program are looked into for the model.
pub const MODEL_SEARCH_DEPTH: usize = 4;

/// What is left to do after the settings were read.
#[derive(Debug, Clone, Copy, PartialEq, Eq, Structural)]
pub struct Bootstrap {
    /// The settings are to be written to the store.
    pub save: bool,
    /// The local model is to be loaded.
    pub load_model: bool,
}

/// The settings that a start-up comes to.
pub open spec fn settings_at_start(read: Result<StoredSettings, String>) -> SettingsModel {
    match read {
        Ok(stored) => stored.settings(),
        Err(_) => defaults(),
    }
}

/// Takes the settings from the store; where it cannot be read, the defaults
/// serve. The local model is needed only where it transcribes.
pub fn bootstrap(shared: &mut Settings, read: Result<StoredSettings, String>) -> (r: Bootstrap)
    ensures
        final(shared)@ == settings_at_start(read),
        r.save == (read matches Ok(stored) && stored is Absent),
        r.load_model == (final(shared)@.api_provider == ApiProvider::Offline),
{
    let save = match read {
        Ok(stored) => {
            let loaded = load(stored);
            *shared = loaded.settings;
            loaded.save
        },
        Err(_) => {
            *shared = Settings::default();
            false
        },
    };
    Bootstrap { save, load_model: shared.api_provider == ApiProvider::Offline }
}

/// Settings from the user, mended; they are to be written to the store.
#[derive(Debug)]
pub struct PendingSave {
    settings: Settings,
}

impl View for PendingSave {
    type V = SettingsModel;

    closed spec fn view(&self) -> SettingsModel {
        self.settings@
    }
}

/// Begins to save settings from the user: what is invalid in them is mended.
pub fn cmd_save_settings(settings: Settings) -> (r: PendingSave)
    ensures
        r@ == sanitized(settings@),
{
    let mut settings = settings;
    settings.sanitize();
    PendingSave { settings }
}

impl PendingSave {
    /// What is to be written.
    pub fn settings(&self) -> (r: &Settings)
        ensures
            r@ == self@,
    {
        &self.settings
    }

    /// Takes the settings over once they are written. Where they could not be,
    /// the old ones stay. The answer is whether the local model is to be
    /// loaded again.
    pub fn saved(self, shared: &mut Settings, written: Result<(), String>) -> (r: Result<
        bool,
        String,
    >)
        ensures
            match (written, r) {
                (Ok(_), Ok(load_model)) => {
                    &&& final(shared)@ == self@
                    &&& load_model == (self@.api_provider == ApiProvider::Offline)
                },
                (Err(e), Err(msg)) => msg@ == e@ && final(shared)@ == old(shared)@,
                _ => false,
            },
    {
        match written {
            Ok(_) => {
                let load_model = self.settings.api_provider == ApiProvider::Offline;
                *shared = self.settings;
                Ok(load_model)
            },
            Err(e) => Err(e),
        }
    }
}

/// Whether the local model is loaded: where that is asked for and its file is
/// there.
pub fn loads_model(load_model: bool, exists: bool) -> (r: bool)
    ensures
        r == (load_model && exists),
{
    load_model && exists
}

/// Where the model file is.
#[derive(Debug, Clone, Copy, PartialEq, Eq, Structural)]
pub enum ModelLocation {
    /// At the stored path itself.
    Stored,
    /// At the stored path below the application's local data.
    LocalData,
    /// At the stored path below a directory above the program, the nearest
    /// counted as zero.
    Ancestor(usize),
}

/// Where the model file is. A stored path that is absolute is taken as it is.
/// Otherwise the file is looked for below the application's local data, then
/// below the directories above the program; where it is nowhere, the stored
/// path is left to the working directory.
pub fn resolve_model_path(absolute: bool, in_local_data: bool, in_ancestors: &[bool]) -> (r:
    ModelLocation)
    ensures
        match r {
            ModelLocation::LocalData => !absolute && in_local_data,
            ModelLocation::Ancestor(i) => {
                &&& !absolute && !in_local_data
                &&& i < in_ancestors@.len() && i < MODEL_SEARCH_DEPTH
                &&& in_ancestors@[i as int]
                &&& forall|k: int| 0 <= k < i ==> !#[trigger] in_ancestors@[k]
            },
            ModelLocation::Stored => absolute || {
                &&& !in_local_data
                &&& forall|k: int|
                    0 <= k < in_ancestors@.len() && k < MODEL_SEARCH_DEPTH
                        ==> !#[trigger] in_ancestors@[k]
            },
        },
{
    if absolute {
        return ModelLocation::Stored;
    }
    if in_local_data {
        return ModelLocation::LocalData;
    }
    let mut i: usize = 0;
    while i < in_ancestors.len() && i < MODEL_SEARCH_DEPTH
        invariant
            i <= in_ancestors@.len(),
            !absolute && !in_local_data,
            forall|k: int| 0 <= k < i ==> !#[trigger] in_ancestors@[k],
        decreases in_ancestors@.len() - i,
    {
        if in_ancestors[i] {
            return ModelLocation::Ancestor(i);
        }
        i = i + 1;
    }
    ModelLocation::Stored
}

/// A first start runs with the defaults, and writes them so that the next
/// start finds what this one ran with.
pub proof fn law_first_start_is_repeated(written: Settings)
    requires
        written@ == settings_at_start(Ok(StoredSettings::Absent)),
    ensures
        written@ == defaults(),
        settings_at_start(Ok(StoredSettings::Found(written))) == written@,
{
    crate::settings::law_defaults_are_sane();
}

/// Settings survive a restart: what the user saved is mended and written, and
/// the start that reads it back runs with exactly that.
pub proof fn law_settings_survive_a_restart(user: SettingsModel, read: Settings)
    requires
        read@ == sanitized(user),
    ensures
        settings_at_start(Ok(StoredSettings::Found(read))) == sanitized(user),
{
    crate::settings::law_sanitize_is_idempotent(user);
}

/// A start never sends sound to the cloud unless that was stored: it runs with
/// the cloud service only where the store holds it, together with a key that it
/// keeps. Where the store cannot be read, it runs with the defaults.
pub proof fn law_a_start_keeps_the_provider(stored: Settings, why: String)
    ensures
        stored@.api_provider == ApiProvider::Offline ==> settings_at_start(
            Ok(StoredSettings::Found(stored)),
        ).api_provider == ApiProvider::Offline,
        settings_at_start(Ok(StoredSettings::Found(stored))).api_key == stored@.api_key,
        settings_at_start(Ok(StoredSettings::Found(stored))).language == stored@.language,
        settings_at_start(Ok(StoredSettings::Found(stored))).input_device == stored@.input_device,
        settings_at_start(Ok(StoredSettings::Absent)).api_provider == ApiProvider::Offline,
        settings_at_start(Ok(StoredSettings::Unreadable)).api_provider == ApiProvider::Offline,
        settings_at_start(Err(why)) == defaults(),
{
}

/// The model is looked for beside the program and three directories up.
pub proof fn law_model_search_is_short()
    ensures
        MODEL_SEARCH_DEPTH == 4,
{
}

/// A start runs with the stored settings, mended and otherwise untouched.
pub proof fn law_a_start_mends_what_is_stored(stored: Settings)
    ensures
        settings_at_start(Ok(StoredSettings::Found(stored))) == sanitized(stored@),
        StoredSettings::Found(stored).settings() == sanitized(stored@),
{
}

} // verus!
