use vstd::prelude::*;
use crate::text::str_eq;

verus! {

/// The user's settings. `location` is the settings file, `settings_path`
/// the directory holding it; `openai_key` is the name of the keychain entry
/// that holds the OpenAI key (the key itself never leaves the keychain).
#[derive(Debug, Clone)]
pub struct UserSettings {
    pub location: String,
    pub settings_path: String,
    pub openai_key: String,
    pub use_gpu: bool,
    pub n_thread: usize,
    pub n_batch: usize,
    pub preferred_active_sessions: usize,
    pub dedup_downloads: bool,
}

/// The settings the frontend may see.
#[derive(Debug, Clone, Copy, PartialEq, Eq)]
pub struct UserSettingsInfo {
    pub use_gpu: bool,
    pub n_thread: usize,
    pub n_batch: usize,
}

/// A setting's new value, as the JSON value the frontend sent: a boolean, a
/// non-negative integer, a string, or anything else.
#[derive(Debug, Clone, PartialEq, Eq)]
pub enum SettingValue {
    Bool(bool),
    UInt(u64),
    Text(String),
    Other,
}

/// What is left to do once a setting is accepted, besides saving the file.
#[derive(Debug, Clone, PartialEq, Eq)]
pub enum SettingEffect {
    /// The settings were changed in place.
    Updated,
    /// The OpenAI key is to be stored in the keychain entry.
    StoreOpenAIKey(String),
}

/// The answer to setting `key`: the error message, if refused.
pub open spec fn setting_refusal(key: Seq<char>, value: SettingValue) -> Option<Seq<char>> {
    if key == "use_gpu"@ {
        if value is Bool { None } else { Some("Invalid value for 'use_gpu'"@) }
    } else if key == "n_thread"@ {
        if value is UInt { None } else { Some("Invalid value for 'n_thread'"@) }
    } else if key == "preferred_active_sessions"@ {
        if value is UInt { None } else { Some("Invalid value for 'preferred_active_sessions'"@) }
    } else if key == "dedup_downloads"@ {
        if value is Bool { None } else { Some("Invalid value for 'dedup_downloads'"@) }
    } else if key == "n_batch"@ {
        if value is UInt { None } else { Some("Invalid value for 'n_batch'"@) }
    } else if key == "openai_key"@ {
        if value is Text { None } else { Some("Invalid value for 'openai_key'"@) }
    } else {
        Some("Unknown setting '"@ + key + "'"@)
    }
}

/// `new` is `old` after an accepted change: the named field takes the value
/// (integers cut to `usize`); every other field stays; the OpenAI key
/// changes nothing here.
pub open spec fn settings_after(old: UserSettings, new: UserSettings, key: Seq<char>, value: SettingValue) -> bool {
    &&& new.location == old.location
    &&& new.settings_path == old.settings_path
    &&& new.openai_key == old.openai_key
    &&& new.use_gpu == (if key == "use_gpu"@ { value->Bool_0 } else { old.use_gpu })
    &&& new.n_thread == (if key == "n_thread"@ { value->UInt_0 as usize } else { old.n_thread })
    &&& new.preferred_active_sessions == (if key == "preferred_active_sessions"@ {
        value->UInt_0 as usize
    } else {
        old.preferred_active_sessions
    })
    &&& new.dedup_downloads == (if key == "dedup_downloads"@ {
        value->Bool_0
    } else {
        old.dedup_downloads
    })
    &&& new.n_batch == (if key == "n_batch"@ { value->UInt_0 as usize } else { old.n_batch })
}

impl UserSettings {
    /// Fresh settings, stored at `location` in the directory
    /// `settings_path`: no GPU, 4 threads, batches of 1, one preferred
    /// active session, no download sharing, the keychain entry `openai`.
    pub fn new(location: String, settings_path: String) -> (s: UserSettings)
        ensures
            s.location == location,
            s.settings_path == settings_path,
            s.openai_key@ == "openai"@,
            !s.use_gpu,
            s.n_thread == 4,
            s.n_batch == 1,
            s.preferred_active_sessions == 1,
            !s.dedup_downloads,
    {
        UserSettings {
            location,
            settings_path,
            openai_key: String::from_str("openai"),
            use_gpu: false,
            n_thread: 4,
            n_batch: 1,
            preferred_active_sessions: 1,
            dedup_downloads: false,
        }
    }

    /// The settings file.
    pub fn get_location(&self) -> (r: String)
        ensures
            r@ == self.location@,
    {
        self.location.clone()
    }

    /// Changes one setting by name. A value of the wrong kind, or an
    /// unknown name, is refused and nothing changes.
    pub fn set_user_setting(&mut self, key: &str, value: SettingValue) -> (r: Result<
        SettingEffect,
        String,
    >)
        ensures
            match r {
                Ok(effect) => setting_refusal(key@, value) is None && settings_after(
                    *old(self),
                    *final(self),
                    key@,
                    value,
                ) && (key@ == "openai_key"@ ==> effect == SettingEffect::StoreOpenAIKey(
                    value->Text_0,
                )) && (key@ != "openai_key"@ ==> effect == SettingEffect::Updated),
                Err(msg) => setting_refusal(key@, value) == Some(msg@) && *final(self) == *old(
                    self,
                ),
            },
    {
        proof {
            reveal_strlit("use_gpu");
            reveal_strlit("n_thread");
            reveal_strlit("preferred_active_sessions");
            reveal_strlit("dedup_downloads");
            reveal_strlit("n_batch");
            reveal_strlit("openai_key");
            assert("use_gpu"@.len() != "n_thread"@.len());
            assert("use_gpu"@.len() != "preferred_active_sessions"@.len());
            assert("use_gpu"@.len() != "dedup_downloads"@.len());
            assert("use_gpu"@[0] != "n_batch"@[0]);
            assert("use_gpu"@.len() != "openai_key"@.len());
            assert("n_thread"@.len() != "preferred_active_sessions"@.len());
            assert("n_thread"@.len() != "dedup_downloads"@.len());
            assert("n_thread"@.len() != "n_batch"@.len());
            assert("n_thread"@.len() != "openai_key"@.len());
            assert("preferred_active_sessions"@.len() != "dedup_downloads"@.len());
            assert("preferred_active_sessions"@.len() != "n_batch"@.len());
            assert("preferred_active_sessions"@.len() != "openai_key"@.len());
            assert("dedup_downloads"@.len() != "n_batch"@.len());
            assert("dedup_downloads"@.len() != "openai_key"@.len());
            assert("n_batch"@.len() != "openai_key"@.len());
        }
        if str_eq(key, "use_gpu") {
            match value {
                SettingValue::Bool(b) => {
                    self.use_gpu = b;
                    Ok(SettingEffect::Updated)
                },
                _ => Err(String::from_str("Invalid value for 'use_gpu'")),
            }
        } else if str_eq(key, "n_thread") {
            match value {
                SettingValue::UInt(n) => {
                    self.n_thread = #[verifier::truncate] (n as usize);
                    Ok(SettingEffect::Updated)
                },
                _ => Err(String::from_str("Invalid value for 'n_thread'")),
            }
        } else if str_eq(key, "preferred_active_sessions") {
            match value {
                SettingValue::UInt(n) => {
                    self.preferred_active_sessions = #[verifier::truncate] (n as usize);
                    Ok(SettingEffect::Updated)
                },
                _ => Err(String::from_str("Invalid value for 'preferred_active_sessions'")),
            }
        } else if str_eq(key, "dedup_downloads") {
            match value {
                SettingValue::Bool(b) => {
                    self.dedup_downloads = b;
                    Ok(SettingEffect::Updated)
                },
                _ => Err(String::from_str("Invalid value for 'dedup_downloads'")),
            }
        } else if str_eq(key, "n_batch") {
            match value {
                SettingValue::UInt(n) => {
                    self.n_batch = #[verifier::truncate] (n as usize);
                    Ok(SettingEffect::Updated)
                },
                _ => Err(String::from_str("Invalid value for 'n_batch'")),
            }
        } else if str_eq(key, "openai_key") {
            match value {
                SettingValue::Text(t) => Ok(SettingEffect::StoreOpenAIKey(t)),
                _ => Err(String::from_str("Invalid value for 'openai_key'")),
            }
        } else {
            let msg = String::from_str("Unknown setting '");
            let msg = msg.concat(key);
            let msg = msg.concat("'");
            Err(msg)
        }
    }
}

/// An accepted change sets the named setting to the value given (an
/// integer cut to `usize`) and leaves every other setting as it was;
/// accepting the OpenAI key changes none of them, the key being stored in
/// the keychain. Only the six named settings are ever accepted.
pub proof fn accepted_setting_changes_only_its_own(
    old: UserSettings,
    new: UserSettings,
    key: Seq<char>,
    value: SettingValue,
)
    requires
        setting_refusal(key, value) is None,
        settings_after(old, new, key, value),
    ensures
        key == "use_gpu"@ || key == "n_thread"@ || key == "n_batch"@ || key
            == "preferred_active_sessions"@ || key == "dedup_downloads"@ || key == "openai_key"@,
        key == "use_gpu"@ ==> new == (UserSettings { use_gpu: value->Bool_0, ..old }),
        key == "n_thread"@ ==> new == (UserSettings { n_thread: value->UInt_0 as usize, ..old }),
        key == "n_batch"@ ==> new == (UserSettings { n_batch: value->UInt_0 as usize, ..old }),
        key == "preferred_active_sessions"@ ==> new == (UserSettings {
            preferred_active_sessions: value->UInt_0 as usize,
            ..old
        }),
        key == "dedup_downloads"@ ==> new == (UserSettings { dedup_downloads: value->Bool_0, ..old }),
        key == "openai_key"@ ==> new == old,
{
    reveal_strlit("use_gpu");
    reveal_strlit("n_thread");
    reveal_strlit("preferred_active_sessions");
    reveal_strlit("dedup_downloads");
    reveal_strlit("n_batch");
    reveal_strlit("openai_key");
    assert("use_gpu"@.len() != "n_thread"@.len());
    assert("use_gpu"@.len() != "preferred_active_sessions"@.len());
    assert("use_gpu"@.len() != "dedup_downloads"@.len());
    assert("use_gpu"@[0] != "n_batch"@[0]);
    assert("use_gpu"@.len() != "openai_key"@.len());
    assert("n_thread"@.len() != "preferred_active_sessions"@.len());
    assert("n_thread"@.len() != "dedup_downloads"@.len());
    assert("n_thread"@.len() != "n_batch"@.len());
    assert("n_thread"@.len() != "openai_key"@.len());
    assert("preferred_active_sessions"@.len() != "dedup_downloads"@.len());
    assert("preferred_active_sessions"@.len() != "n_batch"@.len());
    assert("preferred_active_sessions"@.len() != "openai_key"@.len());
    assert("dedup_downloads"@.len() != "n_batch"@.len());
    assert("dedup_downloads"@.len() != "openai_key"@.len());
    assert("n_batch"@.len() != "openai_key"@.len());
}

impl UserSettingsInfo {
    /// The settings the frontend may see.
    pub fn from(s: &UserSettings) -> (i: UserSettingsInfo)
        ensures
            i.use_gpu == s.use_gpu,
            i.n_thread == s.n_thread,
            i.n_batch == s.n_batch,
    {
        UserSettingsInfo { use_gpu: s.use_gpu, n_thread: s.n_thread, n_batch: s.n_batch }
    }
}

} // verus!
