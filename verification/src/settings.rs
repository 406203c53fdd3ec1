//! The settings that outlive a session: their keys, their defaults, and an
//! image of what the store holds under them.

use vstd::prelude::*;

verus! {

/// The key of a persisted setting.
#[derive(Debug, Clone, Copy, PartialEq, Eq, Hash, Structural)]
pub enum SettingKey {
    /// The first toggle of the settings screen. A boolean.
    Boolean1,
    /// The second toggle of the settings screen. A boolean.
    Boolean2,
    /// The number of save slots in use. An integer.
    SaveSlotCount,
}

/// A setting together with a value of its type, as it is written to the
/// store.
#[derive(Debug, Clone, Copy, PartialEq, Eq, Hash, Structural)]
pub enum PersistedSetting {
    Boolean1(bool),
    Boolean2(bool),
    SaveSlotCount(u32),
}

/// What the store holds under the three keys. `None` stands for a key that
/// is missing, or whose value cannot be read as the key's type.
#[derive(Debug, Clone, Copy, PartialEq, Eq, Hash, Structural)]
pub struct StoredSettings {
    pub boolean1: Option<bool>,
    pub boolean2: Option<bool>,
    pub save_slot_count: Option<u32>,
}

/// The value of a boolean setting that the store lacks.
pub const DEFAULT_BOOLEAN: bool = false;

/// The save slot count where the store lacks it.
pub const DEFAULT_SAVE_SLOT_COUNT: u32 = 0;

impl SettingKey {
    /// The string under which the store keeps the setting.
    pub open spec fn text(self) -> Seq<char> {
        match self {
            SettingKey::Boolean1 => "boolean1"@,
            SettingKey::Boolean2 => "boolean2"@,
            SettingKey::SaveSlotCount => "save_slot_count"@,
        }
    }

    /// The string under which the store keeps the setting.
    pub fn name(&self) -> (name: &'static str)
        ensures
            name@ == self.text(),
    {
        match self {
            SettingKey::Boolean1 => "boolean1",
            SettingKey::Boolean2 => "boolean2",
            SettingKey::SaveSlotCount => "save_slot_count",
        }
    }
}

/// No two settings share a key string.
pub proof fn lemma_key_texts_differ(a: SettingKey, b: SettingKey)
    ensures
        a.text() == b.text() <==> a == b,
{
    reveal_strlit("boolean1");
    reveal_strlit("boolean2");
    reveal_strlit("save_slot_count");
    assert("boolean1"@[7] == '1');
    assert("boolean2"@[7] == '2');
    assert("boolean1"@.len() == 8);
    assert("boolean2"@.len() == 8);
    assert("save_slot_count"@.len() == 15);
}

impl PersistedSetting {
    /// The key that the value is written under.
    pub open spec fn spec_key(&self) -> SettingKey {
        match self {
            PersistedSetting::Boolean1(_) => SettingKey::Boolean1,
            PersistedSetting::Boolean2(_) => SettingKey::Boolean2,
            PersistedSetting::SaveSlotCount(_) => SettingKey::SaveSlotCount,
        }
    }

    /// The key that the value is written under.
    #[verifier::when_used_as_spec(spec_key)]
    pub fn key(&self) -> (key: SettingKey)
        ensures
            key == self.spec_key(),
    {
        match self {
            PersistedSetting::Boolean1(_) => SettingKey::Boolean1,
            PersistedSetting::Boolean2(_) => SettingKey::Boolean2,
            PersistedSetting::SaveSlotCount(_) => SettingKey::SaveSlotCount,
        }
    }
}

impl StoredSettings {
    /// The image of a store that holds none of the settings.
    pub open spec fn vacant() -> StoredSettings {
        StoredSettings { boolean1: None, boolean2: None, save_slot_count: None }
    }

    /// The image after `setting` was written. What the store holds under the
    /// other keys stays.
    pub open spec fn with(self, setting: PersistedSetting) -> StoredSettings {
        match setting {
            PersistedSetting::Boolean1(value) => StoredSettings { boolean1: Some(value), ..self },
            PersistedSetting::Boolean2(value) => StoredSettings { boolean2: Some(value), ..self },
            PersistedSetting::SaveSlotCount(count) => StoredSettings {
                save_slot_count: Some(count),
                ..self
            },
        }
    }

    /// The image of a store that holds none of the settings.
    pub fn empty() -> (stored: StoredSettings)
        ensures
            stored == StoredSettings::vacant(),
    {
        StoredSettings { boolean1: None, boolean2: None, save_slot_count: None }
    }

    /// Records that `setting` was written.
    pub fn record(&mut self, setting: PersistedSetting)
        ensures
            *final(self) == old(self).with(setting),
    {
        match setting {
            PersistedSetting::Boolean1(value) => {
                self.boolean1 = Some(value);
            },
            PersistedSetting::Boolean2(value) => {
                self.boolean2 = Some(value);
            },
            PersistedSetting::SaveSlotCount(count) => {
                self.save_slot_count = Some(count);
            },
        }
    }
}

} // verus!
