//! Per-provider cloud configurations and the keyed tables that hold them.
use vstd::prelude::*;

use crate::text::str_eq;

verus! {

/// Cloud provider configuration for polishing.
#[derive(Debug, Clone)]
pub struct CloudProviderConfig {
    pub enabled: bool,
    pub provider_type: String,
    pub api_key: String,
    pub base_url: String,
    pub model: String,
    pub enable_thinking: bool,
}

/// Cloud provider configuration for speech to text.
#[derive(Debug, Clone)]
pub struct CloudSttConfig {
    pub enabled: bool,
    pub provider_type: String,
    pub api_key: String,
    pub app_id: String,
    pub base_url: String,
    pub model: String,
    pub language: String,
}

/// A polish template defined by the user.
#[derive(Debug, Clone)]
pub struct CustomPolishTemplate {
    pub id: String,
    pub name: String,
    pub system_prompt: String,
}

/// A polish configuration with every field empty or off.
pub open spec fn is_blank_polish_config(c: CloudProviderConfig) -> bool {
    &&& !c.enabled
    &&& c.provider_type@.len() == 0
    &&& c.api_key@.len() == 0
    &&& c.base_url@.len() == 0
    &&& c.model@.len() == 0
    &&& !c.enable_thinking
}

/// A speech-to-text configuration with every field empty or off.
pub open spec fn is_blank_stt_config(c: CloudSttConfig) -> bool {
    &&& !c.enabled
    &&& c.provider_type@.len() == 0
    &&& c.api_key@.len() == 0
    &&& c.app_id@.len() == 0
    &&& c.base_url@.len() == 0
    &&& c.model@.len() == 0
    &&& c.language@.len() == 0
}

impl Default for CloudProviderConfig {
    fn default() -> (c: Self)
        ensures
            is_blank_polish_config(c),
    {
        CloudProviderConfig {
            enabled: false,
            provider_type: String::new(),
            api_key: String::new(),
            base_url: String::new(),
            model: String::new(),
            enable_thinking: false,
        }
    }
}

impl Default for CloudSttConfig {
    fn default() -> (c: Self)
        ensures
            is_blank_stt_config(c),
    {
        CloudSttConfig {
            enabled: false,
            provider_type: String::new(),
            api_key: String::new(),
            app_id: String::new(),
            base_url: String::new(),
            model: String::new(),
            language: String::new(),
        }
    }
}

impl CloudProviderConfig {
    /// A copy of the configuration.
    pub fn duplicate(&self) -> (r: Self)
        ensures
            r == *self,
    {
        CloudProviderConfig {
            enabled: self.enabled,
            provider_type: self.provider_type.clone(),
            api_key: self.api_key.clone(),
            base_url: self.base_url.clone(),
            model: self.model.clone(),
            enable_thinking: self.enable_thinking,
        }
    }

    /// A usable cloud configuration has both an API key and a model.
    pub open spec fn is_usable(self) -> bool {
        self.api_key@.len() > 0 && self.model@.len() > 0
    }
}

impl CloudSttConfig {
    /// A copy of the configuration.
    pub fn duplicate(&self) -> (r: Self)
        ensures
            r == *self,
    {
        CloudSttConfig {
            enabled: self.enabled,
            provider_type: self.provider_type.clone(),
            api_key: self.api_key.clone(),
            app_id: self.app_id.clone(),
            base_url: self.base_url.clone(),
            model: self.model.clone(),
            language: self.language.clone(),
        }
    }
}

impl CustomPolishTemplate {
    /// A copy of the template.
    pub fn duplicate(&self) -> (r: Self)
        ensures
            r == *self,
    {
        CustomPolishTemplate {
            id: self.id.clone(),
            name: self.name.clone(),
            system_prompt: self.system_prompt.clone(),
        }
    }
}

// ---------------------------------------------------------------------------
// Keyed tables: a list of (provider key, configuration) pairs read as a map.
// ---------------------------------------------------------------------------

/// The configuration stored under `key`: the first entry with that key.
pub open spec fn config_lookup<V>(entries: Seq<(String, V)>, key: Seq<char>) -> Option<V>
    decreases entries.len(),
{
    if entries.len() == 0 {
        None
    } else if entries[0].0@ == key {
        Some(entries[0].1)
    } else {
        config_lookup(entries.drop_first(), key)
    }
}

/// No key occurs twice in the table.
pub open spec fn keys_unique<V>(entries: Seq<(String, V)>) -> bool {
    forall|i: int, j: int| 0 <= i < j < entries.len() ==> entries[i].0@ != entries[j].0@
}

/// Whether some entry has the key.
pub open spec fn has_key<V>(entries: Seq<(String, V)>, key: Seq<char>) -> bool {
    exists|i: int| 0 <= i < entries.len() && entries[i].0@ == key
}

/// The lookup finds an entry exactly when one has the key, and it finds the
/// entry at the first such position.
pub proof fn lemma_lookup_first<V>(entries: Seq<(String, V)>, key: Seq<char>, i: int)
    requires
        0 <= i < entries.len(),
        entries[i].0@ == key,
        forall|j: int| 0 <= j < i ==> entries[j].0@ != key,
    ensures
        config_lookup(entries, key) == Some(entries[i].1),
    decreases i,
{
    if i > 0 {
        let rest = entries.drop_first();
        assert forall|j: int| 0 <= j < i - 1 implies rest[j].0@ != key by {
            assert(rest[j] == entries[j + 1]);
        }
        lemma_lookup_first(rest, key, i - 1);
    }
}

/// The lookup finds nothing when no entry has the key.
pub proof fn lemma_lookup_absent<V>(entries: Seq<(String, V)>, key: Seq<char>)
    requires
        forall|j: int| 0 <= j < entries.len() ==> entries[j].0@ != key,
    ensures
        config_lookup(entries, key) is None,
    decreases entries.len(),
{
    if entries.len() > 0 {
        let rest = entries.drop_first();
        assert forall|j: int| 0 <= j < rest.len() implies rest[j].0@ != key by {
            assert(rest[j] == entries[j + 1]);
        }
        lemma_lookup_absent(rest, key);
    }
}

/// A found lookup comes from an entry with that key.
pub proof fn lemma_lookup_some<V>(entries: Seq<(String, V)>, key: Seq<char>)
    requires
        config_lookup(entries, key) is Some,
    ensures
        exists|i: int|
            0 <= i < entries.len() && entries[i].0@ == key && config_lookup(entries, key) == Some(
                #[trigger] entries[i].1,
            ),
    decreases entries.len(),
{
    if entries[0].0@ != key {
        let rest = entries.drop_first();
        lemma_lookup_some(rest, key);
        let i = choose|i: int|
            0 <= i < rest.len() && rest[i].0@ == key && config_lookup(rest, key) == Some(
                #[trigger] rest[i].1,
            );
        assert(entries[i + 1] == rest[i]);
    }
}

/// The position of the first entry with the key.
pub fn find_config<V>(entries: &Vec<(String, V)>, key: &str) -> (r: Option<usize>)
    ensures
        match r {
            Some(i) => {
                &&& i < entries@.len()
                &&& entries@[i as int].0@ == key@
                &&& forall|j: int| 0 <= j < i ==> entries@[j].0@ != key@
                &&& config_lookup(entries@, key@) == Some(entries@[i as int].1)
            },
            None => {
                &&& forall|j: int| 0 <= j < entries@.len() ==> entries@[j].0@ != key@
                &&& config_lookup(entries@, key@) is None
            },
        },
{
    let mut i: usize = 0;
    while i < entries.len()
        invariant
            i <= entries@.len(),
            forall|j: int| 0 <= j < i ==> entries@[j].0@ != key@,
        decreases entries.len() - i,
    {
        if str_eq(entries[i].0.as_str(), key) {
            proof {
                lemma_lookup_first(entries@, key@, i as int);
            }
            return Some(i);
        }
        i = i + 1;
    }
    proof {
        lemma_lookup_absent(entries@, key@);
    }
    None
}

/// Lookups of other keys see through an entry replaced under its own key.
proof fn lemma_lookup_after_set<V>(s: Seq<(String, V)>, i: int, x: (String, V), k: Seq<char>)
    requires
        0 <= i < s.len(),
        x.0@ == s[i].0@,
        k != x.0@,
    ensures
        config_lookup(s.update(i, x), k) == config_lookup(s, k),
    decreases s.len(),
{
    let t = s.update(i, x);
    if i > 0 {
        assert(t.drop_first() == s.drop_first().update(i - 1, x));
        lemma_lookup_after_set(s.drop_first(), i - 1, x, k);
    } else {
        assert(t.drop_first() == s.drop_first());
    }
}

/// Lookups after appending an entry.
proof fn lemma_lookup_after_push<V>(s: Seq<(String, V)>, x: (String, V), k: Seq<char>)
    ensures
        config_lookup(s.push(x), k) == (if config_lookup(s, k) is Some {
            config_lookup(s, k)
        } else if x.0@ == k {
            Some(x.1)
        } else {
            None
        }),
    decreases s.len(),
{
    let t = s.push(x);
    if s.len() > 0 {
        assert(t[0] == s[0]);
        assert(t.drop_first() == s.drop_first().push(x));
        lemma_lookup_after_push(s.drop_first(), x, k);
    } else {
        assert(t[0] == x);
        assert(config_lookup(t.drop_first(), k) is None);
    }
}

/// Stores `value` under `key`, replacing the entry that has the key or
/// appending one.
pub fn set_config<V>(entries: &mut Vec<(String, V)>, key: String, value: V)
    ensures
        config_lookup(final(entries)@, key@) == Some(value),
        forall|k: Seq<char>| k != key@ ==> config_lookup(final(entries)@, k) == config_lookup(old(entries)@, k),
        keys_unique(old(entries)@) ==> keys_unique(final(entries)@),
{
    let ghost key_view = key@;
    let ghost pair = (key, value);
    match find_config(entries, key.as_str()) {
        Some(i) => {
            let ghost before = entries@;
            entries.set(i, (key, value));
            proof {
                assert(entries@ == before.update(i as int, pair));
                assert forall|j: int| 0 <= j < i implies entries@[j].0@ != key_view by {
                    assert(entries@[j] == before[j]);
                }
                lemma_lookup_first(entries@, key_view, i as int);
                assert forall|k: Seq<char>| k != key_view implies config_lookup(entries@, k)
                    == config_lookup(before, k) by {
                    lemma_lookup_after_set(before, i as int, pair, k);
                }
                if keys_unique(before) {
                    assert forall|a: int, b: int| 0 <= a < b < entries@.len() implies entries@[a].0@
                        != entries@[b].0@ by {
                        assert(entries@[a].0@ == before[a].0@);
                        assert(entries@[b].0@ == before[b].0@);
                    }
                }
            }
        },
        None => {
            let ghost before = entries@;
            entries.push((key, value));
            proof {
                assert(entries@ == before.push(pair));
                lemma_lookup_after_push(before, pair, key_view);
                assert forall|k: Seq<char>| k != key_view implies config_lookup(entries@, k)
                    == config_lookup(before, k) by {
                    lemma_lookup_after_push(before, pair, k);
                }
            }
        },
    }
}

} // verus!
