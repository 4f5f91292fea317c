use vstd::prelude::*;
use crate::text::same_text;

verus! {

/// A configuration value, as a YAML document holds it.
#[derive(Debug)]
pub enum ConfigValue {
    /// A floating-point number, kept as its text.
    Real(String),
    Integer(i64),
    String(String),
    Boolean(bool),
    Array(Vec<ConfigValue>),
    /// Key-value pairs in document order.
    Hash(Vec<(ConfigValue, ConfigValue)>),
    Alias(usize),
    Null,
    /// What a lookup of an absent key gives.
    BadValue,
}

/// Whether `k` is the text key `key`.
pub open spec fn key_is(k: ConfigValue, key: Seq<char>) -> bool {
    match k {
        ConfigValue::String(s) => s@ == key,
        _ => false,
    }
}

/// Whether the `i`-th pair is the first one whose key is `key`.
pub open spec fn first_match(entries: Seq<(ConfigValue, ConfigValue)>, key: Seq<char>, i: int) -> bool {
    &&& 0 <= i < entries.len()
    &&& key_is(entries[i].0, key)
    &&& forall|j: int| 0 <= j < i ==> !key_is(#[trigger] entries[j].0, key)
}

impl ConfigValue {
    /// The value under the text key `key` of a hash (the first such pair);
    /// nothing for a missing key or a value that is not a hash.
    pub open spec fn lookup(self, key: Seq<char>) -> Option<ConfigValue> {
        match self {
            ConfigValue::Hash(entries) => if exists|i: int| first_match(entries@, key, i) {
                Some(entries@[choose|i: int| first_match(entries@, key, i)].1)
            } else {
                None
            },
            _ => None,
        }
    }

    /// The text under `key`, if the value there is text.
    pub open spec fn text_at(self, key: Seq<char>) -> Option<Seq<char>> {
        match self.lookup(key) {
            Some(ConfigValue::String(s)) => Some(s@),
            _ => None,
        }
    }

    /// The flag under `key`, if the value there is a boolean.
    pub open spec fn flag_at(self, key: Seq<char>) -> Option<bool> {
        match self.lookup(key) {
            Some(ConfigValue::Boolean(b)) => Some(b),
            _ => None,
        }
    }

    /// The list under `key`, if the value there is an array.
    pub open spec fn list_at(self, key: Seq<char>) -> Option<Seq<ConfigValue>> {
        match self.lookup(key) {
            Some(ConfigValue::Array(a)) => Some(a@),
            _ => None,
        }
    }

    /// The value under the text key `key`, if this is a hash that has one.
    pub fn get(&self, key: &str) -> (r: Option<&ConfigValue>)
        ensures
            match r {
                Some(v) => self.lookup(key@) == Some(*v),
                None => self.lookup(key@) is None,
            },
    {
        match self {
            ConfigValue::Hash(entries) => {
                let mut i: usize = 0;
                while i < entries.len()
                    invariant
                        *self == ConfigValue::Hash(*entries),
                        i <= entries.len(),
                        forall|j: int| 0 <= j < i ==> !key_is(#[trigger] entries@[j].0, key@),
                    decreases entries.len() - i,
                {
                    let found = match &entries[i].0 {
                        ConfigValue::String(s) => same_text(s.as_str(), key),
                        _ => false,
                    };
                    if found {
                        proof {
                            assert(first_match(entries@, key@, i as int));
                            let c: int = choose|c: int| first_match(entries@, key@, c);
                            if c < i {
                                assert(!key_is(entries@[c].0, key@));
                            }
                            if i < c {
                                assert(!key_is(entries@[i as int].0, key@));
                            }
                        }
                        return Some(&entries[i].1);
                    }
                    i = i + 1;
                }
                None
            },
            _ => None,
        }
    }

    /// The text of this value, if it is text.
    pub fn as_str(&self) -> (r: Option<&String>)
        ensures
            match self {
                ConfigValue::String(s) => r == Some(s),
                _ => r is None,
            },
    {
        match self {
            ConfigValue::String(s) => Some(s),
            _ => None,
        }
    }

    /// The pairs of this value, if it is a hash.
    pub fn as_hash(&self) -> (r: Option<&Vec<(ConfigValue, ConfigValue)>>)
        ensures
            match self {
                ConfigValue::Hash(h) => r == Some(h),
                _ => r is None,
            },
    {
        match self {
            ConfigValue::Hash(h) => Some(h),
            _ => None,
        }
    }

    /// A copy of the text under `key`, if the value there is text.
    pub fn str_at(&self, key: &str) -> (r: Option<String>)
        ensures
            match r {
                Some(s) => self.text_at(key@) == Some(s@),
                None => self.text_at(key@) is None,
            },
    {
        match self.get(key) {
            Some(ConfigValue::String(s)) => Some(s.clone()),
            _ => None,
        }
    }

    /// The flag under `key`, if the value there is a boolean.
    pub fn bool_at(&self, key: &str) -> (r: Option<bool>)
        ensures
            r == self.flag_at(key@),
    {
        match self.get(key) {
            Some(ConfigValue::Boolean(b)) => Some(*b),
            _ => None,
        }
    }

    /// The list under `key`, if the value there is an array.
    pub fn vec_at(&self, key: &str) -> (r: Option<&Vec<ConfigValue>>)
        ensures
            match r {
                Some(a) => self.list_at(key@) == Some(a@),
                None => self.list_at(key@) is None,
            },
    {
        match self.get(key) {
            Some(ConfigValue::Array(a)) => Some(a),
            _ => None,
        }
    }
}

/// The text under `key`, or `default` when there is none.
pub open spec fn text_or(v: ConfigValue, key: Seq<char>, default: Seq<char>) -> Seq<char> {
    match v.text_at(key) {
        Some(s) => s,
        None => default,
    }
}

/// A copy of the text under `key` of `v`, or of `default` when there is none.
pub fn str_or(v: &ConfigValue, key: &str, default: &str) -> (r: String)
    ensures
        r@ == text_or(*v, key@, default@),
{
    match v.str_at(key) {
        Some(s) => s,
        None => String::from_str(default),
    }
}

#[verifier::external_type_specification]
#[verifier::external_body]
pub struct ExYaml(yaml_rust::Yaml);

/// Converts a `yaml_rust::Yaml` node into a `ConfigValue`, variant for
/// variant and in the hash's own order.
#[verifier::external_body]
fn config_from_yaml(y: &yaml_rust::Yaml) -> ConfigValue {
    match y {
        yaml_rust::Yaml::Real(s) => ConfigValue::Real(s.clone()),
        yaml_rust::Yaml::Integer(i) => ConfigValue::Integer(*i),
        yaml_rust::Yaml::String(s) => ConfigValue::String(s.clone()),
        yaml_rust::Yaml::Boolean(b) => ConfigValue::Boolean(*b),
        yaml_rust::Yaml::Array(a) => ConfigValue::Array(a.iter().map(config_from_yaml).collect()),
        yaml_rust::Yaml::Hash(h) => ConfigValue::Hash(
            h.iter().map(|(k, v)| (config_from_yaml(k), config_from_yaml(v))).collect(),
        ),
        yaml_rust::Yaml::Alias(n) => ConfigValue::Alias(*n),
        yaml_rust::Yaml::Null => ConfigValue::Null,
        yaml_rust::Yaml::BadValue => ConfigValue::BadValue,
    }
}

/// What `yaml_rust::YamlLoader::load_from_str` gives for a text: its
/// documents, or the text of the scan error.
pub uninterp spec fn yaml_documents(text: Seq<char>) -> Result<Seq<ConfigValue>, Seq<char>>;

/// Parses YAML text with `yaml_rust::YamlLoader::load_from_str`; the
/// result is named `yaml_documents` of the text (the YAML grammar is
/// yaml_rust's and is not restated here), the error by its `to_string`.
#[verifier::external_body]
pub(crate) fn load_yaml(text: &str) -> (r: Result<Vec<ConfigValue>, String>)
    ensures
        match r {
            Ok(docs) => yaml_documents(text@) == Ok::<Seq<ConfigValue>, Seq<char>>(docs@),
            Err(e) => yaml_documents(text@) == Err::<Seq<ConfigValue>, Seq<char>>(e@),
        },
{
    match yaml_rust::YamlLoader::load_from_str(text) {
        Ok(docs) => Ok(docs.iter().map(config_from_yaml).collect()),
        Err(e) => Err(e.to_string()),
    }
}

} // verus!
