//! Loading of named, versioned feature definitions from JSON text.
//!
//! The JSON document itself is parsed by serde_json behind trusted
//! wrappers; assembling the definition from the parsed value — which
//! fields are required, the default for an absent `configVersion`, and
//! which error each malformed document earns — is verified here.

use vstd::prelude::*;

verus! {

/// The version the `configVersion` field takes when a document leaves
/// it out.
pub const DEFAULT_FEATURE_CONFIG_VERSION: u8 = 1;

/// The default for the `configVersion` field.
pub fn default_feature_config_version() -> (r: u8)
    ensures
        r == DEFAULT_FEATURE_CONFIG_VERSION,
{
    DEFAULT_FEATURE_CONFIG_VERSION
}

/// The fields of a feature definition document, named by errors.
#[derive(Copy, Clone, Debug, Eq, PartialEq, Structural)]
pub enum ConfigField {
    ConfigVersion,
    Name,
    Version,
    Expression,
    Metadata,
}

/// The key under which each field stands in the JSON document.
pub open spec fn spec_field_key(f: ConfigField) -> Seq<char> {
    match f {
        ConfigField::ConfigVersion => "configVersion"@,
        ConfigField::Name => "name"@,
        ConfigField::Version => "version"@,
        ConfigField::Expression => "expression"@,
        ConfigField::Metadata => "metadata"@,
    }
}

impl ConfigField {
    /// The document key of the field.
    pub fn key(&self) -> (r: &'static str)
        ensures
            r@ == spec_field_key(*self),
    {
        match self {
            ConfigField::ConfigVersion => "configVersion",
            ConfigField::Name => "name",
            ConfigField::Version => "version",
            ConfigField::Expression => "expression",
            ConfigField::Metadata => "metadata",
        }
    }
}

/// Why a feature definition could not be loaded from a document:
/// the text was not valid JSON at all, a required field was absent, or
/// a field held a value of the wrong shape.  Failure to open the file
/// the text came from is the host's to report and is distinguished by
/// never reaching this parser.
#[derive(Copy, Clone, Debug, Eq, PartialEq, Structural)]
pub enum ConfigError {
    Malformed,
    MissingField(ConfigField),
    InvalidField(ConfigField),
}

/// What `ConfigError::message` renders for each error.
pub open spec fn spec_error_message(e: ConfigError) -> Seq<char> {
    match e {
        ConfigError::Malformed => "malformed feature definition"@,
        ConfigError::MissingField(f) => "missing field `"@ + spec_field_key(f) + "`"@,
        ConfigError::InvalidField(f) => "invalid field `"@ + spec_field_key(f) + "`"@,
    }
}

impl ConfigError {
    /// A diagnostic message naming the offending field.
    pub fn message(&self) -> (r: String)
        ensures
            r@ == spec_error_message(*self),
    {
        match self {
            ConfigError::Malformed => String::from_str("malformed feature definition"),
            ConfigError::MissingField(f) => {
                let mut s = String::from_str("missing field `");
                s.append(f.key());
                s.append("`");
                s
            },
            ConfigError::InvalidField(f) => {
                let mut s = String::from_str("invalid field `");
                s.append(f.key());
                s.append("`");
                s
            },
        }
    }
}

/// One named, versioned feature definition, as loaded from a JSON
/// document.  `expression` is free text: no parser from it to the
/// expression AST exists in this version.  `metadata` holds the
/// document's string-to-string mapping as key/value pairs in the
/// document object's iteration order.
#[derive(Clone, Debug, Eq, PartialEq)]
pub struct FeatureConfig {
    pub config_version: u8,
    pub name: String,
    pub version: u8,
    pub expression: String,
    pub metadata: Vec<(String, String)>,
}

#[verifier::external_type_specification]
#[verifier::external_body]
pub struct ExValue(serde_json::Value);

/// What serde_json's `from_str` yields for a document: the parsed
/// value, or absence when the text is not valid JSON.
pub uninterp spec fn json_parse(s: Seq<char>) -> Option<serde_json::Value>;

/// What `Value::get` yields for an object key: the member under that
/// key, or absence when there is none or the value is no object.
pub uninterp spec fn json_field(v: serde_json::Value, key: Seq<char>) -> Option<
    serde_json::Value,
>;

/// What `Value::as_str` yields: the text of a JSON string, absence for
/// every other kind of value.
pub uninterp spec fn json_str(v: serde_json::Value) -> Option<Seq<char>>;

/// What `Value::as_u64` yields: the number of a JSON unsigned integer,
/// absence for every other kind of value.
pub uninterp spec fn json_u64(v: serde_json::Value) -> Option<u64>;

/// What a JSON object holds: its key/value entries in iteration order,
/// absence when the value is no object.
pub uninterp spec fn json_entries(v: serde_json::Value) -> Option<
    Seq<(Seq<char>, serde_json::Value)>,
>;

/// Relies on serde_json's `from_str` for `Value`: the parse outcome is
/// a function of the text alone.
#[verifier::external_body]
fn parse_json(text: &str) -> (r: Option<serde_json::Value>)
    ensures
        r == json_parse(text@),
{
    serde_json::from_str(text).ok()
}

/// Relies on serde_json's `Value::get` with a string key.
#[verifier::external_body]
fn get_field(v: &serde_json::Value, key: &str) -> (r: Option<serde_json::Value>)
    ensures
        r == json_field(*v, key@),
{
    v.get(key).cloned()
}

/// Relies on serde_json's `Value::as_str`.
#[verifier::external_body]
fn as_string(v: &serde_json::Value) -> (r: Option<String>)
    ensures
        r is Some <==> json_str(*v) is Some,
        r matches Some(s) ==> json_str(*v) == Some(s@),
{
    v.as_str().map(|s| s.to_owned())
}

/// Relies on serde_json's `Value::as_u64`.
#[verifier::external_body]
fn as_u64(v: &serde_json::Value) -> (r: Option<u64>)
    ensures
        r == json_u64(*v),
{
    v.as_u64()
}

/// Relies on serde_json's `Value::as_object` and `Map::len`; the map
/// iterates its keys in strictly increasing order, so the keys of the
/// entries are pairwise distinct.
#[verifier::external_body]
fn object_len(v: &serde_json::Value) -> (r: Option<usize>)
    ensures
        r is Some <==> json_entries(*v) is Some,
        r matches Some(n) ==> json_entries(*v) matches Some(es) && es.len() == n
            && forall|i: int, j: int| 0 <= i < j < es.len() ==> es[i].0 != es[j].0,
{
    v.as_object().map(|m| m.len())
}

/// Relies on serde_json's `Value::as_object` and the object's iteration
/// order, which is a function of the object's contents.
#[verifier::external_body]
fn object_entry(v: &serde_json::Value, i: usize) -> (r: (String, serde_json::Value))
    requires
        json_entries(*v) is Some,
        i < json_entries(*v)->Some_0.len(),
    ensures
        json_entries(*v)->Some_0[i as int] == (r.0@, r.1),
{
    let (k, x) = v.as_object().unwrap().iter().nth(i).unwrap();
    (k.clone(), x.clone())
}

/// The outcome of reading a required string field.
pub open spec fn spec_string_field(v: serde_json::Value, f: ConfigField) -> Result<
    Seq<char>,
    ConfigError,
> {
    match json_field(v, spec_field_key(f)) {
        Option::Some(x) => match json_str(x) {
            Option::Some(s) => Ok(s),
            Option::None => Err(ConfigError::InvalidField(f)),
        },
        Option::None => Err(ConfigError::MissingField(f)),
    }
}

/// The outcome of reading a required small-integer field.
pub open spec fn spec_u8_field(v: serde_json::Value, f: ConfigField) -> Result<u8, ConfigError> {
    match json_field(v, spec_field_key(f)) {
        Option::Some(x) => match json_u64(x) {
            Option::Some(n) => if n <= 255 {
                Ok(n as u8)
            } else {
                Err(ConfigError::InvalidField(f))
            },
            Option::None => Err(ConfigError::InvalidField(f)),
        },
        Option::None => Err(ConfigError::MissingField(f)),
    }
}

/// The outcome of reading the optional `configVersion` field: absent
/// means the default version.
pub open spec fn spec_config_version_field(v: serde_json::Value) -> Result<u8, ConfigError> {
    match json_field(v, spec_field_key(ConfigField::ConfigVersion)) {
        Option::Some(x) => match json_u64(x) {
            Option::Some(n) => if n <= 255 {
                Ok(n as u8)
            } else {
                Err(ConfigError::InvalidField(ConfigField::ConfigVersion))
            },
            Option::None => Err(ConfigError::InvalidField(ConfigField::ConfigVersion)),
        },
        Option::None => Ok(DEFAULT_FEATURE_CONFIG_VERSION),
    }
}

/// The outcome of reading the `metadata` field: the object's entries
/// with every value a string, in iteration order.
pub open spec fn spec_metadata_field(v: serde_json::Value) -> Result<
    Seq<(Seq<char>, Seq<char>)>,
    ConfigError,
> {
    match json_field(v, spec_field_key(ConfigField::Metadata)) {
        Option::None => Err(ConfigError::MissingField(ConfigField::Metadata)),
        Option::Some(m) => match json_entries(m) {
            Option::None => Err(ConfigError::InvalidField(ConfigField::Metadata)),
            Option::Some(es) => if forall|i: int| 0 <= i < es.len() ==> json_str(es[i].1) is Some {
                Ok(Seq::new(es.len(), |i: int| (es[i].0, json_str(es[i].1)->Some_0)))
            } else {
                Err(ConfigError::InvalidField(ConfigField::Metadata))
            },
        },
    }
}

/// How a parsed document relates to the loading outcome: the fields are
/// read in the order `name`, `version`, `expression`, `metadata`,
/// `configVersion`, and the first failing field decides the error.
pub open spec fn spec_config_outcome(
    v: serde_json::Value,
    r: Result<FeatureConfig, ConfigError>,
) -> bool {
    let name = spec_string_field(v, ConfigField::Name);
    let version = spec_u8_field(v, ConfigField::Version);
    let expression = spec_string_field(v, ConfigField::Expression);
    let metadata = spec_metadata_field(v);
    let config_version = spec_config_version_field(v);
    if name is Err {
        r == Err::<FeatureConfig, ConfigError>(name->Err_0)
    } else if version is Err {
        r == Err::<FeatureConfig, ConfigError>(version->Err_0)
    } else if expression is Err {
        r == Err::<FeatureConfig, ConfigError>(expression->Err_0)
    } else if metadata is Err {
        r == Err::<FeatureConfig, ConfigError>(metadata->Err_0)
    } else if config_version is Err {
        r == Err::<FeatureConfig, ConfigError>(config_version->Err_0)
    } else {
        &&& r is Ok
        &&& r->Ok_0.name@ == name->Ok_0
        &&& r->Ok_0.version == version->Ok_0
        &&& r->Ok_0.expression@ == expression->Ok_0
        &&& r->Ok_0.config_version == config_version->Ok_0
        &&& r->Ok_0.metadata@.len() == metadata->Ok_0.len()
        &&& forall|i: int|
            0 <= i < metadata->Ok_0.len() ==> ((#[trigger] r->Ok_0.metadata@[i]).0@,
            r->Ok_0.metadata@[i].1@) == metadata->Ok_0[i]
    }
}

/// Reads a required string field.
fn string_field(v: &serde_json::Value, f: ConfigField) -> (r: Result<String, ConfigError>)
    ensures
        spec_string_field(*v, f) matches Ok(s) ==> r matches Ok(x) && x@ == s,
        spec_string_field(*v, f) matches Err(e) ==> r == Err::<String, ConfigError>(e),
    {
    match get_field(v, f.key()) {
        Option::Some(x) => match as_string(&x) {
            Option::Some(s) => Ok(s),
            Option::None => Err(ConfigError::InvalidField(f)),
        },
        Option::None => Err(ConfigError::MissingField(f)),
    }
}

/// Reads a required small-integer field.
fn u8_field(v: &serde_json::Value, f: ConfigField) -> (r: Result<u8, ConfigError>)
    ensures
        r == spec_u8_field(*v, f),
    {
    match get_field(v, f.key()) {
        Option::Some(x) => match as_u64(&x) {
            Option::Some(n) => if n <= 255 {
                Ok(n as u8)
            } else {
                Err(ConfigError::InvalidField(f))
            },
            Option::None => Err(ConfigError::InvalidField(f)),
        },
        Option::None => Err(ConfigError::MissingField(f)),
    }
}

/// Reads the optional `configVersion` field, defaulting when absent.
fn config_version_field(v: &serde_json::Value) -> (r: Result<u8, ConfigError>)
    ensures
        r == spec_config_version_field(*v),
    {
    match get_field(v, ConfigField::ConfigVersion.key()) {
        Option::Some(x) => match as_u64(&x) {
            Option::Some(n) => if n <= 255 {
                Ok(n as u8)
            } else {
                Err(ConfigError::InvalidField(ConfigField::ConfigVersion))
            },
            Option::None => Err(ConfigError::InvalidField(ConfigField::ConfigVersion)),
        },
        Option::None => Ok(DEFAULT_FEATURE_CONFIG_VERSION),
    }
}

/// Reads the `metadata` object into key/value pairs.
fn metadata_field(v: &serde_json::Value) -> (r: Result<Vec<(String, String)>, ConfigError>)
    ensures
        spec_metadata_field(*v) matches Ok(es) ==> r matches Ok(m) && m@.len() == es.len()
            && (forall|i: int| 0 <= i < es.len() ==> ((#[trigger] m@[i]).0@, m@[i].1@) == es[i])
            && (forall|i: int, j: int|
                0 <= i < j < es.len() ==> (#[trigger] m@[i]).0@ != (#[trigger] m@[j]).0@),
        spec_metadata_field(*v) matches Err(e) ==> r == Err::<Vec<(String, String)>, ConfigError>(
            e,
        ),
    {
    let m = match get_field(v, ConfigField::Metadata.key()) {
        Option::Some(m) => m,
        Option::None => {
            return Err(ConfigError::MissingField(ConfigField::Metadata));
        },
    };
    let n = match object_len(&m) {
        Option::Some(n) => n,
        Option::None => {
            return Err(ConfigError::InvalidField(ConfigField::Metadata));
        },
    };
    let mut out: Vec<(String, String)> = Vec::new();
    let mut i: usize = 0;
    while i < n
        invariant
            json_field(*v, spec_field_key(ConfigField::Metadata)) == Some(m),
            json_entries(m) matches Some(es) && es.len() == n,
            i <= n,
            out@.len() == i,
            forall|j: int|
                0 <= j < i ==> #[trigger] json_str(json_entries(m)->Some_0[j].1) is Some,
            forall|j: int|
                0 <= j < i ==> (#[trigger] out@[j]).0@ == json_entries(m)->Some_0[j].0
                    && out@[j].1@ == json_str(json_entries(m)->Some_0[j].1)->Some_0,
        decreases n - i,
    {
        let kv = object_entry(&m, i);
        match as_string(&kv.1) {
            Option::Some(s) => {
                out.push((kv.0, s));
            },
            Option::None => {
                proof {
                    let es = json_entries(m)->Some_0;
                    assert(json_str(es[i as int].1) is None);
                    assert(!(forall|k: int| 0 <= k < es.len()
                        ==> #[trigger] json_str(es[k].1) is Some));
                }
                return Err(ConfigError::InvalidField(ConfigField::Metadata));
            },
        }
        i = i + 1;
    }
    proof {
        let es = json_entries(m)->Some_0;
        assert forall|a: int, b: int| 0 <= a < b < out@.len() implies (#[trigger] out@[a]).0@ != (
        #[trigger] out@[b]).0@ by {
            assert(out@[a].0@ == es[a].0);
            assert(out@[b].0@ == es[b].0);
        };
    }
    Ok(out)
}

/// Loads one feature definition from the text of a JSON document.
/// Text that is not JSON is malformed; a required field that is absent
/// or of the wrong shape earns the error naming it; an absent
/// `configVersion` defaults.
pub fn parse_feature_config(text: &str) -> (r: Result<FeatureConfig, ConfigError>)
    ensures
        json_parse(text@) is None ==> r == Err::<FeatureConfig, ConfigError>(
            ConfigError::Malformed,
        ),
        json_parse(text@) matches Some(v) ==> spec_config_outcome(v, r),
        r matches Ok(c) ==> forall|i: int, j: int|
            0 <= i < j < c.metadata@.len() ==> (#[trigger] c.metadata@[i]).0@ != (
            #[trigger] c.metadata@[j]).0@,
{
    let v = match parse_json(text) {
        Option::Some(v) => v,
        Option::None => {
            return Err(ConfigError::Malformed);
        },
    };
    let name = match string_field(&v, ConfigField::Name) {
        Ok(s) => s,
        Err(e) => {
            return Err(e);
        },
    };
    let version = match u8_field(&v, ConfigField::Version) {
        Ok(n) => n,
        Err(e) => {
            return Err(e);
        },
    };
    let expression = match string_field(&v, ConfigField::Expression) {
        Ok(s) => s,
        Err(e) => {
            return Err(e);
        },
    };
    let metadata = match metadata_field(&v) {
        Ok(m) => m,
        Err(e) => {
            return Err(e);
        },
    };
    let config_version = match config_version_field(&v) {
        Ok(n) => n,
        Err(e) => {
            return Err(e);
        },
    };
    Ok(FeatureConfig { config_version, name, version, expression, metadata })
}

} // verus!
