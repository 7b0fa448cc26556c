use vstd::prelude::*;
use vstd::string::StringExecFns;
use crate::error::BoundaryError;

verus! {

/// One optionally-present property read off the host's dynamic
/// configuration object. The host object has no compile-time shape, so a
/// property can be absent, present but not convertible to the expected
/// numeric or string shape (`Malformed`), or present and well-typed.
pub enum Property<T> {
    Absent,
    Malformed,
    Value(T),
}

/// The dynamic producer-configuration object, reduced to the recognized
/// property names. Unrecognized properties of the host object are ignored
/// and never reach this type.
pub struct ConfigInput {
    /// `batchSize`: batch size in bytes.
    pub batch_size: Property<u32>,
    /// `timeoutMs`: send timeout in milliseconds.
    pub timeout_ms: Property<u64>,
    /// `lingerMs`: linger duration in milliseconds.
    pub linger_ms: Property<u64>,
    /// `maxRequestSize`: maximum request size in bytes.
    pub max_request_size: Property<u32>,
    /// `compression`: name of a compression algorithm.
    pub compression: Property<String>,
}

/// The compression algorithms the native client understands. The token
/// `"none"` maps to no algorithm at all rather than to a variant here.
#[derive(Clone, Copy, Debug, PartialEq, Eq, Structural)]
pub enum CompressionAlg {
    Gzip,
    Snappy,
    Lz4,
}

/// A validated, immutable producer configuration. A `None` field keeps
/// the native builder's own default; only properties explicitly present
/// and well-typed in the input override it.
#[derive(Clone, Copy, Debug, PartialEq, Eq, Structural)]
pub struct ProducerConfig {
    pub batch_size: Option<u32>,
    pub timeout_ms: Option<u64>,
    pub linger_ms: Option<u64>,
    pub max_request_size: Option<u32>,
    pub compression: Option<CompressionAlg>,
}

/// The setting a property contributes: a well-typed value overrides, an
/// absent or malformed property keeps the default.
pub open spec fn property_value<T>(p: Property<T>) -> Option<T> {
    match p {
        Property::Value(v) => Some(v),
        _ => None,
    }
}

/// Whether a compression token is one of the four recognized names
/// (case-sensitive, exact match).
pub open spec fn compression_token_valid(s: Seq<char>) -> bool {
    ||| s == "none"@
    ||| s == "gzip"@
    ||| s == "snappy"@
    ||| s == "lz4"@
}

/// The algorithm a recognized token selects. `"none"` deliberately
/// selects nothing, leaving the builder's default in place.
pub open spec fn compression_of_token(s: Seq<char>) -> Option<CompressionAlg>
    recommends
        compression_token_valid(s),
{
    if s == "none"@ {
        None
    } else if s == "gzip"@ {
        Some(CompressionAlg::Gzip)
    } else if s == "snappy"@ {
        Some(CompressionAlg::Snappy)
    } else {
        Some(CompressionAlg::Lz4)
    }
}

/// The validation error raised for an unrecognized compression token,
/// naming the offending value.
pub open spec fn invalid_compression_msg(s: Seq<char>) -> Seq<char> {
    "Invalid compression type: "@ + s
}

/// What translating a configuration object yields: either the typed
/// configuration, or the message of the one hard validation error — a
/// present, string-shaped, unrecognized compression token. Every other
/// malformed property is tolerated and keeps its default.
pub open spec fn spec_translate(input: ConfigInput) -> Result<ProducerConfig, Seq<char>> {
    match input.compression {
        Property::Value(s) => if compression_token_valid(s@) {
            Ok(ProducerConfig {
                batch_size: property_value(input.batch_size),
                timeout_ms: property_value(input.timeout_ms),
                linger_ms: property_value(input.linger_ms),
                max_request_size: property_value(input.max_request_size),
                compression: compression_of_token(s@),
            })
        } else {
            Err(invalid_compression_msg(s@))
        },
        _ => Ok(ProducerConfig {
            batch_size: property_value(input.batch_size),
            timeout_ms: property_value(input.timeout_ms),
            linger_ms: property_value(input.linger_ms),
            max_request_size: property_value(input.max_request_size),
            compression: None,
        }),
    }
}

impl ConfigInput {
    /// A configuration object with no recognized property present: every
    /// field of the translated configuration keeps its default.
    pub fn empty() -> (r: Self)
        ensures
            r.batch_size is Absent,
            r.timeout_ms is Absent,
            r.linger_ms is Absent,
            r.max_request_size is Absent,
            r.compression is Absent,
    {
        ConfigInput {
            batch_size: Property::Absent,
            timeout_ms: Property::Absent,
            linger_ms: Property::Absent,
            max_request_size: Property::Absent,
            compression: Property::Absent,
        }
    }
}

/// Law: a malformed property is indistinguishable from an absent one —
/// translation depends on each tolerated property only through the
/// setting it contributes, which is `None` for both, so a property of
/// the wrong shape keeps the default instead of raising an error.
pub proof fn lemma_malformed_property_tolerated(a: ConfigInput, b: ConfigInput)
    requires
        property_value(a.batch_size) == property_value(b.batch_size),
        property_value(a.timeout_ms) == property_value(b.timeout_ms),
        property_value(a.linger_ms) == property_value(b.linger_ms),
        property_value(a.max_request_size) == property_value(b.max_request_size),
        a.compression == b.compression,
    ensures
        spec_translate(a) == spec_translate(b),
{
}

/// Law: the token `"none"` selects no algorithm — the translated
/// configuration's compression equals the default left by an absent
/// property, not a distinct "no compression" override.
pub proof fn lemma_compression_none_is_default(input: ConfigInput, token: String)
    requires
        input.compression == Property::Value(token),
        token@ == "none"@,
    ensures
        spec_translate(input) is Ok,
        spec_translate(input)->Ok_0.compression is None,
{
}

/// Law: a present, string-shaped compression property whose value is not
/// one of the four recognized tokens fails translation, and the error
/// message names the offending value.
pub proof fn lemma_unrecognized_compression_rejected(input: ConfigInput, token: String)
    requires
        input.compression == Property::Value(token),
        !compression_token_valid(token@),
    ensures
        spec_translate(input) is Err,
        spec_translate(input)->Err_0 == invalid_compression_msg(token@),
{
}

/// Whether a string equals a recognized token, by character content.
fn token_matches(s: &String, token: &str) -> (r: bool)
    ensures
        r == (s@ == token@),
{
    let t = String::from_str(token);
    s.eq(&t)
}

/// The override a numeric property contributes.
fn numeric_setting<T: Copy>(p: &Property<T>) -> (r: Option<T>)
    ensures
        r == property_value(*p),
{
    match p {
        Property::Value(v) => Some(*v),
        _ => None,
    }
}

/// Translates the dynamic configuration object into a validated producer
/// configuration. The reading is deliberately permissive: a property
/// that is absent or of the wrong shape keeps the library default; only
/// an unrecognized compression token is a hard error, and its message
/// names the offending value.
pub fn translate_config(input: &ConfigInput) -> (r: Result<ProducerConfig, BoundaryError>)
    ensures
        r is Ok <==> spec_translate(*input) is Ok,
        r is Ok ==> r->Ok_0 == spec_translate(*input)->Ok_0,
        r is Err ==> r->Err_0@ == spec_translate(*input)->Err_0,
{
    let compression: Option<CompressionAlg> = match &input.compression {
        Property::Value(s) => {
            if token_matches(s, "none") {
                None
            } else if token_matches(s, "gzip") {
                Some(CompressionAlg::Gzip)
            } else if token_matches(s, "snappy") {
                Some(CompressionAlg::Snappy)
            } else if token_matches(s, "lz4") {
                Some(CompressionAlg::Lz4)
            } else {
                let mut message = String::from_str("Invalid compression type: ");
                message.append(s.as_str());
                return Err(BoundaryError::new(message));
            }
        },
        _ => None,
    };
    Ok(ProducerConfig {
        batch_size: numeric_setting(&input.batch_size),
        timeout_ms: numeric_setting(&input.timeout_ms),
        linger_ms: numeric_setting(&input.linger_ms),
        max_request_size: numeric_setting(&input.max_request_size),
        compression,
    })
}

} // verus!

