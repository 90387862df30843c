use base64::Engine;
use vstd::prelude::*;
use vstd::string::StringExecFns;
use crate::category::{category_from_key, category_key, EffectCategory};
use crate::effect::EffectError;
use crate::text::{decimal, decimal_string, str_eq};

verus! {

/// What the `STANDARD` engine of the `base64` crate (RFC 4648 alphabet,
/// with padding) decodes `text` to, or `None` where it refuses the text.
pub uninterp spec fn base64_decoded(text: Seq<char>) -> Option<Seq<u8>>;

/// The message (the `Display` text of the crate's `DecodeError`) with which
/// the `STANDARD` engine of the `base64` crate refuses `text`.
pub uninterp spec fn base64_decode_error(text: Seq<char>) -> Seq<char>;

/// What the `STANDARD` engine of the `base64` crate encodes `bytes` to.
pub uninterp spec fn base64_encoded(bytes: Seq<u8>) -> Seq<char>;

/// Calls `base64::engine::general_purpose::STANDARD.decode`. Claims: the
/// result is `Ok` exactly when the crate decodes the text, and then holds
/// the decoded bytes; otherwise it holds the message of the crate's
/// `DecodeError` for that text.
#[verifier::external_body]
fn standard_decode(text: &str) -> (r: Result<Vec<u8>, String>)
    ensures
        r matches Ok(v) ==> base64_decoded(text@) == Some(v@),
        r matches Err(e) ==> base64_decoded(text@) is None && e@ == base64_decode_error(text@),
{
    base64::engine::general_purpose::STANDARD.decode(text).map_err(|e| e.to_string())
}

/// Calls `base64::engine::general_purpose::STANDARD.encode`. Claims: the
/// result is the crate's encoding of the bytes, four characters per
/// started three-byte group, and the same engine decodes it back to the
/// bytes. It panics where that length overflows `usize`, which `requires`
/// rules out.
#[verifier::external_body]
fn standard_encode(bytes: &[u8]) -> (r: String)
    requires
        (bytes@.len() + 2) / 3 * 4 <= usize::MAX,
    ensures
        r@ == base64_encoded(bytes@),
        r@.len() == (bytes@.len() + 2) / 3 * 4,
        base64_decoded(r@) == Some(bytes@),
{
    base64::engine::general_purpose::STANDARD.encode(bytes)
}

/// One call to a plugin's `apply` export: an RGBA8 image (base64 encoded,
/// row-major, four bytes per pixel), the parameters `P` the plugin's
/// manifest declared, and a seed for any randomized choice.
#[derive(Debug, Clone)]
pub struct PluginRequest<P> {
    pub width: u32,
    pub height: u32,
    pub pixels_base64: String,
    pub params: P,
    pub seed: u64,
}

/// A plugin's `apply` result: a same-size pixel buffer, or an error message.
#[derive(Debug, Clone)]
pub struct PluginResponse {
    pub pixels_base64: Option<String>,
    pub error: Option<String>,
}

impl PluginResponse {
    /// A successful response carrying `pixels_base64`.
    pub fn ok(pixels_base64: String) -> (r: Self)
        ensures
            r.pixels_base64 == Some(pixels_base64),
            r.error is None,
    {
        PluginResponse { pixels_base64: Some(pixels_base64), error: None }
    }

    /// A failed response carrying `message`.
    pub fn err(message: &str) -> (r: Self)
        ensures
            r.pixels_base64 is None,
            r.error matches Some(m) && m@ == message@,
    {
        PluginResponse { pixels_base64: None, error: Some(String::from_str(message)) }
    }
}

/// Decodes a request's pixel buffer to raw RGBA8 bytes.
pub fn decode_pixels<P>(request: &PluginRequest<P>) -> (r: Result<Vec<u8>, String>)
    ensures
        r matches Ok(v) ==> base64_decoded(request.pixels_base64@) == Some(v@),
        r matches Err(m) ==> base64_decoded(request.pixels_base64@) is None && m@
            == "invalid pixels_base64: "@ + base64_decode_error(request.pixels_base64@),
{
    match standard_decode(request.pixels_base64.as_str()) {
        Ok(v) => Ok(v),
        Err(e) => {
            let mut m = String::from_str("invalid pixels_base64: ");
            m.append(e.as_str());
            Err(m)
        },
    }
}

/// Wraps a transformed RGBA8 pixel buffer into a success response.
pub fn encode_response(pixels: &[u8]) -> (r: PluginResponse)
    requires
        (pixels@.len() + 2) / 3 * 4 <= usize::MAX,
    ensures
        r.error is None,
        r.pixels_base64 matches Some(s) && s@ == base64_encoded(pixels@) && base64_decoded(s@)
            == Some(pixels@),
{
    PluginResponse::ok(standard_encode(pixels))
}

/// Encodes RGBA8 pixels as the base64 text a request carries.
pub fn encode_pixels(pixels: &[u8]) -> (r: String)
    requires
        (pixels@.len() + 2) / 3 * 4 <= usize::MAX,
    ensures
        r@ == base64_encoded(pixels@),
        base64_decoded(r@) == Some(pixels@),
{
    standard_encode(pixels)
}

/// The message for a response whose buffer has the wrong size.
pub open spec fn wrong_size_message(got: nat, expected: nat, width: nat, height: nat) -> Seq<char> {
    "plugin returned "@ + decimal(got) + " bytes, expected "@ + decimal(expected) + " for a "@
        + decimal(width) + "x"@ + decimal(height) + " image"@
}

/// How the host reads a plugin's response to an image whose RGBA8 buffer
/// has `expected_len` bytes: the plugin's own error wins, then a response
/// without pixels, undecodable pixels, or pixels of the wrong size are
/// refused; otherwise the decoded bytes are returned.
pub fn read_response(response: PluginResponse, width: u32, height: u32, expected_len: usize) -> (r:
    Result<Vec<u8>, EffectError>)
    ensures
        match response.error {
            Some(e) => r matches Err(EffectError::Plugin(m)) && m@ == e@,
            None => match response.pixels_base64 {
                None => r matches Err(EffectError::Plugin(m)) && m@
                    == "plugin returned neither pixels nor an error"@,
                Some(text) => match base64_decoded(text@) {
                    None => r matches Err(EffectError::Plugin(m)) && m@
                        == "invalid pixels in plugin response: "@ + base64_decode_error(text@),
                    Some(bytes) => if bytes.len() == expected_len {
                        r matches Ok(v) && v@ == bytes
                    } else {
                        r matches Err(EffectError::Plugin(m)) && m@ == wrong_size_message(
                            bytes.len(),
                            expected_len as nat,
                            width as nat,
                            height as nat,
                        )
                    },
                },
            },
        },
{
    if let Some(e) = response.error {
        return Err(EffectError::Plugin(e));
    }
    let text = match response.pixels_base64 {
        Some(t) => t,
        None => {
            return Err(
                EffectError::Plugin(String::from_str("plugin returned neither pixels nor an error")),
            );
        },
    };
    let bytes = match standard_decode(text.as_str()) {
        Ok(b) => b,
        Err(e) => {
            let mut m = String::from_str("invalid pixels in plugin response: ");
            m.append(e.as_str());
            return Err(EffectError::Plugin(m));
        },
    };
    if bytes.len() != expected_len {
        let mut m = String::from_str("plugin returned ");
        m.append(decimal_string(bytes.len() as u64).as_str());
        m.append(" bytes, expected ");
        m.append(decimal_string(expected_len as u64).as_str());
        m.append(" for a ");
        m.append(decimal_string(width as u64).as_str());
        m.append("x");
        m.append(decimal_string(height as u64).as_str());
        m.append(" image");
        return Err(EffectError::Plugin(m));
    }
    Ok(bytes)
}

/// Why a plugin could not be loaded: its manifest is invalid, or its WASM
/// module could not be instantiated.
#[derive(Debug)]
pub enum PluginError {
    Manifest(String),
    Extism(String),
}

/// Parses a plugin manifest's `category` field. Any other spelling than the
/// six documented ones is refused with a message that lists them.
pub fn parse_category(s: &str) -> (r: Result<EffectCategory, PluginError>)
    ensures
        r matches Ok(c) ==> category_key(c) == s@,
        r matches Err(PluginError::Manifest(m)) ==> (forall|c: EffectCategory| category_key(c) != s@)
            && m@ == "unknown category '"@ + s@
            + "' (expected one of: error_diffusion, ordered, pattern, glitch, special, color)"@,
        r is Err ==> r matches Err(PluginError::Manifest(_)),
{
    match category_from_key(s) {
        Some(c) => Ok(c),
        None => {
            let mut m = String::from_str("unknown category '");
            m.append(s);
            m.append(
                "' (expected one of: error_diffusion, ordered, pattern, glitch, special, color)",
            );
            Err(PluginError::Manifest(m))
        },
    }
}

/// The TOML type of a manifest parameter's `default` value (only what the
/// checks below read of it).
#[derive(Debug, Clone)]
pub enum ManifestDefault {
    Boolean(bool),
    Integer(i64),
    Float,
    Text(String),
    Other,
}

/// What a valid manifest parameter declares: its kind, and its default
/// where it is not a float (a float default is read by the caller); a
/// choice also carries its options.
#[derive(Debug, Clone)]
pub enum ParamShape {
    Bool { default: bool },
    Int { default: i64 },
    Float,
    Choice { options: Vec<String>, default: String },
}

/// The message for a parameter whose kind lacks a field it requires.
pub open spec fn missing_field_message(key: Seq<char>, kind: Seq<char>, field: Seq<char>) -> Seq<
    char,
> {
    "param '"@ + key + "': '"@ + kind + "' kind requires '"@ + field + "'"@
}

/// The message for a parameter of an unknown kind.
pub open spec fn unknown_kind_message(key: Seq<char>, kind: Seq<char>) -> Seq<char> {
    "param '"@ + key + "': unknown kind '"@ + kind
        + "' (expected one of: bool, int, float, choice)"@
}

/// The outcome of checking one manifest parameter `key` of kind `kind`:
/// `bool` needs a boolean default; `int` needs `min`, then `max`, then an
/// integer default; `float` needs `min`, then `max`, then a float default;
/// `choice` needs `options`, then a string default; any other kind is
/// refused. The first missing requirement decides the error.
pub open spec fn manifest_param_outcome(
    key: Seq<char>,
    kind: Seq<char>,
    has_min: bool,
    has_max: bool,
    has_options: bool,
    default: ManifestDefault,
) -> Result<ParamShape, Seq<char>> {
    if kind == "bool"@ {
        match default {
            ManifestDefault::Boolean(b) => Ok(ParamShape::Bool { default: b }),
            _ => Err(missing_field_message(key, kind, "a boolean default"@)),
        }
    } else if kind == "int"@ {
        if !has_min {
            Err(missing_field_message(key, kind, "min"@))
        } else if !has_max {
            Err(missing_field_message(key, kind, "max"@))
        } else {
            match default {
                ManifestDefault::Integer(v) => Ok(ParamShape::Int { default: v }),
                _ => Err(missing_field_message(key, kind, "an integer default"@)),
            }
        }
    } else if kind == "float"@ {
        if !has_min {
            Err(missing_field_message(key, kind, "min"@))
        } else if !has_max {
            Err(missing_field_message(key, kind, "max"@))
        } else {
            match default {
                ManifestDefault::Float => Ok(ParamShape::Float),
                _ => Err(missing_field_message(key, kind, "a float default"@)),
            }
        }
    } else if kind == "choice"@ {
        if !has_options {
            Err(missing_field_message(key, kind, "options"@))
        } else {
            match default {
                ManifestDefault::Text(_) => Ok(
                    ParamShape::Choice { options: arbitrary(), default: arbitrary() },
                ),
                _ => Err(missing_field_message(key, kind, "a string default"@)),
            }
        }
    } else {
        Err(unknown_kind_message(key, kind))
    }
}

/// A copy of `v`, string for string.
fn copy_strings(v: &Vec<String>) -> (r: Vec<String>)
    ensures
        r@ == v@,
{
    let mut r: Vec<String> = Vec::new();
    let mut i: usize = 0;
    while i < v.len()
        invariant
            i <= v@.len(),
            r@ == v@.subrange(0, i as int),
        decreases v@.len() - i,
    {
        r.push(v[i].clone());
        i = i + 1;
    }
    r
}

fn missing_field(key: &str, kind: &str, field: &str) -> (e: PluginError)
    ensures
        e matches PluginError::Manifest(m) && m@ == missing_field_message(key@, kind@, field@),
{
    let mut m = String::from_str("param '");
    m.append(key);
    m.append("': '");
    m.append(kind);
    m.append("' kind requires '");
    m.append(field);
    m.append("'");
    PluginError::Manifest(m)
}

/// Checks one parameter of a plugin manifest (see
/// [`manifest_param_outcome`]); a `choice` keeps its options and default
/// as the manifest gives them.
pub fn check_manifest_param(
    key: &str,
    kind: &str,
    has_min: bool,
    has_max: bool,
    options: &Option<Vec<String>>,
    default: &ManifestDefault,
) -> (r: Result<ParamShape, PluginError>)
    ensures
        match manifest_param_outcome(key@, kind@, has_min, has_max, options is Some, *default) {
            Ok(ParamShape::Choice { .. }) => r matches Ok(ParamShape::Choice { options: o, default: d })
                && (*default matches ManifestDefault::Text(t) && d@ == t@) && (*options matches Some(
                v) && o@ == v@),
            Ok(shape) => r == Ok::<ParamShape, PluginError>(shape),
            Err(msg) => r matches Err(PluginError::Manifest(m)) && m@ == msg,
        },
{
    if str_eq(kind, "bool") {
        match default {
            ManifestDefault::Boolean(b) => Ok(ParamShape::Bool { default: *b }),
            _ => Err(missing_field(key, kind, "a boolean default")),
        }
    } else if str_eq(kind, "int") {
        if !has_min {
            Err(missing_field(key, kind, "min"))
        } else if !has_max {
            Err(missing_field(key, kind, "max"))
        } else {
            match default {
                ManifestDefault::Integer(v) => Ok(ParamShape::Int { default: *v }),
                _ => Err(missing_field(key, kind, "an integer default")),
            }
        }
    } else if str_eq(kind, "float") {
        if !has_min {
            Err(missing_field(key, kind, "min"))
        } else if !has_max {
            Err(missing_field(key, kind, "max"))
        } else {
            match default {
                ManifestDefault::Float => Ok(ParamShape::Float),
                _ => Err(missing_field(key, kind, "a float default")),
            }
        }
    } else if str_eq(kind, "choice") {
        match options {
            None => Err(missing_field(key, kind, "options")),
            Some(v) => match default {
                ManifestDefault::Text(t) => Ok(
                    ParamShape::Choice { options: copy_strings(v), default: t.clone() },
                ),
                _ => Err(missing_field(key, kind, "a string default")),
            },
        }
    } else {
        let mut m = String::from_str("param '");
        m.append(key);
        m.append("': unknown kind '");
        m.append(kind);
        m.append("' (expected one of: bool, int, float, choice)");
        Err(PluginError::Manifest(m))
    }
}

} // verus!
