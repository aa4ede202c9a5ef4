//! Serialization strategies: how a value becomes bytes and bytes a value.

use vstd::prelude::*;
use vstd::string::StrSliceExecFns;
use vstd::utf8::encode_utf8;

verus! {

/// The value could not be encoded.
#[derive(Clone, Copy, Debug, PartialEq, Eq, Structural)]
pub struct EncodeError;

/// The bytes are not a valid encoding of a value.
#[derive(Clone, Copy, Debug, PartialEq, Eq, Structural)]
pub struct DecodeError;

/// A serialization strategy for values of type `S`.
///
/// A strategy is stateless and chosen by type. It says itself, in
/// `is_encoding` and `is_decoding`, which results its two operations may give,
/// and is held to that; nothing is asked of the two relations, so a strategy
/// promises no more than it chooses to. Contracts elsewhere speak of a
/// strategy's results as [`encodes_to`], [`decodes_to`] and [`rejects`] do.
pub trait SerdeAdapter<S> {
    /// `r` is a result that `serialize` may give for `data`. A strategy that
    /// does not say is held to nothing.
    open spec fn is_encoding(data: S, r: Result<Vec<u8>, EncodeError>) -> bool where S: serde::Serialize {
        true
    }

    /// `r` is a result that `deserialize` may give for `bytes`. A strategy that
    /// does not say is held to nothing.
    open spec fn is_decoding(bytes: Seq<u8>, r: Result<S, DecodeError>) -> bool where
        S: serde::de::DeserializeOwned,
    {
        true
    }

    /// Encodes `data`.
    fn serialize(data: &S) -> (r: Result<Vec<u8>, EncodeError>) where S: serde::Serialize
        ensures
            Self::is_encoding(*data, r),
    ;

    /// Decodes `data`; malformed input is an error, never a panic.
    fn deserialize(data: &[u8]) -> (r: Result<S, DecodeError>) where S: serde::de::DeserializeOwned
        ensures
            Self::is_decoding(data@, r),
    ;
}

/// `serde_json::Error`, carried from the call to where it is dropped.
#[verifier::external_type_specification]
#[verifier::external_body]
pub struct ExJsonError(serde_json::Error);

/// `toml::ser::Error`, carried from the call to where it is dropped.
#[verifier::external_type_specification]
#[verifier::external_body]
pub struct ExTomlSerError(toml::ser::Error);

/// `toml::de::Error`, carried from the call to where it is dropped.
#[verifier::external_type_specification]
#[verifier::external_body]
pub struct ExTomlDeError(toml::de::Error);

/// `serde_json::to_string_pretty`: the pretty-printed JSON text of `data`, or
/// the error of `S`'s own `Serialize`. Nothing is claimed of either.
#[verifier::external_body]
fn json_to_string_pretty<S: serde::Serialize>(data: &S) -> (r: Result<String, serde_json::Error>) {
    serde_json::to_string_pretty(data)
}

/// `serde_json::from_slice`: a value read from JSON text, or why the text is
/// not one. Nothing is claimed of either.
#[verifier::external_body]
fn json_from_slice<S: serde::de::DeserializeOwned>(data: &[u8]) -> (r: Result<S, serde_json::Error>) {
    serde_json::from_slice(data)
}

/// `toml::to_string_pretty`: the pretty-printed TOML document of `data`, or why
/// `data` has none. Nothing is claimed of either.
#[verifier::external_body]
fn toml_to_string_pretty<S: serde::Serialize>(data: &S) -> (r: Result<String, toml::ser::Error>) {
    toml::to_string_pretty(data)
}

/// `toml::from_slice`: a value read from a TOML document, or why the bytes are
/// not one. Nothing is claimed of either.
#[verifier::external_body]
fn toml_from_slice<S: serde::de::DeserializeOwned>(data: &[u8]) -> (r: Result<S, toml::de::Error>) {
    toml::from_slice(data)
}

/// `bytes` are a text: the UTF-8 encoding of some sequence of characters.
pub open spec fn is_text(bytes: Seq<u8>) -> bool {
    exists|text: Seq<char>| bytes == #[trigger] encode_utf8(text)
}

/// `r` is what is kept of an encoder's result `text`: the UTF-8 bytes of the
/// text, or that there is none.
pub open spec fn is_encoded_text<E>(text: Result<String, E>, r: Result<Vec<u8>, EncodeError>) -> bool {
    match text {
        Ok(text) => r matches Ok(bytes) && bytes@ == encode_utf8(text@),
        Err(_) => r == Err::<Vec<u8>, EncodeError>(EncodeError),
    }
}

/// What is kept of a decoder's result: the value, or that there is none.
pub open spec fn decoding_of<S, E>(value: Result<S, E>) -> Result<S, DecodeError> {
    match value {
        Ok(value) => Ok(value),
        Err(_) => Err(DecodeError),
    }
}

/// The bytes of a text that an encoder produced, or that it produced none.
pub fn encoded_text<E>(text: Result<String, E>) -> (r: Result<Vec<u8>, EncodeError>)
    ensures
        is_encoded_text(text, r),
{
    match text {
        Ok(text) => Ok(text.as_str().as_bytes_vec()),
        Err(_) => Err(EncodeError),
    }
}

/// The value that a decoder produced, or that it produced none.
pub fn decoded_value<S, E>(value: Result<S, E>) -> (r: Result<S, DecodeError>)
    ensures
        r == decoding_of(value),
{
    match value {
        Ok(value) => Ok(value),
        Err(_) => Err(DecodeError),
    }
}

/// The JSON strategy: pretty-printed JSON text.
pub struct Json;

impl<S> SerdeAdapter<S> for Json {
    /// `r` is the UTF-8 of a text that `serde_json::to_string_pretty` gave for
    /// `data`, or an error where it gave one.
    closed spec fn is_encoding(data: S, r: Result<Vec<u8>, EncodeError>) -> bool where S: serde::Serialize {
        exists|text: Result<String, serde_json::Error>| #[trigger]
            call_ensures(json_to_string_pretty::<S>, (&data,), text) && is_encoded_text(text, r)
    }

    /// `r` is a value that `serde_json::from_slice` gave for `bytes`, or an error
    /// where it gave one.
    closed spec fn is_decoding(bytes: Seq<u8>, r: Result<S, DecodeError>) -> bool where
        S: serde::de::DeserializeOwned,
    {
        exists|input: &[u8], value: Result<S, serde_json::Error>|
            input@ == bytes && #[trigger] call_ensures(json_from_slice::<S>, (input,), value) && r
                == decoding_of(value)
    }

    fn serialize(data: &S) -> (r: Result<Vec<u8>, EncodeError>) where S: serde::Serialize
        ensures
            r matches Ok(bytes) ==> is_text(bytes@),
    {
        encoded_text(json_to_string_pretty(data))
    }

    fn deserialize(data: &[u8]) -> (r: Result<S, DecodeError>) where S: serde::de::DeserializeOwned {
        decoded_value(json_from_slice(data))
    }
}

/// The TOML strategy: a pretty-printed TOML document.
pub struct Toml;

impl<S> SerdeAdapter<S> for Toml {
    /// `r` is the UTF-8 of a text that `toml::to_string_pretty` gave for
    /// `data`, or an error where it gave one.
    closed spec fn is_encoding(data: S, r: Result<Vec<u8>, EncodeError>) -> bool where S: serde::Serialize {
        exists|text: Result<String, toml::ser::Error>| #[trigger]
            call_ensures(toml_to_string_pretty::<S>, (&data,), text) && is_encoded_text(text, r)
    }

    /// `r` is a value that `toml::from_slice` gave for `bytes`, or an error
    /// where it gave one.
    closed spec fn is_decoding(bytes: Seq<u8>, r: Result<S, DecodeError>) -> bool where
        S: serde::de::DeserializeOwned,
    {
        exists|input: &[u8], value: Result<S, toml::de::Error>|
            input@ == bytes && #[trigger] call_ensures(toml_from_slice::<S>, (input,), value) && r
                == decoding_of(value)
    }

    fn serialize(data: &S) -> (r: Result<Vec<u8>, EncodeError>) where S: serde::Serialize
        ensures
            r matches Ok(bytes) ==> is_text(bytes@),
    {
        encoded_text(toml_to_string_pretty(data))
    }

    fn deserialize(data: &[u8]) -> (r: Result<S, DecodeError>) where S: serde::de::DeserializeOwned {
        decoded_value(toml_from_slice(data))
    }
}

/// `SA` may encode `value` as `bytes`.
pub open spec fn encodes_to<S: serde::Serialize, SA: SerdeAdapter<S>>(value: S, bytes: Seq<u8>) -> bool {
    exists|out: Vec<u8>| out@ == bytes && #[trigger] call_ensures(SA::serialize, (&value,), Ok(out))
}

/// `SA` may decode `bytes` to `value`.
pub open spec fn decodes_to<S: serde::de::DeserializeOwned, SA: SerdeAdapter<S>>(bytes: Seq<u8>, value: S) -> bool {
    exists|input: &[u8]| input@ == bytes && #[trigger] call_ensures(SA::deserialize, (input,), Ok(value))
}

/// `SA` may reject `bytes` as malformed.
pub open spec fn rejects<S: serde::de::DeserializeOwned, SA: SerdeAdapter<S>>(bytes: Seq<u8>) -> bool {
    exists|input: &[u8]| input@ == bytes && #[trigger] call_ensures(SA::deserialize, (input,), Err(DecodeError))
}

} // verus!
