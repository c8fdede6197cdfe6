//! Trusted boundary to `serde_json` and to the byte reader.
//!
//! Everything the verified pipeline learns about JSON decoding is stated
//! here, over names for what `serde_json` returns on given bytes. The
//! decoders are deterministic functions of their input bytes, so naming
//! their results is sound.

use vstd::prelude::*;

verus! {

#[verifier::external_type_specification]
#[verifier::external_body]
pub struct ExJsonValue(serde_json::Value);

#[verifier::external_type_specification]
#[verifier::external_body]
pub struct ExJsonError(serde_json::Error);

#[verifier::external_type_specification]
#[verifier::external_body]
pub struct ExIoError(std::io::Error);

/// The JSON tree that `serde_json` parses out of the given bytes, or `None`
/// when it rejects them (they are not a single JSON document it accepts).
pub uninterp spec fn json_decoded(b: Seq<u8>) -> Option<serde_json::Value>;

/// The key/value pairs, in ascending key order, that `serde_json` parses out
/// of the given bytes when they hold a JSON object whose values are all
/// strings; `None` otherwise.
pub uninterp spec fn flat_fields_decoded(b: Seq<u8>) -> Option<Seq<(Seq<char>, Seq<char>)>>;

/// Relies on `serde_json::from_slice::<Value>`: whether the bytes parse, and
/// to which JSON tree, is a function of the input bytes alone.
#[verifier::external_body]
pub(crate) fn parse_json(b: &[u8]) -> (r: Result<serde_json::Value, serde_json::Error>)
    ensures
        r is Ok <==> json_decoded(b@) is Some,
        (r matches Ok(v) ==> json_decoded(b@) == Some(v)),
{
    serde_json::from_slice(b)
}

/// Relies on `serde_json::from_slice::<BTreeMap<String, String>>`: whether
/// the bytes parse as a JSON object of string values, and to which entries,
/// is a function of the input bytes alone; and on `BTreeMap` iteration,
/// which hands the entries out in ascending key order.
#[verifier::external_body]
pub(crate) fn parse_flat_fields(b: &[u8]) -> (r: Result<Vec<(String, String)>, serde_json::Error>)
    ensures
        r is Ok <==> flat_fields_decoded(b@) is Some,
        (r matches Ok(fields) ==> flat_fields_decoded(b@) == Some(
            fields@.map_values(|p: (String, String)| (p.0@, p.1@)),
        )),
{
    let map: std::collections::BTreeMap<String, String> = serde_json::from_slice(b)?;
    Ok(map.into_iter().collect())
}

/// Relies on `std::io::Read::read_to_end`: it drains the reader to its end,
/// returning whatever bytes the transport yields, or the transport's error.
#[verifier::external_body]
pub(crate) fn read_all<B: std::io::Read>(reader: B) -> Result<Vec<u8>, std::io::Error> {
    let mut reader = reader;
    let mut buf: Vec<u8> = Vec::new();
    reader.read_to_end(&mut buf)?;
    Ok(buf)
}

} // verus!
