//! Error taxonomy: decode failures and server-reported API errors.

use vstd::prelude::*;

use crate::json::flat_fields_decoded;
use crate::json::parse_flat_fields;

verus! {

/// A server-reported failure: the body was a structurally valid error
/// payload. An error payload is a JSON object of string fields holding at
/// least an `"error"` field; the `"index_not_found"` error also carries the
/// offending index under `"index"`.
#[derive(Debug, Clone, PartialEq, Eq)]
pub enum ApiError {
    IndexNotFound { index: String },
    Other { error: String },
}

/// The mathematical shape of an [`ApiError`].
pub enum ApiErrorView {
    IndexNotFound { index: Seq<char> },
    Other { error: Seq<char> },
}

impl View for ApiError {
    type V = ApiErrorView;

    open spec fn view(&self) -> ApiErrorView {
        match self {
            ApiError::IndexNotFound { index } => ApiErrorView::IndexNotFound { index: index@ },
            ApiError::Other { error } => ApiErrorView::Other { error: error@ },
        }
    }
}

/// A failure to turn response bytes into a value: the body was not
/// well-formed JSON, it did not match the expected shape, or the transport
/// failed while the body was being read.
#[derive(Debug)]
pub enum ParseResponseError {
    Json(serde_json::Error),
    Shape,
    Io(std::io::Error),
}

/// What a parse call returns when it does not succeed: either the server
/// reported a failure in a well-formed error payload, or the response bytes
/// could not be decoded at all.
#[derive(Debug)]
pub enum ResponseError {
    Api(ApiError),
    Parse(ParseResponseError),
}

/// The value under the first field named `key`, if any.
pub open spec fn field_lookup(fields: Seq<(Seq<char>, Seq<char>)>, key: Seq<char>) -> Option<
    Seq<char>,
>
    decreases fields.len(),
{
    if fields.len() == 0 {
        None
    } else if fields[0].0 == key {
        Some(fields[0].1)
    } else {
        field_lookup(fields.skip(1), key)
    }
}

/// The API error that a field list stands for: the `"error"` field names the
/// kind, and an `"index_not_found"` kind carries the index from the
/// `"index"` field. A field list without an `"error"` field is no error
/// payload at all.
pub open spec fn api_error_of_fields(fields: Seq<(Seq<char>, Seq<char>)>) -> Option<ApiErrorView> {
    match field_lookup(fields, "error"@) {
        None => None,
        Some(e) => if e == "index_not_found"@ {
            match field_lookup(fields, "index"@) {
                Some(i) => Some(ApiErrorView::IndexNotFound { index: i }),
                None => Some(ApiErrorView::Other { error: e }),
            }
        } else {
            Some(ApiErrorView::Other { error: e })
        },
    }
}

/// The API error, if any, that the error decode reads out of the bytes.
pub open spec fn api_error_decoded(b: Seq<u8>) -> Option<ApiErrorView> {
    match flat_fields_decoded(b) {
        None => None,
        Some(fields) => api_error_of_fields(fields),
    }
}

/// The field list as the spec functions see it.
pub open spec fn fields_view(fields: Seq<(String, String)>) -> Seq<(Seq<char>, Seq<char>)> {
    fields.map_values(|p: (String, String)| (p.0@, p.1@))
}

/// Find the first field named `key` and hand its value out.
fn lookup_field(fields: &Vec<(String, String)>, key: &String) -> (r: Option<String>)
    ensures
        (match field_lookup(fields_view(fields@), key@) {
            Some(v) => r matches Some(s) && s@ == v,
            None => r is None,
        }),
{
    let ghost all = fields_view(fields@);
    proof {
        assert(all.skip(0) =~= all);
    }
    let mut i: usize = 0;
    while i < fields.len()
        invariant
            0 <= i <= fields.len(),
            all == fields_view(fields@),
            all.len() == fields@.len(),
            field_lookup(all, key@) == field_lookup(all.skip(i as int), key@),
        decreases fields.len() - i,
    {
        assert(all[i as int] == (fields@[i as int].0@, fields@[i as int].1@));
        assert(all.skip(i as int)[0] == all[i as int]);
        if fields[i].0.eq(key) {
            let r = Some(fields[i].1.clone());
            proof {
                assert(field_lookup(all.skip(i as int), key@) == Some(all[i as int].1));
            }
            return r;
        }
        proof {
            assert(all.skip(i as int).skip(1) =~= all.skip(i as int + 1));
            assert(field_lookup(all.skip(i as int), key@) == field_lookup(
                all.skip(i as int + 1),
                key@,
            ));
        }
        i = i + 1;
    }
    None
}

/// Read an [`ApiError`] out of a decoded field list, if the list has the
/// error-payload shape.
pub fn api_error_from_fields(fields: &Vec<(String, String)>) -> (r: Option<ApiError>)
    ensures
        (match api_error_of_fields(fields_view(fields@)) {
            Some(ev) => r matches Some(e) && e@ == ev,
            None => r is None,
        }),
{
    let error_key: String = "error".to_owned();
    match lookup_field(fields, &error_key) {
        None => None,
        Some(e) => {
            let index_not_found: String = "index_not_found".to_owned();
            if e == index_not_found {
                let index_key: String = "index".to_owned();
                match lookup_field(fields, &index_key) {
                    Some(i) => Some(ApiError::IndexNotFound { index: i }),
                    None => Some(ApiError::Other { error: e }),
                }
            } else {
                Some(ApiError::Other { error: e })
            }
        },
    }
}

/// Decode response bytes as an error payload: a failure to parse the bytes
/// as JSON surfaces as [`ParseResponseError::Json`], and a well-formed JSON
/// body that does not have the error-payload shape as
/// [`ParseResponseError::Shape`].
pub fn decode_api_error(b: &[u8]) -> (r: Result<ApiError, ParseResponseError>)
    ensures
        (match api_error_decoded(b@) {
            Some(ev) => r matches Ok(e) && e@ == ev,
            None => r is Err,
        }),
{
    match parse_flat_fields(b) {
        Err(e) => Err(ParseResponseError::Json(e)),
        Ok(fields) => match api_error_from_fields(&fields) {
            Some(e) => Ok(e),
            None => Err(ParseResponseError::Shape),
        },
    }
}

} // verus!
