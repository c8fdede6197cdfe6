//! Response classification, body buffering, and the decode pipeline.
//!
//! A response is a status code plus a body source. The body source is either
//! an in-memory slice, whose bytes are known up front, or a single-pass
//! reader, whose bytes become known only once it is drained. Classification
//! decides success or error from the status code (and, for richer policies,
//! from a buffered peek at the body), and the decode step then reads the
//! body exactly once, as the success type or as the API error payload.

use vstd::prelude::*;

use crate::error::ApiError;
use crate::error::ParseResponseError;
use crate::error::ResponseError;
use crate::error::api_error_decoded;
use crate::error::decode_api_error;
use crate::json::json_decoded;
use crate::json::parse_json;
use crate::json::read_all;

verus! {

/// The non-body component of the HTTP response.
pub struct HttpResponseHead {
    code: u16,
}

impl HttpResponseHead {
    /// The status code.
    pub closed spec fn spec_status(&self) -> u16 {
        self.code
    }

    /// Get the status code.
    pub fn status(&self) -> (r: u16)
        ensures
            r == self.spec_status(),
    {
        self.code
    }
}

impl From<u16> for HttpResponseHead {
    fn from(status: u16) -> Self {
        HttpResponseHead { code: status }
    }
}

impl vstd::std_specs::convert::FromSpecImpl<u16> for HttpResponseHead {
    open spec fn obeys_from_spec() -> bool {
        true
    }

    closed spec fn from_spec(status: u16) -> Self {
        HttpResponseHead { code: status }
    }
}

/// The decode capability: a type that can be read out of raw JSON body
/// bytes.
pub trait FromJson: Sized {
    /// The value this type's decode reads out of given body bytes, if any.
    spec fn decoded(b: Seq<u8>) -> Option<Self>;

    /// Decode a value out of raw body bytes.
    fn from_json_bytes(b: &[u8]) -> (r: Result<Self, ParseResponseError>)
        ensures
            (match Self::decoded(b@) {
                Some(v) => r matches Ok(got) && got == v,
                None => r is Err,
            }),
    ;
}

/// A http response body that can be buffered into a json value.
///
/// Consuming a source reads the underlying transport at most once: every
/// operation takes the source by value, so no handle onto the transport
/// survives the read.
pub trait ResponseBody: Sized {
    /// Whether the bytes this source yields are determined by its value
    /// (true for an in-memory slice, false for a live reader).
    spec fn known(&self) -> bool;

    /// The bytes this source yields, where they are known.
    spec fn bytes(&self) -> Seq<u8>;

    /// Buffer the response body to a json value and return a new buffered
    /// representation.
    fn body(self) -> (r: Result<(serde_json::Value, SliceBody), ParseResponseError>)
        ensures
            (r matches Ok(p) ==> json_decoded(p.1.contents()) == Some(p.0) && (self.known()
                ==> p.1.contents() == self.bytes())),
            self.known() ==> (r is Ok <==> json_decoded(self.bytes()) is Some),
    ;

    /// Parse the body as a success result.
    fn parse_ok<T: FromJson>(self) -> (r: Result<T, ParseResponseError>)
        ensures
            self.known() ==> (match T::decoded(self.bytes()) {
                Some(v) => r matches Ok(got) && got == v,
                None => r is Err,
            }),
            (r matches Ok(got) ==> exists|b: Seq<u8>| (#[trigger] T::decoded(b)) == Some(got)),
    ;

    /// Parse the body as an API error.
    fn parse_err(self) -> (r: Result<ApiError, ParseResponseError>)
        ensures
            self.known() ==> (match api_error_decoded(self.bytes()) {
                Some(ev) => r matches Ok(e) && e@ == ev,
                None => r is Err,
            }),
            (r matches Ok(e) ==> exists|b: Seq<u8>| (#[trigger] api_error_decoded(b)) == Some(
                e@,
            )),
    ;
}

/// An in-memory body: an owned byte buffer that may be read any number of
/// times. This is also the buffered representation of every body source:
/// once a body has been materialized, its bytes live in one of these.
pub struct SliceBody(Vec<u8>);

impl SliceBody {
    /// The bytes this buffer holds.
    pub closed spec fn contents(&self) -> Seq<u8> {
        self.0@
    }
}

impl ResponseBody for SliceBody {
    closed spec fn known(&self) -> bool {
        true
    }

    closed spec fn bytes(&self) -> Seq<u8> {
        self.0@
    }

    fn body(self) -> (r: Result<(serde_json::Value, SliceBody), ParseResponseError>) {
        match parse_json(self.0.as_slice()) {
            Ok(v) => Ok((v, SliceBody(self.0))),
            Err(e) => Err(ParseResponseError::Json(e)),
        }
    }

    fn parse_ok<T: FromJson>(self) -> (r: Result<T, ParseResponseError>) {
        let r = T::from_json_bytes(self.0.as_slice());
        proof {
            if r is Ok {
                assert(T::decoded(self.0@) == Some(r->Ok_0));
            }
        }
        r
    }

    fn parse_err(self) -> (r: Result<ApiError, ParseResponseError>) {
        let r = decode_api_error(self.0.as_slice());
        proof {
            if r is Ok {
                assert(api_error_decoded(self.0@) == Some(r->Ok_0@));
            }
        }
        r
    }
}

/// A streamed body: wraps the one-shot action that drains the single-pass
/// reader. Running the action consumes the transport irreversibly, so the
/// bytes it yields are not a function of the value, and every operation
/// takes the body by value so the action runs at most once.
struct ReadBody<F: FnOnce() -> Result<Vec<u8>, std::io::Error>>(F);

impl<F: FnOnce() -> Result<Vec<u8>, std::io::Error>> ReadBody<F> {
    #[verifier::type_invariant]
    spec fn wf(self) -> bool {
        call_requires(self.0, ())
    }

    fn drain(self) -> Result<Vec<u8>, std::io::Error> {
        proof {
            use_type_invariant(&self);
        }
        let ReadBody(read) = self;
        read()
    }
}

impl<F: FnOnce() -> Result<Vec<u8>, std::io::Error>> ResponseBody for ReadBody<F> {
    closed spec fn known(&self) -> bool {
        false
    }

    closed spec fn bytes(&self) -> Seq<u8> {
        Seq::empty()
    }

    fn body(self) -> (r: Result<(serde_json::Value, SliceBody), ParseResponseError>) {
        match self.drain() {
            Ok(buf) => SliceBody(buf).body(),
            Err(e) => Err(ParseResponseError::Io(e)),
        }
    }

    fn parse_ok<T: FromJson>(self) -> (r: Result<T, ParseResponseError>) {
        match self.drain() {
            Ok(buf) => SliceBody(buf).parse_ok(),
            Err(e) => Err(ParseResponseError::Io(e)),
        }
    }

    fn parse_err(self) -> (r: Result<ApiError, ParseResponseError>) {
        match self.drain() {
            Ok(buf) => SliceBody(buf).parse_err(),
            Err(e) => Err(ParseResponseError::Io(e)),
        }
    }
}

/// A body untouched so far: still attached to the original source.
pub struct Unbuffered<B>(B);

impl<B: ResponseBody> Unbuffered<B> {
    /// Whether the bytes of the underlying source are known.
    pub closed spec fn known(&self) -> bool {
        self.0.known()
    }

    /// The bytes of the underlying source, where they are known.
    pub closed spec fn bytes(&self) -> Seq<u8> {
        self.0.bytes()
    }

    /// Buffer the response body to a json value and return a new buffered
    /// representation. This consumes the unbuffered state: the transition to
    /// a buffered body happens at most once, and the original source is not
    /// reachable afterwards.
    pub fn body(self) -> (r: Result<(serde_json::Value, Buffered), ParseResponseError>)
        ensures
            (r matches Ok(p) ==> p.1.known() && json_decoded(p.1.bytes()) == Some(p.0) && (
            self.known() ==> p.1.bytes() == self.bytes())),
            self.known() ==> (r is Ok <==> json_decoded(self.bytes()) is Some),
    {
        match self.0.body() {
            Ok((value, body)) => Ok((value, Buffered(body))),
            Err(e) => Err(e),
        }
    }
}

/// A body already materialized to a json value: further decodes use the
/// captured bytes, never the original transport.
pub struct Buffered(SliceBody);

impl Buffered {
    /// Whether the bytes of the buffered source are known.
    pub closed spec fn known(&self) -> bool {
        self.0.known()
    }

    /// The bytes of the buffered source.
    pub closed spec fn bytes(&self) -> Seq<u8> {
        self.0.bytes()
    }
}

/// A response body that may or may not have been buffered.
///
/// This type makes it possible to inspect the response body for an error
/// type before passing it along to be deserialised properly.
pub enum MaybeBufferedResponse<B: ResponseBody> {
    Unbuffered(B),
    Buffered(SliceBody),
}

impl<B: ResponseBody> MaybeBufferedResponse<B> {
    /// Whether the bytes this body yields are determined by its value.
    pub closed spec fn known(&self) -> bool {
        match self {
            MaybeBufferedResponse::Unbuffered(b) => b.known(),
            MaybeBufferedResponse::Buffered(b) => b.known(),
        }
    }

    /// The bytes this body yields, where they are known.
    pub closed spec fn bytes(&self) -> Seq<u8> {
        match self {
            MaybeBufferedResponse::Unbuffered(b) => b.bytes(),
            MaybeBufferedResponse::Buffered(b) => b.bytes(),
        }
    }

    fn parse_ok<T: FromJson>(self) -> (r: Result<T, ParseResponseError>)
        ensures
            self.known() ==> (match T::decoded(self.bytes()) {
                Some(v) => r matches Ok(got) && got == v,
                None => r is Err,
            }),
            (r matches Ok(got) ==> exists|b: Seq<u8>| (#[trigger] T::decoded(b)) == Some(got)),
    {
        match self {
            MaybeBufferedResponse::Unbuffered(b) => b.parse_ok(),
            MaybeBufferedResponse::Buffered(b) => b.parse_ok(),
        }
    }

    fn parse_err(self) -> (r: Result<ApiError, ParseResponseError>)
        ensures
            self.known() ==> (match api_error_decoded(self.bytes()) {
                Some(ev) => r matches Ok(e) && e@ == ev,
                None => r is Err,
            }),
            (r matches Ok(e) ==> exists|b: Seq<u8>| (#[trigger] api_error_decoded(b)) == Some(
                e@,
            )),
    {
        match self {
            MaybeBufferedResponse::Unbuffered(b) => b.parse_err(),
            MaybeBufferedResponse::Buffered(b) => b.parse_err(),
        }
    }
}

impl<B: ResponseBody> From<Unbuffered<B>> for MaybeBufferedResponse<B> {
    fn from(value: Unbuffered<B>) -> Self {
        MaybeBufferedResponse::Unbuffered(value.0)
    }
}

impl<B: ResponseBody> vstd::std_specs::convert::FromSpecImpl<Unbuffered<B>> for MaybeBufferedResponse<B> {
    open spec fn obeys_from_spec() -> bool {
        true
    }

    closed spec fn from_spec(value: Unbuffered<B>) -> Self {
        MaybeBufferedResponse::Unbuffered(value.0)
    }
}

impl<B: ResponseBody> From<Buffered> for MaybeBufferedResponse<B> {
    fn from(value: Buffered) -> Self {
        MaybeBufferedResponse::Buffered(value.0)
    }
}

impl<B: ResponseBody> vstd::std_specs::convert::FromSpecImpl<Buffered> for MaybeBufferedResponse<B> {
    open spec fn obeys_from_spec() -> bool {
        true
    }

    closed spec fn from_spec(value: Buffered) -> Self {
        MaybeBufferedResponse::Buffered(value.0)
    }
}

/// A response that might be successful or an `ApiError`.
pub struct MaybeOkResponse<B: ResponseBody> {
    ok: bool,
    res: MaybeBufferedResponse<B>,
}

impl<B: ResponseBody> MaybeOkResponse<B> {
    /// Whether the classifier decided the response is a success.
    pub closed spec fn is_ok_flag(&self) -> bool {
        self.ok
    }

    /// Whether the bytes of the carried body are determined by its value.
    pub closed spec fn known(&self) -> bool {
        self.res.known()
    }

    /// The bytes of the carried body, where they are known.
    pub closed spec fn bytes(&self) -> Seq<u8> {
        self.res.bytes()
    }

    /// Create a new response that indicates whether or not the body is
    /// successful or an `ApiError`.
    pub fn new(ok: bool, res: MaybeBufferedResponse<B>) -> (r: Self)
        ensures
            r.is_ok_flag() == ok,
            r.known() == res.known(),
            r.bytes() == res.bytes(),
    {
        MaybeOkResponse { ok, res }
    }

    /// Create a response where the body is successful.
    pub fn ok(res: MaybeBufferedResponse<B>) -> (r: Self)
        ensures
            r.is_ok_flag(),
            r.known() == res.known(),
            r.bytes() == res.bytes(),
    {
        Self::new(true, res)
    }

    /// Create a response where the body is an error.
    pub fn err(res: MaybeBufferedResponse<B>) -> (r: Self)
        ensures
            !r.is_ok_flag(),
            r.known() == res.known(),
            r.bytes() == res.bytes(),
    {
        Self::new(false, res)
    }
}

/// Whether a status code classifies as success under the default policy.
pub open spec fn is_success_status(status: u16) -> bool {
    200 <= status && status <= 299
}

/// Convert a response message into a either a success or failure result.
pub trait IsOk: Sized {
    /// The classification policy: whether a response with this status code
    /// and these body bytes counts as a success, or `None` where
    /// classification itself fails on such a body.
    spec fn classified(status: u16, b: Seq<u8>) -> Option<bool>;

    /// Inspect the http response to determine whether or not it succeeded.
    ///
    /// The returned body carries the same bytes as the one handed in,
    /// possibly buffered; a classifier that decides without buffering has
    /// decided from the status code alone.
    fn is_ok<B: ResponseBody>(head: HttpResponseHead, body: Unbuffered<B>) -> (r: Result<
        MaybeOkResponse<B>,
        ParseResponseError,
    >)
        ensures
            (r matches Ok(m) ==> {
                &&& (body.known() ==> m.known() && m.bytes() == body.bytes())
                &&& (m.known() ==> Self::classified(head.spec_status(), m.bytes()) == Some(
                    m.is_ok_flag(),
                ))
                &&& (!m.known() ==> forall|b: Seq<u8>|
                    (#[trigger] Self::classified(head.spec_status(), b)) == Some(m.is_ok_flag()))
            }),
            body.known() && Self::classified(head.spec_status(), body.bytes()) is Some ==> r is Ok,
    ;
}

impl FromJson for serde_json::Value {
    /// A generic json value decodes from exactly the bodies that parse as
    /// JSON.
    open spec fn decoded(b: Seq<u8>) -> Option<serde_json::Value> {
        json_decoded(b)
    }

    fn from_json_bytes(b: &[u8]) -> (r: Result<serde_json::Value, ParseResponseError>) {
        match parse_json(b) {
            Ok(v) => Ok(v),
            Err(e) => Err(ParseResponseError::Json(e)),
        }
    }
}

impl IsOk for serde_json::Value {
    /// The default policy: the status code alone decides, success on 2xx.
    open spec fn classified(status: u16, b: Seq<u8>) -> Option<bool> {
        Some(is_success_status(status))
    }

    fn is_ok<B: ResponseBody>(head: HttpResponseHead, body: Unbuffered<B>) -> (r: Result<
        MaybeOkResponse<B>,
        ParseResponseError,
    >) {
        let status = head.status();
        if 200 <= status && status <= 299 {
            Ok(MaybeOkResponse::ok(body.into()))
        } else {
            Ok(MaybeOkResponse::err(body.into()))
        }
    }
}

/// The relation between a response (status code plus body bytes) and a
/// pipeline outcome:
/// - where classification fails, the outcome is a parse error;
/// - where it yields success, the outcome is the decoded success value, or a
///   parse error when the bytes do not decode;
/// - where it yields error, the outcome is the decoded API error, or a parse
///   error when the bytes are no error payload.
pub open spec fn decode_outcome_matches<T: IsOk + FromJson>(
    status: u16,
    b: Seq<u8>,
    r: Result<T, ResponseError>,
) -> bool {
    match T::classified(status, b) {
        None => r matches Err(ResponseError::Parse(_)),
        Some(true) => match T::decoded(b) {
            Some(v) => r matches Ok(got) && got == v,
            None => r matches Err(ResponseError::Parse(_)),
        },
        Some(false) => match api_error_decoded(b) {
            Some(ev) => r matches Err(ResponseError::Api(e)) && e@ == ev,
            None => r matches Err(ResponseError::Parse(_)),
        },
    }
}

/// The decode orchestrator: classify, then decode exactly once, as the
/// success type or as the API error payload.
fn from_body<B: ResponseBody, T: IsOk + FromJson>(head: HttpResponseHead, body: B) -> (r: Result<
    T,
    ResponseError,
>)
    ensures
        body.known() ==> decode_outcome_matches(head.spec_status(), body.bytes(), r),
        !(r matches Err(ResponseError::Parse(_))) ==> exists|b: Seq<u8>|
            #[trigger] decode_outcome_matches(head.spec_status(), b, r),
{
    let ghost status = head.spec_status();
    let ghost known = body.known();
    let maybe = match T::is_ok(head, Unbuffered(body)) {
        Ok(m) => m,
        Err(e) => {
            return Err(ResponseError::Parse(e));
        },
    };
    if maybe.ok {
        match maybe.res.parse_ok::<T>() {
            Ok(ok) => {
                let r = Ok(ok);
                proof {
                    if !known {
                        if maybe.known() {
                            assert(decode_outcome_matches(status, maybe.bytes(), r));
                        } else {
                            let b = choose|b: Seq<u8>| (#[trigger] T::decoded(b)) == Some(ok);
                            assert(decode_outcome_matches(status, b, r));
                        }
                    }
                }
                r
            },
            Err(e) => Err(ResponseError::Parse(e)),
        }
    } else {
        match maybe.res.parse_err() {
            Ok(err) => {
                let r = Err(ResponseError::Api(err));
                proof {
                    if !known {
                        if maybe.known() {
                            assert(decode_outcome_matches::<T>(status, maybe.bytes(), r));
                        } else {
                            let b = choose|b: Seq<u8>|
                                (#[trigger] api_error_decoded(b)) == Some(err@);
                            assert(decode_outcome_matches::<T>(status, b, r));
                        }
                    }
                }
                r
            },
            Err(e) => Err(ResponseError::Parse(e)),
        }
    }
}

/// Law: under the default policy, every status code in [200, 299] classifies
/// as success and every other status code as error, whatever the body holds.
pub proof fn lemma_default_classification(status: u16, b: Seq<u8>)
    ensures
        <serde_json::Value as IsOk>::classified(status, b) == Some(is_success_status(status)),
        is_success_status(status) <==> (200 <= status && status <= 299),
{
}

/// Law: slice/stream decode parity. Any two pipeline outcomes for the same
/// status code and the same body bytes agree wherever an outcome carries a
/// value: equal success values, API errors of equal shape, and decode
/// failures together (the decoder's own failure value is the one part left
/// open).
pub proof fn lemma_decode_parity<T: IsOk + FromJson>(
    status: u16,
    b: Seq<u8>,
    r1: Result<T, ResponseError>,
    r2: Result<T, ResponseError>,
)
    requires
        decode_outcome_matches(status, b, r1),
        decode_outcome_matches(status, b, r2),
    ensures
        (r1 matches Ok(v1) ==> r2 matches Ok(v2) && v1 == v2),
        (r1 matches Err(ResponseError::Api(e1)) ==> r2 matches Err(ResponseError::Api(e2))
            && e1@ == e2@),
        r1 matches Err(ResponseError::Parse(_)) ==> r2 matches Err(ResponseError::Parse(_)),
{
}

/// Law: the error decode runs only on error-classified responses. Under a
/// success classification the outcome is never an API error — bytes that do
/// not decode surface as a parse error — and an API error outcome means the
/// response was classified as an error.
pub proof fn lemma_api_error_needs_error_classification<T: IsOk + FromJson>(
    status: u16,
    b: Seq<u8>,
    r: Result<T, ResponseError>,
)
    requires
        decode_outcome_matches(status, b, r),
    ensures
        T::classified(status, b) == Some(true) ==> !(r matches Err(ResponseError::Api(_))),
        (r matches Err(ResponseError::Api(_))) ==> T::classified(status, b) == Some(false),
        T::classified(status, b) == Some(true) && T::decoded(b) is None ==> r matches Err(
            ResponseError::Parse(_),
        ),
{
}

/// Law: decoding buffered bytes is idempotent. The decode is a function of
/// the bytes alone, so two decode attempts against the same buffered bytes
/// return the same success value, or both fail.
pub proof fn lemma_buffered_decode_deterministic<T: FromJson>(
    b: Seq<u8>,
    r1: Result<T, ParseResponseError>,
    r2: Result<T, ParseResponseError>,
)
    requires
        (match T::decoded(b) {
            Some(v) => r1 matches Ok(got) && got == v,
            None => r1 is Err,
        }),
        (match T::decoded(b) {
            Some(v) => r2 matches Ok(got) && got == v,
            None => r2 is Err,
        }),
    ensures
        r1 is Ok ==> r1 == r2,
        r1 is Err ==> r2 is Err,
{
}

/// A parser that separates taking a response type from the readable body
/// type.
pub struct Parse<T> {
    _marker: core::marker::PhantomData<T>,
}

/// Try parse a http response into a concrete type.
pub fn parse<T: IsOk + FromJson>() -> Parse<T> {
    Parse { _marker: core::marker::PhantomData }
}

impl<T: IsOk + FromJson> Parse<T> {
    /// Try parse a contiguous slice of bytes into a concrete response.
    pub fn from_slice(self, status: u16, body: Vec<u8>) -> (r: Result<T, ResponseError>)
        ensures
            decode_outcome_matches(status, body@, r),
    {
        from_body(HttpResponseHead::from(status), SliceBody(body))
    }

    /// Try parse an arbitrary reader into a concrete response.
    ///
    /// The reader is single-pass: it is drained at most once, and every
    /// outcome other than a parse error (which may also stem from a
    /// transport failure) is the outcome owed for the bytes the reader
    /// yielded.
    pub fn from_reader<B: std::io::Read>(self, status: u16, body: B) -> (r: Result<
        T,
        ResponseError,
    >)
        ensures
            !(r matches Err(ResponseError::Parse(_))) ==> exists|b: Seq<u8>|
                #[trigger] decode_outcome_matches(status, b, r),
    {
        from_body(HttpResponseHead::from(status), ReadBody(move || read_all(body)))
    }
}

} // verus!
