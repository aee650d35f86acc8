//! Body codecs: what turns a value into the bytes of a request body, and the
//! bytes of a response body into a value.

use crate::multipart::{
    ascii_text, data_from_multipart, fresh_boundary, generated_boundary,
    get_content_type_from_multipart_boundary, lemma_generated_boundary_is_text, multipart_body,
    multipart_content_type, FormData, MultipartError,
};
use serde::de::DeserializeOwned;
use serde::Serialize;
use std::marker::PhantomData;
use std::sync::Arc;
use vstd::prelude::*;
use vstd::utf8::{decode_utf8, valid_utf8};

verus! {

/// The error of `serde_json::to_vec` and `serde_json::from_slice`, held as it comes.
#[verifier::external_type_specification]
#[verifier::external_body]
pub struct ExJsonError(serde_json::Error);

/// Why a value could not be turned into a request body.
#[derive(Debug)]
pub enum EncodeError {
    /// `serde_json` could not write the value.
    Json(serde_json::Error),
    /// The form could not be written out.
    Multipart(MultipartError),
    /// A codec of the caller's failed.
    Other(String),
}

/// Why the bytes of a response body could not be turned into a value.
#[derive(Debug)]
pub enum DecodeError {
    /// `serde_json` could not read a value of the expected type from the bytes.
    Json(serde_json::Error),
    /// A codec of the caller's failed.
    Other(String),
}

/// Turns a value into a request body.
pub trait BodySerializer<T, B> {
    fn encode(&self, origin: T) -> Result<B, EncodeError>;
}

/// Turns the bytes of a response body into a value.
pub trait BodyDeserializer<R> {
    fn decode(&self, bytes: &Vec<u8>) -> Result<Box<R>, DecodeError>;
}

/// Whether `serializer`, given `origin`, may come back with `outcome`.
pub open spec fn encodes<T, B, S: BodySerializer<T, B>>(
    serializer: S,
    origin: T,
    outcome: Result<B, EncodeError>,
) -> bool {
    call_ensures(S::encode, (&serializer, origin), outcome)
}

/// Whether `deserializer`, given `bytes`, may come back with `outcome`.
pub open spec fn decodes<R, D: BodyDeserializer<R>>(
    deserializer: D,
    bytes: Vec<u8>,
    outcome: Result<Box<R>, DecodeError>,
) -> bool {
    call_ensures(D::decode, (&deserializer, &bytes), outcome)
}

/// Writes `origin` out with `serializer`, whichever it is.
pub fn encode_with<T, B, S: BodySerializer<T, B>>(serializer: &S, origin: T) -> (r: Result<
    B,
    EncodeError,
>)
    ensures
        encodes(*serializer, origin, r),
{
    serializer.encode(origin)
}

/// Reads `bytes` with `deserializer`, whichever it is.
pub fn decode_with<R, D: BodyDeserializer<R>>(deserializer: &D, bytes: &Vec<u8>) -> (r: Result<
    Box<R>,
    DecodeError,
>)
    ensures
        decodes(*deserializer, *bytes, r),
{
    deserializer.decode(bytes)
}

/// A shared serializer is a serializer: it does what the one it points to does.
impl<T, B, S: BodySerializer<T, B> + ?Sized> BodySerializer<T, B> for Arc<S> {
    fn encode(&self, origin: T) -> (r: Result<B, EncodeError>)
        ensures
            call_ensures(S::encode, (&**self, origin), r),
    {
        (**self).encode(origin)
    }
}

/// A shared deserializer is a deserializer: it does what the one it points to does.
impl<R, D: BodyDeserializer<R> + ?Sized> BodyDeserializer<R> for Arc<D> {
    fn decode(&self, bytes: &Vec<u8>) -> (r: Result<Box<R>, DecodeError>)
        ensures
            call_ensures(D::decode, (&**self, bytes), r),
    {
        (**self).decode(bytes)
    }
}

/// Hands bytes on as the body, unchanged.
#[derive(Debug, Clone, Copy)]
pub struct DummyBypassSerializerForBytes;

impl BodySerializer<Vec<u8>, Vec<u8>> for DummyBypassSerializerForBytes {
    fn encode(&self, origin: Vec<u8>) -> (r: Result<Vec<u8>, EncodeError>)
        ensures
            r == Ok::<Vec<u8>, EncodeError>(origin),
    {
        Ok(origin)
    }
}

/// Hands bytes on as the body, unchanged; as `DummyBypassSerializerForBytes` does.
#[derive(Debug, Clone, Copy)]
pub struct DummyBypassSerializer;

impl BodySerializer<Vec<u8>, Vec<u8>> for DummyBypassSerializer {
    fn encode(&self, origin: Vec<u8>) -> (r: Result<Vec<u8>, EncodeError>)
        ensures
            r == Ok::<Vec<u8>, EncodeError>(origin),
    {
        DEFAULT_DUMMY_BYPASS_SERIALIZER_FOR_BYTES.encode(origin)
    }
}

/// Hands the bytes of a response body on, unchanged.
#[derive(Debug, Clone, Copy)]
pub struct DummyBypassDeserializer;

impl BodyDeserializer<Vec<u8>> for DummyBypassDeserializer {
    fn decode(&self, bytes: &Vec<u8>) -> (r: Result<Box<Vec<u8>>, DecodeError>)
        ensures
            r matches Ok(body) && body@ == bytes@,
    {
        Ok(Box::new(bytes.clone()))
    }
}

/// What the multipart serializers make of `form` with the boundary `boundary`:
/// the content type that announces the boundary, and the body.
pub open spec fn multipart_encoding(form: Seq<(Seq<char>, Seq<char>)>, boundary: Seq<u8>) -> (
    Seq<char>,
    Seq<u8>,
) {
    (multipart_content_type(decode_utf8(boundary)), multipart_body(boundary, form))
}

/// Writes `form` out with the boundary `boundary`: the content type first, then
/// the body. It succeeds exactly when the boundary is UTF-8.
pub fn encode_multipart(form: &FormData, boundary: Vec<u8>) -> (r: Result<
    (String, Vec<u8>),
    EncodeError,
>)
    ensures
        match r {
            Ok(made) => valid_utf8(boundary@) && (made.0@, made.1@) == multipart_encoding(
                form@,
                boundary@,
            ),
            Err(e) => !valid_utf8(boundary@) && e matches EncodeError::Multipart(
                MultipartError::Boundary(_),
            ),
        },
{
    match data_from_multipart(form, &boundary) {
        Err(e) => Err(EncodeError::Multipart(e)),
        Ok(body) => match get_content_type_from_multipart_boundary(boundary) {
            Err(e) => Err(EncodeError::Multipart(e)),
            Ok(content_type) => Ok((content_type, body)),
        },
    }
}

/// Calls `serde_json::to_vec`. What it writes is decided by how the type of the
/// value implements `serde::Serialize`, so nothing is promised of it.
#[verifier::external_body]
fn json_to_vec<T: Serialize>(value: &T) -> Result<Vec<u8>, serde_json::Error> {
    serde_json::to_vec(value)
}

/// Calls `serde_json::from_slice`. What it reads is decided by how the type of the
/// value implements `serde::Deserialize`, so nothing is promised of it.
#[verifier::external_body]
fn json_from_slice<R: DeserializeOwned>(bytes: &[u8]) -> Result<R, serde_json::Error> {
    serde_json::from_slice(bytes)
}

/// Writes a value out as JSON.
#[derive(Debug, Clone, Copy)]
pub struct SerdeJsonSerializerForBytes;

impl SerdeJsonSerializerForBytes {
    /// Hands `origin` to `serde_json::to_vec` and returns the bytes that it
    /// wrote; where it fails, its error comes back as an encode error.
    pub fn encode<T: Serialize>(&self, origin: T) -> (r: Result<Vec<u8>, EncodeError>)
        ensures
            exists|outcome: Result<Vec<u8>, serde_json::Error>| #[trigger]
                json_writes(origin, outcome) && r == json_encoded(outcome),
            r is Err ==> r->Err_0 is Json,
    {
        let outcome = json_to_vec(&origin);
        proof {
            assert(json_writes(origin, outcome));
        }
        encoded_json(outcome)
    }
}

/// Writes a value out as JSON; as `SerdeJsonSerializerForBytes` does. In a
/// descriptor it stands as a `SerializerFunc`.
#[derive(Debug, Clone, Copy)]
pub struct SerdeJsonSerializer;

impl SerdeJsonSerializer {
    /// Hands `origin` to `serde_json::to_vec` and returns the bytes that it
    /// wrote; where it fails, its error comes back as an encode error.
    pub fn encode<T: Serialize>(&self, origin: T) -> (r: Result<Vec<u8>, EncodeError>)
        ensures
            exists|outcome: Result<Vec<u8>, serde_json::Error>| #[trigger]
                json_writes(origin, outcome) && r == json_encoded(outcome),
            r is Err ==> r->Err_0 is Json,
    {
        DEFAULT_SERDE_JSON_SERIALIZER_FOR_BYTES.encode(origin)
    }
}

/// Reads a value from JSON. In a descriptor it stands as a `DeserializerFunc`.
#[derive(Debug, Clone, Copy)]
pub struct SerdeJsonDeserializer;

impl SerdeJsonDeserializer {
    /// Hands `bytes` to `serde_json::from_slice` and returns the value of the
    /// type `R` that it read, in a box; where it fails, its error comes back as
    /// a decode error.
    pub fn decode<R: DeserializeOwned>(&self, bytes: &Vec<u8>) -> (r: Result<Box<R>, DecodeError>)
        ensures
            exists|outcome: Result<R, serde_json::Error>| #[trigger]
                json_reads(bytes@, outcome) && r == json_decoded(outcome),
            r is Err ==> r->Err_0 is Json,
    {
        let slice = bytes.as_slice();
        let outcome = json_from_slice::<R>(slice);
        proof {
            assert(slice@ == bytes@ && call_ensures(json_from_slice::<R>, (slice,), outcome));
            assert(json_reads(bytes@, outcome));
        }
        decoded_json(outcome)
    }
}

/// Whether `serde_json::to_vec`, handed `origin`, may come back with `outcome`.
/// Nothing is known of it but what a call shows.
pub closed spec fn json_writes<T: Serialize>(
    origin: T,
    outcome: Result<Vec<u8>, serde_json::Error>,
) -> bool {
    call_ensures(json_to_vec::<T>, (&origin,), outcome)
}

/// Whether `serde_json::from_slice`, handed the bytes `bytes` and asked for a
/// value of the type `R`, may come back with `outcome`. Nothing is known of it
/// but what a call shows.
pub closed spec fn json_reads<R: DeserializeOwned>(
    bytes: Seq<u8>,
    outcome: Result<R, serde_json::Error>,
) -> bool {
    exists|slice: &[u8]|
        slice@ == bytes && #[trigger] call_ensures(json_from_slice::<R>, (slice,), outcome)
}

/// What the JSON serializers return for what `serde_json` wrote: the bytes as
/// they are, or its error as an encode error.
pub open spec fn json_encoded(outcome: Result<Vec<u8>, serde_json::Error>) -> Result<
    Vec<u8>,
    EncodeError,
> {
    match outcome {
        Ok(bytes) => Ok(bytes),
        Err(e) => Err(EncodeError::Json(e)),
    }
}

/// What the JSON deserializer returns for what `serde_json` read: the value in a
/// box, or its error as a decode error.
pub open spec fn json_decoded<R>(outcome: Result<R, serde_json::Error>) -> Result<
    Box<R>,
    DecodeError,
> {
    match outcome {
        Ok(value) => Ok(Box::new(value)),
        Err(e) => Err(DecodeError::Json(e)),
    }
}

/// Turns what `serde_json` wrote into the result of a serializer.
pub fn encoded_json(outcome: Result<Vec<u8>, serde_json::Error>) -> (r: Result<
    Vec<u8>,
    EncodeError,
>)
    ensures
        r == json_encoded(outcome),
{
    match outcome {
        Ok(bytes) => Ok(bytes),
        Err(e) => Err(EncodeError::Json(e)),
    }
}

/// Turns what `serde_json` read into the result of a deserializer.
pub fn decoded_json<R>(outcome: Result<R, serde_json::Error>) -> (r: Result<Box<R>, DecodeError>)
    ensures
        r == json_decoded(outcome),
{
    match outcome {
        Ok(value) => Ok(Box::new(value)),
        Err(e) => Err(DecodeError::Json(e)),
    }
}

/// A serializer made of a function. It is how a codec that is written for
/// every type of some outside trait, as the JSON codecs are, becomes the
/// serializer of a descriptor: `SerializerFunc::new(|v| DEFAULT_SERDE_JSON_SERIALIZER.encode(v))`.
#[verifier::reject_recursive_types(T)]
#[verifier::reject_recursive_types(B)]
pub struct SerializerFunc<T, B, F: Fn(T) -> Result<B, EncodeError>> {
    func: F,
    of: PhantomData<(T, B)>,
}

impl<T, B, F: Fn(T) -> Result<B, EncodeError>> SerializerFunc<T, B, F> {
    #[verifier::type_invariant]
    spec fn accepts_every_value(&self) -> bool {
        forall|origin: T| call_requires(self.func, (origin,))
    }

    /// The function that the serializer applies.
    pub closed spec fn func(&self) -> F {
        self.func
    }

    /// A serializer that applies `func`.
    pub fn new(func: F) -> (r: Self)
        requires
            forall|origin: T| call_requires(func, (origin,)),
        ensures
            r.func() == func,
    {
        SerializerFunc { func, of: PhantomData }
    }
}

impl<T, B, F: Fn(T) -> Result<B, EncodeError>> BodySerializer<T, B> for SerializerFunc<T, B, F> {
    /// Applies the function to the value.
    fn encode(&self, origin: T) -> (r: Result<B, EncodeError>)
        ensures
            call_ensures(self.func(), (origin,), r),
    {
        proof {
            use_type_invariant(self);
        }
        (self.func)(origin)
    }
}

/// A deserializer made of a function: the counterpart of `SerializerFunc`.
#[verifier::reject_recursive_types(R)]
pub struct DeserializerFunc<R, F: Fn(&Vec<u8>) -> Result<Box<R>, DecodeError>> {
    func: F,
    of: PhantomData<R>,
}

impl<R, F: Fn(&Vec<u8>) -> Result<Box<R>, DecodeError>> DeserializerFunc<R, F> {
    #[verifier::type_invariant]
    spec fn accepts_all_bytes(&self) -> bool {
        forall|bytes: &Vec<u8>| call_requires(self.func, (bytes,))
    }

    /// The function that the deserializer applies.
    pub closed spec fn func(&self) -> F {
        self.func
    }

    /// A deserializer that applies `func`.
    pub fn new(func: F) -> (r: Self)
        requires
            forall|bytes: &Vec<u8>| call_requires(func, (bytes,)),
        ensures
            r.func() == func,
    {
        DeserializerFunc { func, of: PhantomData }
    }
}

impl<R, F: Fn(&Vec<u8>) -> Result<Box<R>, DecodeError>> BodyDeserializer<R> for DeserializerFunc<
    R,
    F,
> {
    /// Applies the function to the bytes.
    fn decode(&self, bytes: &Vec<u8>) -> (r: Result<Box<R>, DecodeError>)
        ensures
            call_ensures(self.func(), (bytes,), r),
    {
        proof {
            use_type_invariant(self);
        }
        (self.func)(bytes)
    }
}

/// Writes a form out as a multipart body, with a fresh boundary each time.
#[derive(Debug, Clone, Copy)]
pub struct MultipartSerializerForBytes;

impl BodySerializer<FormData, (String, Vec<u8>)> for MultipartSerializerForBytes {
    /// The content type and the body of `origin`, delimited by a boundary that
    /// `formdata` made for this call. A form of text fields can always be written.
    ///
    /// `formdata` panics where the clock stands before 1970 or the operating
    /// system gives no random bytes.
    fn encode(&self, origin: FormData) -> (r: Result<(String, Vec<u8>), EncodeError>)
        ensures
            r matches Ok(made) && exists|boundary: Seq<u8>| #[trigger]
                generated_boundary(boundary) && made.0@ == multipart_content_type(
                    ascii_text(boundary),
                ) && made.1@ == multipart_body(boundary, origin@),
    {
        let boundary = fresh_boundary();
        proof {
            lemma_generated_boundary_is_text(boundary@);
        }
        encode_multipart(&origin, boundary)
    }
}

/// Writes a form out as a multipart body; as `MultipartSerializerForBytes` does.
#[derive(Debug, Clone, Copy)]
pub struct MultipartSerializer;

impl BodySerializer<FormData, (String, Vec<u8>)> for MultipartSerializer {
    /// The content type and the body of `origin`, delimited by a boundary that
    /// `formdata` made for this call. A form of text fields can always be written.
    ///
    /// `formdata` panics where the clock stands before 1970 or the operating
    /// system gives no random bytes.
    fn encode(&self, origin: FormData) -> (r: Result<(String, Vec<u8>), EncodeError>)
        ensures
            r matches Ok(made) && exists|boundary: Seq<u8>| #[trigger]
                generated_boundary(boundary) && made.0@ == multipart_content_type(
                    ascii_text(boundary),
                ) && made.1@ == multipart_body(boundary, origin@),
    {
        DEFAULT_MULTIPART_SERIALIZER_FOR_BYTES.encode(origin)
    }
}

pub const DEFAULT_DUMMY_BYPASS_SERIALIZER_FOR_BYTES: DummyBypassSerializerForBytes =
    DummyBypassSerializerForBytes;

pub const DEFAULT_DUMMY_BYPASS_SERIALIZER: DummyBypassSerializer = DummyBypassSerializer;

pub const DEFAULT_DUMMY_BYPASS_DESERIALIZER: DummyBypassDeserializer = DummyBypassDeserializer;

pub const DEFAULT_MULTIPART_SERIALIZER_FOR_BYTES: MultipartSerializerForBytes =
    MultipartSerializerForBytes;

pub const DEFAULT_MULTIPART_SERIALIZER: MultipartSerializer = MultipartSerializer;

pub const DEFAULT_SERDE_JSON_SERIALIZER_FOR_BYTES: SerdeJsonSerializerForBytes =
    SerdeJsonSerializerForBytes;

pub const DEFAULT_SERDE_JSON_SERIALIZER: SerdeJsonSerializer = SerdeJsonSerializer;

pub const DEFAULT_SERDE_JSON_DESERIALIZER: SerdeJsonDeserializer = SerdeJsonDeserializer;

} // verus!
