//! Endpoint descriptors: a call described once, by its method, its URL template
//! and its codecs, and made many times.

use crate::codec::{encode_with, BodyDeserializer, BodySerializer};
use crate::common::{Pairs, PathParam, QueryParam};
use crate::header::HeaderSet;
use crate::request::{Request, TransportResult};
use crate::simple_api::{
    answer_with, answered, called, content, encode_outcome, header_content, ApiError, SimpleAPI,
};
use crate::simple_http::{BaseClient, Interceptor};
use std::marker::PhantomData;
use std::sync::Arc;
use vstd::prelude::*;

verus! {

/// What a call of a descriptor may come back with, the body of the request
/// being written: what the call through `api` fetched, read with `deserializer`.
pub open spec fn fetched_and_answered<
    R,
    D: BodyDeserializer<R>,
    C: BaseClient<Request, TransportResult>,
    I: Interceptor<Request>,
>(
    api: SimpleAPI<C, I>,
    deserializer: D,
    method: Seq<char>,
    header: Option<Pairs>,
    relative: Seq<char>,
    content_type: Seq<char>,
    path: Option<Pairs>,
    query: Option<Pairs>,
    body: Seq<u8>,
    result: Result<Box<R>, ApiError>,
) -> bool {
    exists|fetched: Result<Box<Vec<u8>>, ApiError>| #[trigger]
        called(api, method, header, relative, content_type, path, query, body, fetched)
            && answered(deserializer, fetched, result)
}

/// The description of a call that sends no body.
#[verifier::reject_recursive_types(R)]
pub struct APINoBody<R, D, C, I> {
    pub base: Arc<SimpleAPI<C, I>>,
    pub method: String,
    pub relative_url: String,
    pub content_type: String,
    pub response_deserializer: D,
    pub returns: PhantomData<R>,
}

impl<
    R,
    D: BodyDeserializer<R>,
    C: BaseClient<Request, TransportResult>,
    I: Interceptor<Request>,
> APINoBody<R, D, C, I> {
    /// Makes the call with no header of its own and no query.
    pub fn call(&self, path_param: Option<PathParam>) -> (r: Result<Box<R>, ApiError>)
        ensures
            fetched_and_answered(
                *self.base,
                self.response_deserializer,
                self.method@,
                None,
                self.relative_url@,
                self.content_type@,
                content(path_param),
                None,
                Seq::<u8>::empty(),
                r,
            ),
    {
        self.call_with_options(None, path_param, None)
    }

    /// Makes the call: an empty body is sent, and the body of the response is
    /// read with the deserializer.
    pub fn call_with_options(
        &self,
        header: Option<HeaderSet>,
        path_param: Option<PathParam>,
        query_param: Option<QueryParam>,
    ) -> (r: Result<Box<R>, ApiError>)
        ensures
            fetched_and_answered(
                *self.base,
                self.response_deserializer,
                self.method@,
                header_content(header),
                self.relative_url@,
                self.content_type@,
                content(path_param),
                content(query_param),
                Seq::<u8>::empty(),
                r,
            ),
    {
        let fetched = self.base._call_common(
            self.method.clone(),
            header,
            self.relative_url.clone(),
            self.content_type.clone(),
            path_param,
            query_param,
            Vec::new(),
        );
        answer_with(&self.response_deserializer, fetched)
    }
}

/// The description of a call that sends no body and takes no path parameters.
#[verifier::reject_recursive_types(R)]
pub struct APIResponseOnly<R, D, C, I>(pub APINoBody<R, D, C, I>);

impl<
    R,
    D: BodyDeserializer<R>,
    C: BaseClient<Request, TransportResult>,
    I: Interceptor<Request>,
> APIResponseOnly<R, D, C, I> {
    /// Makes the call with no header of its own and no query.
    pub fn call(&self) -> (r: Result<Box<R>, ApiError>)
        ensures
            fetched_and_answered(
                *self.0.base,
                self.0.response_deserializer,
                self.0.method@,
                None,
                self.0.relative_url@,
                self.0.content_type@,
                None,
                None,
                Seq::<u8>::empty(),
                r,
            ),
    {
        self.call_with_options(None, None)
    }

    /// Makes the call.
    pub fn call_with_options(&self, header: Option<HeaderSet>, query_param: Option<QueryParam>) -> (r:
        Result<Box<R>, ApiError>)
        ensures
            fetched_and_answered(
                *self.0.base,
                self.0.response_deserializer,
                self.0.method@,
                header_content(header),
                self.0.relative_url@,
                self.0.content_type@,
                None,
                content(query_param),
                Seq::<u8>::empty(),
                r,
            ),
    {
        self.0.call_with_options(header, None, query_param)
    }
}

/// The description of a call that sends a value as its body.
#[verifier::reject_recursive_types(T)]
#[verifier::reject_recursive_types(R)]
pub struct APIHasBody<T, R, S, D, C, I> {
    pub base: Arc<SimpleAPI<C, I>>,
    pub method: String,
    pub relative_url: String,
    pub content_type: String,
    pub request_serializer: S,
    pub response_deserializer: D,
    pub carries: PhantomData<(T, R)>,
}

impl<
    T,
    R,
    S: BodySerializer<T, Vec<u8>>,
    D: BodyDeserializer<R>,
    C: BaseClient<Request, TransportResult>,
    I: Interceptor<Request>,
> APIHasBody<T, R, S, D, C, I> {
    /// Makes the call with no header of its own and no query.
    pub fn call(&self, path_param: Option<PathParam>, sent_body: T) -> (r: Result<Box<R>, ApiError>)
        ensures
            encode_outcome(
                self.request_serializer,
                sent_body,
                r,
                |body: Vec<u8>, answer: Result<Box<R>, ApiError>|
                    fetched_and_answered(
                        *self.base,
                        self.response_deserializer,
                        self.method@,
                        None,
                        self.relative_url@,
                        self.content_type@,
                        content(path_param),
                        None,
                        body@,
                        answer,
                    ),
            ),
    {
        self.call_with_options(None, path_param, None, sent_body)
    }

    /// Makes the call: the value is written out with the serializer, sent under
    /// the content type of the descriptor, and the body of the response is read
    /// with the deserializer. Where the serializer fails nothing is sent.
    pub fn call_with_options(
        &self,
        header: Option<HeaderSet>,
        path_param: Option<PathParam>,
        query_param: Option<QueryParam>,
        sent_body: T,
    ) -> (r: Result<Box<R>, ApiError>)
        ensures
            encode_outcome(
                self.request_serializer,
                sent_body,
                r,
                |body: Vec<u8>, answer: Result<Box<R>, ApiError>|
                    fetched_and_answered(
                        *self.base,
                        self.response_deserializer,
                        self.method@,
                        header_content(header),
                        self.relative_url@,
                        self.content_type@,
                        content(path_param),
                        content(query_param),
                        body@,
                        answer,
                    ),
            ),
    {
        match encode_with(&self.request_serializer, sent_body) {
            Err(e) => Err(ApiError::Encode(e)),
            Ok(body) => {
                let fetched = self.base._call_common(
                    self.method.clone(),
                    header,
                    self.relative_url.clone(),
                    self.content_type.clone(),
                    path_param,
                    query_param,
                    body,
                );
                answer_with(&self.response_deserializer, fetched)
            },
        }
    }
}

/// The description of a call that sends a form as a multipart body.
#[verifier::reject_recursive_types(T)]
#[verifier::reject_recursive_types(R)]
pub struct APIMultipart<T, R, S, D, C, I> {
    pub base: Arc<SimpleAPI<C, I>>,
    pub method: String,
    pub relative_url: String,
    pub request_serializer: S,
    pub response_deserializer: D,
    pub carries: PhantomData<(T, R)>,
}

impl<
    T,
    R,
    S: BodySerializer<T, (String, Vec<u8>)>,
    D: BodyDeserializer<R>,
    C: BaseClient<Request, TransportResult>,
    I: Interceptor<Request>,
> APIMultipart<T, R, S, D, C, I> {
    /// Makes the call with no header of its own and no query.
    pub fn call(&self, path_param: Option<PathParam>, sent_body: T) -> (r: Result<Box<R>, ApiError>)
        ensures
            encode_outcome(
                self.request_serializer,
                sent_body,
                r,
                |made: (String, Vec<u8>), answer: Result<Box<R>, ApiError>|
                    fetched_and_answered(
                        *self.base,
                        self.response_deserializer,
                        self.method@,
                        None,
                        self.relative_url@,
                        made.0@,
                        content(path_param),
                        None,
                        made.1@,
                        answer,
                    ),
            ),
    {
        self.call_with_options(None, path_param, None, sent_body)
    }

    /// Makes the call: the form is written out with the serializer, which also
    /// gives the content type that announces the boundary; both are sent, and
    /// the body of the response is read with the deserializer. Where the
    /// serializer fails nothing is sent.
    pub fn call_with_options(
        &self,
        header: Option<HeaderSet>,
        path_param: Option<PathParam>,
        query_param: Option<QueryParam>,
        sent_body: T,
    ) -> (r: Result<Box<R>, ApiError>)
        ensures
            encode_outcome(
                self.request_serializer,
                sent_body,
                r,
                |made: (String, Vec<u8>), answer: Result<Box<R>, ApiError>|
                    fetched_and_answered(
                        *self.base,
                        self.response_deserializer,
                        self.method@,
                        header_content(header),
                        self.relative_url@,
                        made.0@,
                        content(path_param),
                        content(query_param),
                        made.1@,
                        answer,
                    ),
            ),
    {
        match encode_with(&self.request_serializer, sent_body) {
            Err(e) => Err(ApiError::Encode(e)),
            Ok(made) => {
                let fetched = self.base._call_common(
                    self.method.clone(),
                    header,
                    self.relative_url.clone(),
                    made.0,
                    path_param,
                    query_param,
                    made.1,
                );
                answer_with(&self.response_deserializer, fetched)
            },
        }
    }
}

} // verus!
