//! The API client: a base URL, default headers and a dispatcher, and the
//! construction of requests from URL templates.

use crate::codec::{
    decode_with, decodes, encode_with, encodes, BodyDeserializer, BodySerializer, DecodeError,
    EncodeError, DEFAULT_MULTIPART_SERIALIZER,
};
use crate::common::{written, Pairs, PathParam, QueryParam, TextMap};
use crate::header::{content_type_name, legal_header_value, merged, HeaderError, HeaderSet};
use crate::locator::{
    append_query, queried, resolve, resolved, sendable, uri_accepts, UrlError, UrlFailure,
};
use crate::multipart::FormData;
use crate::request::{Request, RequestView, TransportError, TransportResult};
use crate::simple_http::{
    dispatched, effective_timeout, BaseClient, DispatchError, Interceptor, InterceptorError,
    InterceptorFunc, SimpleHTTP, SimpleHTTPResponse,
};
use crate::endpoint::{APIHasBody, APIMultipart, APINoBody, APIResponseOnly};
use crate::ident::{advanced, id_text};
use crate::template::{compose_query, query_text, substitute, substituted};
use std::marker::PhantomData;
use std::sync::Arc;
use vstd::prelude::*;

verus! {

/// Why a call did not come back with a value. Each stage of a call fails with
/// a kind of its own.
#[derive(Debug)]
pub enum ApiError {
    /// No locator could be made of the base URL, the template and the parameters.
    Url(UrlError),
    /// A header was refused.
    Header(HeaderError),
    /// The body could not be written; nothing was sent.
    Encode(EncodeError),
    /// An interceptor failed; nothing was sent.
    Interceptor(InterceptorError),
    /// The transport failed.
    Transport(TransportError),
    /// The transport did not answer within the time allowed.
    Timeout,
    /// The body of the response could not be read.
    Decode(DecodeError),
}

/// Why no request could be built.
pub enum BuildFailure {
    /// No locator could be made.
    Url(UrlFailure),
    /// The content type is no legal header value.
    ContentType,
}

impl ApiError {
    /// The failure to build a request that the error stands for, if it stands for one.
    pub open spec fn build_failure(self) -> Option<BuildFailure> {
        match self {
            ApiError::Url(e) => Some(BuildFailure::Url(e.kind())),
            ApiError::Header(HeaderError::Value(_)) => Some(BuildFailure::ContentType),
            _ => None,
        }
    }
}

/// The content of a map that may be absent.
pub open spec fn content(map: Option<TextMap>) -> Option<Pairs> {
    match map {
        Some(m) => Some(m@),
        None => None,
    }
}

/// The content of a header set that may be absent.
pub open spec fn header_content(headers: Option<HeaderSet>) -> Option<Pairs> {
    match headers {
        Some(h) => Some(h@),
        None => None,
    }
}

/// The locator of a request: the placeholders of `relative` are filled from
/// `path`, the result is resolved against `base`, the parameters of `query`,
/// if there are any, are appended to the query string, and what comes out has
/// to be a URI that can be sent.
pub open spec fn request_url(
    base: Seq<char>,
    relative: Seq<char>,
    path: Option<Pairs>,
    query: Option<Pairs>,
) -> Result<Seq<char>, UrlFailure> {
    let reference = match path {
        Some(params) => substituted(relative, params),
        None => relative,
    };
    match resolved(base, reference) {
        Err(failure) => Err(failure),
        Ok(url) => {
            let located = match query {
                Some(params) => if params.len() > 0 {
                    queried(url, query_text(params))
                } else {
                    Ok(url)
                },
                None => Ok(url),
            };
            match located {
                Ok(text) => if uri_accepts(text) {
                    Ok(text)
                } else {
                    Err(UrlFailure::Uri)
                },
                Err(failure) => Err(failure),
            }
        },
    }
}

/// The headers of a request: the default headers, and over them the content
/// type where one is given. `None` where the content type is no legal header value.
pub open spec fn request_headers(defaults: Option<Pairs>, content_type: Seq<char>) -> Option<
    Pairs,
> {
    let base = match defaults {
        Some(headers) => headers,
        None => Seq::<(Seq<char>, Seq<char>)>::empty(),
    };
    if content_type.len() == 0 {
        Some(base)
    } else if legal_header_value(content_type) {
        Some(written(base, content_type_name(), content_type))
    } else {
        None
    }
}

/// The request that is built from these parts, or why none is. A locator that
/// cannot be made is reported before a content type that cannot be set.
pub open spec fn built(
    base: Seq<char>,
    defaults: Option<Pairs>,
    method: Seq<char>,
    relative: Seq<char>,
    content_type: Seq<char>,
    path: Option<Pairs>,
    query: Option<Pairs>,
    body: Seq<u8>,
) -> Result<RequestView, BuildFailure> {
    match request_url(base, relative, path, query) {
        Err(failure) => Err(BuildFailure::Url(failure)),
        Ok(uri) => match request_headers(defaults, content_type) {
            None => Err(BuildFailure::ContentType),
            Some(headers) => Ok(RequestView { method, uri, headers, body }),
        },
    }
}

/// Makes the locator of a request.
pub fn locate(
    base_url: &str,
    relative_url: &str,
    path_param: &Option<PathParam>,
    query_param: &Option<QueryParam>,
) -> (r: Result<String, UrlError>)
    ensures
        match r {
            Ok(uri) => request_url(
                base_url@,
                relative_url@,
                content(*path_param),
                content(*query_param),
            ) == Ok::<Seq<char>, UrlFailure>(uri@),
            Err(e) => request_url(
                base_url@,
                relative_url@,
                content(*path_param),
                content(*query_param),
            ) == Err::<Seq<char>, UrlFailure>(e.kind()),
        },
{
    let reference = match path_param {
        Some(params) => substitute(relative_url, params),
        None => relative_url.to_owned(),
    };
    let url = match resolve(base_url, reference.as_str()) {
        Ok(url) => url,
        Err(e) => {
            return Err(e);
        },
    };
    let located = match query_param {
        Some(params) => if params.len() > 0 {
            let query = compose_query(params);
            match append_query(url.as_str(), query.as_str()) {
                Ok(text) => text,
                Err(e) => {
                    return Err(e);
                },
            }
        } else {
            url
        },
        None => url,
    };
    match sendable(located.as_str()) {
        Ok(_) => Ok(located),
        Err(e) => Err(e),
    }
}

/// Makes the headers of a request.
pub fn headers_for(default_header: &Option<HeaderSet>, content_type: &str) -> (r: Result<
    HeaderSet,
    HeaderError,
>)
    ensures
        match r {
            Ok(headers) => request_headers(header_content(*default_header), content_type@)
                == Some(headers@),
            Err(e) => e is Value && request_headers(header_content(*default_header), content_type@)
                is None,
        },
{
    let mut headers = match default_header {
        Some(defaults) => defaults.clone(),
        None => HeaderSet::new(),
    };
    if content_type.is_empty() {
        return Ok(headers);
    }
    match headers.set_content_type(content_type) {
        Ok(_) => Ok(headers),
        Err(e) => Err(e),
    }
}

/// Builds a request.
pub fn build_request(
    base_url: &str,
    default_header: &Option<HeaderSet>,
    method: String,
    relative_url: &str,
    content_type: &str,
    path_param: &Option<PathParam>,
    query_param: &Option<QueryParam>,
    body: Vec<u8>,
) -> (r: Result<Request, ApiError>)
    ensures
        match r {
            Ok(request) => built(
                base_url@,
                header_content(*default_header),
                method@,
                relative_url@,
                content_type@,
                content(*path_param),
                content(*query_param),
                body@,
            ) == Ok::<RequestView, BuildFailure>(request@),
            Err(e) => e.build_failure() is Some && built(
                base_url@,
                header_content(*default_header),
                method@,
                relative_url@,
                content_type@,
                content(*path_param),
                content(*query_param),
                body@,
            ) == Err::<RequestView, BuildFailure>(e.build_failure().unwrap()),
        },
{
    let uri = match locate(base_url, relative_url, path_param, query_param) {
        Ok(uri) => uri,
        Err(e) => {
            return Err(ApiError::Url(e));
        },
    };
    let headers = match headers_for(default_header, content_type) {
        Ok(headers) => headers,
        Err(e) => {
            return Err(ApiError::Header(e));
        },
    };
    Ok(Request { method, uri, headers, body })
}

/// The request `view` with the headers of a call written over its own.
pub open spec fn with_call_headers(view: RequestView, header: Option<Pairs>) -> RequestView {
    match header {
        Some(over) => RequestView { headers: merged(view.headers, over), ..view },
        None => view,
    }
}

/// What a call hands back for the result of the dispatch: the body of the
/// response, or the error of the stage that failed.
pub open spec fn delivered(answer: SimpleHTTPResponse<TransportResult>) -> Result<
    Box<Vec<u8>>,
    ApiError,
> {
    match answer {
        Err(DispatchError::Interceptor(e)) => Err(ApiError::Interceptor(e)),
        Err(DispatchError::Timeout) => Err(ApiError::Timeout),
        Ok(Err(e)) => Err(ApiError::Transport(e)),
        Ok(Ok(response)) => Ok(Box::new(response.body)),
    }
}

/// Turns the result of the dispatch into the result of the call.
pub fn deliver(answer: SimpleHTTPResponse<TransportResult>) -> (r: Result<Box<Vec<u8>>, ApiError>)
    ensures
        r == delivered(answer),
{
    match answer {
        Err(DispatchError::Interceptor(e)) => Err(ApiError::Interceptor(e)),
        Err(DispatchError::Timeout) => Err(ApiError::Timeout),
        Ok(Err(e)) => Err(ApiError::Transport(e)),
        Ok(Ok(response)) => Ok(Box::new(response.body)),
    }
}

/// An API client: where the API lives, the headers that every request carries,
/// and the dispatcher that sends the requests.
pub struct SimpleAPI<C, I> {
    pub simple_http: SimpleHTTP<Request, TransportResult, C, I>,
    pub base_url: String,
    pub default_header: Option<HeaderSet>,
}

/// Whether `request` is the request that `api` builds from these parts, with
/// the headers of the call written over it.
pub open spec fn composed<C, I>(
    api: SimpleAPI<C, I>,
    method: Seq<char>,
    header: Option<Pairs>,
    relative: Seq<char>,
    content_type: Seq<char>,
    path: Option<Pairs>,
    query: Option<Pairs>,
    body: Seq<u8>,
    request: Request,
) -> bool {
    match built(
        api.base_url@,
        header_content(api.default_header),
        method,
        relative,
        content_type,
        path,
        query,
        body,
    ) {
        Ok(view) => request@ == with_call_headers(view, header),
        Err(_) => false,
    }
}

/// What a call through `api` may hand back: the failure to build the request;
/// or, for the request that was built, with the headers of the call written
/// over it, what the dispatch of that request delivers.
pub open spec fn called<C: BaseClient<Request, TransportResult>, I: Interceptor<Request>>(
    api: SimpleAPI<C, I>,
    method: Seq<char>,
    header: Option<Pairs>,
    relative: Seq<char>,
    content_type: Seq<char>,
    path: Option<Pairs>,
    query: Option<Pairs>,
    body: Seq<u8>,
    result: Result<Box<Vec<u8>>, ApiError>,
) -> bool {
    match built(
        api.base_url@,
        header_content(api.default_header),
        method,
        relative,
        content_type,
        path,
        query,
        body,
    ) {
        Err(failure) => result is Err && result->Err_0.build_failure() == Some(failure),
        Ok(_) => exists|request: Request, answer: SimpleHTTPResponse<TransportResult>|
            composed(api, method, header, relative, content_type, path, query, body, request)
                && #[trigger] dispatched(
                api.simple_http.interceptors@,
                api.simple_http.client,
                effective_timeout(api.simple_http.timeout_millisecond),
                request,
                answer,
            ) && result == delivered(answer),
    }
}

/// What a stage that first writes `origin` out with `serializer` may end in:
/// the error of the serializer, as an encode error, nothing else having been
/// done; or, for what the serializer made, a result that `then` admits.
pub open spec fn encode_outcome<T, B, S: BodySerializer<T, B>, V>(
    serializer: S,
    origin: T,
    result: Result<V, ApiError>,
    then: spec_fn(B, Result<V, ApiError>) -> bool,
) -> bool {
    exists|encoded: Result<B, EncodeError>| #[trigger]
        encodes(serializer, origin, encoded) && match encoded {
            Err(e) => result == Err::<V, ApiError>(ApiError::Encode(e)),
            Ok(made) => then(made, result),
        }
}

/// What the last stage of a call makes of what was fetched: an error is handed
/// on; the bytes of the response are read with `deserializer`, and where that
/// fails the call fails with a decode error.
pub open spec fn answered<R, D: BodyDeserializer<R>>(
    deserializer: D,
    fetched: Result<Box<Vec<u8>>, ApiError>,
    result: Result<Box<R>, ApiError>,
) -> bool {
    match fetched {
        Err(e) => result == Err::<Box<R>, ApiError>(e),
        Ok(bytes) => exists|decoded: Result<Box<R>, DecodeError>| #[trigger]
            decodes(deserializer, *bytes, decoded) && result == (match decoded {
                Ok(value) => Ok::<Box<R>, ApiError>(value),
                Err(e) => Err::<Box<R>, ApiError>(ApiError::Decode(e)),
            }),
    }
}

/// Reads what was fetched with `deserializer`.
pub fn answer_with<R, D: BodyDeserializer<R>>(
    deserializer: &D,
    fetched: Result<Box<Vec<u8>>, ApiError>,
) -> (r: Result<Box<R>, ApiError>)
    ensures
        answered(*deserializer, fetched, r),
{
    match fetched {
        Err(e) => Err(e),
        Ok(bytes) => match decode_with(deserializer, &*bytes) {
            Ok(value) => Ok(value),
            Err(e) => Err(ApiError::Decode(e)),
        },
    }
}

impl<C: BaseClient<Request, TransportResult>, I: Interceptor<Request>> SimpleAPI<C, I> {
    /// An API client at `base_url`, without default headers.
    pub fn new_with_options(
        simple_http: SimpleHTTP<Request, TransportResult, C, I>,
        base_url: String,
    ) -> (r: Self)
        ensures
            r.simple_http == simple_http,
            r.base_url == base_url,
            r.default_header is None,
    {
        SimpleAPI { simple_http, base_url, default_header: None }
    }

    pub fn set_base_url(&mut self, url: String)
        ensures
            final(self).base_url == url,
            final(self).simple_http == old(self).simple_http,
            final(self).default_header == old(self).default_header,
    {
        self.base_url = url;
    }

    pub fn get_base_url(&self) -> (r: String)
        ensures
            r@ == self.base_url@,
    {
        self.base_url.clone()
    }

    pub fn set_default_header(&mut self, header: Option<HeaderSet>)
        ensures
            final(self).default_header == header,
            final(self).simple_http == old(self).simple_http,
            final(self).base_url == old(self).base_url,
    {
        self.default_header = header;
    }

    pub fn get_default_header(&self) -> (r: Option<HeaderSet>)
        ensures
            header_content(r) == header_content(self.default_header),
    {
        match &self.default_header {
            Some(headers) => Some(headers.clone()),
            None => None,
        }
    }

    pub fn set_client(&mut self, client: C)
        ensures
            final(self).simple_http.client == client,
            final(self).simple_http.interceptors == old(self).simple_http.interceptors,
            final(self).simple_http.timeout_millisecond == old(self).simple_http.timeout_millisecond,
            final(self).simple_http.ids == old(self).simple_http.ids,
            final(self).base_url == old(self).base_url,
            final(self).default_header == old(self).default_header,
    {
        self.simple_http.set_client(client);
    }

    pub fn set_timeout_millisecond(&mut self, timeout_millisecond: u64)
        ensures
            final(self).simple_http.timeout_millisecond == timeout_millisecond,
            final(self).simple_http.ids == old(self).simple_http.ids,
            final(self).simple_http.client == old(self).simple_http.client,
            final(self).simple_http.interceptors == old(self).simple_http.interceptors,
            final(self).base_url == old(self).base_url,
            final(self).default_header == old(self).default_header,
    {
        self.simple_http.timeout_millisecond = timeout_millisecond;
    }

    /// The timeout as it was configured; zero stands for the default.
    pub fn get_timeout_millisecond(&self) -> (r: u64)
        ensures
            r == self.simple_http.timeout_millisecond,
    {
        self.simple_http.timeout_millisecond
    }

    /// Puts `interceptor` at the end of the chain.
    pub fn add_interceptor(&mut self, interceptor: I)
        ensures
            final(self).simple_http.interceptors@ == old(self).simple_http.interceptors@.push(
                interceptor,
            ),
            final(self).simple_http.client == old(self).simple_http.client,
            final(self).simple_http.timeout_millisecond == old(self).simple_http.timeout_millisecond,
            final(self).simple_http.ids == old(self).simple_http.ids,
            final(self).base_url == old(self).base_url,
            final(self).default_header == old(self).default_header,
    {
        self.simple_http.add_interceptor(interceptor);
    }

    /// Puts `interceptor` at the front of the chain.
    pub fn add_interceptor_front(&mut self, interceptor: I)
        ensures
            final(self).simple_http.interceptors@ == seq![interceptor] + old(
                self,
            ).simple_http.interceptors@,
            final(self).simple_http.client == old(self).simple_http.client,
            final(self).simple_http.timeout_millisecond == old(self).simple_http.timeout_millisecond,
            final(self).simple_http.ids == old(self).simple_http.ids,
            final(self).base_url == old(self).base_url,
            final(self).default_header == old(self).default_header,
    {
        self.simple_http.add_interceptor_front(interceptor);
    }

    /// Takes the first interceptor that gives the identifier of `interceptor` out of the chain.
    pub fn delete_interceptor(&mut self, interceptor: I)
        ensures
            exists|id: Seq<char>| #[trigger]
                crate::simple_http::has_id::<Request, I>(interceptor, id)
                    && crate::simple_http::deleted::<Request, I>(
                    old(self).simple_http.interceptors@,
                    id,
                    final(self).simple_http.interceptors@,
                ),
            final(self).simple_http.client == old(self).simple_http.client,
            final(self).simple_http.timeout_millisecond == old(self).simple_http.timeout_millisecond,
            final(self).simple_http.ids == old(self).simple_http.ids,
            final(self).base_url == old(self).base_url,
            final(self).default_header == old(self).default_header,
    {
        self.simple_http.delete_interceptor(interceptor);
    }

    /// Builds the request for `relative_url`, read as a template against the base
    /// URL, with the default headers and, where `content_type` is not empty, that
    /// content type.
    pub fn make_request(
        &self,
        method: String,
        relative_url: String,
        content_type: String,
        path_param: Option<PathParam>,
        query_param: Option<QueryParam>,
        body: Vec<u8>,
    ) -> (r: Result<Request, ApiError>)
        ensures
            match r {
                Ok(request) => built(
                    self.base_url@,
                    header_content(self.default_header),
                    method@,
                    relative_url@,
                    content_type@,
                    content(path_param),
                    content(query_param),
                    body@,
                ) == Ok::<RequestView, BuildFailure>(request@),
                Err(e) => e.build_failure() is Some && built(
                    self.base_url@,
                    header_content(self.default_header),
                    method@,
                    relative_url@,
                    content_type@,
                    content(path_param),
                    content(query_param),
                    body@,
                ) == Err::<RequestView, BuildFailure>(e.build_failure().unwrap()),
            },
    {
        build_request(
            self.base_url.as_str(),
            &self.default_header,
            method,
            relative_url.as_str(),
            content_type.as_str(),
            &path_param,
            &query_param,
            body,
        )
    }

    /// Builds the request of a call: the request that `make_request` builds,
    /// with the headers of the call written over its own.
    pub fn compose(
        &self,
        method: String,
        header: Option<HeaderSet>,
        relative_url: String,
        content_type: String,
        path_param: Option<PathParam>,
        query_param: Option<QueryParam>,
        body: Vec<u8>,
    ) -> (r: Result<Request, ApiError>)
        ensures
            match r {
                Ok(request) => composed(
                    *self,
                    method@,
                    header_content(header),
                    relative_url@,
                    content_type@,
                    content(path_param),
                    content(query_param),
                    body@,
                    request,
                ),
                Err(e) => e.build_failure() is Some && built(
                    self.base_url@,
                    header_content(self.default_header),
                    method@,
                    relative_url@,
                    content_type@,
                    content(path_param),
                    content(query_param),
                    body@,
                ) == Err::<RequestView, BuildFailure>(e.build_failure().unwrap()),
            },
    {
        let mut request = match self.make_request(
            method,
            relative_url,
            content_type,
            path_param,
            query_param,
            body,
        ) {
            Ok(request) => request,
            Err(e) => {
                return Err(e);
            },
        };
        match &header {
            Some(over) => {
                request.headers.merge(over);
            },
            None => {},
        }
        Ok(request)
    }

    /// Makes one call: builds the request, writes the headers of the call over
    /// it, dispatches it, and hands back the body of the response.
    pub fn _call_common(
        &self,
        method: String,
        header: Option<HeaderSet>,
        relative_url: String,
        content_type: String,
        path_param: Option<PathParam>,
        query_param: Option<QueryParam>,
        body: Vec<u8>,
    ) -> (r: Result<Box<Vec<u8>>, ApiError>)
        ensures
            called(
                *self,
                method@,
                header_content(header),
                relative_url@,
                content_type@,
                content(path_param),
                content(query_param),
                body@,
                r,
            ),
    {
        let request = match self.compose(
            method,
            header,
            relative_url,
            content_type,
            path_param,
            query_param,
            body,
        ) {
            Ok(request) => request,
            Err(e) => {
                return Err(e);
            },
        };
        let answer = self.simple_http.request(request);
        let r = deliver(answer);
        proof {
            assert(composed(
                *self,
                method@,
                header_content(header),
                relative_url@,
                content_type@,
                content(path_param),
                content(query_param),
                body@,
                request,
            ) && dispatched(
                self.simple_http.interceptors@,
                self.simple_http.client,
                effective_timeout(self.simple_http.timeout_millisecond),
                request,
                answer,
            ) && r == delivered(answer));
        }
        r
    }

    /// Makes one call with a body that is already written.
    pub fn do_request(
        &self,
        method: String,
        header: Option<HeaderSet>,
        relative_url: String,
        content_type: String,
        path_param: Option<PathParam>,
        query_param: Option<QueryParam>,
        body: Vec<u8>,
    ) -> (r: Result<Box<Vec<u8>>, ApiError>)
        ensures
            called(
                *self,
                method@,
                header_content(header),
                relative_url@,
                content_type@,
                content(path_param),
                content(query_param),
                body@,
                r,
            ),
    {
        self._call_common(method, header, relative_url, content_type, path_param, query_param, body)
    }

    /// Builds the request that sends `body` as a multipart form: the form is
    /// written out first, and the content type that announces its boundary
    /// becomes the content type of the request.
    pub fn make_request_multipart(
        &self,
        method: String,
        relative_url: String,
        path_param: Option<PathParam>,
        query_param: Option<QueryParam>,
        body: FormData,
    ) -> (r: Result<Request, ApiError>)
        ensures
            encode_outcome(
                DEFAULT_MULTIPART_SERIALIZER,
                body,
                r,
                |made: (String, Vec<u8>), built_request: Result<Request, ApiError>|
                    match built_request {
                        Ok(request) => built(
                            self.base_url@,
                            header_content(self.default_header),
                            method@,
                            relative_url@,
                            made.0@,
                            content(path_param),
                            content(query_param),
                            made.1@,
                        ) == Ok::<RequestView, BuildFailure>(request@),
                        Err(e) => e.build_failure() is Some && built(
                            self.base_url@,
                            header_content(self.default_header),
                            method@,
                            relative_url@,
                            made.0@,
                            content(path_param),
                            content(query_param),
                            made.1@,
                        ) == Err::<RequestView, BuildFailure>(e.build_failure().unwrap()),
                    },
            ),
    {
        match encode_with(&DEFAULT_MULTIPART_SERIALIZER, body) {
            Err(e) => Err(ApiError::Encode(e)),
            Ok(made) => {
                let r = self.make_request(
                    method,
                    relative_url,
                    made.0,
                    path_param,
                    query_param,
                    made.1,
                );
                r
            },
        }
    }

    /// Makes one call that sends `body` as a multipart form.
    pub fn do_request_multipart(
        &self,
        method: String,
        header: Option<HeaderSet>,
        relative_url: String,
        path_param: Option<PathParam>,
        query_param: Option<QueryParam>,
        body: FormData,
    ) -> (r: Result<Box<Vec<u8>>, ApiError>)
        ensures
            encode_outcome(
                DEFAULT_MULTIPART_SERIALIZER,
                body,
                r,
                |made: (String, Vec<u8>), fetched: Result<Box<Vec<u8>>, ApiError>|
                    called(
                        *self,
                        method@,
                        header_content(header),
                        relative_url@,
                        made.0@,
                        content(path_param),
                        content(query_param),
                        made.1@,
                        fetched,
                    ),
            ),
    {
        match encode_with(&DEFAULT_MULTIPART_SERIALIZER, body) {
            Err(e) => Err(ApiError::Encode(e)),
            Ok(made) => {
                let r = self._call_common(
                    method,
                    header,
                    relative_url,
                    made.0,
                    path_param,
                    query_param,
                    made.1,
                );
                r
            },
        }
    }

    /// The bytes of a body: the body itself.
    pub fn body_to_bytes(&self, body: Vec<u8>) -> (r: Vec<u8>)
        ensures
            r == body,
    {
        body
    }
}

impl<C: BaseClient<Request, TransportResult>, I: Interceptor<Request>> SimpleAPI<C, I> {
    /// Describes a call that sends no body and takes no path parameters.
    pub fn make_api_response_only<R, D: BodyDeserializer<R>>(
        base: Arc<SimpleAPI<C, I>>,
        method: String,
        relative_url: String,
        response_deserializer: D,
        _return_type: &R,
    ) -> (r: APIResponseOnly<R, D, C, I>)
        ensures
            r.0.base == base,
            r.0.method == method,
            r.0.relative_url == relative_url,
            r.0.content_type@.len() == 0,
            r.0.response_deserializer == response_deserializer,
    {
        APIResponseOnly(
            Self::make_api_no_body(base, method, relative_url, response_deserializer, _return_type),
        )
    }

    /// Describes a call that sends no body. No content type is set.
    pub fn make_api_no_body<R, D: BodyDeserializer<R>>(
        base: Arc<SimpleAPI<C, I>>,
        method: String,
        relative_url: String,
        response_deserializer: D,
        _return_type: &R,
    ) -> (r: APINoBody<R, D, C, I>)
        ensures
            r.base == base,
            r.method == method,
            r.relative_url == relative_url,
            r.content_type@.len() == 0,
            r.response_deserializer == response_deserializer,
    {
        APINoBody {
            base,
            method,
            relative_url,
            content_type: String::new(),
            response_deserializer,
            returns: PhantomData,
        }
    }

    /// Describes a call that sends a value as its body, under `content_type`.
    pub fn make_api_has_body<T, R, S: BodySerializer<T, Vec<u8>>, D: BodyDeserializer<R>>(
        base: Arc<SimpleAPI<C, I>>,
        method: String,
        relative_url: String,
        content_type: String,
        request_serializer: S,
        response_deserializer: D,
        _return_type: &R,
    ) -> (r: APIHasBody<T, R, S, D, C, I>)
        ensures
            r.base == base,
            r.method == method,
            r.relative_url == relative_url,
            r.content_type == content_type,
            r.request_serializer == request_serializer,
            r.response_deserializer == response_deserializer,
    {
        APIHasBody {
            base,
            method,
            relative_url,
            content_type,
            request_serializer,
            response_deserializer,
            carries: PhantomData,
        }
    }

    /// Describes a call that sends a form as a multipart body.
    pub fn make_api_multipart<R, D: BodyDeserializer<R>>(
        base: Arc<SimpleAPI<C, I>>,
        method: String,
        relative_url: String,
        response_deserializer: D,
        _return_type: &R,
    ) -> (r: APIMultipart<FormData, R, crate::codec::MultipartSerializer, D, C, I>)
        ensures
            r.base == base,
            r.method == method,
            r.relative_url == relative_url,
            r.response_deserializer == response_deserializer,
    {
        APIMultipart {
            base,
            method,
            relative_url,
            request_serializer: DEFAULT_MULTIPART_SERIALIZER,
            response_deserializer,
            carries: PhantomData,
        }
    }
}

impl<
    C: BaseClient<Request, TransportResult>,
    F: Fn(Request) -> Result<Request, InterceptorError>,
> SimpleAPI<C, Arc<InterceptorFunc<Request, F>>> {
    /// Makes an interceptor of `func`, puts it at the end of the chain and hands it back.
    pub fn add_interceptor_fn(&mut self, func: F) -> (r: Arc<InterceptorFunc<Request, F>>)
        requires
            forall|request: Request| call_requires(func, (request,)),
        ensures
            r.func() == func,
            r.id() == id_text(old(self).simple_http.ids@),
            final(self).simple_http.ids@ == advanced(old(self).simple_http.ids@),
            final(self).simple_http.interceptors@ == old(self).simple_http.interceptors@.push(r),
            final(self).simple_http.client == old(self).simple_http.client,
            final(self).simple_http.timeout_millisecond == old(self).simple_http.timeout_millisecond,
            final(self).base_url == old(self).base_url,
            final(self).default_header == old(self).default_header,
    {
        self.simple_http.add_interceptor_fn(func)
    }
}

} // verus!
