//! Header sets: header names in their normal form mapped to header values,
//! with the rules of the `http` crate for what a name and a value may hold.

use crate::common::{keys_distinct, lemma_written, lookup, written, Pairs, TextMap};
use http::header::{HeaderName, HeaderValue, InvalidHeaderName, InvalidHeaderValue};
use vstd::prelude::*;
use vstd::string::StringExecFns;
use vstd::utf8::encode_utf8;

verus! {

/// The refusal of `http::header::HeaderName::from_bytes`, held as it comes.
#[verifier::external_type_specification]
#[verifier::external_body]
pub struct ExInvalidHeaderName(InvalidHeaderName);

/// The refusal of `http::header::HeaderValue::from_str`, held as it comes.
#[verifier::external_type_specification]
#[verifier::external_body]
pub struct ExInvalidHeaderValue(InvalidHeaderValue);

/// Why a header was refused.
#[derive(Debug)]
pub enum HeaderError {
    /// The name is no legal header name.
    Name(InvalidHeaderName),
    /// The value holds a byte that no header value may hold.
    Value(InvalidHeaderValue),
}

/// The bytes that a header value may hold: tab, and everything from the space on
/// but the delete character.
pub open spec fn legal_header_byte(b: u8) -> bool {
    (b >= 32 && b != 127) || b == 9
}

/// Whether every byte of `text`, in UTF-8, may stand in a header value.
pub open spec fn legal_header_value(text: Seq<char>) -> bool {
    forall|i: int|
        0 <= i < encode_utf8(text).len() ==> legal_header_byte(#[trigger] encode_utf8(text)[i])
}

/// The normal form that `http::header::HeaderName::from_bytes` gives a header name
/// (its lower-case spelling), or `None` where it refuses the name.
pub uninterp spec fn header_name_normal_form(name: Seq<char>) -> Option<Seq<char>>;

/// Calls `http::header::HeaderValue::from_str`, which scans the bytes of the string
/// and accepts it exactly when each of them is legal in a header value.
#[verifier::external_body]
fn check_header_value(value: &str) -> (r: Result<(), InvalidHeaderValue>)
    ensures
        r is Ok <==> legal_header_value(value@),
{
    HeaderValue::from_str(value).map(|_| ())
}

/// Calls `http::header::HeaderName::from_bytes` on the bytes of the string and hands
/// back the spelling of the name that it made, or its refusal.
#[verifier::external_body]
fn normalize_header_name(name: &str) -> (r: Result<String, InvalidHeaderName>)
    ensures
        match r {
            Ok(n) => header_name_normal_form(name@) == Some(n@),
            Err(_) => header_name_normal_form(name@) is None,
        },
{
    HeaderName::from_bytes(name.as_bytes()).map(|n| n.as_str().to_string())
}

/// The name of the header that says what kind of body a message has.
pub open spec fn content_type_name() -> Seq<char> {
    "content-type"@
}

/// The name of the header that carries credentials.
pub open spec fn authorization_name() -> Seq<char> {
    "authorization"@
}

/// The spelling of `http::header::CONTENT_TYPE`, which is `content-type`.
#[verifier::external_body]
fn content_type_header() -> (r: String)
    ensures
        r@ == content_type_name(),
{
    http::header::CONTENT_TYPE.as_str().to_string()
}

/// The spelling of `http::header::AUTHORIZATION`, which is `authorization`.
#[verifier::external_body]
fn authorization_header() -> (r: String)
    ensures
        r@ == authorization_name(),
{
    http::header::AUTHORIZATION.as_str().to_string()
}

/// `base` with the entries of `over` written over it, one after the other.
pub open spec fn merged(base: Pairs, over: Pairs) -> Pairs
    decreases over.len(),
{
    if over.len() == 0 {
        base
    } else {
        written(merged(base, over.drop_last()), over.last().0, over.last().1)
    }
}

/// Merging keeps the names distinct.
pub proof fn lemma_merged_distinct(base: Pairs, over: Pairs)
    requires
        keys_distinct(base),
    ensures
        keys_distinct(merged(base, over)),
    decreases over.len(),
{
    if over.len() > 0 {
        lemma_merged_distinct(base, over.drop_last());
        lemma_written(merged(base, over.drop_last()), over.last().0, over.last().1);
    }
}

/// A set of headers as this library sets them on a request. Each name occurs
/// once, in the normal form of the `http` crate, with one value, which is
/// text; the headers stand in the order in which their names were first set.
/// Setting a name again writes over its value. A header with several values,
/// or with a value that is no text, has no place in it.
///
/// It is no `http::HeaderMap`. That map hands its entries out in an order
/// that its documentation leaves open, and whether it takes one more entry
/// depends on its inner capacity, so that no contract over it could say when
/// a request is built. Names and values are held to that crate's rules here,
/// and the map itself is made where the request is sent.
#[derive(Debug)]
pub struct HeaderSet {
    map: TextMap,
}

impl View for HeaderSet {
    type V = Pairs;

    closed spec fn view(&self) -> Pairs {
        self.map@
    }
}

impl Clone for HeaderSet {
    /// A set with the same headers.
    fn clone(&self) -> (r: Self)
        ensures
            r@ == self@,
    {
        HeaderSet { map: self.map.clone() }
    }
}

impl HeaderSet {
    /// A set without headers.
    pub fn new() -> (r: Self)
        ensures
            r@ == Seq::<(Seq<char>, Seq<char>)>::empty(),
    {
        HeaderSet { map: TextMap::new() }
    }

    /// Brings what holds of every header set into a proof: its names are distinct.
    /// Does nothing when the program runs.
    pub fn names_are_distinct(&self)
        ensures
            keys_distinct(self@),
    {
        self.map.keys_are_distinct();
    }

    /// The number of headers.
    pub fn len(&self) -> (r: usize)
        ensures
            r == self@.len(),
    {
        self.map.len()
    }

    /// The header at position `index`, name first.
    pub fn get_at(&self, index: usize) -> (r: Option<(&String, &String)>)
        ensures
            match r {
                Some(e) => index < self@.len() && self@[index as int] == (e.0@, e.1@),
                None => index >= self@.len(),
            },
    {
        self.map.get_at(index)
    }

    /// The value of the header `name`, whatever the case `name` is written in.
    pub fn get(&self, name: &str) -> (r: Option<&String>)
        ensures
            match r {
                Some(v) => header_name_normal_form(name@) is Some && lookup(
                    self@,
                    header_name_normal_form(name@).unwrap(),
                ) == Some(v@),
                None => header_name_normal_form(name@) is None || lookup(
                    self@,
                    header_name_normal_form(name@).unwrap(),
                ) is None,
            },
    {
        match normalize_header_name(name) {
            Ok(normal) => self.map.get(normal.as_str()),
            Err(_) => None,
        }
    }

    /// Sets the header `name` to `value`. A header of that name keeps its place and
    /// takes the new value; a new name goes to the end. A value that holds an
    /// illegal byte is refused first, then a name that is no header name; a
    /// refused header leaves the set as it was.
    pub fn insert(&mut self, name: &str, value: &str) -> (r: Result<(), HeaderError>)
        ensures
            match r {
                Ok(_) => legal_header_value(value@) && header_name_normal_form(name@) is Some
                    && final(self)@ == written(
                    old(self)@,
                    header_name_normal_form(name@).unwrap(),
                    value@,
                ),
                Err(HeaderError::Value(_)) => !legal_header_value(value@) && final(self)@ == old(
                    self,
                )@,
                Err(HeaderError::Name(_)) => legal_header_value(value@) && header_name_normal_form(
                    name@,
                ) is None && final(self)@ == old(self)@,
            },
    {
        match check_header_value(value) {
            Err(e) => Err(HeaderError::Value(e)),
            Ok(_) => match normalize_header_name(name) {
                Err(e) => Err(HeaderError::Name(e)),
                Ok(normal) => {
                    self.map.insert(normal, value.to_owned());
                    Ok(())
                },
            },
        }
    }

    /// Sets the header of the name `normal`, which is taken as it is written, to `value`.
    fn set(&mut self, normal: String, value: &str) -> (r: Result<(), HeaderError>)
        ensures
            match r {
                Ok(_) => legal_header_value(value@) && final(self)@ == written(
                    old(self)@,
                    normal@,
                    value@,
                ),
                Err(e) => e is Value && !legal_header_value(value@) && final(self)@ == old(self)@,
            },
    {
        match check_header_value(value) {
            Err(e) => Err(HeaderError::Value(e)),
            Ok(_) => {
                self.map.insert(normal, value.to_owned());
                Ok(())
            },
        }
    }

    /// Sets the `content-type` header to `value`.
    pub fn set_content_type(&mut self, value: &str) -> (r: Result<(), HeaderError>)
        ensures
            match r {
                Ok(_) => legal_header_value(value@) && final(self)@ == written(
                    old(self)@,
                    content_type_name(),
                    value@,
                ),
                Err(e) => e is Value && !legal_header_value(value@) && final(self)@ == old(self)@,
            },
    {
        self.set(content_type_header(), value)
    }

    /// The value of the `content-type` header.
    pub fn get_content_type(&self) -> (r: Option<&String>)
        ensures
            match r {
                Some(v) => lookup(self@, content_type_name()) == Some(v@),
                None => lookup(self@, content_type_name()) is None,
            },
    {
        let name = content_type_header();
        self.map.get(name.as_str())
    }

    /// Sets the `authorization` header to `value`.
    pub fn set_authorization(&mut self, value: &str) -> (r: Result<(), HeaderError>)
        ensures
            match r {
                Ok(_) => legal_header_value(value@) && final(self)@ == written(
                    old(self)@,
                    authorization_name(),
                    value@,
                ),
                Err(e) => e is Value && !legal_header_value(value@) && final(self)@ == old(self)@,
            },
    {
        self.set(authorization_header(), value)
    }

    /// Writes every header of `over` over this set, in the order of `over`: a name
    /// that both hold takes the value of `over`.
    pub fn merge(&mut self, over: &HeaderSet)
        ensures
            final(self)@ == merged(old(self)@, over@),
    {
        let mut i: usize = 0;
        while i < over.map.len()
            invariant
                i <= over@.len(),
                self@ == merged(old(self)@, over@.take(i as int)),
            decreases over@.len() - i,
        {
            match over.map.get_at(i) {
                Some(entry) => {
                    proof {
                        let next = over@.take(i + 1);
                        assert(next.drop_last() == over@.take(i as int));
                        assert(next.last() == over@[i as int]);
                    }
                    self.map.insert(entry.0.clone(), entry.1.clone());
                },
                None => {},
            }
            i = i + 1;
        }
        proof {
            assert(over@.take(over@.len() as int) == over@);
        }
    }
}

/// The value of an `authorization` header that carries `token` as a bearer token.
pub open spec fn bearer(token: Seq<char>) -> Seq<char> {
    "Bearer "@ + token
}

/// `header_map` with the `authorization` header set to `token`, as it stands.
pub fn add_header_authentication(header_map: HeaderSet, token: String) -> (r: Result<
    HeaderSet,
    HeaderError,
>)
    ensures
        match r {
            Ok(headers) => legal_header_value(token@) && headers@ == written(
                header_map@,
                authorization_name(),
                token@,
            ),
            Err(e) => e is Value && !legal_header_value(token@),
        },
{
    let mut headers = header_map;
    match headers.set_authorization(token.as_str()) {
        Ok(_) => Ok(headers),
        Err(e) => Err(e),
    }
}

/// `header_map` with the `authorization` header set to `Bearer `, followed by `token`.
pub fn add_header_authentication_bearer(header_map: HeaderSet, token: String) -> (r: Result<
    HeaderSet,
    HeaderError,
>)
    ensures
        match r {
            Ok(headers) => legal_header_value(bearer(token@)) && headers@ == written(
                header_map@,
                authorization_name(),
                bearer(token@),
            ),
            Err(e) => e is Value && !legal_header_value(bearer(token@)),
        },
{
    let mut value = "Bearer ".to_owned();
    value.append(token.as_str());
    add_header_authentication(header_map, value)
}

} // verus!
