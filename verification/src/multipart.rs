//! Multipart form data: the boundary, the content type that announces it, and
//! the body that the `formdata` crate writes for the fields of a form.

use crate::common::{lookup, pairs_of, Pairs};
use crate::header::{content_type_name, HeaderSet};
use crate::keyed::{find_key, first_position, keys_in, lemma_first_position, put_at, Keyed};
use std::string::FromUtf8Error;
use vstd::prelude::*;
use vstd::string::StringExecFns;
use vstd::utf8::{
    decode_utf8, encode_utf8, encode_utf8_decode_utf8, encode_utf8_valid_utf8, is_ascii_chars,
    is_ascii_chars_encode_utf8, valid_utf8,
};

verus! {

/// The error of `formdata::write_formdata`, held as it comes.
#[verifier::external_type_specification]
#[verifier::external_body]
pub struct ExFormDataError(formdata::Error);

/// The error of `String::from_utf8`, held as it comes.
#[verifier::external_type_specification]
#[verifier::external_body]
pub struct ExFromUtf8Error(FromUtf8Error);

/// The error of `multer::parse_boundary`, held as it comes.
#[verifier::external_type_specification]
#[verifier::external_body]
pub struct ExMulterError(multer::Error);

/// `String::from_utf8` makes a string of the bytes exactly when they are valid
/// UTF-8; the string then holds the characters that they encode.
pub assume_specification[ String::from_utf8 ](vec: Vec<u8>) -> (r: Result<String, FromUtf8Error>)
    ensures
        r is Ok <==> valid_utf8(vec@),
        r matches Ok(s) ==> s@ == decode_utf8(vec@),
;

/// The text fields of a form, name first, in the order in which they are
/// written out. File parts are read from disk while they are written, which
/// is no work for this library: a form with files is written by its caller.
#[derive(Debug)]
pub struct FormData {
    pub fields: Vec<(String, String)>,
}

impl View for FormData {
    type V = Pairs;

    open spec fn view(&self) -> Pairs {
        pairs_of(self.fields@)
    }
}

/// Why a form could not be written out.
#[derive(Debug)]
pub enum MultipartError {
    /// The `formdata` crate failed to write the form.
    Write(formdata::Error),
    /// The boundary is no UTF-8 text.
    Boundary(FromUtf8Error),
}

/// The bytes that `formdata::generate_boundary` draws a boundary from: letters,
/// digits, `+`, `-` and `.`.
pub open spec fn boundary_byte(b: u8) -> bool {
    (0x30 <= b <= 0x39) || (0x41 <= b <= 0x5a) || (0x61 <= b <= 0x7a) || b == 0x2b || b == 0x2d
        || b == 0x2e
}

/// What holds of every boundary that `formdata::generate_boundary` makes: it
/// has 68 bytes, each of them a boundary byte.
pub open spec fn generated_boundary(boundary: Seq<u8>) -> bool {
    boundary.len() == 68 && forall|i: int|
        0 <= i < boundary.len() ==> boundary_byte(#[trigger] boundary[i])
}

/// The text that bytes below 128 spell: one character for each byte.
pub open spec fn ascii_text(bytes: Seq<u8>) -> Seq<char> {
    Seq::new(bytes.len(), |i: int| bytes[i] as char)
}

/// Bytes below 128 are UTF-8, and the text that they encode has one character for each byte.
pub proof fn lemma_ascii_bytes_are_text(bytes: Seq<u8>)
    requires
        forall|i: int| 0 <= i < bytes.len() ==> bytes[i] < 128,
    ensures
        valid_utf8(bytes),
        decode_utf8(bytes) == ascii_text(bytes),
{
    let chars = ascii_text(bytes);
    assert(is_ascii_chars(chars));
    is_ascii_chars_encode_utf8(chars);
    assert(encode_utf8(chars) =~= bytes);
    encode_utf8_valid_utf8(chars);
    encode_utf8_decode_utf8(chars);
}

/// A boundary that `formdata::generate_boundary` made is text.
pub proof fn lemma_generated_boundary_is_text(boundary: Seq<u8>)
    requires
        generated_boundary(boundary),
    ensures
        valid_utf8(boundary),
        decode_utf8(boundary) == ascii_text(boundary),
{
    lemma_ascii_bytes_are_text(boundary);
}

/// A text as it stands in a header line: every carriage return and every
/// line feed is written as one space, and everything else as it is.
pub open spec fn on_one_line(text: Seq<char>) -> Seq<char> {
    Seq::new(
        text.len(),
        |i: int|
            if text[i] == '\r' || text[i] == '\n' {
                ' '
            } else {
                text[i]
            },
    )
}

/// One text field as a part of a multipart body: the boundary line, the two
/// header lines that `formdata` gives a text field, a blank line, the value,
/// and the end of the line. The name stands in a header line, so its
/// carriage returns and line feeds are written as spaces; the value stands
/// as it is. Both are written in UTF-8.
pub open spec fn multipart_part(boundary: Seq<u8>, field: (Seq<char>, Seq<char>)) -> Seq<u8> {
    encode_utf8("--"@) + boundary + encode_utf8(
        "\r\nContent-Type: text/plain\r\nContent-Disposition: form-data; name=\""@,
    ) + encode_utf8(on_one_line(field.0)) + encode_utf8("\"\r\n\r\n"@) + encode_utf8(field.1)
        + encode_utf8("\r\n"@)
}

/// The body that `formdata::write_formdata` writes for a form of these text
/// fields, and no files, between parts delimited by `boundary`: one part for
/// each field, in order, and the closing boundary.
pub open spec fn multipart_body(boundary: Seq<u8>, fields: Pairs) -> Seq<u8>
    decreases fields.len(),
{
    if fields.len() == 0 {
        encode_utf8("--"@) + boundary + encode_utf8("--"@)
    } else {
        multipart_part(boundary, fields[0]) + multipart_body(boundary, fields.drop_first())
    }
}

/// The boundary that `multer::parse_boundary` reads from the value of a
/// `content-type` header; `None` where it finds none.
pub uninterp spec fn boundary_of(content_type: Seq<char>) -> Option<Seq<char>>;

/// The text of `mime::MULTIPART_FORM_DATA`, which is `multipart/form-data`.
#[verifier::external_body]
fn multipart_form_data() -> (r: String)
    ensures
        r@ == "multipart/form-data"@,
{
    mime::MULTIPART_FORM_DATA.to_string()
}

/// Calls `formdata::generate_boundary`, which encodes the clock and random
/// bytes, 51 bytes in all, in base 64 and writes `-` for `=` and `.` for `/`.
/// It counts on a clock that is not set before 1970 and on the random bytes of
/// the operating system.
#[verifier::external_body]
pub(crate) fn fresh_boundary() -> (r: Vec<u8>)
    ensures
        generated_boundary(r@),
{
    formdata::generate_boundary()
}

/// Calls `formdata::write_formdata` on a form with these fields and no files,
/// and hands back what it wrote: for each field the boundary line, a
/// `Content-Type` line, a `Content-Disposition` line with the name, a blank
/// line and the value, and at the end the closing boundary. The header lines
/// are written by `hyper`'s header formatting, which writes a space for every
/// carriage return and line feed of a header value, so also of the name.
/// Writing cannot fail: `formdata` only fails on a file part or where the
/// sink refuses bytes, and the sink is a vector.
#[verifier::external_body]
fn write_fields(boundary: &Vec<u8>, fields: &Vec<(String, String)>) -> (r: Result<
    Vec<u8>,
    formdata::Error,
>)
    ensures
        r is Ok,
        r matches Ok(data) ==> data@ == multipart_body(boundary@, pairs_of(fields@)),
{
    let form = formdata::FormData { fields: fields.clone(), files: Vec::new() };
    let mut data = Vec::<u8>::new();
    formdata::write_formdata(&mut data, boundary, &form).map(|_| data)
}

/// Calls `multer::parse_boundary` on the value of a `content-type` header.
#[verifier::external_body]
fn parse_boundary(content_type: &str) -> (r: Result<String, multer::Error>)
    ensures
        match r {
            Ok(boundary) => boundary_of(content_type@) == Some(boundary@),
            Err(_) => boundary_of(content_type@) is None,
        },
{
    multer::parse_boundary(content_type)
}

/// A fresh boundary, as `formdata` draws it: 68 bytes of letters, digits, `+`,
/// `-` and `.`. Two draws need not differ, though they are drawn to.
///
/// `formdata` panics where the clock stands before 1970 or the operating
/// system gives no random bytes.
pub fn generate_boundary() -> (r: Vec<u8>)
    ensures
        generated_boundary(r@),
{
    fresh_boundary()
}

/// The content type that announces a multipart body with the boundary `token`.
pub open spec fn multipart_content_type(token: Seq<char>) -> Seq<char> {
    "multipart/form-data"@ + "; boundary=\""@ + token + "\""@
}

/// The content type of a multipart body delimited by `boundary`:
/// `multipart/form-data; boundary="<token>"`, the token being the boundary read
/// as UTF-8. A boundary that is no UTF-8 is refused.
pub fn get_content_type_from_multipart_boundary(boundary: Vec<u8>) -> (r: Result<
    String,
    MultipartError,
>)
    ensures
        match r {
            Ok(text) => valid_utf8(boundary@) && text@ == multipart_content_type(
                decode_utf8(boundary@),
            ),
            Err(e) => !valid_utf8(boundary@) && e is Boundary,
        },
{
    match String::from_utf8(boundary) {
        Err(e) => Err(MultipartError::Boundary(e)),
        Ok(token) => {
            let mut text = multipart_form_data();
            text.append("; boundary=\"");
            text.append(token.as_str());
            text.append("\"");
            Ok(text)
        },
    }
}

/// The body of `form_data` between parts delimited by `boundary`. A form of
/// text fields can always be written.
pub fn data_from_multipart(form_data: &FormData, boundary: &Vec<u8>) -> (r: Result<
    Vec<u8>,
    MultipartError,
>)
    ensures
        r matches Ok(data) && data@ == multipart_body(boundary@, form_data@),
{
    match write_fields(boundary, &form_data.fields) {
        Ok(data) => Ok(data),
        Err(e) => Err(MultipartError::Write(e)),
    }
}

/// A fresh boundary, and the body of `form_data` between parts delimited by it:
/// the body first. A form of text fields can always be written.
///
/// The boundary is drawn by `formdata`, which panics where the clock stands
/// before 1970 or the operating system gives no random bytes.
pub fn data_and_boundary_from_multipart(form_data: &FormData) -> (r: Result<
    (Vec<u8>, Vec<u8>),
    MultipartError,
>)
    ensures
        r matches Ok(made) && generated_boundary(made.1@) && made.0@ == multipart_body(
            made.1@,
            form_data@,
        ),
{
    let boundary = fresh_boundary();
    match data_from_multipart(form_data, &boundary) {
        Ok(data) => Ok((data, boundary)),
        Err(e) => Err(e),
    }
}

/// A fresh boundary, and the body of `form_data` between parts delimited by it:
/// the body first. As `data_and_boundary_from_multipart`, panic included.
pub fn body_from_multipart(form_data: &FormData) -> (r: Result<(Vec<u8>, Vec<u8>), MultipartError>)
    ensures
        r matches Ok(made) && generated_boundary(made.1@) && made.0@ == multipart_body(
            made.1@,
            form_data@,
        ),
{
    data_and_boundary_from_multipart(form_data)
}

/// What went wrong when a multipart body was to be read.
#[derive(Debug)]
pub struct FormDataParseError {
    details: String,
}

impl FormDataParseError {
    /// The message of the error.
    pub closed spec fn details(&self) -> Seq<char> {
        self.details@
    }

    pub fn new(msg: &str) -> (r: FormDataParseError)
        ensures
            r.details() == msg@,
    {
        FormDataParseError { details: msg.to_owned() }
    }

    /// The message of the error.
    pub fn message(&self) -> (r: String)
        ensures
            r@ == self.details(),
    {
        self.details.clone()
    }
}

/// Why no boundary could be read from a set of headers.
#[derive(Debug)]
pub enum BoundaryError {
    /// The headers have no `content-type`.
    Missing(FormDataParseError),
    /// The `content-type` names no multipart boundary.
    Unreadable(multer::Error),
}

/// The boundary that the `content-type` header of `headers` announces.
pub fn boundary_from_headers(headers: &HeaderSet) -> (r: Result<String, BoundaryError>)
    ensures
        match lookup(headers@, content_type_name()) {
            None => r matches Err(BoundaryError::Missing(e)) && e.details() == "{}: None"@
                + content_type_name(),
            Some(content_type) => match boundary_of(content_type) {
                Some(boundary) => r matches Ok(found) && found@ == boundary,
                None => r matches Err(BoundaryError::Unreadable(_)),
            },
        },
{
    match headers.get_content_type() {
        None => {
            let mut message = "{}: None".to_owned();
            message.append("content-type");
            Err(BoundaryError::Missing(FormDataParseError::new(message.as_str())))
        },
        Some(content_type) => match parse_boundary(content_type.as_str()) {
            Ok(boundary) => Ok(boundary),
            Err(e) => Err(BoundaryError::Unreadable(e)),
        },
    }
}

/// One part of a multipart body as it was read: the name of the field, the
/// name of the file where the part is a file, and the bytes of a part that is none.
#[derive(Debug)]
pub struct FieldRecord {
    pub name: String,
    pub file_name: String,
    pub data: Vec<u8>,
}

/// The mathematical content of a part.
pub struct FieldView {
    pub name: Seq<char>,
    pub file_name: Seq<char>,
    pub data: Seq<u8>,
}

impl View for FieldRecord {
    type V = FieldView;

    open spec fn view(&self) -> FieldView {
        FieldView { name: self.name@, file_name: self.file_name@, data: self.data@ }
    }
}

/// The text that stands for a name that a part does not have.
pub open spec fn name_or_empty(name: Option<String>) -> Seq<char> {
    match name {
        Some(text) => text@,
        None => Seq::<char>::empty(),
    }
}

/// The names under which a part is recorded: a name that is missing is recorded as empty.
pub fn field_names(name: Option<String>, file_name: Option<String>) -> (r: (String, String))
    ensures
        r.0@ == name_or_empty(name),
        r.1@ == name_or_empty(file_name),
{
    let name = match name {
        Some(text) => text,
        None => String::new(),
    };
    let file_name = match file_name {
        Some(text) => text,
        None => String::new(),
    };
    (name, file_name)
}

/// Whether the bytes of a part are read: those of a part that is no file are,
/// those of a file are left alone and recorded as empty.
pub fn reads_field_data(file_name: &str) -> (r: bool)
    ensures
        r == (file_name@.len() == 0),
{
    file_name.is_empty()
}

/// The content of a vector of parts.
pub open spec fn fields_of(entries: Seq<FieldRecord>) -> Seq<FieldView> {
    Seq::new(entries.len(), |i: int| entries[i]@)
}

/// No name occurs twice.
pub open spec fn names_distinct(s: Seq<FieldView>) -> bool {
    forall|i: int, j: int| 0 <= i < j < s.len() ==> s[i].name != s[j].name
}

/// The names of `s`, in order.
pub open spec fn names_of(s: Seq<FieldView>) -> Seq<Seq<char>> {
    Seq::new(s.len(), |i: int| s[i].name)
}

/// The position of the part of `s` with the name `name`.
pub open spec fn field_position(s: Seq<FieldView>, name: Seq<char>) -> Option<int> {
    first_position(names_of(s), name)
}

/// `s` after `part` was recorded: a part of the same name gives way to it; a
/// part of a new name goes to the end.
pub open spec fn recorded(s: Seq<FieldView>, part: FieldView) -> Seq<FieldView> {
    match field_position(s, part.name) {
        Some(i) => s.update(i, part),
        None => s.push(part),
    }
}

/// `field_position` finds the first part with the name, and only reports none
/// when there is none.
pub proof fn lemma_field_position(s: Seq<FieldView>, name: Seq<char>)
    ensures
        match field_position(s, name) {
            Some(i) => 0 <= i < s.len() && s[i].name == name && forall|k: int|
                0 <= k < i ==> s[k].name != name,
            None => forall|k: int| 0 <= k < s.len() ==> s[k].name != name,
        },
{
    let names = names_of(s);
    lemma_first_position(names, name);
    match first_position(names, name) {
        Some(i) => {
            assert(names[i] == s[i].name);
            assert forall|k: int| 0 <= k < i implies s[k].name != name by {
                assert(names[k] == s[k].name);
            }
        },
        None => {
            assert forall|k: int| 0 <= k < s.len() implies s[k].name != name by {
                assert(names[k] == s[k].name);
            }
        },
    }
}

/// Recording a part keeps the names distinct, and the part is then found under its name.
pub proof fn lemma_recorded(s: Seq<FieldView>, part: FieldView)
    requires
        names_distinct(s),
    ensures
        names_distinct(recorded(s, part)),
        field_position(recorded(s, part), part.name) is Some,
        recorded(s, part)[field_position(recorded(s, part), part.name).unwrap()] == part,
{
    let w = recorded(s, part);
    lemma_field_position(s, part.name);
    lemma_field_position(w, part.name);
    match field_position(s, part.name) {
        Some(i) => {
            assert(w[i].name == part.name);
        },
        None => {
            assert(w[s.len() as int].name == part.name);
        },
    }
}

impl Keyed for FieldRecord {
    /// A part is found by the name of its field.
    open spec fn key(&self) -> Seq<char> {
        self.name@
    }

    fn key_text(&self) -> (r: &String) {
        &self.name
    }
}

/// The parts of a multipart body by the name of their field. Each name occurs
/// once: of two parts with one name the later is kept. It is a list for the
/// reason for which `TextMap` is one: its keys are text.
#[derive(Debug)]
pub struct FieldMap {
    entries: Vec<FieldRecord>,
}

impl View for FieldMap {
    type V = Seq<FieldView>;

    closed spec fn view(&self) -> Seq<FieldView> {
        fields_of(self.entries@)
    }
}

impl FieldMap {
    #[verifier::type_invariant]
    spec fn well_formed(&self) -> bool {
        names_distinct(fields_of(self.entries@))
    }

    /// A map without parts.
    pub fn new() -> (r: Self)
        ensures
            r@ == Seq::<FieldView>::empty(),
    {
        let r = FieldMap { entries: Vec::new() };
        assert(fields_of(r.entries@) =~= Seq::<FieldView>::empty());
        r
    }

    /// Brings what holds of every map into a proof: its names are distinct.
    /// Does nothing when the program runs.
    pub fn names_are_distinct(&self)
        ensures
            names_distinct(self@),
    {
        proof {
            use_type_invariant(self);
        }
    }

    /// The number of parts.
    pub fn len(&self) -> (r: usize)
        ensures
            r == self@.len(),
    {
        self.entries.len()
    }

    /// The part at position `index`.
    pub fn get_at(&self, index: usize) -> (r: Option<&FieldRecord>)
        ensures
            match r {
                Some(part) => index < self@.len() && self@[index as int] == part@,
                None => index >= self@.len(),
            },
    {
        if index < self.entries.len() {
            Some(&self.entries[index])
        } else {
            None
        }
    }

    /// The position of the part with the name `name`.
    fn find(&self, name: &str) -> (r: Option<usize>)
        ensures
            match r {
                Some(i) => field_position(self@, name@) == Some(i as int) && i < self@.len(),
                None => field_position(self@, name@) is None,
            },
    {
        proof {
            assert(keys_in(self.entries@) =~= names_of(self@));
        }
        find_key(&self.entries, name)
    }

    /// The part with the name `name`.
    pub fn get(&self, name: &str) -> (r: Option<&FieldRecord>)
        ensures
            match r {
                Some(part) => field_position(self@, name@) is Some && self@[field_position(
                    self@,
                    name@,
                ).unwrap()] == part@,
                None => field_position(self@, name@) is None,
            },
    {
        match self.find(name) {
            Some(i) => Some(&self.entries[i]),
            None => None,
        }
    }

    /// Records a part under the name of its field.
    pub fn insert(&mut self, name: String, file_name: String, data: Vec<u8>)
        ensures
            final(self)@ == recorded(
                old(self)@,
                FieldView { name: name@, file_name: file_name@, data: data@ },
            ),
    {
        proof {
            use_type_invariant(&*self);
            lemma_recorded(self@, FieldView { name: name@, file_name: file_name@, data: data@ });
        }
        let ghost before = self@;
        let found = self.find(name.as_str());
        let mut entries: Vec<FieldRecord> = Vec::new();
        std::mem::swap(&mut entries, &mut self.entries);
        assert(fields_of(entries@) == before);
        let part = FieldRecord { name, file_name, data };
        let ghost view = part@;
        let _ = put_at(&mut entries, found, part);
        proof {
            match found {
                Some(i) => {
                    assert(fields_of(entries@) =~= before.update(i as int, view));
                },
                None => {
                    assert(fields_of(entries@) =~= before.push(view));
                },
            }
        }
        self.entries = entries;
    }

    /// Records a part as it was read: under the names that `field_names` gives
    /// it; with the bytes `data` where it is no file, and with no bytes where it is one.
    pub fn record(&mut self, name: Option<String>, file_name: Option<String>, data: Vec<u8>)
        ensures
            final(self)@ == recorded(
                old(self)@,
                FieldView {
                    name: name_or_empty(name),
                    file_name: name_or_empty(file_name),
                    data: if name_or_empty(file_name).len() == 0 {
                        data@
                    } else {
                        Seq::<u8>::empty()
                    },
                },
            ),
    {
        let names = field_names(name, file_name);
        if reads_field_data(names.1.as_str()) {
            self.insert(names.0, names.1, data);
        } else {
            self.insert(names.0, names.1, Vec::new());
        }
    }
}

} // verus!
