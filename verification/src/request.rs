//! Requests: from the bytes that were read to the request line, the
//! identifier in the path, and the body.

use crate::number::{parse_i32, parse_i32_between};
use crate::text::{chars_of, field, field_bounds, find_from, find_last, first_occurrence,
    last_occurrence};
use vstd::prelude::*;
use vstd::utf8::{decode_utf8, valid_utf8};

verus! {

/// How many bytes of a request are read: one read into a buffer of this size.
/// What a client sends beyond it is never seen.
pub const REQUEST_BUFFER_SIZE: usize = 1024;

/// The request line: the text before the first line terminator, or all of the
/// text when it holds none.
pub open spec fn request_line(text: Seq<char>) -> Seq<char> {
    match first_occurrence(text, "\r\n"@) {
        Some(i) => text.take(i),
        None => text,
    }
}

/// The identifier in the path of a request line: the line is cut at each
/// `/`, and the third piece is read as a signed integer.  Where there is no
/// third piece, or it is not exactly an integer, the identifier is zero.
pub open spec fn line_id(line: Seq<char>) -> i32 {
    match field(line, "/"@, 2) {
        Some(piece) => match parse_i32(piece) {
            Some(id) => id,
            None => 0,
        },
        None => 0,
    }
}

/// The identifier in the path of a request: that of its request line.
pub open spec fn path_id(text: Seq<char>) -> i32 {
    line_id(request_line(text))
}

/// The body: the text after the last blank line, that is after the last place
/// where two line terminators stand in a row; empty when there is none.
pub open spec fn body_of(text: Seq<char>) -> Seq<char> {
    match last_occurrence(text, "\r\n\r\n"@) {
        Some(i) => text.skip(i + "\r\n\r\n"@.len()),
        None => Seq::empty(),
    }
}

/// What is taken from one request.  It lives as long as the connection does.
#[derive(Clone, Debug, PartialEq, Eq)]
pub struct ParsedRequest {
    pub method_and_path: String,
    pub path_id: i32,
    pub body: String,
}

/// What a `ParsedRequest` holds, as plain mathematics.
pub struct ParsedRequestView {
    pub method_and_path: Seq<char>,
    pub path_id: i32,
    pub body: Seq<char>,
}

impl View for ParsedRequest {
    type V = ParsedRequestView;

    open spec fn view(&self) -> ParsedRequestView {
        ParsedRequestView {
            method_and_path: self.method_and_path@,
            path_id: self.path_id,
            body: self.body@,
        }
    }
}

/// The three parts of the request `text`.
pub open spec fn parsed(text: Seq<char>) -> ParsedRequestView {
    ParsedRequestView {
        method_and_path: request_line(text),
        path_id: path_id(text),
        body: body_of(text),
    }
}

/// The text that a sequence of bytes decodes to when every part of it that is
/// not UTF-8 is replaced by U+FFFD, as `String::from_utf8_lossy` does it.
pub uninterp spec fn lossy_text(bytes: Seq<u8>) -> Seq<char>;

/// Calls `String::from_utf8_lossy`.  The result is named `lossy_text`; of
/// bytes that are UTF-8 throughout it is the text they encode.
#[verifier::external_body]
fn decode_lossy(bytes: &[u8]) -> (text: String)
    ensures
        text@ == lossy_text(bytes@),
        valid_utf8(bytes@) ==> text@ == decode_utf8(bytes@),
{
    String::from_utf8_lossy(bytes).into_owned()
}

/// The text of a request, from what one read of the connection gave: the
/// bytes decoded, with what is not UTF-8 replaced; or, when the read failed
/// and gave nothing, the empty text.
pub fn read_request(received: Option<&[u8]>) -> (text: String)
    ensures
        received matches Some(bytes) ==> text@ == lossy_text(bytes@) && (valid_utf8(bytes@)
            ==> text@ == decode_utf8(bytes@)),
        received is None ==> text@ == Seq::<char>::empty(),
{
    match received {
        Some(bytes) => decode_lossy(bytes),
        None => String::new(),
    }
}

/// Where the request line of `chars` ends.
pub fn request_line_end(chars: &Vec<char>) -> (end: usize)
    ensures
        end <= chars.len(),
        chars@.take(end as int) == request_line(chars@),
{
    assert(chars@.skip(0) =~= chars@);
    match find_from(chars, &chars_of("\r\n"), 0) {
        Some(i) => i,
        None => {
            assert(chars@.take(chars.len() as int) =~= chars@);
            chars.len()
        },
    }
}

/// The characters of the request line of the request whose characters are
/// `chars`.
pub fn request_line_chars(chars: Vec<char>) -> (line: Vec<char>)
    ensures
        line@ == request_line(chars@),
{
    let end = request_line_end(&chars);
    let mut line = chars;
    line.truncate(end);
    line
}

/// The identifier in the path of the request line whose characters are
/// `line`.
pub fn path_id_of_line(line: &Vec<char>) -> (id: i32)
    ensures
        id == line_id(line@),
{
    match field_bounds(line, &chars_of("/"), 2) {
        Some((a, b)) => match parse_i32_between(line, a, b) {
            Some(id) => id,
            None => 0,
        },
        None => 0,
    }
}

/// Where the body of `chars` begins.
pub fn body_start(chars: &Vec<char>) -> (start: usize)
    ensures
        start <= chars.len(),
        chars@.skip(start as int) == body_of(chars@),
{
    let separator = chars_of("\r\n\r\n");
    match find_last(chars, &separator) {
        Some(i) => i + separator.len(),
        None => {
            assert(chars@.skip(chars.len() as int) =~= Seq::<char>::empty());
            chars.len()
        },
    }
}

/// The request line of `request`.
pub fn request_line_of(request: &str) -> (line: String)
    ensures
        line@ == request_line(request@),
{
    let chars = chars_of(request);
    let end = request_line_end(&chars);
    String::from_str(request.substring_char(0, end))
}

/// The identifier in the path of `request`, zero when it has none.
pub fn get_id_from_request(request: &str) -> (id: i32)
    ensures
        id == path_id(request@),
{
    path_id_of_line(&request_line_chars(chars_of(request)))
}

/// The body of `request`, empty when it has none.
pub fn body_from_request(request: &str) -> (body: String)
    ensures
        body@ == body_of(request@),
{
    let chars = chars_of(request);
    let start = body_start(&chars);
    String::from_str(request.substring_char(start, chars.len()))
}

/// Takes `request` apart.
pub fn parse_request(request: &str) -> (r: ParsedRequest)
    ensures
        r@ == parsed(request@),
{
    let chars = chars_of(request);
    let end = request_line_end(&chars);
    let line = request.substring_char(0, end);
    let start = body_start(&chars);
    ParsedRequest {
        method_and_path: String::from_str(line),
        path_id: path_id_of_line(&chars_of(line)),
        body: String::from_str(request.substring_char(start, chars.len())),
    }
}

} // verus!
