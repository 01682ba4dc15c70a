//! The response envelope: status, headers and body of one exchange, with
//! the encoding resolved lazily, the body decompressed on demand, and the
//! text decoded as JSON.

use vstd::prelude::*;
use vstd::utf8::{decode_utf8, valid_utf8};
use crate::charset::{declared_charset, scan_charset, utf8_chars, utf8_label};
use crate::codec::{
    brotli_inflated, decode_text, gunzip, gzip_inflated, io_error_text, string_of, unbrotli,
};
use crate::error::{Failure, ResponseError};
use crate::json::{decoded, json_parsed, parse_tree, JsonValue, ValueModel};
use crate::strmap::StrMap;
use crate::headers::{header_model, normalized, overlay};
use crate::text::{ascii_lower, chars_of, lowered};

verus! {

/// A response as a mathematical value.
pub struct ResponseModel {
    pub body: Seq<u8>,
    pub status_code: u16,
    pub headers: Map<Seq<char>, Seq<char>>,
    pub encoding: Seq<char>,
}

/// The label `gzip`.
pub open spec fn gzip_label() -> Seq<char> {
    seq!['g', 'z', 'i', 'p']
}

/// The label `br`.
pub open spec fn br_label() -> Seq<char> {
    seq!['b', 'r']
}

/// Whether a label names a compression that the envelope undoes.
pub open spec fn is_compression(label: Seq<char>) -> bool {
    label == gzip_label() || label == br_label()
}

/// The encoding label after resolution. A label that is already there
/// stays. Else the `content-encoding` header decides, in lower case; without
/// it the character set that the body declares, where the body is text;
/// `utf-8` where it is not.
pub open spec fn resolved(m: ResponseModel) -> Seq<char> {
    if m.encoding.len() != 0 {
        m.encoding
    } else if m.headers.contains_key("content-encoding"@) {
        ascii_lower(m.headers["content-encoding"@])
    } else if valid_utf8(m.body) {
        declared_charset(decode_utf8(m.body))
    } else {
        utf8_label()
    }
}

/// The envelope of a response as it is built from what an exchange brought:
/// header names in lower case, the encoding resolved.
pub open spec fn received(
    status_code: u16,
    headers: Seq<(String, String)>,
    body: Seq<u8>,
) -> ResponseModel {
    let fresh = ResponseModel {
        body,
        status_code,
        headers: normalized(headers),
        encoding: Seq::empty(),
    };
    ResponseModel { encoding: resolved(fresh), ..fresh }
}

/// The encoding that observers are told: a compression is never shown.
pub open spec fn reported(label: Seq<char>) -> Seq<char> {
    if is_compression(label) {
        utf8_label()
    } else {
        label
    }
}

/// The response after decompression; `None` where the stream is malformed.
pub open spec fn decompressed(m: ResponseModel) -> Option<ResponseModel> {
    if m.encoding == gzip_label() {
        match gzip_inflated(m.body) {
            Some(body) => Some(ResponseModel { body, encoding: utf8_label(), ..m }),
            None => None,
        }
    } else if m.encoding == br_label() {
        match brotli_inflated(m.body) {
            Some(body) => Some(ResponseModel { body, encoding: utf8_label(), ..m }),
            None => None,
        }
    } else {
        Some(m)
    }
}

/// The state in which an attempt to decompress leaves the response.
pub open spec fn settled(m: ResponseModel) -> ResponseModel {
    match decompressed(m) {
        Some(after) => after,
        None => m,
    }
}

/// The content of a response: its body after decompression.
pub open spec fn content_of(m: ResponseModel) -> Result<Seq<u8>, Failure> {
    match decompressed(m) {
        Some(after) => Ok(after.body),
        None => Err(Failure::Decompress),
    }
}

/// The text of a response: its content decoded as UTF-8.
pub open spec fn text_of(m: ResponseModel) -> Result<Seq<char>, Failure> {
    match content_of(m) {
        Ok(body) => if valid_utf8(body) {
            Ok(decode_utf8(body))
        } else {
            Err(Failure::Decode)
        },
        Err(f) => Err(f),
    }
}

/// The value tree that a text holds as JSON.
pub open spec fn json_of_text(text: Seq<char>) -> Result<ValueModel, Failure> {
    match json_parsed(text) {
        Some(tree) => match decoded(tree) {
            Some(value) => Ok(value),
            None => Err(Failure::Value),
        },
        None => Err(Failure::Parse),
    }
}

/// The value tree that the text of a response holds as JSON.
pub open spec fn json_of(m: ResponseModel) -> Result<ValueModel, Failure> {
    match text_of(m) {
        Ok(text) => json_of_text(text),
        Err(f) => Err(f),
    }
}

/// The character of a decimal digit.
pub open spec fn digit(d: nat) -> char {
    (48 + d) as u8 as char
}

/// The decimal numeral of `n`.
pub open spec fn decimal(n: nat) -> Seq<char>
    decreases n,
{
    if n < 10 {
        seq![digit(n)]
    } else {
        decimal(n / 10).push(digit(n % 10))
    }
}

/// How a response with the given status describes itself.
pub open spec fn description(status_code: u16) -> Seq<char> {
    "<Response ["@ + decimal(status_code as nat) + "]>"@
}

/// Appends the decimal numeral of `n`.
fn push_decimal(n: u16, out: &mut Vec<char>)
    ensures
        final(out)@ == old(out)@ + decimal(n as nat),
    decreases n,
{
    if n >= 10 {
        push_decimal(n / 10, out);
    }
    let d: u8 = (n % 10) as u8;
    out.push((48 + d) as char);
}

/// Whether two vectors hold the same characters.
fn same_chars(a: &Vec<char>, b: &Vec<char>) -> (same: bool)
    ensures
        same == (a@ == b@),
{
    if a.len() != b.len() {
        return false;
    }
    let mut i: usize = 0;
    while i < a.len()
        invariant
            0 <= i <= a.len() == b.len(),
            forall|j: int| 0 <= j < i ==> a@[j] == b@[j],
        decreases a.len() - i,
    {
        if a[i] != b[i] {
            return false;
        }
        i += 1;
    }
    assert(a@ =~= b@);
    true
}

/// Whether `label` is `gzip`.
fn is_gzip(label: &Vec<char>) -> (b: bool)
    ensures
        b == (label@ == gzip_label()),
{
    let mut name: Vec<char> = Vec::new();
    name.push('g');
    name.push('z');
    name.push('i');
    name.push('p');
    assert(name@ =~= gzip_label());
    same_chars(label, &name)
}

/// Whether `label` is `br`.
fn is_br(label: &Vec<char>) -> (b: bool)
    ensures
        b == (label@ == br_label()),
{
    let mut name: Vec<char> = Vec::new();
    name.push('b');
    name.push('r');
    assert(name@ =~= br_label());
    same_chars(label, &name)
}

/// The response to one exchange.
#[derive(Debug)]
pub struct HttpResponse {
    body: Vec<u8>,
    status_code: u16,
    headers: StrMap<String>,
    encoding: Vec<char>,
}

impl HttpResponse {
    /// Validity: the header map is valid.
    pub closed spec fn wf(&self) -> bool {
        self.headers.wf()
    }

    /// The response as a mathematical value.
    pub closed spec fn view(&self) -> ResponseModel {
        ResponseModel {
            body: self.body@,
            status_code: self.status_code,
            headers: header_model(self.headers@),
            encoding: self.encoding@,
        }
    }

    /// The headers as stored.
    pub closed spec fn header_map(&self) -> StrMap<String> {
        self.headers
    }

    /// The envelope of a response with the given body, status and headers,
    /// header names in lower case, the encoding resolved.
    pub fn new(body: Vec<u8>, status_code: u16, headers: &StrMap<String>) -> (r: Self)
        ensures
            r.wf(),
            r@ == received(status_code, headers.entries(), body@),
    {
        HttpResponse::from_parts(status_code, headers.as_entries(), body)
    }

    /// The envelope of what a blocking exchange brought: the status, the
    /// headers in the order received, and the body, or `None` where the
    /// body could not be read, which counts as an empty body.
    pub fn from_reqwest_blocking(
        status_code: u16,
        headers: &Vec<(String, String)>,
        body: Option<Vec<u8>>,
    ) -> (r: Self)
        ensures
            r.wf(),
            r@ == received(
                status_code,
                headers@,
                match body {
                    Some(bytes) => bytes@,
                    None => Seq::empty(),
                },
            ),
    {
        HttpResponse::from_reqwest(status_code, headers, body)
    }

    /// The envelope of what an exchange brought: the status, the headers in
    /// the order received, and the body, or `None` where the body could not
    /// be read, which counts as an empty body.
    pub fn from_reqwest(status_code: u16, headers: &Vec<(String, String)>, body: Option<Vec<u8>>) -> (r:
        Self)
        ensures
            r.wf(),
            r@ == received(
                status_code,
                headers@,
                match body {
                    Some(bytes) => bytes@,
                    None => Seq::empty(),
                },
            ),
    {
        match body {
            Some(bytes) => HttpResponse::from_parts(status_code, headers, bytes),
            None => HttpResponse::from_parts(status_code, headers, Vec::new()),
        }
    }

    fn from_parts(status_code: u16, headers: &Vec<(String, String)>, body: Vec<u8>) -> (r: Self)
        ensures
            r.wf(),
            r@ == received(status_code, headers@, body@),
    {
        let mut lower: StrMap<String> = StrMap::new();
        assert(header_model(lower@) =~= Map::empty());
        overlay(&mut lower, headers);
        let mut r = HttpResponse { body, status_code, headers: lower, encoding: Vec::new() };
        r.resolve();
        r
    }

    /// Resolves the encoding label where it is still empty.
    fn resolve(&mut self)
        requires
            old(self).wf(),
        ensures
            final(self).wf(),
            final(self)@ == (ResponseModel { encoding: resolved(old(self)@), ..old(self)@ }),
    {
        if self.encoding.len() != 0 {
            return ;
        }
        match self.headers.get("content-encoding") {
            Some(value) => {
                let chars = chars_of(value.as_str());
                let n = chars.len();
                assert(chars@.subrange(0, n as int) =~= chars@);
                self.encoding = lowered(&chars, 0, n);
            },
            None => {
                match decode_text(&self.body) {
                    Some(text) => {
                        let chars = chars_of(text.as_str());
                        self.encoding = scan_charset(&chars);
                    },
                    None => {
                        self.encoding = utf8_chars();
                    },
                }
            },
        }
    }

    /// The encoding of the content that the observers hand out. Resolves the
    /// label first where it is still empty; reports `utf-8` for a body that
    /// is compressed, since every observer decompresses it.
    pub fn get_encoding(&mut self) -> (label: String)
        requires
            old(self).wf(),
        ensures
            final(self).wf(),
            final(self)@ == (ResponseModel { encoding: resolved(old(self)@), ..old(self)@ }),
            label@ == reported(resolved(old(self)@)),
    {
        self.resolve();
        if is_gzip(&self.encoding) || is_br(&self.encoding) {
            string_of(&utf8_chars())
        } else {
            string_of(&self.encoding)
        }
    }

    /// Replaces a compressed body by its decompressed form and sets the
    /// encoding label to `utf-8`. Does nothing where the label names no
    /// compression. A malformed stream leaves the envelope as it was.
    pub fn decompress_body(&mut self) -> (r: Result<(), ResponseError>)
        requires
            old(self).wf(),
        ensures
            final(self).wf(),
            final(self)@ == settled(old(self)@),
            match r {
                Ok(()) => decompressed(old(self)@) is Some,
                Err(e) => decompressed(old(self)@) is None && e is Decompress,
            },
    {
        let inflated = if is_gzip(&self.encoding) {
            gunzip(&self.body)
        } else if is_br(&self.encoding) {
            unbrotli(&self.body)
        } else {
            return Ok(());
        };
        match inflated {
            Ok(body) => {
                self.take_decompressed(body);
                Ok(())
            },
            Err(e) => Err(ResponseError::Decompress(io_error_text(&e))),
        }
    }

    /// Puts the decompressed form of the body in the place of the body and
    /// sets the encoding label to `utf-8`.
    pub fn take_decompressed(&mut self, body: Vec<u8>)
        requires
            old(self).wf(),
        ensures
            final(self).wf(),
            final(self)@ == (ResponseModel { body: body@, encoding: utf8_label(), ..old(self)@ }),
    {
        self.body = body;
        self.encoding = utf8_chars();
    }

    /// The body as text, after decompression.
    pub fn get_text(&mut self) -> (r: Result<String, ResponseError>)
        requires
            old(self).wf(),
        ensures
            final(self).wf(),
            final(self)@ == settled(old(self)@),
            match r {
                Ok(text) => text_of(old(self)@) == Ok::<Seq<char>, Failure>(text@),
                Err(e) => text_of(old(self)@) == Err::<Seq<char>, Failure>(e.failure()),
            },
    {
        match self.decompress_body() {
            Ok(()) => {},
            Err(e) => {
                return Err(e);
            },
        }
        match decode_text(&self.body) {
            Some(text) => Ok(text),
            None => Err(ResponseError::Decode),
        }
    }

    /// The body, after decompression.
    pub fn get_content(&mut self) -> (r: Result<Vec<u8>, ResponseError>)
        requires
            old(self).wf(),
        ensures
            final(self).wf(),
            final(self)@ == settled(old(self)@),
            match r {
                Ok(content) => content_of(old(self)@) == Ok::<Seq<u8>, Failure>(content@),
                Err(e) => content_of(old(self)@) == Err::<Seq<u8>, Failure>(e.failure()),
            },
    {
        match self.decompress_body() {
            Ok(()) => {},
            Err(e) => {
                return Err(e);
            },
        }
        let content = self.body.clone();
        Ok(content)
    }

    /// The text of the body decoded as JSON.
    pub fn json(&mut self) -> (r: Result<JsonValue, ResponseError>)
        requires
            old(self).wf(),
        ensures
            final(self).wf(),
            final(self)@ == settled(old(self)@),
            match r {
                Ok(value) => json_of(old(self)@) == Ok::<ValueModel, Failure>(value@),
                Err(e) => json_of(old(self)@) == Err::<ValueModel, Failure>(e.failure()),
            },
    {
        let text = match self.get_text() {
            Ok(text) => text,
            Err(e) => {
                return Err(e);
            },
        };
        let tree = match parse_tree(text.as_str()) {
            Ok(tree) => tree,
            Err(e) => {
                return Err(e);
            },
        };
        JsonValue::from_tree(&tree)
    }

    /// The response in short: `<Response [` and the status and `]>`.
    pub fn describe(&self) -> (text: String)
        ensures
            text@ == description(self@.status_code),
    {
        let mut digits: Vec<char> = Vec::new();
        push_decimal(self.status_code, &mut digits);
        let mut text = "<Response [".to_owned();
        text.append(string_of(&digits).as_str());
        text.append("]>");
        text
    }

    /// The body as it stands: as received until something decompressed it.
    pub fn raw_content(&self) -> (body: &Vec<u8>)
        ensures
            body@ == self@.body,
    {
        &self.body
    }

    /// The status code.
    pub fn get_status_code(&self) -> (code: u16)
        ensures
            code == self@.status_code,
    {
        self.status_code
    }

    /// The headers, names in lower case.
    pub fn get_headers(&self) -> (headers: &StrMap<String>)
        ensures
            *headers == self.header_map(),
            header_model(headers@) == self@.headers,
            self.wf() ==> headers.wf(),
    {
        &self.headers
    }
}

} // verus!
