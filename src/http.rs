//! What the web interface answers: content types by file extension, response
//! values, and the admission check on a request body's declared length.
use vstd::prelude::*;
use vstd::string::*;
use vstd::utf8::encode_utf8;

verus! {

/// Largest request body accepted, in bytes.
pub const MAX_PAYLOAD_LEN: usize = 128;

pub const STATUS_OK: u16 = 200;
pub const STATUS_BAD_REQUEST: u16 = 400;
pub const STATUS_PAYLOAD_TOO_LARGE: u16 = 413;
pub const STATUS_UNPROCESSABLE: u16 = 422;
pub const STATUS_INTERNAL_ERROR: u16 = 500;

/// Whether two strings hold the same characters.
pub fn same_text(a: &str, b: &str) -> (r: bool)
    ensures
        r == (a@ == b@),
{
    let n = a.unicode_len();
    if n != b.unicode_len() {
        return false;
    }
    let mut i: usize = 0;
    while i < n
        invariant
            n == a@.len(),
            n == b@.len(),
            i <= n,
            forall|k: int| 0 <= k < i ==> a@[k] == b@[k],
        decreases n - i,
    {
        if a.get_char(i) != b.get_char(i) {
            return false;
        }
        i = i + 1;
    }
    assert(a@ =~= b@);
    true
}

/// Kinds of content the web interface serves.
#[derive(Debug, Clone, Copy, PartialEq, Eq, Structural)]
pub enum ContentType {
    Js,
    Css,
    Html,
    Svg,
    Png,
    Jpg,
    Ico,
    Woff,
    Woff2,
    Ttf,
    Json,
    OctetStream,
    Text,
}

/// The content type of a file with extension `ext`; unknown extensions are
/// served as raw bytes.
pub open spec fn content_type_for(ext: Seq<char>) -> ContentType {
    if ext == "js"@ || ext == "mjs"@ {
        ContentType::Js
    } else if ext == "css"@ {
        ContentType::Css
    } else if ext == "html"@ {
        ContentType::Html
    } else if ext == "svg"@ {
        ContentType::Svg
    } else if ext == "png"@ {
        ContentType::Png
    } else if ext == "jpg"@ || ext == "jpeg"@ {
        ContentType::Jpg
    } else if ext == "ico"@ {
        ContentType::Ico
    } else if ext == "woff"@ {
        ContentType::Woff
    } else if ext == "woff2"@ {
        ContentType::Woff2
    } else if ext == "ttf"@ {
        ContentType::Ttf
    } else if ext == "json"@ {
        ContentType::Json
    } else if ext == "txt"@ {
        ContentType::Text
    } else {
        ContentType::OctetStream
    }
}

/// The media type announced for `c`.
pub open spec fn media_type_for(c: ContentType) -> Seq<char> {
    match c {
        ContentType::Js => "application/javascript"@,
        ContentType::Css => "text/css"@,
        ContentType::Html => "text/html"@,
        ContentType::Svg => "image/svg+xml"@,
        ContentType::Png => "image/png"@,
        ContentType::Jpg => "image/jpeg"@,
        ContentType::Ico => "image/x-icon"@,
        ContentType::Woff => "font/woff"@,
        ContentType::Woff2 => "font/woff2"@,
        ContentType::Ttf => "font/ttf"@,
        ContentType::Json => "application/json"@,
        ContentType::OctetStream => "application/octet-stream"@,
        ContentType::Text => "text/plain"@,
    }
}

/// A media type such as `text/html`.
#[derive(Debug, Clone, Copy)]
pub struct MediaType(&'static str);

impl View for MediaType {
    type V = Seq<char>;

    closed spec fn view(&self) -> Seq<char> {
        self.0@
    }
}

impl MediaType {
    pub fn as_str(&self) -> (r: &'static str)
        ensures
            r@ == self@,
    {
        self.0
    }
}

impl ContentType {
    pub fn from_file_extension(extension: &str) -> (r: ContentType)
        ensures
            r == content_type_for(extension@),
    {
        if same_text(extension, "js") || same_text(extension, "mjs") {
            ContentType::Js
        } else if same_text(extension, "css") {
            ContentType::Css
        } else if same_text(extension, "html") {
            ContentType::Html
        } else if same_text(extension, "svg") {
            ContentType::Svg
        } else if same_text(extension, "png") {
            ContentType::Png
        } else if same_text(extension, "jpg") || same_text(extension, "jpeg") {
            ContentType::Jpg
        } else if same_text(extension, "ico") {
            ContentType::Ico
        } else if same_text(extension, "woff") {
            ContentType::Woff
        } else if same_text(extension, "woff2") {
            ContentType::Woff2
        } else if same_text(extension, "ttf") {
            ContentType::Ttf
        } else if same_text(extension, "json") {
            ContentType::Json
        } else if same_text(extension, "txt") {
            ContentType::Text
        } else {
            ContentType::OctetStream
        }
    }

    pub fn into_media_type(&self) -> (r: MediaType)
        ensures
            r@ == media_type_for(*self),
    {
        let media_type = match self {
            ContentType::Js => "application/javascript",
            ContentType::Css => "text/css",
            ContentType::Html => "text/html",
            ContentType::Svg => "image/svg+xml",
            ContentType::Png => "image/png",
            ContentType::Jpg => "image/jpeg",
            ContentType::Ico => "image/x-icon",
            ContentType::Woff => "font/woff",
            ContentType::Woff2 => "font/woff2",
            ContentType::Ttf => "font/ttf",
            ContentType::Json => "application/json",
            ContentType::OctetStream => "application/octet-stream",
            ContentType::Text => "text/plain",
        };
        MediaType(media_type)
    }
}

/// The payload of a response.
pub enum ResponseBody {
    String(String),
    StaticString(&'static str),
    Bytes(&'static [u8]),
}

/// The bytes sent for `b`.
pub open spec fn body_bytes(b: ResponseBody) -> Seq<u8> {
    match b {
        ResponseBody::String(s) => encode_utf8(s@),
        ResponseBody::StaticString(s) => s.spec_bytes(),
        ResponseBody::Bytes(b) => b@,
    }
}

/// Abstract value of a response.
pub struct ResponseModel {
    pub status_code: u16,
    pub content_type: ContentType,
    pub body: Seq<u8>,
}

/// A response: status, content type and body.
pub struct Response {
    status_code: u16,
    content_type: ContentType,
    body: ResponseBody,
}

impl View for Response {
    type V = ResponseModel;

    closed spec fn view(&self) -> ResponseModel {
        ResponseModel {
            status_code: self.status_code,
            content_type: self.content_type,
            body: body_bytes(self.body),
        }
    }
}

impl Response {
    pub fn new(status_code: u16, content_type: ContentType, body: ResponseBody) -> (r: Response)
        ensures
            r@ == (ResponseModel { status_code, content_type, body: body_bytes(body) }),
    {
        Response { status_code, content_type, body }
    }

    /// An empty success.
    pub fn ok() -> (r: Response)
        ensures
            r@ == (ResponseModel {
                status_code: STATUS_OK,
                content_type: ContentType::Text,
                body: Seq::<u8>::empty(),
            }),
    {
        let empty = "";
        proof {
            reveal_strlit("");
        }
        assert(empty.spec_bytes() =~= Seq::<u8>::empty());
        Response { body: ResponseBody::StaticString(empty), content_type: ContentType::Text, status_code: STATUS_OK }
    }

    /// A plain-text failure with status `status_code`.
    pub fn error(status_code: u16, message: String) -> (r: Response)
        ensures
            r@ == (ResponseModel {
                status_code,
                content_type: ContentType::Text,
                body: encode_utf8(message@),
            }),
    {
        Response { status_code, content_type: ContentType::Text, body: ResponseBody::String(message) }
    }

    pub fn status_code(&self) -> (r: u16)
        ensures
            r == self@.status_code,
    {
        self.status_code
    }

    pub fn content_type(&self) -> (r: ContentType)
        ensures
            r == self@.content_type,
    {
        self.content_type
    }

    pub fn body(&self) -> (r: &[u8])
        ensures
            r@ == self@.body,
    {
        match &self.body {
            ResponseBody::StaticString(payload) => payload.as_bytes(),
            ResponseBody::String(payload) => payload.as_str().as_bytes(),
            ResponseBody::Bytes(payload) => payload,
        }
    }
}

/// A JSON document already rendered as text.
pub struct Json(String);

impl View for Json {
    type V = Seq<char>;

    closed spec fn view(&self) -> Seq<char> {
        self.0@
    }
}

impl Json {
    pub fn from_serialized(text: String) -> (r: Json)
        ensures
            r@ == text@,
    {
        Json(text)
    }

    /// A success carrying the document.
    pub fn into_response(self) -> (r: Response)
        ensures
            r@ == (ResponseModel {
                status_code: STATUS_OK,
                content_type: ContentType::Json,
                body: encode_utf8(self@),
            }),
    {
        Response { status_code: STATUS_OK, content_type: ContentType::Json, body: ResponseBody::String(self.0) }
    }
}

/// Value of a non-empty run of decimal digits.
pub open spec fn decimal_value(digits: Seq<char>) -> int
    decreases digits.len(),
{
    if digits.len() == 0 {
        0
    } else {
        decimal_value(digits.drop_last()) * 10 + (digits.last() as int - '0' as int)
    }
}

pub open spec fn all_digits(s: Seq<char>) -> bool {
    forall|i: int| 0 <= i < s.len() ==> '0' <= #[trigger] s[i] <= '9'
}

/// The number written in `s` as an optional `+` followed by decimal digits
/// only, if it fits in `usize`.
pub open spec fn parsed_usize(s: Seq<char>) -> Option<usize> {
    let digits = if s.len() > 0 && s[0] == '+' {
        s.drop_first()
    } else {
        s
    };
    if digits.len() > 0 && all_digits(digits) && decimal_value(digits) <= usize::MAX {
        Some(decimal_value(digits) as usize)
    } else {
        None
    }
}

/// Relies on `usize::from_str`: it accepts exactly an optional `+` followed by
/// at least one decimal digit, with a value that fits.
#[verifier::external_body]
fn parse_usize(s: &str) -> (r: Option<usize>)
    ensures
        r == parsed_usize(s@),
{
    s.parse::<usize>().ok()
}

/// The verdict on a request body's declared length.
#[derive(Debug, Clone, Copy, PartialEq, Eq, Structural)]
pub enum PayloadLength {
    /// Read this many bytes.
    Accepted(usize),
    /// The declared length is not a number.
    Malformed,
    /// The declared length exceeds `MAX_PAYLOAD_LEN`.
    TooLarge(usize),
}

/// The verdict for a `Content-Length` header with text `header`; a missing
/// header declares an empty body.
pub open spec fn payload_length_for(header: Option<Seq<char>>) -> PayloadLength {
    match header {
        None => PayloadLength::Accepted(0),
        Some(text) => match parsed_usize(text) {
            None => PayloadLength::Malformed,
            Some(n) => if n > MAX_PAYLOAD_LEN {
                PayloadLength::TooLarge(n)
            } else {
                PayloadLength::Accepted(n)
            },
        },
    }
}

pub fn check_payload_length(header: Option<&str>) -> (r: PayloadLength)
    ensures
        r == payload_length_for(
            match header {
                Some(h) => Some(h@),
                None => None,
            },
        ),
{
    match header {
        None => PayloadLength::Accepted(0),
        Some(text) => match parse_usize(text) {
            None => PayloadLength::Malformed,
            Some(n) => if n > MAX_PAYLOAD_LEN {
                PayloadLength::TooLarge(n)
            } else {
                PayloadLength::Accepted(n)
            },
        },
    }
}

/// The response that refuses a request for `verdict`, if it is refused.
pub fn rejection(verdict: PayloadLength) -> (r: Option<Response>)
    ensures
        match verdict {
            PayloadLength::Accepted(_) => r is None,
            PayloadLength::Malformed => r matches Some(resp) && resp@.status_code
                == STATUS_INTERNAL_ERROR && resp@.content_type == ContentType::Text
                && resp@.body == "Invalid Content-Length".spec_bytes(),
            PayloadLength::TooLarge(_) => r matches Some(resp) && resp@.status_code
                == STATUS_PAYLOAD_TOO_LARGE && resp@.content_type == ContentType::Text
                && resp@.body == "Request too big".spec_bytes(),
        },
{
    match verdict {
        PayloadLength::Accepted(_) => None,
        PayloadLength::Malformed => Some(
            Response::new(
                STATUS_INTERNAL_ERROR,
                ContentType::Text,
                ResponseBody::StaticString("Invalid Content-Length"),
            ),
        ),
        PayloadLength::TooLarge(_) => Some(
            Response::new(
                STATUS_PAYLOAD_TOO_LARGE,
                ContentType::Text,
                ResponseBody::StaticString("Request too big"),
            ),
        ),
    }
}

} // verus!
