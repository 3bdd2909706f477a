//! The HTTP message shapes the query interface uses, and the pure builders
//! that assemble responses. Reading and writing sockets, and the header
//! parsing built on regular expressions, live with the transport; the
//! value-level work lives here.

use vstd::prelude::*;

use crate::numparse::{spec_all_digits, spec_parse_int};
use vstd::string::StringSliceAdditionalSpecFns;
use crate::strmap::str_eq;

verus! {

/// One header line, as an attribute-value pair.
#[derive(Clone, Debug)]
pub struct HttpHeaderEntry {
    pub attribute: String,
    pub value: String,
}

impl HttpHeaderEntry {
    pub fn from_str(header: &str, value: &str) -> (r: Self)
        ensures
            r.attribute@ == header@,
            r.value@ == value@,
    {
        HttpHeaderEntry { attribute: header.to_owned(), value: value.to_owned() }
    }
}

/// An outbound request.
#[derive(Clone, Debug)]
pub struct HttpRequest {
    pub method: String,
    pub path: String,
    pub headers: Vec<(String, String)>,
    pub content: Vec<u8>,
}

impl HttpRequest {
    pub fn new_get(path: String) -> (r: Self)
        ensures
            r.method@ == "GET"@,
            r.path == path,
            r.headers@.len() == 0,
            r.content@.len() == 0,
    {
        HttpRequest {
            method: "GET".to_owned(),
            path,
            headers: Vec::new(),
            content: Vec::new(),
        }
    }

    pub fn new_post(path: String, content: Vec<u8>) -> (r: Self)
        ensures
            r.method@ == "POST"@,
            r.path == path,
            r.headers@.len() == 0,
            r.content == content,
    {
        HttpRequest {
            method: "POST".to_owned(),
            path,
            headers: Vec::new(),
            content,
        }
    }
}

/// An outbound response.
#[derive(Clone, Debug)]
pub struct HttpResponse {
    pub status_code: u16,
    pub status_desc: &'static str,
    pub headers: Vec<(String, String)>,
    pub content: Vec<u8>,
}

/// A parsed response header, before its body is read.
#[derive(Clone, Debug)]
pub struct ResponseHeader {
    pub status_code: u16,
    pub status_desc: String,
    pub headers: Vec<(String, String)>,
    pub content_length: usize,
}

/// A parsed request header, before its body is read.
#[derive(Clone, Debug)]
pub struct RequestHeader {
    pub method: String,
    pub path: String,
    pub headers: Vec<(String, String)>,
    pub content_length: usize,
}

/// A raw response as a header map plus body bytes.
#[derive(Clone, Debug)]
pub struct HTTPEResponse {
    pub headers: Vec<(String, String)>,
    pub content: Vec<u8>,
}

/// A request kept in its raw bytes, with the spans of its parts:
/// `headers_i` holds `(name_start, name_end, value_start, value_end)`.
#[derive(Clone, Debug)]
pub struct HttpeRequest {
    pub data: Vec<u8>,
    pub headers_i: Vec<(usize, usize, usize, usize)>,
    pub method_i: Option<(usize, usize)>,
    pub path_i: Option<(usize, usize)>,
    pub content_i: Option<(usize, usize)>,
}

/// Compares two byte slices by value.
fn bytes_eq(a: &[u8], b: &[u8]) -> (r: bool)
    ensures
        r == (a@ == b@),
{
    if a.len() != b.len() {
        proof {
            assert(a@ != b@);
        }
        return false;
    }
    let n = a.len();
    let mut i: usize = 0;
    while i < n
        invariant
            i <= n,
            n == a@.len(),
            n == b@.len(),
            forall|j: int| 0 <= j < i ==> a@[j] == b@[j],
        decreases n - i,
    {
        if a[i] != b[i] {
            return false;
        }
        i = i + 1;
    }
    proof {
        assert(a@ =~= b@);
    }
    true
}

/// Relies on std::str::from_utf8: the same bytes seen as text, exactly
/// when they are valid UTF-8.
#[verifier::external_body]
fn bytes_as_str(b: &[u8]) -> (r: Option<&str>)
    ensures
        match r {
            Some(s) => s.spec_bytes() == b@ && vstd::utf8::valid_utf8(b@),
            None => !vstd::utf8::valid_utf8(b@),
        },
{
    std::str::from_utf8(b).ok()
}

impl HttpeRequest {
    /// The spans are inside the data and well ordered.
    pub open spec fn wf(&self) -> bool {
        &&& forall|k: int|
            0 <= k < self.headers_i@.len() ==> {
                let h = #[trigger] self.headers_i@[k];
                h.0 <= h.1 <= self.data@.len() && h.2 <= h.3 <= self.data@.len()
            }
        &&& match self.method_i {
            Some(m) => m.0 <= m.1 <= self.data@.len(),
            None => true,
        }
        &&& match self.path_i {
            Some(p) => p.0 <= p.1 <= self.data@.len(),
            None => true,
        }
        &&& match self.content_i {
            Some(c) => c.0 <= c.1 && c.0 <= self.data@.len(),
            None => true,
        }
    }

    /// The value span of the first header whose name bytes equal `name`,
    /// when that span is text.
    pub fn get_header(&self, name: &str) -> (r: Option<&str>)
        requires
            self.wf(),
    {
        let n = self.headers_i.len();
        let mut i: usize = 0;
        while i < n
            invariant
                i <= n,
                n == self.headers_i@.len(),
                self.wf(),
            decreases n - i,
        {
            let (n_start, n_end, v_start, v_end) = self.headers_i[i];
            let name_bytes: &[u8] = self.data.as_slice();
            let name_part = slice_range(name_bytes, n_start, n_end);
            if bytes_eq(name_part, name.as_bytes()) {
                let value_part = slice_range(self.data.as_slice(), v_start, v_end);
                return bytes_as_str(value_part);
            }
            i = i + 1;
        }
        None
    }

    /// The request path as text; empty when absent or not text.
    pub fn get_path(&self) -> (r: &str)
        requires
            self.wf(),
        ensures
            match self.path_i {
                Some(p) => vstd::utf8::valid_utf8(self.data@.subrange(p.0 as int, p.1 as int))
                    ==> r.spec_bytes() == self.data@.subrange(p.0 as int, p.1 as int),
                None => r@.len() == 0,
            },
    {
        proof {
            reveal_strlit("");
        }
        match &self.path_i {
            None => "",
            Some(p) => {
                let part = slice_range(self.data.as_slice(), p.0, p.1);
                match bytes_as_str(part) {
                    Some(s) => s,
                    None => "",
                }
            },
        }
    }

    /// The request method as text; empty when absent or not text.
    pub fn get_method(&self) -> (r: &str)
        requires
            self.wf(),
        ensures
            match self.method_i {
                Some(m) => vstd::utf8::valid_utf8(self.data@.subrange(m.0 as int, m.1 as int))
                    ==> r.spec_bytes() == self.data@.subrange(m.0 as int, m.1 as int),
                None => r@.len() == 0,
            },
    {
        proof {
            reveal_strlit("");
        }
        match &self.method_i {
            None => "",
            Some(m) => {
                let part = slice_range(self.data.as_slice(), m.0, m.1);
                match bytes_as_str(part) {
                    Some(s) => s,
                    None => "",
                }
            },
        }
    }

    /// The body bytes as far as the data holds them, with the announced
    /// content length.
    pub fn get_content(&self) -> (r: (&[u8], usize))
        requires
            self.wf(),
        ensures
            match self.content_i {
                Some(c) => r.1 == c.1 - c.0 && r.0@ == self.data@.subrange(
                    c.0 as int,
                    (if c.1 <= self.data@.len() {
                        c.1 as int
                    } else {
                        self.data@.len() as int
                    }),
                ),
                None => r.1 == 0 && r.0@.len() == 0,
            },
    {
        match &self.content_i {
            None => (slice_range(self.data.as_slice(), 0, 0), 0),
            Some(c) => {
                let end = if c.1 <= self.data.len() {
                    c.1
                } else {
                    self.data.len()
                };
                (slice_range(self.data.as_slice(), c.0, end), c.1 - c.0)
            },
        }
    }
}

/// The slice of `b` between `from` and `to`.
fn slice_range(b: &[u8], from: usize, to: usize) -> (r: &[u8])
    requires
        from <= to <= b@.len(),
    ensures
        r@ == b@.subrange(from as int, to as int),
{
    vstd::slice::slice_subrange(b, from, to)
}

/// Relies on u64's decimal formatting: the digits of the value, which the
/// library's own decimal parser reads back exactly.
#[verifier::external_body]
fn u64_to_string(v: u64) -> (r: String)
    ensures
        r@.len() > 0,
        spec_all_digits(r@),
        spec_parse_int(r@) == Some(v as int),
{
    v.to_string()
}

/// The standard description of a status code.
pub open spec fn spec_status_code_desc(status_code: u16) -> Seq<char> {
    if status_code == 200 {
        "OK"@
    } else     if status_code == 400 {
        "Bad Request"@
    } else     if status_code == 403 {
        "Forbidden"@
    } else     if status_code == 404 {
        "Not Found"@
    } else     if status_code == 500 {
        "Internal Server Error"@
    } else     if status_code == 501 {
        "Not Implemented"@
    } else     if status_code == 505 {
        "HTTP Version Not Supported"@
    } else     {
        "Unknown"@
    }
}

fn status_code_desc(status_code: u16) -> (r: &'static str)
    ensures
        r@ == spec_status_code_desc(status_code),
{
    match status_code {
        200 => "OK",
        400 => "Bad Request",
        403 => "Forbidden",
        404 => "Not Found",
        500 => "Internal Server Error",
        501 => "Not Implemented",
        505 => "HTTP Version Not Supported",
        _ => "Unknown",
    }
}

/// The MIME type registered for a file extension.
pub open spec fn spec_extension_mimetype(ext: Seq<char>) -> Seq<char> {
    if ext == "aac"@ {
        "audio/aac"@
    } else     if ext == "abw"@ {
        "application/x-abiword"@
    } else     if ext == "arc"@ {
        "application/x-freearc"@
    } else     if ext == "avi"@ {
        "video/x-msvideo"@
    } else     if ext == "azw"@ {
        "application/vnd.amazon.ebook"@
    } else     if ext == "bin"@ {
        "application/octet-stream"@
    } else     if ext == "bmp"@ {
        "image/bmp"@
    } else     if ext == "bz"@ {
        "application/x-bzip"@
    } else     if ext == "bz2"@ {
        "application/x-bzip2"@
    } else     if ext == "cda"@ {
        "application/x-cdf"@
    } else     if ext == "csh"@ {
        "application/x-csh"@
    } else     if ext == "css"@ {
        "text/css"@
    } else     if ext == "csv"@ {
        "text/csv"@
    } else     if ext == "doc"@ {
        "application/msword"@
    } else     if ext == "docx"@ {
        "application/vnd.openxmlformats-officedocument.wordprocessingml.document"@
    } else     if ext == "eot"@ {
        "application/vnd.ms-fontobject"@
    } else     if ext == "epub"@ {
        "application/epub+zip"@
    } else     if ext == "gz"@ {
        "application/gzip"@
    } else     if ext == "gif"@ {
        "image/gif"@
    } else     if ext == "htm"@ {
        "text/html"@
    } else     if ext == "html"@ {
        "text/html"@
    } else     if ext == "ico"@ {
        "image/vnd.microsoft.icon"@
    } else     if ext == "ics"@ {
        "text/calendar"@
    } else     if ext == "jar"@ {
        "application/java-archive"@
    } else     if ext == "jpeg"@ {
        "image/jpeg"@
    } else     if ext == "jpg"@ {
        "image/jpeg"@
    } else     if ext == "js"@ {
        "text/javascript"@
    } else     if ext == "json"@ {
        "application/json"@
    } else     if ext == "jsonld"@ {
        "application/ld+json"@
    } else     if ext == "mid"@ {
        "audio/midi"@
    } else     if ext == "midi"@ {
        "audio/midi"@
    } else     if ext == "mjs"@ {
        "text/javascript"@
    } else     if ext == "mp3"@ {
        "audio/mpeg"@
    } else     if ext == "mp4"@ {
        "video/mp4"@
    } else     if ext == "mpeg"@ {
        "video/mpeg"@
    } else     if ext == "mpkg"@ {
        "application/vnd.apple.installer+xml"@
    } else     if ext == "odp"@ {
        "application/vnd.oasis.opendocument.presentation"@
    } else     if ext == "ods"@ {
        "application/vnd.oasis.opendocument.spreadsheet"@
    } else     if ext == "odt"@ {
        "application/vnd.oasis.opendocument.text"@
    } else     if ext == "oga"@ {
        "audio/ogg"@
    } else     if ext == "ogv"@ {
        "video/ogg"@
    } else     if ext == "ogx"@ {
        "application/ogg"@
    } else     if ext == "opus"@ {
        "audio/opus"@
    } else     if ext == "otf"@ {
        "font/otf"@
    } else     if ext == "png"@ {
        "image/png"@
    } else     if ext == "pdf"@ {
        "application/pdf"@
    } else     if ext == "php"@ {
        "application/x-httpd-php"@
    } else     if ext == "ppt"@ {
        "application/vnd.ms-powerpoint"@
    } else     if ext == "pptx"@ {
        "application/vnd.openxmlformats-officedocument.presentationml.presentation"@
    } else     if ext == "rar"@ {
        "application/vnd.rar"@
    } else     if ext == "rtf"@ {
        "application/rtf"@
    } else     if ext == "sh"@ {
        "application/x-sh"@
    } else     if ext == "svg"@ {
        "image/svg+xml"@
    } else     if ext == "swf"@ {
        "application/x-shockwave-flash"@
    } else     if ext == "tar"@ {
        "application/x-tar"@
    } else     if ext == "tif"@ {
        "image/tiff"@
    } else     if ext == "tiff"@ {
        "image/tiff"@
    } else     if ext == "ts"@ {
        "video/mp2t"@
    } else     if ext == "ttf"@ {
        "font/ttf"@
    } else     if ext == "txt"@ {
        "text/plain"@
    } else     if ext == "vsd"@ {
        "application/vnd.visio"@
    } else     if ext == "wav"@ {
        "audio/wav"@
    } else     if ext == "weba"@ {
        "audio/webm"@
    } else     if ext == "webm"@ {
        "video/webm"@
    } else     if ext == "webp"@ {
        "image/webp"@
    } else     if ext == "woff"@ {
        "font/woff"@
    } else     if ext == "woff2"@ {
        "font/woff2"@
    } else     if ext == "xhtml"@ {
        "application/xhtml+xml"@
    } else     if ext == "xls"@ {
        "application/vnd.ms-excel"@
    } else     if ext == "xlsx"@ {
        "application/vnd.openxmlformats-officedocument.spreadsheetml.sheet"@
    } else     if ext == "xml"@ {
        "application/xml"@
    } else     if ext == "xul"@ {
        "application/vnd.mozilla.xul+xml"@
    } else     if ext == "zip"@ {
        "application/zip"@
    } else     if ext == "3gp"@ {
        "video/3gpp"@
    } else     if ext == "3g2"@ {
        "video/3gpp2"@
    } else     if ext == "7z"@ {
        "application/x-7z-compressed"@
    } else     {
        "unknown"@
    }
}

fn extension_mimetype(ext: &str) -> (r: &'static str)
    ensures
        r@ == spec_extension_mimetype(ext@),
{
    if str_eq(ext, "aac") {
        return "audio/aac";
    }
    if str_eq(ext, "abw") {
        return "application/x-abiword";
    }
    if str_eq(ext, "arc") {
        return "application/x-freearc";
    }
    if str_eq(ext, "avi") {
        return "video/x-msvideo";
    }
    if str_eq(ext, "azw") {
        return "application/vnd.amazon.ebook";
    }
    if str_eq(ext, "bin") {
        return "application/octet-stream";
    }
    if str_eq(ext, "bmp") {
        return "image/bmp";
    }
    if str_eq(ext, "bz") {
        return "application/x-bzip";
    }
    if str_eq(ext, "bz2") {
        return "application/x-bzip2";
    }
    if str_eq(ext, "cda") {
        return "application/x-cdf";
    }
    if str_eq(ext, "csh") {
        return "application/x-csh";
    }
    if str_eq(ext, "css") {
        return "text/css";
    }
    if str_eq(ext, "csv") {
        return "text/csv";
    }
    if str_eq(ext, "doc") {
        return "application/msword";
    }
    if str_eq(ext, "docx") {
        return "application/vnd.openxmlformats-officedocument.wordprocessingml.document";
    }
    if str_eq(ext, "eot") {
        return "application/vnd.ms-fontobject";
    }
    if str_eq(ext, "epub") {
        return "application/epub+zip";
    }
    if str_eq(ext, "gz") {
        return "application/gzip";
    }
    if str_eq(ext, "gif") {
        return "image/gif";
    }
    if str_eq(ext, "htm") {
        return "text/html";
    }
    if str_eq(ext, "html") {
        return "text/html";
    }
    if str_eq(ext, "ico") {
        return "image/vnd.microsoft.icon";
    }
    if str_eq(ext, "ics") {
        return "text/calendar";
    }
    if str_eq(ext, "jar") {
        return "application/java-archive";
    }
    if str_eq(ext, "jpeg") {
        return "image/jpeg";
    }
    if str_eq(ext, "jpg") {
        return "image/jpeg";
    }
    if str_eq(ext, "js") {
        return "text/javascript";
    }
    if str_eq(ext, "json") {
        return "application/json";
    }
    if str_eq(ext, "jsonld") {
        return "application/ld+json";
    }
    if str_eq(ext, "mid") {
        return "audio/midi";
    }
    if str_eq(ext, "midi") {
        return "audio/midi";
    }
    if str_eq(ext, "mjs") {
        return "text/javascript";
    }
    if str_eq(ext, "mp3") {
        return "audio/mpeg";
    }
    if str_eq(ext, "mp4") {
        return "video/mp4";
    }
    if str_eq(ext, "mpeg") {
        return "video/mpeg";
    }
    if str_eq(ext, "mpkg") {
        return "application/vnd.apple.installer+xml";
    }
    if str_eq(ext, "odp") {
        return "application/vnd.oasis.opendocument.presentation";
    }
    if str_eq(ext, "ods") {
        return "application/vnd.oasis.opendocument.spreadsheet";
    }
    if str_eq(ext, "odt") {
        return "application/vnd.oasis.opendocument.text";
    }
    if str_eq(ext, "oga") {
        return "audio/ogg";
    }
    if str_eq(ext, "ogv") {
        return "video/ogg";
    }
    if str_eq(ext, "ogx") {
        return "application/ogg";
    }
    if str_eq(ext, "opus") {
        return "audio/opus";
    }
    if str_eq(ext, "otf") {
        return "font/otf";
    }
    if str_eq(ext, "png") {
        return "image/png";
    }
    if str_eq(ext, "pdf") {
        return "application/pdf";
    }
    if str_eq(ext, "php") {
        return "application/x-httpd-php";
    }
    if str_eq(ext, "ppt") {
        return "application/vnd.ms-powerpoint";
    }
    if str_eq(ext, "pptx") {
        return "application/vnd.openxmlformats-officedocument.presentationml.presentation";
    }
    if str_eq(ext, "rar") {
        return "application/vnd.rar";
    }
    if str_eq(ext, "rtf") {
        return "application/rtf";
    }
    if str_eq(ext, "sh") {
        return "application/x-sh";
    }
    if str_eq(ext, "svg") {
        return "image/svg+xml";
    }
    if str_eq(ext, "swf") {
        return "application/x-shockwave-flash";
    }
    if str_eq(ext, "tar") {
        return "application/x-tar";
    }
    if str_eq(ext, "tif") {
        return "image/tiff";
    }
    if str_eq(ext, "tiff") {
        return "image/tiff";
    }
    if str_eq(ext, "ts") {
        return "video/mp2t";
    }
    if str_eq(ext, "ttf") {
        return "font/ttf";
    }
    if str_eq(ext, "txt") {
        return "text/plain";
    }
    if str_eq(ext, "vsd") {
        return "application/vnd.visio";
    }
    if str_eq(ext, "wav") {
        return "audio/wav";
    }
    if str_eq(ext, "weba") {
        return "audio/webm";
    }
    if str_eq(ext, "webm") {
        return "video/webm";
    }
    if str_eq(ext, "webp") {
        return "image/webp";
    }
    if str_eq(ext, "woff") {
        return "font/woff";
    }
    if str_eq(ext, "woff2") {
        return "font/woff2";
    }
    if str_eq(ext, "xhtml") {
        return "application/xhtml+xml";
    }
    if str_eq(ext, "xls") {
        return "application/vnd.ms-excel";
    }
    if str_eq(ext, "xlsx") {
        return "application/vnd.openxmlformats-officedocument.spreadsheetml.sheet";
    }
    if str_eq(ext, "xml") {
        return "application/xml";
    }
    if str_eq(ext, "xul") {
        return "application/vnd.mozilla.xul+xml";
    }
    if str_eq(ext, "zip") {
        return "application/zip";
    }
    if str_eq(ext, "3gp") {
        return "video/3gpp";
    }
    if str_eq(ext, "3g2") {
        return "video/3gpp2";
    }
    if str_eq(ext, "7z") {
        return "application/x-7z-compressed";
    }
    "unknown"
}

/// Whether `headers` carry exactly the content type and length of a
/// response body.
pub open spec fn spec_std_headers(
    headers: Seq<(String, String)>,
    content_type: Seq<char>,
    content_len: int,
) -> bool {
    &&& headers.len() == 2
    &&& headers[0].0@ == "Content-Type"@
    &&& headers[0].1@ == content_type
    &&& headers[1].0@ == "Content-Length"@
    &&& spec_parse_int(headers[1].1@) == Some(content_len)
}

/// Builds a response with the standard two headers.
pub fn build_http_response(status_code: u16, content_bytes: Vec<u8>, content_type: &str) -> (r:
    HttpResponse)
    ensures
        r.status_code == status_code,
        r.status_desc@ == spec_status_code_desc(status_code),
        r.content == content_bytes,
        spec_std_headers(r.headers@, content_type@, content_bytes@.len() as int),
{
    let mut headers: Vec<(String, String)> = Vec::new();
    headers.push(("Content-Type".to_owned(), content_type.to_owned()));
    headers.push(("Content-Length".to_owned(), u64_to_string(content_bytes.len() as u64)));
    HttpResponse {
        status_code,
        status_desc: status_code_desc(status_code),
        headers,
        content: content_bytes,
    }
}

/// A plain-text response.
pub fn respond_http_plain_text(status_code: u16, content_str: &str) -> (r: HttpResponse)
    ensures
        r.status_code == status_code,
        r.status_desc@ == spec_status_code_desc(status_code),
        r.content@ == content_str.spec_bytes(),
        spec_std_headers(
            r.headers@,
            "text/plain; charset=UTF-8"@,
            content_str.spec_bytes().len() as int,
        ),
{
    build_http_response(status_code, content_str.as_bytes_vec(), "text/plain; charset=UTF-8")
}

/// An HTML response.
pub fn respond_http_html(status_code: u16, content_str: &str) -> (r: HttpResponse)
    ensures
        r.status_code == status_code,
        r.status_desc@ == spec_status_code_desc(status_code),
        r.content@ == content_str.spec_bytes(),
        spec_std_headers(
            r.headers@,
            "text/html; charset=UTF-8"@,
            content_str.spec_bytes().len() as int,
        ),
{
    build_http_response(status_code, content_str.as_bytes_vec(), "text/html; charset=UTF-8")
}

/// A JSON response from text.
pub fn respond_http_json(status_code: u16, content_str: &str) -> (r: HttpResponse)
    ensures
        r.status_code == status_code,
        r.status_desc@ == spec_status_code_desc(status_code),
        r.content@ == content_str.spec_bytes(),
        spec_std_headers(
            r.headers@,
            "application/json; charset=UTF-8"@,
            content_str.spec_bytes().len() as int,
        ),
{
    build_http_response(status_code, content_str.as_bytes_vec(), "application/json; charset=UTF-8")
}

/// A JSON response from raw bytes.
pub fn respond_http_json_bytes(status_code: u16, content_bytes: Vec<u8>) -> (r: HttpResponse)
    ensures
        r.status_code == status_code,
        r.status_desc@ == spec_status_code_desc(status_code),
        r.content == content_bytes,
        spec_std_headers(
            r.headers@,
            "application/json; charset=UTF-8"@,
            content_bytes@.len() as int,
        ),
{
    build_http_response(status_code, content_bytes, "application/json; charset=UTF-8")
}

/// A file response, typed by the file's extension.
pub fn respond_http_file(status_code: u16, content_bytes: Vec<u8>, extension: &str) -> (r:
    HttpResponse)
    ensures
        r.status_code == status_code,
        r.status_desc@ == spec_status_code_desc(status_code),
        r.content == content_bytes,
        spec_std_headers(
            r.headers@,
            spec_extension_mimetype(extension@),
            content_bytes@.len() as int,
        ),
{
    build_http_response(status_code, content_bytes, extension_mimetype(extension))
}


/// Whether position `i` of `b` ends a header block: a blank line made of
/// `\r\n\r\n` (four bytes) or `\n\n` (two).
pub open spec fn spec_eoh_at(b: Seq<u8>, i: int) -> Option<(int, int)> {
    if b[i] != 0x0A {
        None
    } else if i >= 3 && b[i - 1] == 0x0D && b[i - 2] == 0x0A && b[i - 3] == 0x0D {
        Some((i - 3, 4))
    } else if i >= 1 && b[i - 1] == 0x0A {
        Some((i - 1, 2))
    } else {
        None
    }
}

/// Finds the end of the header block in the first `data_len` bytes: the
/// position and length of the first blank line.
pub fn find_eoh(buffer: &[u8], data_len: usize) -> (r: Option<(usize, usize)>)
    requires
        data_len <= buffer@.len(),
    ensures
        match r {
            Some(p) => {
                &&& 1 <= p.0 + p.1 <= data_len
                &&& spec_eoh_at(buffer@, p.0 + p.1 - 1) == Some((p.0 as int, p.1 as int))
                &&& forall|j: int| 1 <= j < p.0 + p.1 - 1 ==> #[trigger] spec_eoh_at(buffer@, j) is None
            },
            None => forall|j: int| 1 <= j < data_len ==> #[trigger] spec_eoh_at(buffer@, j) is None,
        },
{
    if data_len < 2 {
        return None;
    }
    let mut i: usize = 1;
    while i < data_len
        invariant
            1 <= i <= data_len,
            data_len <= buffer@.len(),
            forall|j: int| 1 <= j < i ==> #[trigger] spec_eoh_at(buffer@, j) is None,
        decreases data_len - i,
    {
        if buffer[i] == 0x0A {
            if i >= 3 && buffer[i - 1] == 0x0D && buffer[i - 2] == 0x0A && buffer[i - 3] == 0x0D {
                return Some((i - 3, 4));
            }
            if buffer[i - 1] == 0x0A {
                return Some((i - 1, 2));
            }
        }
        i = i + 1;
    }
    None
}

} // verus!
