use vstd::prelude::*;
use vstd::utf8::encode_utf8;
use crate::drivers::error::HttpErrorKind;
use crate::json::{JsonView, as_text, as_u64, field, json_parse, parsed_json, text_of, u64_of};
use crate::text::{str_eq, to_lowercase, unicode_lower};

verus! {

/// The methods of an HTTP request.
#[derive(Clone, Copy, Debug, PartialEq, Eq, Structural)]
pub enum HttpMethod {
    Get,
    Post,
}

/// How an HTTP request is made: its method and its timeouts in seconds.
#[derive(Clone, Copy, Debug, PartialEq, Eq, Structural)]
pub struct HttpRequestPlan {
    pub method: HttpMethod,
    pub connect_timeout: Option<u64>,
    pub read_timeout: Option<u64>,
}

/// The method a method name selects, in any case: `get` or `post`.
pub open spec fn method_of(name: Seq<char>) -> Option<HttpMethod> {
    if unicode_lower(name) == "get"@ {
        Some(HttpMethod::Get)
    } else if unicode_lower(name) == "post"@ {
        Some(HttpMethod::Post)
    } else {
        None
    }
}

/// How the options of an HTTP request read: JSON with a `method` that
/// selects one, and optional `connectTimeout` and `readTimeout`; anything
/// else is a request error.
pub open spec fn request_plan_of(opts: Seq<char>) -> Result<HttpRequestPlan, HttpErrorKind> {
    match parsed_json(opts) {
        Err(_) => Err(HttpErrorKind::RequestError),
        Ok(doc) => match as_text(field(doc, "method"@)) {
            None => Err(HttpErrorKind::RequestError),
            Some(m) => match method_of(m) {
                None => Err(HttpErrorKind::RequestError),
                Some(method) => Ok(HttpRequestPlan {
                    method,
                    connect_timeout: as_u64(field(doc, "connectTimeout"@)),
                    read_timeout: as_u64(field(doc, "readTimeout"@)),
                }),
            },
        },
    }
}

/// The options of a request are read from its JSON document: they are read
/// exactly when the document has a text `method` that is `get` or `post` in
/// any case, and then the method is the one named, the connect timeout is the
/// `connectTimeout` member and the read timeout the `readTimeout` member,
/// each as an unsigned number when it is one.
pub proof fn law_request_plan_reads_members(opts: Seq<char>)
    ensures
        request_plan_of(opts) is Ok <==> match parsed_json(opts) {
            Ok(doc) => match as_text(field(doc, "method"@)) {
                Some(m) => unicode_lower(m) == "get"@ || unicode_lower(m) == "post"@,
                None => false,
            },
            Err(_) => false,
        },
        match (request_plan_of(opts), parsed_json(opts)) {
            (Ok(p), Ok(doc)) => {
                &&& p.read_timeout == as_u64(field(doc, "readTimeout"@))
                &&& p.connect_timeout == as_u64(field(doc, "connectTimeout"@))
                &&& match as_text(field(doc, "method"@)) {
                    Some(m) => (p.method == HttpMethod::Get <==> unicode_lower(m) == "get"@)
                        && (p.method == HttpMethod::Post <==> unicode_lower(m) != "get"@),
                    None => false,
                }
            },
            (Ok(_), Err(_)) => false,
            _ => true,
        },
{
}

/// How the options of an HTTP request read.
pub fn http_request_plan(opts: &str) -> (r: Result<HttpRequestPlan, HttpErrorKind>)
    ensures
        r == request_plan_of(opts@),
{
    let json = match json_parse(opts) {
        Ok(o) => o,
        Err(_) => return Err(HttpErrorKind::RequestError),
    };
    let method = match text_of(json.get("method")) {
        Some(s) => s,
        None => return Err(HttpErrorKind::RequestError),
    };
    let connect_timeout = u64_of(json.get("connectTimeout"));
    let read_timeout = u64_of(json.get("readTimeout"));
    let req_method = to_lowercase(method.as_str());
    let m = if str_eq(req_method.as_str(), "get") {
        HttpMethod::Get
    } else if str_eq(req_method.as_str(), "post") {
        HttpMethod::Post
    } else {
        return Err(HttpErrorKind::RequestError);
    };
    Ok(HttpRequestPlan { method: m, connect_timeout, read_timeout })
}

/// Copies the bytes of a header value to the front of `buf`; returns how
/// many there are.
pub fn copy_head(buf: &mut [u8], head: &str) -> (r: u32)
    requires
        encode_utf8(head@).len() <= old(buf)@.len(),
        old(buf)@.len() <= u32::MAX,
    ensures
        r == encode_utf8(head@).len(),
        final(buf)@ == encode_utf8(head@) + old(buf)@.subrange(r as int, old(buf)@.len() as int),
{
    let sbuf = head.as_bytes();
    let ghost before = buf@;
    let mut i: usize = 0;
    while i < sbuf.len()
        invariant
            sbuf@ == encode_utf8(head@),
            sbuf@.len() <= buf@.len(),
            buf@.len() == before.len(),
            i <= sbuf@.len(),
            forall|k: int| 0 <= k < i ==> buf@[k] == sbuf@[k],
            forall|k: int| i <= k < buf@.len() ==> buf@[k] == before[k],
        decreases sbuf@.len() - i,
    {
        buf[i] = sbuf[i];
        i = i + 1;
    }
    assert(buf@ =~= sbuf@ + before.subrange(sbuf@.len() as int, before.len() as int));
    sbuf.len() as u32
}

} // verus!
