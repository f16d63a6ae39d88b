use vstd::prelude::*;
use vstd::utf8::encode_utf8;
use crate::cli_config::opt_view;
use crate::drivers::error::IpfsErrorKind;
use crate::exit_code::{int_text, nat_digits, push_digits};
use crate::text::{bytes_of, chars_of, push_bytes, push_chars, str_eq, string_from, string_of};

verus! {

/// The parts of a URL: the scheme, the host, the port (the scheme's
/// default when none is written), the path and the query.
pub struct UrlParts {
    pub scheme: String,
    pub host: Option<String>,
    pub port: Option<u16>,
    pub path: String,
    pub query: Option<String>,
}

/// The texts of the parts of a URL.
pub open spec fn url_parts_view(u: UrlParts) -> (Seq<char>, Option<Seq<char>>, Option<u16>, Seq<char>, Option<Seq<char>>) {
    (
        u.scheme@,
        match u.host {
            Some(h) => Some(h@),
            None => None,
        },
        u.port,
        u.path@,
        match u.query {
            Some(q) => Some(q@),
            None => None,
        },
    )
}

/// The parts of the URL a text reads as, if it reads as one.
pub uninterp spec fn url_parts_of(text: Seq<char>) -> Result<(Seq<char>, Option<Seq<char>>, Option<u16>, Seq<char>, Option<Seq<char>>), Seq<char>>;

/// Reads a URL by `url::Url::parse`, and takes from it the scheme, the
/// host, the port or the scheme's known default, the path and the query;
/// the contract names the result, or the message of the error parsing
/// reports.
#[verifier::external_body]
pub(crate) fn parse_url(text: &str) -> (r: Result<UrlParts, String>)
    ensures
        match r {
            Ok(u) => url_parts_of(text@) == Ok::<_, Seq<char>>(url_parts_view(u)),
            Err(e) => url_parts_of(text@) == Err::<(Seq<char>, Option<Seq<char>>, Option<u16>, Seq<char>, Option<Seq<char>>), Seq<char>>(e@),
        },
{
    url::Url::parse(text).map_err(|e| e.to_string()).map(|u| UrlParts {
        scheme: u.scheme().to_string(),
        host: u.host_str().map(String::from),
        port: u.port_or_known_default(),
        path: u.path().to_string(),
        query: u.query().map(String::from),
    })
}

/// The headers of a request, by name, in the order the names were first
/// given, each with its values in order.
pub open spec fn header_view(h: Seq<(String, Vec<String>)>) -> Seq<(Seq<char>, Seq<Seq<char>>)> {
    h.map_values(|e: (String, Vec<String>)| (e.0@, e.1@.map_values(|v: String| v@)))
}

/// The headers with one more value under `key`: added to the values of the
/// first header of that name, or as a new header at the end.
pub open spec fn with_header(h: Seq<(Seq<char>, Seq<Seq<char>>)>, key: Seq<char>, value: Seq<char>) -> Seq<(Seq<char>, Seq<Seq<char>>)>
    decreases h.len(),
{
    if h.len() == 0 {
        seq![(key, seq![value])]
    } else if h[0].0 == key {
        h.update(0, (key, h[0].1.push(value)))
    } else {
        seq![h[0]] + with_header(h.subrange(1, h.len() as int), key, value)
    }
}

proof fn lemma_with_header_at(h: Seq<(Seq<char>, Seq<Seq<char>>)>, key: Seq<char>, value: Seq<char>, k: int)
    requires
        0 <= k <= h.len(),
        forall|j: int| 0 <= j < k ==> h[j].0 != key,
    ensures
        k < h.len() && h[k].0 == key ==> with_header(h, key, value) == h.update(k, (key, h[k].1.push(value))),
        k == h.len() ==> with_header(h, key, value) == h.push((key, seq![value])),
    decreases k,
{
    if k > 0 {
        let t = h.subrange(1, h.len() as int);
        assert forall|j: int| 0 <= j < k - 1 implies t[j].0 != key by {
            assert(t[j] == h[j + 1]);
        }
        lemma_with_header_at(t, key, value, k - 1);
        if k < h.len() && h[k].0 == key {
            assert(t[k - 1] == h[k]);
            assert(seq![h[0]] + t.update(k - 1, (key, t[k - 1].1.push(value))) =~= h.update(k, (key, h[k].1.push(value))));
        }
        if k == h.len() {
            assert(seq![h[0]] + t.push((key, seq![value])) =~= h.push((key, seq![value])));
        }
    }
}

/// A raw HTTP request to an IPFS node, written by hand for multipart
/// uploads.
pub struct HttpRaw {
    pub url: UrlParts,
    pub method: String,
    pub boundary: Option<String>,
    pub header: Vec<(String, Vec<String>)>,
}

/// The line end of HTTP.
pub open spec fn eol() -> Seq<char> {
    seq!['\r', '\n']
}

/// The `Host` value of a URL: the host, and the port after `:` when known.
pub open spec fn host_value(host: Seq<char>, port: Option<u16>) -> Seq<char> {
    match port {
        Some(p) => host + seq![':'] + nat_digits(p as nat),
        None => host,
    }
}

/// The lines of the headers: one `name: value` line per value.
pub open spec fn header_lines(h: Seq<(Seq<char>, Seq<Seq<char>>)>) -> Seq<char>
    decreases h.len(),
{
    if h.len() == 0 {
        seq![]
    } else {
        header_lines(h.drop_last()) + value_lines(h.last().0, h.last().1)
    }
}

/// The lines of one header: one `name: value` line per value.
pub open spec fn value_lines(name: Seq<char>, values: Seq<Seq<char>>) -> Seq<char>
    decreases values.len(),
{
    if values.len() == 0 {
        seq![]
    } else {
        value_lines(name, values.drop_last()) + name + seq![':', ' '] + values.last() + eol()
    }
}

/// Whether some header has the name `key`.
pub open spec fn has_header(h: Seq<(Seq<char>, Seq<Seq<char>>)>, key: Seq<char>) -> bool {
    exists|j: int| 0 <= j < h.len() && #[trigger] h[j].0 == key
}

/// The headers sent: `Host` (when the URL has a host) and `Accept: */*`,
/// each unless a header of that name was given, then the given headers.
pub open spec fn sent_headers(host: Option<Seq<char>>, port: Option<u16>, h: Seq<(Seq<char>, Seq<Seq<char>>)>) -> Seq<(Seq<char>, Seq<Seq<char>>)> {
    let host_part: Seq<(Seq<char>, Seq<Seq<char>>)> = match host {
        Some(x) => if has_header(h, "Host"@) {
            seq![]
        } else {
            seq![("Host"@, seq![host_value(x, port)])]
        },
        None => seq![],
    };
    let accept_part: Seq<(Seq<char>, Seq<Seq<char>>)> = if has_header(h, "Accept"@) {
        seq![]
    } else {
        seq![("Accept"@, seq!["*/*"@])]
    };
    host_part + accept_part + h
}

/// The request line and headers of a request.
pub open spec fn request_head(method: Seq<char>, path: Seq<char>, query: Option<Seq<char>>, headers: Seq<char>) -> Seq<char> {
    method + seq![' '] + path + match query {
        Some(q) => seq!['?'] + q,
        None => seq![],
    } + seq![' '] + "HTTP/1.1"@ + eol() + headers
}

/// The text that opens a part of a multipart body.
pub open spec fn boundary_begin_text(b: Seq<char>) -> Seq<char> {
    "--"@ + b + eol() + "Content-Disposition: form-data"@ + eol() + "Content-Type: application/octet-stream"@ + eol() + eol()
}

/// The text that closes the last part of a multipart body.
pub open spec fn boundary_end_text(b: Seq<char>) -> Seq<char> {
    eol() + "--"@ + b + "--"@ + eol()
}

/// The bytes sent for a multipart upload of `val`: its length and type
/// headers, then the body, `val` between the boundary texts.
pub open spec fn upload_bytes(b: Seq<char>, val: Seq<u8>) -> Seq<u8> {
    let body = encode_utf8(boundary_begin_text(b)) + val + encode_utf8(boundary_end_text(b));
    encode_utf8(
        "Content-Length: "@ + nat_digits(body.len()) + eol() + "Content-Type: multipart/form-data; boundary="@ + b
            + eol() + eol(),
    ) + body
}

/// Appends the characters of a text.
fn push_text(out: &mut Vec<char>, s: &str)
    ensures
        final(out)@ == old(out)@ + s@,
{
    let c = chars_of(s);
    push_chars(out, &c);
}

/// Appends the lines of one header.
fn push_value_lines(out: &mut Vec<char>, name: &String, values: &Vec<String>)
    ensures
        final(out)@ == old(out)@ + value_lines(name@, values@.map_values(|v: String| v@)),
{
    let ghost vs = values@.map_values(|v: String| v@);
    let mut i: usize = 0;
    assert(vs.subrange(0, 0) =~= Seq::<Seq<char>>::empty());
    while i < values.len()
        invariant
            i <= values@.len(),
            vs == values@.map_values(|v: String| v@),
            out@ == old(out)@ + value_lines(name@, vs.subrange(0, i as int)),
        decreases values@.len() - i,
    {
        let ghost before = out@;
        push_text(out, name.as_str());
        out.push(':');
        out.push(' ');
        push_text(out, values[i].as_str());
        out.push('\r');
        out.push('\n');
        let ghost cur = vs.subrange(0, i + 1);
        assert(cur.drop_last() =~= vs.subrange(0, i as int));
        assert(out@ =~= before + name@ + seq![':', ' '] + vs[i as int] + eol());
        i = i + 1;
    }
    assert(vs.subrange(0, i as int) =~= vs);
}

/// Appends the lines of headers.
fn push_header_lines(out: &mut Vec<char>, h: &Vec<(String, Vec<String>)>)
    ensures
        final(out)@ == old(out)@ + header_lines(header_view(h@)),
{
    let ghost hv = header_view(h@);
    let mut i: usize = 0;
    assert(hv.subrange(0, 0) =~= Seq::<(Seq<char>, Seq<Seq<char>>)>::empty());
    while i < h.len()
        invariant
            i <= h@.len(),
            hv == header_view(h@),
            out@ == old(out)@ + header_lines(hv.subrange(0, i as int)),
        decreases h@.len() - i,
    {
        let ghost before = out@;
        push_value_lines(out, &h[i].0, &h[i].1);
        let ghost cur = hv.subrange(0, i + 1);
        assert(cur.drop_last() =~= hv.subrange(0, i as int));
        i = i + 1;
    }
    assert(hv.subrange(0, i as int) =~= hv);
}

/// The position of the first header named `key`.
fn header_position(h: &Vec<(String, Vec<String>)>, key: &str) -> (r: Option<usize>)
    ensures
        match r {
            Some(k) => k < h@.len() && header_view(h@)[k as int].0 == key@
                && forall|j: int| 0 <= j < k ==> header_view(h@)[j].0 != key@,
            None => forall|j: int| 0 <= j < h@.len() ==> header_view(h@)[j].0 != key@,
        },
{
    let mut k: usize = 0;
    while k < h.len()
        invariant
            k <= h@.len(),
            forall|j: int| 0 <= j < k ==> header_view(h@)[j].0 != key@,
        decreases h@.len() - k,
    {
        if str_eq(h[k].0.as_str(), key) {
            return Some(k);
        }
        k = k + 1;
    }
    None
}

impl HttpRaw {
    /// A `GET` request to a URL, with no header and no boundary; a URL that
    /// does not read is an invalid parameter.
    pub fn from_url(url: &str) -> (r: Result<HttpRaw, IpfsErrorKind>)
        ensures
            match url_parts_of(url@) {
                Ok(p) => r matches Ok(x) && url_parts_view(x.url) == p && x.method@ == "GET"@
                    && x.boundary is None && x.header@.len() == 0,
                Err(_) => r matches Err(e) && e == IpfsErrorKind::InvalidParameter,
            },
    {
        let u = match parse_url(url) {
            Ok(u) => u,
            Err(_) => return Err(IpfsErrorKind::InvalidParameter),
        };
        Ok(HttpRaw { url: u, method: string_from("GET"), boundary: None, header: Vec::new() })
    }

    /// Sets the boundary of the multipart body.
    pub fn boundary(&mut self, boundary: Option<String>)
        ensures
            *final(self) == (HttpRaw { boundary: boundary, ..*old(self) }),
    {
        self.boundary = boundary;
    }

    /// Sets the method.
    pub fn method(&mut self, method: &str)
        ensures
            final(self).method@ == method@,
            final(self).url == old(self).url,
            final(self).boundary == old(self).boundary,
            final(self).header == old(self).header,
    {
        self.method = string_from(method);
    }

    /// Adds a value to a header.
    pub fn insert_header(&mut self, key: String, value: String)
        ensures
            header_view(final(self).header@) == with_header(header_view(old(self).header@), key@, value@),
            final(self).url == old(self).url,
            final(self).method == old(self).method,
            final(self).boundary == old(self).boundary,
    {
        let ghost hv = header_view(self.header@);
        match header_position(&self.header, key.as_str()) {
            Some(k) => {
                proof {
                    lemma_with_header_at(hv, key@, value@, k as int);
                }
                let ghost before = self.header@;
                let (name, mut values) = self.header.remove(k);
                let ghost mid = self.header@;
                assert(mid == before.remove(k as int));
                assert(name@ == key@);
                assert(hv[k as int].1 == values@.map_values(|v: String| v@));
                let ghost v0 = value@;
                values.push(value);
                assert(values@.map_values(|v: String| v@) =~= hv[k as int].1.push(v0));
                self.header.insert(k, (name, values));
                assert forall|j: int| 0 <= j < hv.len() implies #[trigger] header_view(self.header@)[j] == hv.update(k as int, (key@, hv[k as int].1.push(v0)))[j] by {
                    if j < k {
                        assert(self.header@[j] == before[j]);
                    } else if j > k {
                        assert(self.header@[j] == before[j]);
                    }
                }
                assert(header_view(self.header@) =~= hv.update(k as int, (key@, hv[k as int].1.push(v0))));
            },
            None => {
                proof {
                    lemma_with_header_at(hv, key@, value@, hv.len() as int);
                }
                let mut values: Vec<String> = Vec::new();
                let ghost v0 = value@;
                values.push(value);
                assert(values@.map_values(|v: String| v@) =~= seq![v0]);
                self.header.push((key, values));
                assert(header_view(self.header@) =~= hv.push((key@, seq![v0])));
            },
        }
    }

    /// The header lines of the request.
    pub fn header_raw(&self) -> (r: Vec<u8>)
        ensures
            r@ == encode_utf8(header_lines(sent_headers(opt_view(self.url.host), self.url.port, header_view(self.header@)))),
    {
        let mut lines: Vec<(String, Vec<String>)> = Vec::new();
        let host_given = header_position(&self.header, "Host").is_some();
        let accept_given = header_position(&self.header, "Accept").is_some();
        proof {
            if host_given {
                let k = choose|k: int| 0 <= k < header_view(self.header@).len() && header_view(self.header@)[k].0 == "Host"@;
            }
            assert(host_given == has_header(header_view(self.header@), "Host"@));
            assert(accept_given == has_header(header_view(self.header@), "Accept"@));
        }
        match &self.url.host {
            Some(h) => {
                if !host_given {
                    let mut host = chars_of(h.as_str());
                    match self.url.port {
                        Some(p) => {
                            host.push(':');
                            push_digits(&mut host, p as u64);
                        },
                        None => {},
                    }
                    assert(host@ == host_value(h@, self.url.port));
                    let mut vs: Vec<String> = Vec::new();
                    vs.push(string_of(&host));
                    assert(vs@.map_values(|v: String| v@) =~= seq![host_value(h@, self.url.port)]);
                    let name = string_from("Host");
                    let ghost hl = (name@, vs@.map_values(|v: String| v@));
                    lines.push((name, vs));
                    assert(header_view(lines@)[0] == hl);
                    assert(header_view(lines@) =~= seq![("Host"@, seq![host_value(h@, self.url.port)])]);
                }
            },
            None => {},
        }
        let ghost host_part = header_view(lines@);
        if !accept_given {
            let mut vs: Vec<String> = Vec::new();
            vs.push(string_from("*/*"));
            assert(vs@.map_values(|v: String| v@) =~= seq!["*/*"@]);
            let name = string_from("Accept");
            let ghost al = (name@, vs@.map_values(|v: String| v@));
            let ghost prev = lines@;
            lines.push((name, vs));
            assert(header_view(lines@) =~= header_view(prev).push(al));
            assert(header_view(lines@) =~= host_part + seq![("Accept"@, seq!["*/*"@])]);
        } else {
            assert(header_view(lines@) =~= host_part + Seq::<(Seq<char>, Seq<Seq<char>>)>::empty());
        }
        let mut i: usize = 0;
        let ghost defaults = header_view(lines@);
        while i < self.header.len()
            invariant
                i <= self.header@.len(),
                header_view(lines@) == defaults + header_view(self.header@).subrange(0, i as int),
            decreases self.header@.len() - i,
        {
            let ghost before = lines@;
            let entry = (self.header[i].0.clone(), self.header[i].1.clone());
            lines.push(entry);
            assert(header_view(lines@) =~= header_view(before).push(header_view(self.header@)[i as int]));
            assert(header_view(self.header@).subrange(0, i + 1) =~= header_view(self.header@).subrange(0, i as int).push(header_view(self.header@)[i as int]));
            i = i + 1;
        }
        assert(header_view(self.header@).subrange(0, i as int) =~= header_view(self.header@));
        proof {
            let host_opt = opt_view(self.url.host);
            assert(defaults + header_view(self.header@) =~= sent_headers(host_opt, self.url.port, header_view(self.header@)));
        }
        let mut out: Vec<char> = Vec::new();
        push_header_lines(&mut out, &lines);
        let text = string_of(&out);
        bytes_of(text.as_str())
    }
}

impl HttpRaw {
    /// The request line and headers sent to open the request.
    pub fn get_req_raw(&self) -> (r: Vec<u8>)
        ensures
            r@ == encode_utf8(request_head(
                self.method@,
                self.url.path@,
                opt_view(self.url.query),
                header_lines(sent_headers(opt_view(self.url.host), self.url.port, header_view(self.header@))),
            )),
    {
        let mut line: Vec<char> = Vec::new();
        push_text(&mut line, self.method.as_str());
        line.push(' ');
        push_text(&mut line, self.url.path.as_str());
        match &self.url.query {
            Some(q) => {
                line.push('?');
                push_text(&mut line, q.as_str());
            },
            None => {},
        }
        line.push(' ');
        push_text(&mut line, "HTTP/1.1");
        line.push('\r');
        line.push('\n');
        let text = string_of(&line);
        let mut buf = bytes_of(text.as_str());
        let h = self.header_raw();
        proof {
            let q: Seq<char> = match opt_view(self.url.query) {
                Some(q) => seq!['?'] + q,
                None => seq![],
            };
            assert(line@ =~= self.method@ + seq![' '] + self.url.path@ + q + seq![' '] + "HTTP/1.1"@ + eol());
            crate::text::lemma_encode_utf8_concat(line@, header_lines(sent_headers(opt_view(self.url.host), self.url.port, header_view(self.header@))));
        }
        push_bytes(&mut buf, h.as_slice());
        buf
    }

    /// The bytes sent for a multipart upload of `val`; a request without a
    /// boundary is refused.
    pub fn boundary_request(&self, val: &[u8]) -> (r: Result<Vec<u8>, IpfsErrorKind>)
        ensures
            match self.boundary {
                Some(b) => r matches Ok(v) && v@ == upload_bytes(b@, val@),
                None => r matches Err(e) && e == IpfsErrorKind::RequestError,
            },
    {
        let boundary = match &self.boundary {
            Some(b) => b,
            None => return Err(IpfsErrorKind::RequestError),
        };
        let mut body_buf = boundary_begin(boundary.as_str());
        push_bytes(&mut body_buf, val);
        let end = boundary_end(boundary.as_str());
        push_bytes(&mut body_buf, end.as_slice());
        let mut head: Vec<char> = Vec::new();
        push_text(&mut head, "Content-Length: ");
        push_digits(&mut head, body_buf.len() as u64);
        head.push('\r');
        head.push('\n');
        push_text(&mut head, "Content-Type: multipart/form-data; boundary=");
        push_text(&mut head, boundary.as_str());
        head.push('\r');
        head.push('\n');
        head.push('\r');
        head.push('\n');
        let text = string_of(&head);
        let mut buf = bytes_of(text.as_str());
        push_bytes(&mut buf, body_buf.as_slice());
        proof {
            let b = boundary@;
            let body = encode_utf8(boundary_begin_text(b)) + val@ + encode_utf8(boundary_end_text(b));
            assert(body_buf@ =~= body);
            assert(head@ =~= "Content-Length: "@ + nat_digits(body.len()) + eol() + "Content-Type: multipart/form-data; boundary="@ + b + eol() + eol());
        }
        Ok(buf)
    }
}

/// The bytes that open a part of a multipart body.
pub fn boundary_begin(boundary: &str) -> (r: Vec<u8>)
    ensures
        r@ == encode_utf8(boundary_begin_text(boundary@)),
{
    let mut t: Vec<char> = Vec::new();
    push_text(&mut t, "--");
    push_text(&mut t, boundary);
    t.push('\r');
    t.push('\n');
    push_text(&mut t, "Content-Disposition: form-data");
    t.push('\r');
    t.push('\n');
    push_text(&mut t, "Content-Type: application/octet-stream");
    t.push('\r');
    t.push('\n');
    t.push('\r');
    t.push('\n');
    assert(t@ =~= boundary_begin_text(boundary@));
    let s = string_of(&t);
    bytes_of(s.as_str())
}

/// The bytes that close the last part of a multipart body.
pub fn boundary_end(boundary: &str) -> (r: Vec<u8>)
    ensures
        r@ == encode_utf8(boundary_end_text(boundary@)),
{
    let mut t: Vec<char> = Vec::new();
    t.push('\r');
    t.push('\n');
    push_text(&mut t, "--");
    push_text(&mut t, boundary);
    push_text(&mut t, "--");
    t.push('\r');
    t.push('\n');
    assert(t@ =~= boundary_end_text(boundary@));
    let s = string_of(&t);
    bytes_of(s.as_str())
}

/// What parsing the head of a response gives, with room for
/// `max_headers` headers: the length of the head and the status code when
/// it is complete, `None` when more bytes are needed, `Err` when it is not
/// a response head.
pub uninterp spec fn response_head_of(bytes: Seq<u8>, max_headers: nat) -> Result<Option<(usize, u16)>, ()>;

/// Parses the head of a response by `httparse::Response::parse`, with
/// room for `max_headers` headers; the contract names the result and says,
/// as the crate's source shows, that a complete head is no longer than the
/// bytes.
#[verifier::external_body]
fn parse_response_head(bytes: &[u8], max_headers: usize) -> (r: Result<Option<(usize, u16)>, ()>)
    ensures
        r == response_head_of(bytes@, max_headers as nat),
        r matches Ok(Some((n, _))) ==> n <= bytes@.len(),
{
    let mut headers = vec![httparse::EMPTY_HEADER; max_headers];
    let mut resp = httparse::Response::new(&mut headers);
    match resp.parse(bytes) {
        Ok(httparse::Status::Complete(n)) => Ok(Some((n, resp.code.unwrap()))),
        Ok(httparse::Status::Partial) => Ok(None),
        Err(_) => Err(()),
    }
}

/// What parsing the size line of a chunk gives: the length of the line
/// and the size when it is complete, `None` when more bytes are needed,
/// `Err` when it is not a chunk size.
pub uninterp spec fn chunk_size_of(bytes: Seq<u8>) -> Result<Option<(usize, u64)>, ()>;

/// Parses the size line of a chunk by `httparse::parse_chunk_size`; the
/// contract names the result and says, as the crate's source shows, that a
/// complete line is no longer than the bytes.
#[verifier::external_body]
fn parse_chunk(bytes: &[u8]) -> (r: Result<Option<(usize, u64)>, ()>)
    ensures
        r == chunk_size_of(bytes@),
        r matches Ok(Some((n, _))) ==> n <= bytes@.len(),
{
    match httparse::parse_chunk_size(bytes) {
        Ok(httparse::Status::Complete(p)) => Ok(Some(p)),
        Ok(httparse::Status::Partial) => Ok(None),
        Err(_) => Err(()),
    }
}

/// Where reading a response stands: reading its head (the attempt, from 1
/// to 9), or the size of its first chunk after a head of the given length
/// and status.
#[derive(Clone, Copy, Debug, PartialEq, Eq, Structural)]
pub enum ReadPhase {
    Head(u32),
    Chunk(usize, u16),
}

/// What to do next while reading a response.
#[derive(Clone, Copy, Debug, PartialEq, Eq, Structural)]
pub enum ReadStep {
    /// Read more bytes and hand them over.
    NeedRead,
    /// The body is the `len` bytes from `start`; the status is given.
    Body(u16, usize, u64),
    /// Reading failed.
    Failed(IpfsErrorKind),
}

/// The next phase and step once the size of the first chunk is looked for
/// in the bytes after the head.
pub open spec fn chunk_step_of(pos: usize, status: u16, bulk: Seq<u8>) -> (ReadPhase, ReadStep) {
    match chunk_size_of(bulk.subrange(pos as int, bulk.len() as int)) {
        Err(_) => (ReadPhase::Chunk(pos, status), ReadStep::Failed(IpfsErrorKind::RequestError)),
        Ok(None) => (ReadPhase::Chunk(pos, status), ReadStep::NeedRead),
        Ok(Some((p, len))) => (ReadPhase::Chunk(pos, status), ReadStep::Body(status, (pos + p) as usize, len)),
    }
}

/// The next phase and step once new bytes have been added, `bulk` being all
/// the bytes so far: while reading the head, it is parsed with room for 128
/// headers per attempt; a complete head moves on to the first chunk; after
/// the ninth partial attempt the chunk is looked for from the start, with
/// status 0.
pub open spec fn read_step_of(phase: ReadPhase, bulk: Seq<u8>) -> (ReadPhase, ReadStep) {
    match phase {
        ReadPhase::Head(i) => match response_head_of(bulk, (128 * i) as nat) {
            Err(_) => (phase, ReadStep::Failed(IpfsErrorKind::RequestError)),
            Ok(Some((pos, code))) => chunk_step_of(pos, code, bulk),
            Ok(None) => if i < 9 {
                (ReadPhase::Head((i + 1) as u32), ReadStep::NeedRead)
            } else {
                chunk_step_of(0, 0, bulk)
            },
        },
        ReadPhase::Chunk(pos, status) => chunk_step_of(pos, status, bulk),
    }
}

/// Reads the response to a raw request from the bytes handed to it.
pub struct ResponseReader {
    pub bulk: Vec<u8>,
    pub phase: ReadPhase,
}

impl ResponseReader {
    /// Whether the phase is one the reader reaches.
    pub open spec fn wf(&self) -> bool {
        match self.phase {
            ReadPhase::Head(i) => 1 <= i <= 9,
            ReadPhase::Chunk(pos, _) => pos <= self.bulk@.len(),
        }
    }

    /// A reader that has read nothing; it first needs bytes.
    pub fn new() -> (r: ResponseReader)
        ensures
            r.bulk@.len() == 0,
            r.phase == ReadPhase::Head(1),
            r.wf(),
    {
        ResponseReader { bulk: Vec::new(), phase: ReadPhase::Head(1) }
    }

    fn chunk_step(&mut self, pos: usize, status: u16) -> (r: ReadStep)
        requires
            pos <= old(self).bulk@.len(),
        ensures
            (final(self).phase, r) == chunk_step_of(pos, status, old(self).bulk@),
            final(self).bulk@ == old(self).bulk@,
            final(self).wf(),
    {
        self.phase = ReadPhase::Chunk(pos, status);
        let n = self.bulk.len();
        let rest = slice_from(&self.bulk, pos);
        assert(rest@.len() == n - pos);
        match parse_chunk(rest.as_slice()) {
            Err(_) => ReadStep::Failed(IpfsErrorKind::RequestError),
            Ok(None) => ReadStep::NeedRead,
            Ok(Some((p, len))) => ReadStep::Body(status, pos + p, len),
        }
    }

    /// Adds the bytes just read and says what to do next.
    pub fn on_read(&mut self, data: &[u8]) -> (r: ReadStep)
        requires
            old(self).wf(),
        ensures
            final(self).bulk@ == old(self).bulk@ + data@,
            (final(self).phase, r) == read_step_of(old(self).phase, old(self).bulk@ + data@),
            final(self).wf(),
    {
        push_bytes(&mut self.bulk, data);
        match self.phase {
            ReadPhase::Head(i) => {
                match parse_response_head(self.bulk.as_slice(), 128 * (i as usize)) {
                    Err(_) => ReadStep::Failed(IpfsErrorKind::RequestError),
                    Ok(Some((pos, code))) => self.chunk_step(pos, code),
                    Ok(None) => if i < 9 {
                        self.phase = ReadPhase::Head(i + 1);
                        ReadStep::NeedRead
                    } else {
                        self.chunk_step(0, 0)
                    },
                }
            },
            ReadPhase::Chunk(pos, status) => self.chunk_step(pos, status),
        }
    }

    /// The body found: the `len` bytes from `start`.
    pub fn body(&self, start: usize, len: u64) -> (r: Vec<u8>)
        requires
            start + len <= self.bulk@.len(),
        ensures
            r@ == self.bulk@.subrange(start as int, start + len),
    {
        let mut out: Vec<u8> = Vec::new();
        let mut i: usize = start;
        let n = self.bulk.len();
        assert(len <= n);
        let l: usize = len as usize;
        assert(l == len);
        let end: usize = start + l;
        while i < end
            invariant
                start <= i <= end,
                end == start + len,
                end <= self.bulk@.len(),
                out@ == self.bulk@.subrange(start as int, i as int),
            decreases end - i,
        {
            out.push(self.bulk[i]);
            i = i + 1;
            assert(out@ =~= self.bulk@.subrange(start as int, i as int));
        }
        out
    }
}

/// The bytes of `v` from `start` on.
fn slice_from(v: &Vec<u8>, start: usize) -> (r: Vec<u8>)
    requires
        start <= v@.len(),
    ensures
        r@ == v@.subrange(start as int, v@.len() as int),
{
    let mut out: Vec<u8> = Vec::new();
    let mut i: usize = start;
    while i < v.len()
        invariant
            start <= i <= v@.len(),
            out@ == v@.subrange(start as int, i as int),
        decreases v@.len() - i,
    {
        out.push(v[i]);
        i = i + 1;
        assert(out@ =~= v@.subrange(start as int, i as int));
    }
    out
}

} // verus!
