use vstd::prelude::*;
use crate::drivers::error::S3ErrorKind;
use crate::drivers::handles::HandleTable;
use crate::drivers::read_ext::{ReadRemain, overwrite_prefix, remaining};
use crate::json::{
    Json, JsonNumber, JsonView, as_text, field, json_dump, json_parse, json_text, parsed_json,
    text_of,
};
use crate::text::string_from;

verus! {

/// The answer of a request, read in pieces.
pub struct VecResult {
    pub content: Vec<u8>,
    pub read_point: usize,
}

impl VecResult {
    /// An answer of which nothing has been read.
    pub fn new(content: Vec<u8>) -> (r: VecResult)
        ensures
            r.content@ == content@,
            r.read_point == 0,
    {
        VecResult { content, read_point: 0 }
    }
}

impl ReadRemain for VecResult {
    open spec fn source(&self) -> Option<Seq<u8>> {
        Some(self.content@)
    }

    open spec fn point(&self) -> usize {
        self.read_point
    }

    fn as_bytes_ref(&self) -> (r: Option<&[u8]>) {
        Some(self.content.as_slice())
    }

    fn read_point(&self) -> (r: usize) {
        self.read_point
    }

    fn set_read_point(&mut self, point: usize) {
        self.read_point = point;
    }
}

/// The session of a request: an answer to read, or none.
pub enum S3Ctx {
    VecResult(VecResult),
    Empty,
}

/// Whether the sessions' answers are read no further than their end.
pub open spec fn sessions_consistent(m: Map<u32, S3Ctx>) -> bool {
    forall|h: u32| #[trigger] m.contains_key(h) ==> (m[h] matches S3Ctx::VecResult(v) ==> v.read_point <= v.content@.len())
}

/// The credentials and place of a bucket service.
pub struct S3Config {
    pub access_key: String,
    pub secret_key: String,
    pub endpoint: String,
    pub region: String,
}

/// The texts of a service configuration.
pub open spec fn s3_config_view(c: S3Config) -> (Seq<char>, Seq<char>, Seq<char>, Seq<char>) {
    (c.access_key@, c.secret_key@, c.endpoint@, c.region@)
}

/// The service configuration a request names: the access key, secret key
/// and endpoint are needed; the region is `us-east-1` unless named.
pub open spec fn s3_config_of(doc: JsonView) -> Option<(Seq<char>, Seq<char>, Seq<char>, Seq<char>)> {
    match (
        as_text(field(doc, "access_key"@)),
        as_text(field(doc, "secret_key"@)),
        as_text(field(doc, "endpoint"@)),
    ) {
        (Some(a), Some(s), Some(e)) => Some(
            (
                a,
                s,
                e,
                match as_text(field(doc, "region"@)) {
                    Some(r) => r,
                    None => "us-east-1"@,
                },
            ),
        ),
        _ => None,
    }
}

/// Reads the service configuration of a request.
pub fn get_aws_config(json: &Json) -> (r: Result<S3Config, S3ErrorKind>)
    ensures
        match s3_config_of(json@) {
            Some(c) => r matches Ok(x) && s3_config_view(x) == c,
            None => r == Err::<S3Config, S3ErrorKind>(S3ErrorKind::InvalidParameter),
        },
{
    let access_key = match text_of(json.get("access_key")) {
        Some(s) => s,
        None => return Err(S3ErrorKind::InvalidParameter),
    };
    let secret_key = match text_of(json.get("secret_key")) {
        Some(s) => s,
        None => return Err(S3ErrorKind::InvalidParameter),
    };
    let endpoint = match text_of(json.get("endpoint")) {
        Some(s) => s,
        None => return Err(S3ErrorKind::InvalidParameter),
    };
    let region = match text_of(json.get("region")) {
        Some(s) => s,
        None => string_from("us-east-1"),
    };
    Ok(S3Config { access_key, secret_key, endpoint, region })
}

/// A request to create a bucket.
pub struct CreateRequest {
    pub config: S3Config,
    pub bucket_name: String,
}

/// What a create request reads as: its service configuration and bucket.
pub open spec fn create_request_of(text: Seq<char>) -> Option<((Seq<char>, Seq<char>, Seq<char>, Seq<char>), Seq<char>)> {
    match parsed_json(text) {
        Ok(doc) => match (s3_config_of(doc), as_text(field(doc, "bucket_name"@))) {
            (Some(c), Some(b)) => Some((c, b)),
            _ => None,
        },
        Err(_) => None,
    }
}

/// Reads a create request; a request that is not JSON, or lacks a part,
/// is an invalid parameter.
pub fn create_request(cfg: &str) -> (r: Result<CreateRequest, S3ErrorKind>)
    ensures
        match create_request_of(cfg@) {
            Some((c, b)) => r matches Ok(x) && s3_config_view(x.config) == c && x.bucket_name@ == b,
            None => r == Err::<CreateRequest, S3ErrorKind>(S3ErrorKind::InvalidParameter),
        },
{
    let json = match json_parse(cfg) {
        Ok(o) => o,
        Err(_) => return Err(S3ErrorKind::InvalidParameter),
    };
    let config = get_aws_config(&json)?;
    let bucket_name = match text_of(json.get("bucket_name")) {
        Some(s) => s,
        None => return Err(S3ErrorKind::InvalidParameter),
    };
    Ok(CreateRequest { config, bucket_name })
}

/// A request to list a bucket.
pub struct ListRequest {
    pub bucket_name: String,
    pub prefix: String,
    pub config: S3Config,
}

/// What a list request reads as: its bucket, prefix and service
/// configuration.
pub open spec fn list_request_of(text: Seq<char>) -> Option<(Seq<char>, Seq<char>, (Seq<char>, Seq<char>, Seq<char>, Seq<char>))> {
    match parsed_json(text) {
        Ok(doc) => match (as_text(field(doc, "bucket_name"@)), as_text(field(doc, "prefix"@)), s3_config_of(doc)) {
            (Some(b), Some(p), Some(c)) => Some((b, p, c)),
            _ => None,
        },
        Err(_) => None,
    }
}

/// Reads a list request; a request that is not JSON, or lacks a part, is
/// an invalid parameter.
pub fn list_request(cfg: &str) -> (r: Result<ListRequest, S3ErrorKind>)
    ensures
        match list_request_of(cfg@) {
            Some((b, p, c)) => r matches Ok(x) && x.bucket_name@ == b && x.prefix@ == p && s3_config_view(x.config) == c,
            None => r == Err::<ListRequest, S3ErrorKind>(S3ErrorKind::InvalidParameter),
        },
{
    let json = match json_parse(cfg) {
        Ok(o) => o,
        Err(_) => return Err(S3ErrorKind::InvalidParameter),
    };
    let bucket_name = match text_of(json.get("bucket_name")) {
        Some(s) => s,
        None => return Err(S3ErrorKind::InvalidParameter),
    };
    let prefix = match text_of(json.get("prefix")) {
        Some(s) => s,
        None => return Err(S3ErrorKind::InvalidParameter),
    };
    let config = get_aws_config(&json)?;
    Ok(ListRequest { bucket_name, prefix, config })
}

/// The JSON number of an unsigned integer.
pub open spec fn unsigned_number(n: u64) -> JsonNumber {
    JsonNumber { positive: true, mantissa: n, exponent: 0 }
}

/// The document answering a create request: the service's status code and
/// text.
pub open spec fn create_document(code: u16, text: Seq<char>) -> JsonView {
    JsonView::Object(seq![
        ("code"@, JsonView::Number(unsigned_number(code as u64))),
        ("response_text"@, JsonView::Str(text)),
    ])
}

/// The JSON text answering a create request.
pub fn create_response(code: u16, text: String) -> (r: String)
    ensures
        r@ == json_text(create_document(code, text@)),
{
    let ghost t = text@;
    let mut entries: Vec<(String, Json)> = Vec::new();
    entries.push((string_from("code"), Json::Number(JsonNumber { positive: true, mantissa: code as u64, exponent: 0 })));
    entries.push((string_from("response_text"), Json::Str(text)));
    let obj = Json::Object(entries);
    proof {
        crate::json::lemma_entries_view(entries@);
        assert(crate::json::entries_view(entries@) =~= seq![
            ("code"@, JsonView::Number(unsigned_number(code as u64))),
            ("response_text"@, JsonView::Str(t)),
        ]);
    }
    json_dump(&obj)
}

/// An object found by listing a bucket.
pub struct ListedObject {
    pub name: String,
    pub is_truncated: bool,
    pub prefix: Option<String>,
}

/// The document of a listed object: its name, whether the listing was cut
/// short, and its prefix when it has one.
pub open spec fn listed_document(o: ListedObject) -> JsonView {
    let base = seq![("name"@, JsonView::Str(o.name@)), ("is_truncated"@, JsonView::Boolean(o.is_truncated))];
    JsonView::Object(
        match o.prefix {
            Some(p) => base.push(("prefix"@, JsonView::Str(p@))),
            None => base,
        },
    )
}

/// The document of a listing of one object.
fn listed_json(o: &ListedObject) -> (r: Json)
    ensures
        r@ == listed_document(*o),
{
    let mut entries: Vec<(String, Json)> = Vec::new();
    entries.push((string_from("name"), Json::Str(o.name.clone())));
    entries.push((string_from("is_truncated"), Json::Boolean(o.is_truncated)));
    match &o.prefix {
        Some(p) => entries.push((string_from("prefix"), Json::Str(p.clone()))),
        None => {},
    }
    proof {
        crate::json::lemma_entries_view(entries@);
        let base = seq![("name"@, JsonView::Str(o.name@)), ("is_truncated"@, JsonView::Boolean(o.is_truncated))];
        if o.prefix is Some {
            assert(crate::json::entries_view(entries@) =~= base.push(("prefix"@, JsonView::Str(o.prefix->0@))));
        } else {
            assert(crate::json::entries_view(entries@) =~= base);
        }
    }
    Json::Object(entries)
}

/// The JSON text answering a list request: the list of the objects found.
pub fn list_response(items: &Vec<ListedObject>) -> (r: String)
    ensures
        r@ == json_text(JsonView::Array(items@.map_values(|o: ListedObject| listed_document(o)))),
{
    let mut docs: Vec<Json> = Vec::new();
    let mut i: usize = 0;
    while i < items.len()
        invariant
            i <= items@.len(),
            docs@.len() == i,
            forall|k: int| 0 <= k < i ==> (#[trigger] docs@[k])@ == listed_document(items@[k]),
        decreases items@.len() - i,
    {
        let d = listed_json(&items[i]);
        docs.push(d);
        i = i + 1;
    }
    let arr = Json::Array(docs);
    proof {
        crate::json::lemma_items_view(docs@);
        assert(crate::json::items_view(docs@) =~= items@.map_values(|o: ListedObject| listed_document(o)));
    }
    json_dump(&arr)
}

/// The commands of the bucket driver.
#[derive(Clone, Copy, Debug, PartialEq, Eq, Structural)]
pub enum BucketCommand {
    Create,
    List,
    GetObject,
    DeleteObject,
}

/// The command a command number names: 1 to 4.
pub open spec fn bucket_command_of(cmd: u16) -> Option<BucketCommand> {
    if cmd == 1 {
        Some(BucketCommand::Create)
    } else if cmd == 2 {
        Some(BucketCommand::List)
    } else if cmd == 3 {
        Some(BucketCommand::GetObject)
    } else if cmd == 4 {
        Some(BucketCommand::DeleteObject)
    } else {
        None
    }
}

/// The command a command number names; any other number is an invalid
/// parameter.
pub fn bucket_command_kind(cmd: u16) -> (r: Result<BucketCommand, S3ErrorKind>)
    ensures
        match bucket_command_of(cmd) {
            Some(c) => r == Ok::<BucketCommand, S3ErrorKind>(c),
            None => r == Err::<BucketCommand, S3ErrorKind>(S3ErrorKind::InvalidParameter),
        },
{
    if cmd == 1 {
        Ok(BucketCommand::Create)
    } else if cmd == 2 {
        Ok(BucketCommand::List)
    } else if cmd == 3 {
        Ok(BucketCommand::GetObject)
    } else if cmd == 4 {
        Ok(BucketCommand::DeleteObject)
    } else {
        Err(S3ErrorKind::InvalidParameter)
    }
}

/// The sessions of the bucket driver.
pub struct S3Sessions {
    pub table: HandleTable<S3Ctx>,
}

impl S3Sessions {
    /// Whether the sessions are well formed.
    pub open spec fn wf(&self) -> bool {
        self.table.wf() && sessions_consistent(self.table.sessions())
    }

    /// No session.
    pub fn new() -> (r: S3Sessions)
        ensures
            r.wf(),
            r.table.sessions() == Map::<u32, S3Ctx>::empty(),
            r.table.last() == 0,
    {
        S3Sessions { table: HandleTable::new() }
    }

    /// Opens a session for the outcome of a command under a new handle.
    pub fn open(&mut self, content: S3Ctx) -> (r: u32)
        requires
            old(self).wf(),
            old(self).table.last() < u32::MAX,
            content matches S3Ctx::VecResult(v) ==> v.read_point <= v.content@.len(),
        ensures
            final(self).wf(),
            r == old(self).table.last() + 1,
            !old(self).table.sessions().contains_key(r),
            final(self).table.sessions() == old(self).table.sessions().insert(r, content),
            final(self).table.last() == r,
    {
        let fd = self.table.increase_handle();
        self.table.insert(fd, content);
        fd
    }

    /// Closes a session; closing a handle without one does nothing.
    pub fn close(&mut self, handle: u32) -> (r: Result<(), S3ErrorKind>)
        requires
            old(self).wf(),
        ensures
            final(self).wf(),
            r is Ok,
            final(self).table.sessions() == old(self).table.sessions().remove(handle),
            final(self).table.last() == old(self).table.last(),
    {
        let _ = self.table.remove(handle);
        Ok(())
    }

    /// Reads the next bytes of a session's answer into `buf`: as many as are
    /// left and fit; an empty buffer is an invalid parameter, a handle
    /// without an answer an invalid handle.
    pub fn read(&mut self, handle: u32, buf: &mut [u8]) -> (r: Result<u32, S3ErrorKind>)
        requires
            old(self).wf(),
            old(buf)@.len() <= u32::MAX,
        ensures
            final(self).wf(),
            final(self).table.last() == old(self).table.last(),
            old(buf)@.len() == 0 ==> r == Err::<u32, S3ErrorKind>(S3ErrorKind::InvalidParameter)
                && final(self).table.sessions() == old(self).table.sessions(),
            old(buf)@.len() > 0 ==> match old(self).table.sessions().get(handle) {
                Some(S3Ctx::VecResult(v)) => {
                    let n = if remaining(Some(v.content@), v.read_point as int) <= old(buf)@.len() {
                        remaining(Some(v.content@), v.read_point as int)
                    } else {
                        old(buf)@.len() as int
                    };
                    &&& r == Ok::<u32, S3ErrorKind>(n as u32)
                    &&& final(self).table.sessions().contains_key(handle)
                    &&& final(self).table.sessions()[handle] matches S3Ctx::VecResult(w) && w.content@ == v.content@
                        && w.read_point == v.read_point + n
                    &&& final(self).table.sessions().remove(handle) == old(self).table.sessions().remove(handle)
                    &&& n > 0 ==> final(buf)@ == overwrite_prefix(old(buf)@, v.content@.subrange(v.read_point as int, v.read_point + n))
                    &&& n == 0 ==> final(buf)@ == old(buf)@
                },
                _ => r == Err::<u32, S3ErrorKind>(S3ErrorKind::InvalidHandle)
                    && final(self).table.sessions() == old(self).table.sessions(),
            },
    {
        if buf.len() == 0 {
            return Err(S3ErrorKind::InvalidParameter);
        }
        if !self.table.contains(handle) {
            return Err(S3ErrorKind::InvalidHandle);
        }
        let ghost before = self.table.sessions();
        match self.table.remove(handle) {
            Some(S3Ctx::VecResult(mut resp)) => {
                let n = resp.copy_remain(buf);
                self.table.insert(handle, S3Ctx::VecResult(resp));
                assert(self.table.sessions().remove(handle) =~= before.remove(handle));
                Ok(n as u32)
            },
            Some(S3Ctx::Empty) => {
                self.table.insert(handle, S3Ctx::Empty);
                assert(self.table.sessions() =~= before);
                Err(S3ErrorKind::InvalidHandle)
            },
            None => Err(S3ErrorKind::InvalidHandle),
        }
    }
}

} // verus!
