use vstd::prelude::*;
use vstd::utf8::encode_utf8;
use crate::drivers::error::CgiErrorKind;
use crate::drivers::handles::HandleTable;
use crate::drivers::read_ext::overwrite_prefix;
use crate::json::{
    Json, JsonView, as_bool, as_text, bool_of, field, json_dump, json_parse, json_text, members,
    members_of, opt_val, parsed_json, text_of,
};
use crate::path::{join, path_join};
use crate::text::{chars_of, str_eq, string_from, string_of, trim};

verus! {

/// The name of the database of extensions in an extension directory.
pub const DB_NAME: &'static str = ".extsdb";

/// Whether an extension's record is kept, updated or dropped when the
/// records are saved.
#[derive(Clone, Copy, Debug, PartialEq, Eq, Structural)]
pub enum ExtensionMetaStatus {
    Normal,
    UPDATE,
    Invalid,
}

/// The status a stored number stands for: 0 normal, 1 update, any other
/// invalid.
pub open spec fn status_of(value: i32) -> ExtensionMetaStatus {
    if value == 0 {
        ExtensionMetaStatus::Normal
    } else if value == 1 {
        ExtensionMetaStatus::UPDATE
    } else {
        ExtensionMetaStatus::Invalid
    }
}

/// The number a status is stored as.
pub open spec fn status_code(s: ExtensionMetaStatus) -> i32 {
    match s {
        ExtensionMetaStatus::Normal => 0,
        ExtensionMetaStatus::UPDATE => 1,
        ExtensionMetaStatus::Invalid => -1i32,
    }
}

impl ExtensionMetaStatus {
    /// The number the status is stored as.
    pub fn code(&self) -> (r: i32)
        ensures
            r == status_code(*self),
    {
        match self {
            ExtensionMetaStatus::Normal => 0,
            ExtensionMetaStatus::UPDATE => 1,
            ExtensionMetaStatus::Invalid => -1,
        }
    }
}

impl From<i32> for ExtensionMetaStatus {
    fn from(value: i32) -> (r: ExtensionMetaStatus) {
        if value == 0 {
            ExtensionMetaStatus::Normal
        } else if value == 1 {
            ExtensionMetaStatus::UPDATE
        } else {
            ExtensionMetaStatus::Invalid
        }
    }
}

impl vstd::std_specs::convert::FromSpecImpl<i32> for ExtensionMetaStatus {
    open spec fn obeys_from_spec() -> bool {
        true
    }

    open spec fn from_spec(value: i32) -> ExtensionMetaStatus {
        status_of(value)
    }
}

/// A stored status reads back as itself.
pub proof fn law_status_round_trip(s: ExtensionMetaStatus)
    ensures
        status_of(status_code(s)) == s,
{
}

/// The record of an extension program.
pub struct ExtensionMeta {
    pub id: i32,
    pub md5: String,
    pub description: String,
    pub alias: String,
    pub file_name: String,
    pub status: ExtensionMetaStatus,
}

impl ExtensionMeta {
    /// An empty record of status normal.
    pub fn default() -> (r: ExtensionMeta)
        ensures
            r.id == 0,
            r.md5@.len() == 0,
            r.description@.len() == 0,
            r.alias@.len() == 0,
            r.file_name@.len() == 0,
            r.status == ExtensionMetaStatus::Normal,
    {
        ExtensionMeta {
            id: 0,
            md5: String::new(),
            description: String::new(),
            alias: String::new(),
            file_name: String::new(),
            status: ExtensionMetaStatus::Normal,
        }
    }
}

/// The path of the database of an extension directory.
pub fn get_db_file_name(path: &str) -> (r: String)
    ensures
        r@ == join(path@, DB_NAME@),
{
    path_join(path, DB_NAME)
}

/// A command for the CGI driver: the alias of the extension to run, its
/// arguments and its environment.
pub struct CgiRequest {
    pub command: String,
    pub args: Vec<String>,
    pub envs: Vec<(String, String)>,
}

/// The text arguments of a list, skipping the others.
pub open spec fn text_args(items: Seq<JsonView>) -> Seq<Seq<char>>
    decreases items.len(),
{
    if items.len() == 0 {
        seq![]
    } else {
        let prev = text_args(items.drop_last());
        match as_text(Some(items.last())) {
            Some(t) => prev.push(t),
            None => prev,
        }
    }
}

/// The environment variables of a list: the entries with a text `env_name`
/// and `env_val`, skipping the others.
pub open spec fn env_pairs(items: Seq<JsonView>) -> Seq<(Seq<char>, Seq<char>)>
    decreases items.len(),
{
    if items.len() == 0 {
        seq![]
    } else {
        let prev = env_pairs(items.drop_last());
        match (as_text(field(items.last(), "env_name"@)), as_text(field(items.last(), "env_val"@))) {
            (Some(n), Some(v)) => prev.push((n, v)),
            _ => prev,
        }
    }
}

/// What a CGI command reads as: JSON with a text `command`, the text
/// entries of `args` and the named values of `envs`; anything else is an
/// invalid parameter.
pub open spec fn cgi_request_of(cmd: Seq<char>) -> Option<(Seq<char>, Seq<Seq<char>>, Seq<(Seq<char>, Seq<char>)>)> {
    match parsed_json(cmd) {
        Err(_) => None,
        Ok(doc) => match as_text(field(doc, "command"@)) {
            None => None,
            Some(c) => Some((c, text_args(members(field(doc, "args"@))), env_pairs(members(field(doc, "envs"@))))),
        },
    }
}

/// The texts of a CGI command.
pub open spec fn cgi_request_view(r: CgiRequest) -> (Seq<char>, Seq<Seq<char>>, Seq<(Seq<char>, Seq<char>)>) {
    (r.command@, r.args@.map_values(|a: String| a@), r.envs@.map_values(|e: (String, String)| (e.0@, e.1@)))
}

/// Reads a CGI command.
pub fn parse_cgi_request(cmd_with_params: &str) -> (r: Result<CgiRequest, CgiErrorKind>)
    ensures
        match cgi_request_of(cmd_with_params@) {
            Some(v) => r matches Ok(x) && cgi_request_view(x) == v,
            None => r == Err::<CgiRequest, CgiErrorKind>(CgiErrorKind::InvalidParameter),
        },
{
    let obj = match json_parse(cmd_with_params) {
        Ok(o) => o,
        Err(_) => return Err(CgiErrorKind::InvalidParameter),
    };
    let command = match text_of(obj.get("command")) {
        Some(s) => s,
        None => return Err(CgiErrorKind::InvalidParameter),
    };
    let args_json = obj.get("args");
    let items = members_of(args_json);
    let ghost all = members(opt_val(args_json));
    let mut args: Vec<String> = Vec::new();
    let mut i: usize = 0;
    while i < items.len()
        invariant
            i <= items@.len(),
            items@.len() == all.len(),
            forall|k: int| 0 <= k < all.len() ==> (#[trigger] items@[k])@ == all[k],
            args@.map_values(|a: String| a@) == text_args(all.subrange(0, i as int)),
        decreases items@.len() - i,
    {
        let ghost cur = all.subrange(0, i + 1);
        assert(cur.drop_last() =~= all.subrange(0, i as int));
        assert(cur.last() == items@[i as int]@);
        let ghost before = args@;
        match text_of(Some(&items[i])) {
            Some(t) => {
                args.push(t);
                assert(args@.map_values(|a: String| a@) =~= before.map_values(|a: String| a@).push(as_text(Some(all[i as int]))->0));
            },
            None => {},
        }
        i = i + 1;
    }
    assert(all.subrange(0, i as int) =~= all);
    let envs_json = obj.get("envs");
    let eitems = members_of(envs_json);
    let ghost eall = members(opt_val(envs_json));
    let mut envs: Vec<(String, String)> = Vec::new();
    let mut j: usize = 0;
    while j < eitems.len()
        invariant
            j <= eitems@.len(),
            eitems@.len() == eall.len(),
            forall|k: int| 0 <= k < eall.len() ==> (#[trigger] eitems@[k])@ == eall[k],
            envs@.map_values(|e: (String, String)| (e.0@, e.1@)) == env_pairs(eall.subrange(0, j as int)),
        decreases eitems@.len() - j,
    {
        let ghost cur = eall.subrange(0, j + 1);
        assert(cur.drop_last() =~= eall.subrange(0, j as int));
        assert(cur.last() == eitems@[j as int]@);
        let ghost before = envs@;
        let e = &eitems[j];
        match (text_of(e.get("env_name")), text_of(e.get("env_val"))) {
            (Some(n), Some(v)) => {
                let ghost p = (n@, v@);
                envs.push((n, v));
                assert(envs@.map_values(|e: (String, String)| (e.0@, e.1@)) =~= before.map_values(|e: (String, String)| (e.0@, e.1@)).push(p));
            },
            _ => {},
        }
        j = j + 1;
    }
    assert(eall.subrange(0, j as int) =~= eall);
    Ok(CgiRequest { command, args, envs })
}

/// A CGI program to run: the directory of the extensions, the file of the
/// extension, and the arguments and environment it runs with.
pub struct CgiProcess {
    pub root_path: String,
    pub command: String,
    pub args: Vec<String>,
    pub envs: Vec<(String, String)>,
}

impl CgiProcess {
    /// The program a request runs, given the file of the extension its alias
    /// names; an alias that names none is an invalid extension.
    pub fn new(root_path: String, request: CgiRequest, file_name: Option<String>) -> (r: Result<CgiProcess, CgiErrorKind>)
        ensures
            match file_name {
                Some(f) => r matches Ok(p) && p.root_path == root_path && p.command == f
                    && p.args == request.args && p.envs == request.envs,
                None => r matches Err(e) && e == CgiErrorKind::InvalidExtension,
            },
    {
        let command = match file_name {
            Some(c) => c,
            None => return Err(CgiErrorKind::InvalidExtension),
        };
        Ok(CgiProcess { root_path, command, args: request.args, envs: request.envs })
    }

    /// The path of the program to run: the directory, `/`, the file.
    pub fn exec_file(&self) -> (r: String)
        ensures
            r@ == self.root_path@ + seq!['/'] + self.command@,
    {
        let mut v = chars_of(self.root_path.as_str());
        v.push('/');
        let c = chars_of(self.command.as_str());
        crate::text::push_chars(&mut v, &c);
        string_of(&v)
    }
}

/// What an extension says of itself when asked to verify: its alias, its
/// checksum if it gives one, and its description if it gives one.
pub struct ExtVerify {
    pub alias: String,
    pub md5: Option<String>,
    pub description: Option<String>,
}

/// What the verification output of an extension reads as: an extension
/// only if it says it is a CGI program and gives an alias.
pub open spec fn ext_verify_of(doc: JsonView) -> Option<(Seq<char>, Option<Seq<char>>, Option<Seq<char>>)> {
    match as_bool(field(doc, "is_cgi"@)) {
        Some(true) => match as_text(field(doc, "alias"@)) {
            Some(a) => Some((a, as_text(field(doc, "md5"@)), as_text(field(doc, "description"@)))),
            None => None,
        },
        _ => None,
    }
}

/// Reads the verification output of an extension, without its surrounding
/// white space; the parser's message when it is not JSON.
pub fn parse_ext_verify(output: &str) -> (r: Result<Option<ExtVerify>, String>)
    ensures
        match parsed_json(crate::text::trimmed(output@)) {
            Err(e) => r matches Err(m) && m@ == e,
            Ok(doc) => match ext_verify_of(doc) {
                Some((a, m, d)) => r matches Ok(Some(v)) && v.alias@ == a && crate::cli_config::opt_view(v.md5) == m
                    && crate::cli_config::opt_view(v.description) == d,
                None => r matches Ok(None),
            },
        },
{
    let text = trim(output);
    let json = match json_parse(text.as_str()) {
        Ok(j) => j,
        Err(e) => return Err(e),
    };
    let is_cgi = match bool_of(json.get("is_cgi")) {
        Some(b) => b,
        None => return Ok(None),
    };
    if !is_cgi {
        return Ok(None);
    }
    let alias = match text_of(json.get("alias")) {
        Some(a) => a,
        None => return Ok(None),
    };
    let md5 = text_of(json.get("md5"));
    let description = text_of(json.get("description"));
    Ok(Some(ExtVerify { alias, md5, description }))
}

/// The record of an extension found in the directory, from what it says
/// of itself and its checksum; `None` without a description.
pub fn ext_meta_from(v: ExtVerify, md5: String) -> (r: Option<ExtensionMeta>)
    ensures
        match v.description {
            Some(d) => r matches Some(m) && m.alias == v.alias && m.md5 == md5 && m.description == d
                && m.id == 0 && m.file_name@.len() == 0 && m.status == ExtensionMetaStatus::Normal,
            None => r is None,
        },
{
    let description = match v.description {
        Some(d) => d,
        None => return None,
    };
    Some(ExtensionMeta {
        md5,
        alias: v.alias,
        description,
        id: 0,
        file_name: String::new(),
        status: ExtensionMetaStatus::Normal,
    })
}

/// The document of an extension in the listing: its file name, alias,
/// checksum and description.
pub open spec fn extension_document(m: ExtensionMeta) -> JsonView {
    JsonView::Object(seq![
        ("fileName"@, JsonView::Str(m.file_name@)),
        ("alias"@, JsonView::Str(m.alias@)),
        ("md5"@, JsonView::Str(m.md5@)),
        ("description"@, JsonView::Str(m.description@)),
    ])
}

/// The document of one extension.
fn extension_json(m: &ExtensionMeta) -> (r: Json)
    ensures
        r@ == extension_document(*m),
{
    let mut entries: Vec<(String, Json)> = Vec::new();
    entries.push((string_from("fileName"), Json::Str(m.file_name.clone())));
    entries.push((string_from("alias"), Json::Str(m.alias.clone())));
    entries.push((string_from("md5"), Json::Str(m.md5.clone())));
    entries.push((string_from("description"), Json::Str(m.description.clone())));
    proof {
        crate::json::lemma_entries_view(entries@);
        assert(crate::json::entries_view(entries@) =~= seq![
            ("fileName"@, JsonView::Str(m.file_name@)),
            ("alias"@, JsonView::Str(m.alias@)),
            ("md5"@, JsonView::Str(m.md5@)),
            ("description"@, JsonView::Str(m.description@)),
        ]);
    }
    Json::Object(entries)
}

/// The JSON text listing extensions.
pub fn extensions_json(exts: &Vec<ExtensionMeta>) -> (r: String)
    ensures
        r@ == json_text(JsonView::Array(exts@.map_values(|m: ExtensionMeta| extension_document(m)))),
{
    let mut docs: Vec<Json> = Vec::new();
    let mut i: usize = 0;
    while i < exts.len()
        invariant
            i <= exts@.len(),
            docs@.len() == i,
            forall|k: int| 0 <= k < i ==> (#[trigger] docs@[k])@ == extension_document(exts@[k]),
        decreases exts@.len() - i,
    {
        docs.push(extension_json(&exts[i]));
        i = i + 1;
    }
    let arr = Json::Array(docs);
    proof {
        crate::json::lemma_items_view(docs@);
        assert(crate::json::items_view(docs@) =~= exts@.map_values(|m: ExtensionMeta| extension_document(m)));
    }
    json_dump(&arr)
}

/// The known records marked invalid, to be dropped unless the directory
/// still holds their file.
pub fn mark_invalid(exts: Vec<ExtensionMeta>) -> (r: Vec<ExtensionMeta>)
    ensures
        r@.len() == exts@.len(),
        forall|k: int| 0 <= k < r@.len() ==> (#[trigger] r@[k]) == (ExtensionMeta { status: ExtensionMetaStatus::Invalid, ..exts@[k] }),
{
    let mut exts = exts;
    let ghost orig = exts@;
    let mut out: Vec<ExtensionMeta> = Vec::new();
    while exts.len() > 0
        invariant
            out@.len() + exts@.len() == orig.len(),
            exts@ == orig.subrange(out@.len() as int, orig.len() as int),
            forall|k: int| 0 <= k < out@.len() ==> (#[trigger] out@[k]) == (ExtensionMeta { status: ExtensionMetaStatus::Invalid, ..orig[k] }),
        decreases exts@.len(),
    {
        let mut e = exts.remove(0);
        e.status = ExtensionMetaStatus::Invalid;
        out.push(e);
        assert(exts@ =~= orig.subrange(out@.len() as int, orig.len() as int));
    }
    out
}

/// The known records after the directory is found to hold the file
/// `file_name` with checksum `md5`: the record of that file takes the
/// checksum and is marked for update.
pub open spec fn reconciled(known: Seq<ExtensionMeta>, file_name: Seq<char>, md5: String) -> Seq<ExtensionMeta> {
    known.map_values(|m: ExtensionMeta| if m.file_name@ == file_name {
        ExtensionMeta { md5: md5, status: ExtensionMetaStatus::UPDATE, ..m }
    } else {
        m
    })
}

/// Marks the known record of a file found in the directory for update, with
/// its checksum; returns whether the file was known.
pub fn reconcile_entry(known: &mut Vec<ExtensionMeta>, file_name: &str, md5: &String) -> (r: bool)
    ensures
        r == exists|k: int| 0 <= k < old(known)@.len() && #[trigger] old(known)@[k].file_name@ == file_name@,
        final(known)@.len() == old(known)@.len(),
        forall|k: int| 0 <= k < old(known)@.len() ==> #[trigger] final(known)@[k] == if old(known)@[k].file_name@ == file_name@ {
            ExtensionMeta { md5: final(known)@[k].md5, status: ExtensionMetaStatus::UPDATE, ..old(known)@[k] }
        } else {
            old(known)@[k]
        },
        forall|k: int| 0 <= k < old(known)@.len() && old(known)@[k].file_name@ == file_name@ ==> #[trigger] final(known)@[k].md5@ == md5@,
{
    let ghost orig = known@;
    let mut found = false;
    let mut i: usize = 0;
    while i < known.len()
        invariant
            i <= known@.len(),
            known@.len() == orig.len(),
            found == exists|k: int| 0 <= k < i && #[trigger] orig[k].file_name@ == file_name@,
            forall|k: int| 0 <= k < i ==> #[trigger] known@[k] == if orig[k].file_name@ == file_name@ {
                ExtensionMeta { md5: known@[k].md5, status: ExtensionMetaStatus::UPDATE, ..orig[k] }
            } else {
                orig[k]
            },
            forall|k: int| 0 <= k < i && orig[k].file_name@ == file_name@ ==> #[trigger] known@[k].md5@ == md5@,
            forall|k: int| i <= k < known@.len() ==> #[trigger] known@[k] == orig[k],
        decreases known@.len() - i,
    {
        if str_eq(known[i].file_name.as_str(), file_name) {
            let mut m = known.remove(i);
            m.md5 = md5.clone();
            m.status = ExtensionMetaStatus::UPDATE;
            known.insert(i, m);
            found = true;
        }
        i = i + 1;
    }
    found
}

/// A session of the CGI driver: a running program, or the listing of the
/// extensions being read from the given position.
pub enum CgiCtx<P> {
    Process(P),
    DirectoryList(String, usize),
}

/// The sessions of the CGI driver.
pub struct CgiSessions<P> {
    pub table: HandleTable<CgiCtx<P>>,
}

/// Whether the listings are read no further than their end.
pub open spec fn listings_consistent<P>(m: Map<u32, CgiCtx<P>>) -> bool {
    forall|h: u32| #[trigger] m.contains_key(h) ==> (m[h] matches CgiCtx::DirectoryList(s, p) ==> p <= encode_utf8(s@).len())
}

impl<P> CgiSessions<P> {
    pub open spec fn wf(&self) -> bool {
        self.table.wf() && listings_consistent(self.table.sessions())
    }

    /// No session.
    pub fn new() -> (r: CgiSessions<P>)
        ensures
            r.wf(),
            r.table.sessions() == Map::<u32, CgiCtx<P>>::empty(),
    {
        CgiSessions { table: HandleTable::new() }
    }

    /// Opens a session under a new handle.
    pub fn open(&mut self, ctx: CgiCtx<P>) -> (r: u32)
        requires
            old(self).wf(),
            old(self).table.last() < u32::MAX,
            ctx matches CgiCtx::DirectoryList(s, p) ==> p <= encode_utf8(s@).len(),
        ensures
            final(self).wf(),
            r == old(self).table.last() + 1,
            !old(self).table.sessions().contains_key(r),
            final(self).table.sessions() == old(self).table.sessions().insert(r, ctx),
    {
        let h = self.table.increase_handle();
        self.table.insert(h, ctx);
        h
    }

    /// Opens a session reading a listing from its start.
    pub fn cgi_directory_list_exec(&mut self, listing: String) -> (r: u32)
        requires
            old(self).wf(),
            old(self).table.last() < u32::MAX,
        ensures
            final(self).wf(),
            r == old(self).table.last() + 1,
            final(self).table.sessions() == old(self).table.sessions().insert(r, CgiCtx::DirectoryList(listing, 0)),
    {
        self.open(CgiCtx::DirectoryList(listing, 0))
    }

    /// Closes a session; a handle without one is an invalid handle.
    pub fn close(&mut self, handle: u32) -> (r: Result<(), CgiErrorKind>)
        requires
            old(self).wf(),
        ensures
            final(self).wf(),
            r is Ok <==> old(self).table.sessions().contains_key(handle),
            r matches Err(e) ==> e == CgiErrorKind::InvalidHandle,
            final(self).table.sessions() == old(self).table.sessions().remove(handle),
    {
        match self.table.remove(handle) {
            Some(_) => Ok(()),
            None => Err(CgiErrorKind::InvalidHandle),
        }
    }

    /// Reads the next bytes of a listing into `buf`: as many as are left and
    /// fit. A handle that is no listing is an invalid handle, and a program
    /// under it is dropped.
    pub fn cgi_directory_list_read(&mut self, handle: u32, buf: &mut [u8]) -> (r: Result<u32, CgiErrorKind>)
        requires
            old(self).wf(),
            old(buf)@.len() <= u32::MAX,
        ensures
            final(self).wf(),
            match old(self).table.sessions().get(handle) {
                Some(CgiCtx::DirectoryList(s, p)) => {
                    let b = encode_utf8(s@);
                    let n = if b.len() - p <= old(buf)@.len() {
                        b.len() - p
                    } else {
                        old(buf)@.len() as int
                    };
                    &&& r == Ok::<u32, CgiErrorKind>(n as u32)
                    &&& final(self).table.sessions() == old(self).table.sessions().insert(handle, CgiCtx::DirectoryList(s, (p + n) as usize))
                    &&& final(buf)@ == overwrite_prefix(old(buf)@, b.subrange(p as int, p + n))
                },
                _ => r == Err::<u32, CgiErrorKind>(CgiErrorKind::InvalidHandle)
                    && final(self).table.sessions() == old(self).table.sessions().remove(handle)
                    && final(buf)@ == old(buf)@,
            },
    {
        let (vals, pos) = match self.table.remove(handle) {
            Some(CgiCtx::DirectoryList(s, p)) => (s, p),
            _ => return Err(CgiErrorKind::InvalidHandle),
        };
        let rs = vals.as_str().as_bytes();
        let rlen = rs.len();
        let remaining = rlen - pos;
        let copyn = if remaining < buf.len() {
            remaining
        } else {
            buf.len()
        };
        if remaining == 0 {
            self.table.insert(handle, CgiCtx::DirectoryList(vals, pos));
            assert(buf@.subrange(0, buf@.len() as int) =~= buf@);
            return Ok(0);
        }
        let ghost before = buf@;
        let mut i: usize = 0;
        while i < copyn
            invariant
                i <= copyn,
                copyn <= buf@.len(),
                pos + copyn <= rlen,
                rlen == rs@.len(),
                buf@.len() == before.len(),
                forall|k: int| 0 <= k < i ==> buf@[k] == rs@[pos + k],
                forall|k: int| i <= k < buf@.len() ==> buf@[k] == before[k],
            decreases copyn - i,
        {
            assert(pos + i < rlen);
            buf[i] = rs[pos + i];
            i = i + 1;
        }
        assert(buf@ =~= overwrite_prefix(before, rs@.subrange(pos as int, pos + copyn)));
        self.table.insert(handle, CgiCtx::DirectoryList(vals, pos + copyn));
        Ok(copyn as u32)
    }

    /// Takes the program of a session out, to work on it; a handle that is
    /// no program is an invalid handle and its session stays.
    pub fn take_process(&mut self, handle: u32) -> (r: Result<P, CgiErrorKind>)
        requires
            old(self).wf(),
        ensures
            final(self).wf(),
            match old(self).table.sessions().get(handle) {
                Some(CgiCtx::Process(p)) => r == Ok::<P, CgiErrorKind>(p)
                    && final(self).table.sessions() == old(self).table.sessions().remove(handle),
                _ => r == Err::<P, CgiErrorKind>(CgiErrorKind::InvalidHandle)
                    && final(self).table.sessions() == old(self).table.sessions(),
            },
    {
        let ghost before = self.table.sessions();
        match self.table.remove(handle) {
            Some(CgiCtx::Process(p)) => Ok(p),
            Some(CgiCtx::DirectoryList(s, q)) => {
                self.table.insert(handle, CgiCtx::DirectoryList(s, q));
                assert(self.table.sessions() =~= before);
                Err(CgiErrorKind::InvalidHandle)
            },
            None => Err(CgiErrorKind::InvalidHandle),
        }
    }

    /// Puts the program of a session back.
    pub fn put_process(&mut self, handle: u32, p: P)
        requires
            old(self).wf(),
            0 < handle <= old(self).table.last(),
        ensures
            final(self).wf(),
            final(self).table.sessions() == old(self).table.sessions().insert(handle, CgiCtx::Process(p)),
    {
        self.table.insert(handle, CgiCtx::Process(p));
    }
}

} // verus!
