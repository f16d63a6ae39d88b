use vstd::prelude::*;
use crate::drivers::error::IpfsErrorKind;
use crate::json::{Json, JsonView, as_text, field, json_dump, json_parse, json_text, members, members_of, opt_val, parsed_json, text_of};
use crate::text::{str_eq, string_from};
use vstd::utf8::encode_utf8;

verus! {

/// Whether a byte stands for itself in a form: an ASCII letter or digit, or
/// one of `*`, `-`, `.`, `_`.
pub open spec fn form_unchanged(b: u8) -> bool {
    (48 <= b <= 57) || (65 <= b <= 90) || (97 <= b <= 122) || b == 42 || b == 45 || b == 46 || b == 95
}

/// The uppercase hexadecimal digit of a number below 16.
pub open spec fn hex_upper(n: u8) -> char {
    if n < 10 {
        (n + 48) as char
    } else {
        (n + 55) as char
    }
}

/// How a byte is written in a form: itself, `+` for a space, otherwise `%`
/// and two uppercase hexadecimal digits.
pub open spec fn form_byte(b: u8) -> Seq<char> {
    if form_unchanged(b) {
        seq![b as char]
    } else if b == 32 {
        seq!['+']
    } else {
        seq!['%', hex_upper(b / 16), hex_upper(b % 16)]
    }
}

/// How bytes are written in a form, byte by byte.
pub open spec fn form_encode(b: Seq<u8>) -> Seq<char>
    decreases b.len(),
{
    if b.len() == 0 {
        seq![]
    } else {
        form_encode(b.drop_last()) + form_byte(b.last())
    }
}

/// A name and value pair in a form: the encoded UTF-8 of the name, `=`, and
/// the encoded UTF-8 of the value.
pub open spec fn form_pair(p: (Seq<char>, Seq<char>)) -> Seq<char> {
    form_encode(encode_utf8(p.0)) + seq!['='] + form_encode(encode_utf8(p.1))
}

/// Name and value pairs in a form, in order, joined by `&`.
pub open spec fn form_pairs(pairs: Seq<(Seq<char>, Seq<char>)>) -> Seq<char>
    decreases pairs.len(),
{
    if pairs.len() == 0 {
        seq![]
    } else if pairs.len() == 1 {
        form_pair(pairs[0])
    } else {
        form_pairs(pairs.drop_last()) + seq!['&'] + form_pair(pairs.last())
    }
}

/// The form encoding of a list of name and value pairs; the encoder accepts
/// every list of text pairs.
pub open spec fn url_encoded(pairs: Seq<(Seq<char>, Seq<char>)>) -> Option<Seq<char>> {
    Some(form_pairs(pairs))
}

/// Encodes name and value pairs as a form, by `serde_urlencoded::to_string`,
/// which hands each pair to `form_urlencoded`'s `append_pair` and never
/// fails on text pairs.
#[verifier::external_body]
fn urlencode_pairs(pairs: &Vec<(String, String)>) -> (r: Option<String>)
    ensures
        match r {
            Some(s) => url_encoded(pairs@.map_values(|p: (String, String)| (p.0@, p.1@))) == Some(s@),
            None => url_encoded(pairs@.map_values(|p: (String, String)| (p.0@, p.1@))) is None,
        },
{
    serde_urlencoded::to_string(pairs).ok()
}

/// The IPFS node the driver talks to.
pub struct Api {
    pub host: String,
    pub port: u16,
}

impl Api {
    pub fn new(host: &str, port: u16) -> (r: Api)
        ensures
            r.host@ == host@,
            r.port == port,
    {
        Api { host: string_from(host), port }
    }

    /// The file operations of the node.
    pub fn file_api(self) -> (r: FileApi)
        ensures
            r.0 == self,
    {
        FileApi::new(self)
    }
}

/// The file operations of an IPFS node.
pub struct FileApi(pub Api);

impl FileApi {
    pub fn new(api: Api) -> (r: FileApi)
        ensures
            r.0 == api,
    {
        FileApi(api)
    }
}

/// The file operations the driver offers.
#[derive(Clone, Copy, Debug, PartialEq, Eq, Structural)]
pub enum IpfsOp {
    Ls,
    Mkdir,
    Rm,
    Write,
}

/// The operation an API name selects.
pub open spec fn ipfs_op_of(api: Seq<char>) -> Option<IpfsOp> {
    if api == "files/ls"@ {
        Some(IpfsOp::Ls)
    } else if api == "files/mkdir"@ {
        Some(IpfsOp::Mkdir)
    } else if api == "files/rm"@ {
        Some(IpfsOp::Rm)
    } else if api == "files/write"@ {
        Some(IpfsOp::Write)
    } else {
        None
    }
}

/// The path of the node's endpoint for an operation.
pub open spec fn ipfs_endpoint_of(op: IpfsOp) -> Seq<char> {
    match op {
        IpfsOp::Ls => "api/v0/files/ls"@,
        IpfsOp::Mkdir => "api/v0/files/mkdir"@,
        IpfsOp::Rm => "api/v0/files/rm"@,
        IpfsOp::Write => "api/v0/files/write"@,
    }
}

/// The name of an operation in a command is the path of its endpoint under
/// `api/v0/`: a command's API name selects an operation exactly when that
/// operation's endpoint is `api/v0/` followed by the name, so each of the
/// four operations is selected by its own name and by no other.
pub proof fn law_api_name_selects_its_endpoint(api: Seq<char>, op: IpfsOp)
    ensures
        ipfs_op_of(api) == Some(op) <==> ipfs_endpoint_of(op) == "api/v0/"@ + api,
{
    reveal_strlit("api/v0/");
    reveal_strlit("files/ls");
    reveal_strlit("files/mkdir");
    reveal_strlit("files/rm");
    reveal_strlit("files/write");
    reveal_strlit("api/v0/files/ls");
    reveal_strlit("api/v0/files/mkdir");
    reveal_strlit("api/v0/files/rm");
    reveal_strlit("api/v0/files/write");
    let pre = "api/v0/"@;
    let e = ipfs_endpoint_of(op);
    if e == pre + api {
        let name = e.subrange(7, e.len() as int);
        assert(api =~= name);
        match op {
            IpfsOp::Ls => {
                assert(api =~= "files/ls"@);
            },
            IpfsOp::Mkdir => {
                assert(api =~= "files/mkdir"@);
                assert(api != "files/ls"@) by {
                    assert(api.len() != "files/ls"@.len());
                }
            },
            IpfsOp::Rm => {
                assert(api =~= "files/rm"@);
                assert(api != "files/ls"@) by {
                    assert(api[6] != "files/ls"@[6]);
                }
                assert(api != "files/mkdir"@) by {
                    assert(api.len() != "files/mkdir"@.len());
                }
            },
            IpfsOp::Write => {
                assert(api =~= "files/write"@);
                assert(api != "files/ls"@) by {
                    assert(api.len() != "files/ls"@.len());
                }
                assert(api != "files/mkdir"@) by {
                    assert(api[6] != "files/mkdir"@[6]);
                }
                assert(api != "files/rm"@) by {
                    assert(api.len() != "files/rm"@.len());
                }
            },
        }
    }
    if ipfs_op_of(api) == Some(op) {
        match op {
            IpfsOp::Ls => assert(pre + api =~= e),
            IpfsOp::Mkdir => assert(pre + api =~= e),
            IpfsOp::Rm => assert(pre + api =~= e),
            IpfsOp::Write => assert(pre + api =~= e),
        }
    }
}

/// The path of the node's endpoint for an operation.
pub fn ipfs_endpoint(op: IpfsOp) -> (r: &'static str)
    ensures
        r@ == ipfs_endpoint_of(op),
{
    match op {
        IpfsOp::Ls => "api/v0/files/ls",
        IpfsOp::Mkdir => "api/v0/files/mkdir",
        IpfsOp::Rm => "api/v0/files/rm",
        IpfsOp::Write => "api/v0/files/write",
    }
}

/// The text of a JSON number or boolean argument: a boolean is `true` or
/// `false`, a number its JSON text.
pub open spec fn arg_value(v: JsonView) -> Option<Seq<char>> {
    match v {
        JsonView::Str(s) => Some(s),
        JsonView::Boolean(b) => Some(if b {
            "true"@
        } else {
            "false"@
        }),
        JsonView::Number(n) => Some(json_text(v)),
        _ => None,
    }
}

/// The name and value of an argument: a text name and a text, boolean or
/// number value.
pub open spec fn arg_pair(v: JsonView) -> Option<(Seq<char>, Seq<char>)> {
    match (as_text(field(v, "name"@)), field(v, "value"@)) {
        (Some(n), Some(x)) => match arg_value(x) {
            Some(t) => Some((n, t)),
            None => None,
        },
        _ => None,
    }
}

/// The pairs of a list of arguments, if each reads as one.
pub open spec fn arg_pairs(items: Seq<JsonView>) -> Option<Seq<(Seq<char>, Seq<char>)>>
    decreases items.len(),
{
    if items.len() == 0 {
        Some(seq![])
    } else {
        match (arg_pairs(items.drop_last()), arg_pair(items.last())) {
            (Some(p), Some(x)) => Some(p.push(x)),
            _ => None,
        }
    }
}

proof fn lemma_arg_pairs_prefix_fails(items: Seq<JsonView>, k: int)
    requires
        0 <= k <= items.len(),
        arg_pairs(items.subrange(0, k)) is None,
    ensures
        arg_pairs(items) is None,
    decreases items.len() - k,
{
    if k < items.len() {
        let cur = items.subrange(0, k + 1);
        assert(cur.drop_last() =~= items.subrange(0, k));
        lemma_arg_pairs_prefix_fails(items, k + 1);
    } else {
        assert(items.subrange(0, k) =~= items);
    }
}

/// A command for the IPFS driver: the operation and its form-encoded
/// arguments, if it has any.
pub struct IpfsCommand {
    pub op: IpfsOp,
    pub args: Option<String>,
}

/// What a command text reads as: JSON with a text `api`, and `args`, a list
/// whose entries each read as an argument, encoded as a form; a missing
/// part or a bad argument is an invalid parameter, an unknown API an
/// invalid method.
pub open spec fn ipfs_command_of(cmd: Seq<char>) -> Result<(IpfsOp, Option<Seq<char>>), IpfsErrorKind> {
    match parsed_json(cmd) {
        Err(_) => Err(IpfsErrorKind::InvalidParameter),
        Ok(doc) => match as_text(field(doc, "api"@)) {
            None => Err(IpfsErrorKind::InvalidParameter),
            Some(api) => {
                let args: Result<Option<Seq<char>>, IpfsErrorKind> = match field(doc, "args"@) {
                    Some(JsonView::Array(items)) => match arg_pairs(items) {
                        None => Err(IpfsErrorKind::InvalidParameter),
                        Some(p) => match url_encoded(p) {
                            Some(e) => Ok(Some(e)),
                            None => Err(IpfsErrorKind::InvalidParameter),
                        },
                    },
                    _ => Ok(None),
                };
                match args {
                    Err(e) => Err(e),
                    Ok(a) => match ipfs_op_of(api) {
                        Some(op) => Ok((op, a)),
                        None => Err(IpfsErrorKind::InvalidMethod),
                    },
                }
            },
        },
    }
}

/// The text of a command argument's value.
fn arg_value_text(v: &Json) -> (r: Option<String>)
    ensures
        match arg_value(v@) {
            Some(t) => r matches Some(s) && s@ == t,
            None => r is None,
        },
{
    match v {
        Json::Str(s) => Some(s.clone()),
        Json::Boolean(b) => Some(if *b {
            string_from("true")
        } else {
            string_from("false")
        }),
        Json::Number(_) => Some(json_dump(v)),
        _ => None,
    }
}

/// Reads a command for the IPFS driver.
pub fn inner_command(cmd: &str) -> (r: Result<IpfsCommand, IpfsErrorKind>)
    ensures
        match ipfs_command_of(cmd@) {
            Ok((op, a)) => r matches Ok(c) && c.op == op && match a {
                Some(t) => c.args matches Some(x) && x@ == t,
                None => c.args is None,
            },
            Err(e) => r matches Err(x) && x == e,
        },
{
    let json = match json_parse(cmd) {
        Ok(o) => o,
        Err(_) => return Err(IpfsErrorKind::InvalidParameter),
    };
    let api = match text_of(json.get("api")) {
        Some(s) => s,
        None => return Err(IpfsErrorKind::InvalidParameter),
    };
    let args_json = json.get("args");
    let args: Option<String> = match args_json {
        Some(Json::Array(arr)) => {
            let items = members_of(args_json);
            let ghost all = members(opt_val(args_json));
            let mut kv: Vec<(String, String)> = Vec::new();
            let mut i: usize = 0;
            while i < items.len()
                invariant
                    i <= items@.len(),
                    items@.len() == all.len(),
                    forall|k: int| 0 <= k < all.len() ==> (#[trigger] items@[k])@ == all[k],
                    arg_pairs(all.subrange(0, i as int)) == Some(kv@.map_values(|p: (String, String)| (p.0@, p.1@))),
                    parsed_json(cmd@) == Ok::<JsonView, Seq<char>>(json@),
                    as_text(field(json@, "api"@)) == Some(api@),
                    field(json@, "args"@) == Some(JsonView::Array(all)),
                decreases items@.len() - i,
            {
                let v = &items[i];
                let ghost cur = all.subrange(0, i + 1);
                assert(cur.drop_last() =~= all.subrange(0, i as int));
                assert(cur.last() == v@);
                let name = match text_of(v.get("name")) {
                    Some(n) => n,
                    None => {
                        proof {
                            lemma_arg_pairs_prefix_fails(all, i + 1);
                        }
                        return Err(IpfsErrorKind::InvalidParameter);
                    },
                };
                let value = match v.get("value") {
                    Some(x) => match arg_value_text(x) {
                        Some(t) => t,
                        None => {
                            proof {
                                lemma_arg_pairs_prefix_fails(all, i + 1);
                            }
                            return Err(IpfsErrorKind::InvalidParameter);
                        },
                    },
                    None => {
                        proof {
                            lemma_arg_pairs_prefix_fails(all, i + 1);
                        }
                        return Err(IpfsErrorKind::InvalidParameter);
                    },
                };
                let ghost before = kv@;
                kv.push((name, value));
                assert(kv@.map_values(|p: (String, String)| (p.0@, p.1@)) =~= before.map_values(
                    |p: (String, String)| (p.0@, p.1@),
                ).push(arg_pair(v@)->0));
                i = i + 1;
            }
            assert(all.subrange(0, i as int) =~= all);
            match urlencode_pairs(&kv) {
                Some(o) => Some(o),
                None => return Err(IpfsErrorKind::InvalidParameter),
            }
        },
        _ => None,
    };
    let op = if str_eq(api.as_str(), "files/ls") {
        IpfsOp::Ls
    } else if str_eq(api.as_str(), "files/mkdir") {
        IpfsOp::Mkdir
    } else if str_eq(api.as_str(), "files/rm") {
        IpfsOp::Rm
    } else if str_eq(api.as_str(), "files/write") {
        IpfsOp::Write
    } else {
        return Err(IpfsErrorKind::InvalidMethod);
    };
    Ok(IpfsCommand { op, args })
}

} // verus!
