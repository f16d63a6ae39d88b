use vstd::prelude::*;
use crate::json::{
    Json, JsonNumber, JsonView, as_text, field, json_dump, json_parse, json_text, members,
    members_of, opt_val, parsed_json, text_of,
};
use crate::text::{chars_of, string_from, string_of};
use vstd::utf8::encode_utf8;
use std::collections::HashMap;
use crate::drivers::registry::{NamedTable, lookup, with_entry};

verus! {

/// Why a call request between modules could not be read.
#[derive(Debug)]
pub enum McallParseError {
    /// The request is not JSON; the parser's message.
    Json(String),
    /// The request names no function to call.
    NoMcall,
}

impl McallParseError {
    /// The message of the error.
    pub fn message(&self) -> (r: String)
        ensures
            match self {
                McallParseError::Json(m) => r@ == m@,
                McallParseError::NoMcall => r@ == "mcall node not found"@,
            },
    {
        match self {
            McallParseError::Json(m) => m.clone(),
            McallParseError::NoMcall => string_from("mcall node not found"),
        }
    }
}

/// The text of a member of a document, or `null` when it has none.
pub open spec fn member_dump(doc: JsonView, key: Seq<char>) -> Seq<char> {
    match field(doc, key) {
        Some(v) => json_text(v),
        None => json_text(JsonView::Null),
    }
}

/// What reading a call request gives: the function it names and the JSON
/// text of its parameters.
pub open spec fn mcall_request(param: Seq<char>, r: Result<(String, String), McallParseError>) -> bool {
    match parsed_json(param) {
        Err(e) => r matches Err(McallParseError::Json(m)) && m@ == e,
        Ok(doc) => match as_text(field(doc, "mcall"@)) {
            None => r matches Err(x) && x is NoMcall,
            Some(name) => r matches Ok(p) && p.0@ == name && p.1@ == member_dump(doc, "params"@),
        },
    }
}

/// Reads a call request: the name of the function to call, from `mcall`,
/// and the JSON text of `params`.
pub fn parse_mcall(param: &str) -> (r: Result<(String, String), McallParseError>)
    ensures
        mcall_request(param@, r),
{
    let mcall_json = match json_parse(param) {
        Ok(j) => j,
        Err(e) => return Err(McallParseError::Json(e)),
    };
    let mcall_name = match text_of(mcall_json.get("mcall")) {
        Some(n) => n,
        None => return Err(McallParseError::NoMcall),
    };
    let params = match mcall_json.get("params") {
        Some(p) => json_dump(p),
        None => {
            let null = Json::Null;
            json_dump(&null)
        },
    };
    Ok((mcall_name, params))
}

/// A module's request to make functions callable by other modules.
pub struct RegisterReq {
    pub module: String,
    pub methods: Vec<String>,
}

/// The text a member of a JSON list stands for: a string is itself, any
/// other value its JSON text.
pub open spec fn member_text(v: JsonView) -> Seq<char> {
    match v {
        JsonView::Str(s) => s,
        _ => json_text(v),
    }
}

/// The text a member of a JSON list stands for.
fn member_string(v: &Json) -> (r: String)
    ensures
        r@ == member_text(v@),
{
    match v {
        Json::Str(s) => s.clone(),
        _ => json_dump(v),
    }
}

/// Reads a module's registration request: the functions in `methods`.
pub fn process_register_req(module: &str, json_str: &str) -> (r: Result<RegisterReq, String>)
    ensures
        match parsed_json(json_str@) {
            Err(e) => r matches Err(m) && m@ == e,
            Ok(doc) => r matches Ok(req) && req.module@ == module@ && req.methods@.map_values(|m: String| m@)
                == members(field(doc, "methods"@)).map_values(|v: JsonView| member_text(v)),
        },
{
    let json_obj = match json_parse(json_str) {
        Ok(j) => j,
        Err(e) => return Err(e),
    };
    let methods_json = json_obj.get("methods");
    let items = members_of(methods_json);
    let ghost all = members(opt_val(methods_json));
    let mut methods: Vec<String> = Vec::new();
    let mut i: usize = 0;
    while i < items.len()
        invariant
            i <= items@.len(),
            items@.len() == all.len(),
            forall|k: int| 0 <= k < all.len() ==> (#[trigger] items@[k])@ == all[k],
            methods@.map_values(|m: String| m@) == all.subrange(0, i as int).map_values(|v: JsonView| member_text(v)),
        decreases items@.len() - i,
    {
        let ghost before = methods@;
        let m = member_string(&items[i]);
        methods.push(m);
        assert(items@[i as int]@ == all[i as int]);
        assert(methods@.map_values(|m: String| m@) =~= before.map_values(|m: String| m@).push(member_text(all[i as int])));
        assert(all.subrange(0, i + 1).map_values(|v: JsonView| member_text(v)) =~= all.subrange(0, i as int).map_values(|v: JsonView| member_text(v)).push(member_text(all[i as int])));
        i = i + 1;
    }
    assert(all.subrange(0, i as int) =~= all);
    Ok(RegisterReq { module: string_from(module), methods })
}

/// The name a registered function is called by: the module, `::`, the
/// function.
pub open spec fn mcall_name(module: Seq<char>, method: Seq<char>) -> Seq<char> {
    module + "::"@ + method
}

/// The name a registered function is called by.
pub fn mcall_key(module: &str, method: &str) -> (r: String)
    ensures
        r@ == mcall_name(module@, method@),
{
    let mut v = chars_of(module);
    let sep = chars_of("::");
    let m = chars_of(method);
    let ghost start = v@;
    let mut i: usize = 0;
    while i < sep.len()
        invariant
            i <= sep.len(),
            v@ == start + sep@.subrange(0, i as int),
        decreases sep.len() - i,
    {
        v.push(sep[i]);
        i = i + 1;
        assert(v@ =~= start + sep@.subrange(0, i as int));
    }
    assert(sep@.subrange(0, sep.len() as int) =~= sep@);
    let ghost mid = v@;
    let mut j: usize = 0;
    while j < m.len()
        invariant
            j <= m.len(),
            v@ == mid + m@.subrange(0, j as int),
        decreases m.len() - j,
    {
        v.push(m[j]);
        j = j + 1;
        assert(v@ =~= mid + m@.subrange(0, j as int));
    }
    assert(m@.subrange(0, m.len() as int) =~= m@);
    string_of(&v)
}

/// The document of an error answer: code -1 and the message.
pub open spec fn error_document(msg: Seq<char>) -> JsonView {
    JsonView::Object(seq![
        ("code"@, JsonView::Number(JsonNumber { positive: false, mantissa: 1, exponent: 0 })),
        ("message"@, JsonView::Str(msg)),
    ])
}

/// The JSON text of an error answer with the given message.
pub fn error_json(msg: &str) -> (r: String)
    ensures
        r@ == json_text(error_document(msg@)),
{
    let mut entries: Vec<(String, Json)> = Vec::new();
    entries.push((string_from("code"), Json::Number(JsonNumber { positive: false, mantissa: 1, exponent: 0 })));
    entries.push((string_from("message"), Json::Str(string_from(msg))));
    let obj = Json::Object(entries);
    proof {
        crate::json::lemma_entries_view(entries@);
        assert(crate::json::entries_view(entries@) =~= seq![
            ("code"@, JsonView::Number(JsonNumber { positive: false, mantissa: 1, exponent: 0 })),
            ("message"@, JsonView::Str(msg@)),
        ]);
    }
    json_dump(&obj)
}

/// The bytes of an error answer written to a buffer of `len` bytes: as
/// many of the answer's bytes as fit.
pub open spec fn error_response_bytes(msg: Seq<char>, len: int) -> Seq<u8> {
    let b = encode_utf8(json_text(error_document(msg)));
    if len < b.len() {
        b.subrange(0, len)
    } else {
        b
    }
}

/// The bytes of an error answer written to a buffer of `len` bytes.
pub fn error_response(msg: &str, len: usize) -> (r: Vec<u8>)
    ensures
        r@ == error_response_bytes(msg@, len as int),
{
    let json = error_json(msg);
    let bs = json.as_str().as_bytes();
    let n = if len < bs.len() {
        len
    } else {
        bs.len()
    };
    let mut out: Vec<u8> = Vec::new();
    let mut i: usize = 0;
    while i < n
        invariant
            n <= bs@.len(),
            i <= n,
            out@ == bs@.subrange(0, i as int),
        decreases n - i,
    {
        out.push(bs[i]);
        i = i + 1;
        assert(out@ =~= bs@.subrange(0, i as int));
    }
    assert(bs@.subrange(0, bs@.len() as int) =~= bs@);
    out
}


broadcast use vstd::std_specs::hash::group_hash_axioms;

/// What the runtime knows of the linked library modules: the module that
/// owns each linear memory, by the memory's address; what each module
/// exports, by module name; and the functions registered for calls between
/// modules, by `module::method`.
pub struct McallRegistry<I, C> {
    owners: HashMap<usize, String>,
    modules: NamedTable<I>,
    callers: NamedTable<C>,
}

impl<I, C> McallRegistry<I, C> {
    /// The module owning each linear memory, by the memory's address.
    pub closed spec fn owners(&self) -> Map<usize, String> {
        self.owners@
    }

    /// What each library module exports, by module name.
    pub closed spec fn modules(&self) -> Seq<(Seq<char>, I)> {
        self.modules.entries()
    }

    /// The registered functions, by `module::method`.
    pub closed spec fn callers(&self) -> Seq<(Seq<char>, C)> {
        self.callers.entries()
    }

    /// Nothing known.
    pub fn new() -> (r: McallRegistry<I, C>)
        ensures
            r.owners() == Map::<usize, String>::empty(),
            r.modules() == Seq::<(Seq<char>, I)>::empty(),
            r.callers() == Seq::<(Seq<char>, C)>::empty(),
    {
        McallRegistry { owners: HashMap::new(), modules: NamedTable::new(), callers: NamedTable::new() }
    }

    /// Records the module that owns the memory at `mem`.
    pub fn set_owner(&mut self, mem: usize, module: String)
        ensures
            final(self).owners() == old(self).owners().insert(mem, module),
            final(self).modules() == old(self).modules(),
            final(self).callers() == old(self).callers(),
    {
        self.owners.insert(mem, module);
    }

    /// The module that owns the memory at `mem`, if known.
    pub fn owner(&self, mem: usize) -> (r: Option<String>)
        ensures
            match r {
                Some(m) => self.owners().contains_key(mem) && m@ == self.owners()[mem]@,
                None => !self.owners().contains_key(mem),
            },
    {
        match self.owners.get(&mem) {
            Some(m) => Some(m.clone()),
            None => None,
        }
    }

    /// Records what a library module exports, in place of what was known.
    pub fn add_module(&mut self, name: String, info: I)
        ensures
            final(self).modules() == with_entry(old(self).modules(), name@, info),
            final(self).owners() == old(self).owners(),
            final(self).callers() == old(self).callers(),
    {
        self.modules.set(name, info);
    }

    /// What a library module exports, if known.
    pub fn module(&self, name: &str) -> (r: Option<&I>)
        ensures
            match lookup(self.modules(), name@) {
                Some(x) => r matches Some(y) && *y == x,
                None => r is None,
            },
    {
        self.modules.get(name)
    }

    /// Registers a function of a module for calls, under `module::method`,
    /// in place of any function registered there.
    pub fn register(&mut self, module: &str, method: &str, caller: C)
        ensures
            final(self).callers() == with_entry(old(self).callers(), mcall_name(module@, method@), caller),
            final(self).owners() == old(self).owners(),
            final(self).modules() == old(self).modules(),
    {
        let key = mcall_key(module, method);
        self.callers.set(key, caller);
    }

    /// The function registered under a name, if any.
    pub fn caller(&self, key: &str) -> (r: Option<&C>)
        ensures
            match lookup(self.callers(), key@) {
                Some(x) => r matches Some(y) && *y == x,
                None => r is None,
            },
    {
        self.callers.get(key)
    }
}

} // verus!
