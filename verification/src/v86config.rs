use vstd::prelude::*;
use crate::cli_config::{ConfigError, env_vars_of, opt_view, replace_vars, replaced};
use crate::json::{Json, JsonView, as_text, field, json_parse, parsed_json, text_of};

verus! {

/// The configuration of an application run in the x86 emulator.
pub struct V86config {
    /// The configuration text, with its variables replaced, when it came
    /// from a car file.
    pub raw_config: Option<String>,
    pub fs_root_path: String,
    pub dynamic_lib_path: String,
}

/// Whether an emulator configuration document can be read: it names its
/// root directory and its emulator library as text.
pub open spec fn readable_v86(doc: JsonView) -> bool {
    &&& as_text(field(doc, "fs_root_path"@)) is Some
    &&& as_text(field(doc, "dynamic_lib_path"@)) is Some
}

/// What reading an emulator configuration text gives: an error when it is
/// not JSON, else the root directory and library it names.
pub open spec fn v86_outcome(text: Seq<char>, r: Result<V86config, ConfigError>) -> bool {
    match parsed_json(text) {
        Err(_) => r matches Err(e) && e == ConfigError::Json,
        Ok(doc) => r matches Ok(c) && {
            &&& Some(c.fs_root_path@) == as_text(field(doc, "fs_root_path"@))
            &&& Some(c.dynamic_lib_path@) == as_text(field(doc, "dynamic_lib_path"@))
            &&& c.raw_config is None
        },
    }
}

/// Reading an emulator configuration has one outcome per text: two results
/// that both meet `v86_outcome` for the same text (such as those of
/// `from_file` and `from_data` on the same data and environment) fail
/// together with the same error, or both succeed with the same fields.
pub proof fn law_v86_outcome_is_one(text: Seq<char>, r1: Result<V86config, ConfigError>, r2: Result<V86config, ConfigError>)
    requires
        v86_outcome(text, r1),
        v86_outcome(text, r2),
    ensures
        r1 is Ok <==> r2 is Ok,
        r1 matches Err(e1) ==> r2 matches Err(e2) && e1 == e2,
        r1 matches Ok(c1) ==> r2 matches Ok(c2) && c1.fs_root_path@ == c2.fs_root_path@
            && c1.dynamic_lib_path@ == c2.dynamic_lib_path@ && c1.raw_config == c2.raw_config,
{
}

/// Whether an emulator configuration document can be read.
pub fn is_readable_v86(doc: &Json) -> (r: bool)
    ensures
        r == readable_v86(doc@),
{
    text_of(doc.get("fs_root_path")).is_some() && text_of(doc.get("dynamic_lib_path")).is_some()
}

impl V86config {
    /// Reads an emulator configuration from its JSON text.
    pub fn from_json_string(json_string: String) -> (r: Result<V86config, ConfigError>)
        requires
            parsed_json(json_string@) matches Ok(doc) ==> readable_v86(doc),
        ensures
            v86_outcome(json_string@, r),
    {
        let doc = match json_parse(json_string.as_str()) {
            Ok(d) => d,
            Err(_) => return Err(ConfigError::Json),
        };
        let fs_root_path = match text_of(doc.get("fs_root_path")) {
            Some(p) => p,
            None => String::new(),
        };
        let dynamic_lib_path = match text_of(doc.get("dynamic_lib_path")) {
            Some(p) => p,
            None => String::new(),
        };
        Ok(V86config { fs_root_path, dynamic_lib_path, raw_config: None })
    }

    /// Reads an emulator configuration from its JSON text after replacing its
    /// variables, given the environment's id and the root directory for
    /// environments.
    pub fn from_data(data: String, root_suffix: Option<String>, env_root: Option<String>) -> (r: Result<V86config, ConfigError>)
        requires
            parsed_json(replaced(data@, env_vars_of(opt_view(env_root), opt_view(root_suffix)))) matches Ok(doc)
                ==> readable_v86(doc),
        ensures
            v86_outcome(replaced(data@, env_vars_of(opt_view(env_root), opt_view(root_suffix))), r),
    {
        let data = replace_vars(data, root_suffix, env_root);
        Self::from_json_string(data)
    }

    /// Reads an emulator configuration from the text of its file, as
    /// `from_data` does.
    pub fn from_file(data: String, root_suffix: Option<String>, env_root: Option<String>) -> (r: Result<V86config, ConfigError>)
        requires
            parsed_json(replaced(data@, env_vars_of(opt_view(env_root), opt_view(root_suffix)))) matches Ok(doc)
                ==> readable_v86(doc),
        ensures
            v86_outcome(replaced(data@, env_vars_of(opt_view(env_root), opt_view(root_suffix))), r),
    {
        let data = replace_vars(data, root_suffix, env_root);
        Self::from_json_string(data)
    }

    /// Reads an emulator configuration as `from_data` does when its document
    /// can be read; `None` when the text is JSON that lacks the root
    /// directory or the library.
    pub fn checked_from_data(data: String, root_suffix: Option<String>, env_root: Option<String>) -> (r: Option<Result<V86config, ConfigError>>)
        ensures
            match parsed_json(replaced(data@, env_vars_of(opt_view(env_root), opt_view(root_suffix)))) {
                Ok(doc) => if readable_v86(doc) {
                    r matches Some(x) && v86_outcome(
                        replaced(data@, env_vars_of(opt_view(env_root), opt_view(root_suffix))),
                        x,
                    )
                } else {
                    r is None
                },
                Err(_) => r matches Some(x) && x matches Err(e) && e == ConfigError::Json,
            },
    {
        if !Self::text_is_readable(&data, &root_suffix, &env_root) {
            return None;
        }
        Some(Self::from_data(data, root_suffix, env_root))
    }

    /// Reads an emulator configuration as `from_file` does when its document
    /// can be read; `None` when the text is JSON that lacks the root
    /// directory or the library.
    pub fn checked_from_file(data: String, root_suffix: Option<String>, env_root: Option<String>) -> (r: Option<Result<V86config, ConfigError>>)
        ensures
            match parsed_json(replaced(data@, env_vars_of(opt_view(env_root), opt_view(root_suffix)))) {
                Ok(doc) => if readable_v86(doc) {
                    r matches Some(x) && v86_outcome(
                        replaced(data@, env_vars_of(opt_view(env_root), opt_view(root_suffix))),
                        x,
                    )
                } else {
                    r is None
                },
                Err(_) => r matches Some(x) && x matches Err(e) && e == ConfigError::Json,
            },
    {
        if !Self::text_is_readable(&data, &root_suffix, &env_root) {
            return None;
        }
        Some(Self::from_file(data, root_suffix, env_root))
    }

    /// Whether the text, its variables replaced, is not JSON or is a
    /// readable emulator configuration.
    fn text_is_readable(data: &String, root_suffix: &Option<String>, env_root: &Option<String>) -> (r: bool)
        ensures
            r == (parsed_json(replaced(data@, env_vars_of(opt_view(*env_root), opt_view(*root_suffix)))) matches Ok(doc)
                ==> readable_v86(doc)),
    {
        let text = replace_vars(data.clone(), root_suffix.clone(), env_root.clone());
        match json_parse(text.as_str()) {
            Ok(doc) => is_readable_v86(&doc),
            Err(_) => true,
        }
    }
}

} // verus!
