use vstd::prelude::*;
use crate::text::{lower_chars, is_prefix, to_ascii_lowercase, chars_of, chars_start_with};

verus! {

/// A grant to reach the resources whose address starts with `url`.
pub struct Permission {
    pub url: String,
    pub schema: String,
}

impl Clone for Permission {
    fn clone(&self) -> (r: Self)
        ensures
            r == *self,
    {
        Permission { url: self.url.clone(), schema: self.schema.clone() }
    }
}

/// Whether a permission for `prefix` grants access to `url`: the ASCII
/// lowercase of `url` starts with `prefix`.
pub open spec fn grants(prefix: Seq<char>, url: Seq<char>) -> bool {
    is_prefix(prefix, lower_chars(url))
}

/// Whether `prefix` grants access to `url`.
pub fn url_granted(prefix: &str, url: &str) -> (r: bool)
    ensures
        r == grants(prefix@, url@),
{
    let lower = to_ascii_lowercase(url);
    let lv = chars_of(lower.as_str());
    let pv = chars_of(prefix);
    chars_start_with(&lv, &pv)
}

impl Permission {
    pub fn is_permision(&self, url: &str) -> (r: bool)
        ensures
            r == grants(self.url@, url@),
    {
        url_granted(self.url.as_str(), url)
    }
}

/// A grant to reach the resources whose address starts with `url`.
pub struct Permision {
    pub schema: String,
    pub url: String,
}

impl Clone for Permision {
    fn clone(&self) -> (r: Self)
        ensures
            r == *self,
    {
        Permision { schema: self.schema.clone(), url: self.url.clone() }
    }
}

impl Permision {
    pub fn is_permision(&self, url: &str) -> (r: bool)
        ensures
            r == grants(self.url@, url@),
    {
        url_granted(self.url.as_str(), url)
    }
}

} // verus!
