use vstd::prelude::*;
use crate::config::BlocklessModule;
use crate::text::{str_eq, string_of};

verus! {

/// The MD5 digest of some bytes.
pub uninterp spec fn md5_of(data: Seq<u8>) -> Seq<u8>;

/// The MD5 digest of some bytes, by `md5::compute`; the contract names
/// the result.
#[verifier::external_body]
fn md5_digest(data: &[u8]) -> (r: [u8; 16])
    ensures
        r@ == md5_of(data@),
{
    md5::compute(data).0
}

/// The lowercase hexadecimal digit of a number below 16.
pub open spec fn hex_digit(n: u8) -> char {
    if n < 10 {
        (n + 48) as char
    } else {
        (n + 87) as char
    }
}

/// The lowercase hexadecimal text of bytes: two digits per byte.
pub open spec fn hex_text(b: Seq<u8>) -> Seq<char>
    decreases b.len(),
{
    if b.len() == 0 {
        seq![]
    } else {
        hex_text(b.drop_last()) + seq![hex_digit(b.last() / 16), hex_digit(b.last() % 16)]
    }
}

fn hex_digit_exec(n: u8) -> (r: char)
    requires
        n < 16,
    ensures
        r == hex_digit(n),
{
    if n < 10 {
        crate::text::char_from_ascii((n + 48) as u32)
    } else {
        crate::text::char_from_ascii((n + 87) as u32)
    }
}

/// The lowercase hexadecimal text of bytes.
pub fn hex_string(b: &[u8]) -> (r: String)
    ensures
        r@ == hex_text(b@),
{
    let mut out: Vec<char> = Vec::new();
    let mut i: usize = 0;
    while i < b.len()
        invariant
            i <= b@.len(),
            out@ == hex_text(b@.subrange(0, i as int)),
        decreases b@.len() - i,
    {
        let x = b[i];
        out.push(hex_digit_exec(x / 16));
        out.push(hex_digit_exec(x % 16));
        let ghost cur = b@.subrange(0, i + 1);
        assert(cur.drop_last() =~= b@.subrange(0, i as int));
        i = i + 1;
    }
    assert(b@.subrange(0, i as int) =~= b@);
    string_of(&out)
}

/// The checksum of a file's contents: the hexadecimal text of their MD5
/// digest.
pub fn file_md5(data: &[u8]) -> (r: String)
    ensures
        r@ == hex_text(md5_of(data@)),
{
    let digest = md5_digest(data);
    hex_string(&digest)
}

/// Whether a module's file has the checksum the configuration gives.
pub fn check_module_sum(module: &BlocklessModule, data: &[u8]) -> (r: bool)
    ensures
        r == (hex_text(md5_of(data@)) == module.md5@),
{
    let sum = file_md5(data);
    str_eq(sum.as_str(), module.md5.as_str())
}

} // verus!
