use vstd::prelude::*;
use vstd::utf8::encode_utf8;
use crate::drivers::error::S3ErrorKind;
use crate::text::{chars_of, string_of};

verus! {

/// Copies the bytes of a text to the front of `buf` and returns how many
/// there are; an empty buffer is an invalid parameter.
pub fn read(buf: &mut [u8], string: &str) -> (r: Result<u32, S3ErrorKind>)
    requires
        old(buf)@.len() == 0 || encode_utf8(string@).len() <= old(buf)@.len(),
        encode_utf8(string@).len() <= u32::MAX,
    ensures
        old(buf)@.len() == 0 ==> r == Err::<u32, S3ErrorKind>(S3ErrorKind::InvalidParameter) && final(buf)@ == old(buf)@,
        old(buf)@.len() > 0 ==> {
            let b = encode_utf8(string@);
            &&& r == Ok::<u32, S3ErrorKind>(b.len() as u32)
            &&& final(buf)@ == b + old(buf)@.subrange(b.len() as int, old(buf)@.len() as int)
        },
{
    let bytes = string.as_bytes();
    if buf.len() == 0 {
        return Err(S3ErrorKind::InvalidParameter);
    }
    let ghost before = buf@;
    let mut n: usize = 0;
    while n < bytes.len()
        invariant
            bytes@ == encode_utf8(string@),
            bytes@.len() <= buf@.len(),
            buf@.len() == before.len(),
            n <= bytes@.len(),
            forall|k: int| 0 <= k < n ==> buf@[k] == bytes@[k],
            forall|k: int| n <= k < buf@.len() ==> buf@[k] == before[k],
        decreases bytes@.len() - n,
    {
        buf[n] = bytes[n];
        n = n + 1;
    }
    assert(buf@ =~= bytes@ + before.subrange(bytes@.len() as int, before.len() as int));
    Ok(bytes.len() as u32)
}

/// The pieces of a text between the separator `sep`, in order; a text
/// without it is one piece.
pub open spec fn split_on(s: Seq<char>, sep: char) -> Seq<Seq<char>>
    decreases s.len(),
{
    if s.len() == 0 {
        seq![seq![]]
    } else {
        let prev = split_on(s.drop_last(), sep);
        if s.last() == sep {
            prev.push(seq![])
        } else {
            prev.update(prev.len() - 1, prev.last().push(s.last()))
        }
    }
}

proof fn lemma_split_nonempty(s: Seq<char>, sep: char)
    ensures
        split_on(s, sep).len() >= 1,
    decreases s.len(),
{
    if s.len() > 0 {
        lemma_split_nonempty(s.drop_last(), sep);
    }
}

/// The names listed in the value of the variable that lists the guest's
/// environment variables: the pieces between `;`.
pub fn env_var_names(list: &str) -> (r: Vec<String>)
    ensures
        r@.map_values(|s: String| s@) == split_on(list@, ';'),
{
    let v = chars_of(list);
    let mut pieces: Vec<Vec<char>> = Vec::new();
    pieces.push(Vec::new());
    let mut i: usize = 0;
    assert(pieces@.map_values(|p: Vec<char>| p@) =~= split_on(v@.subrange(0, 0), ';'));
    while i < v.len()
        invariant
            v@ == list@,
            i <= v@.len(),
            pieces@.len() >= 1,
            pieces@.map_values(|p: Vec<char>| p@) == split_on(v@.subrange(0, i as int), ';'),
        decreases v@.len() - i,
    {
        let ghost cur = v@.subrange(0, i + 1);
        assert(cur.drop_last() =~= v@.subrange(0, i as int));
        let ghost before = pieces@.map_values(|p: Vec<char>| p@);
        if v[i] == ';' {
            pieces.push(Vec::new());
            assert(pieces@.map_values(|p: Vec<char>| p@) =~= before.push(seq![]));
        } else {
            let mut piece = pieces.pop().unwrap();
            piece.push(v[i]);
            pieces.push(piece);
            assert(pieces@.map_values(|p: Vec<char>| p@) =~= before.update(before.len() - 1, before.last().push(v@[i as int])));
        }
        i = i + 1;
    }
    assert(v@.subrange(0, i as int) =~= v@);
    let mut out: Vec<String> = Vec::new();
    let mut j: usize = 0;
    while j < pieces.len()
        invariant
            j <= pieces@.len(),
            out@.map_values(|s: String| s@) == pieces@.subrange(0, j as int).map_values(|p: Vec<char>| p@),
        decreases pieces@.len() - j,
    {
        let s = string_of(&pieces[j]);
        let ghost before = out@;
        out.push(s);
        assert(out@.map_values(|s: String| s@) =~= before.map_values(|s: String| s@).push(pieces@[j as int]@));
        assert(pieces@.subrange(0, j + 1).map_values(|p: Vec<char>| p@) =~= pieces@.subrange(0, j as int).map_values(|p: Vec<char>| p@).push(pieces@[j as int]@));
        j = j + 1;
    }
    assert(pieces@.subrange(0, j as int) =~= pieces@);
    out
}

/// One member of the environment text: the name and value in quotes,
/// separated by `: `.
pub open spec fn env_member(name: Seq<char>, value: Seq<char>) -> Seq<char> {
    seq!['"'] + name + seq!['"', ':', ' ', '"'] + value + seq!['"']
}

/// The members of the environment text, each followed by `,`.
pub open spec fn env_members(pairs: Seq<(Seq<char>, Seq<char>)>) -> Seq<char>
    decreases pairs.len(),
{
    if pairs.len() == 0 {
        seq![]
    } else {
        env_members(pairs.drop_last()) + env_member(pairs.last().0, pairs.last().1) + seq![',']
    }
}

/// The environment text handed to the guest: `{`, the members separated by
/// `,`, `}`; the last `,` (or, with no member, the `{`) is dropped.
pub open spec fn env_object(pairs: Seq<(Seq<char>, Seq<char>)>) -> Seq<char> {
    (seq!['{'] + env_members(pairs)).drop_last() + seq!['}']
}

/// Appends the characters of a text.
fn push_str(out: &mut Vec<char>, s: &str)
    ensures
        final(out)@ == old(out)@ + s@,
{
    let v = chars_of(s);
    let mut i: usize = 0;
    while i < v.len()
        invariant
            i <= v@.len(),
            v@ == s@,
            out@ == old(out)@ + v@.subrange(0, i as int),
        decreases v@.len() - i,
    {
        out.push(v[i]);
        i = i + 1;
        assert(out@ =~= old(out)@ + v@.subrange(0, i as int));
    }
    assert(v@.subrange(0, i as int) =~= s@);
}

/// The environment text handed to the guest, from the listed names and
/// their values.
pub fn env_var_object(pairs: &Vec<(String, String)>) -> (r: String)
    ensures
        r@ == env_object(pairs@.map_values(|p: (String, String)| (p.0@, p.1@))),
{
    let ghost all = pairs@.map_values(|p: (String, String)| (p.0@, p.1@));
    let mut out: Vec<char> = Vec::new();
    out.push('{');
    let mut i: usize = 0;
    assert(out@ =~= seq!['{'] + env_members(all.subrange(0, 0)));
    while i < pairs.len()
        invariant
            i <= pairs@.len(),
            all == pairs@.map_values(|p: (String, String)| (p.0@, p.1@)),
            out@ == seq!['{'] + env_members(all.subrange(0, i as int)),
        decreases pairs@.len() - i,
    {
        let ghost before = out@;
        out.push('"');
        push_str(&mut out, pairs[i].0.as_str());
        out.push('"');
        out.push(':');
        out.push(' ');
        out.push('"');
        push_str(&mut out, pairs[i].1.as_str());
        out.push('"');
        out.push(',');
        let ghost cur = all.subrange(0, i + 1);
        assert(cur.drop_last() =~= all.subrange(0, i as int));
        assert(cur.last() == (pairs@[i as int].0@, pairs@[i as int].1@));
        assert(out@ =~= before + env_member(pairs@[i as int].0@, pairs@[i as int].1@) + seq![',']);
        i = i + 1;
    }
    assert(all.subrange(0, i as int) =~= all);
    out.pop();
    out.push('}');
    string_of(&out)
}

} // verus!
