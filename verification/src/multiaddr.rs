use vstd::prelude::*;
use crate::text::{ascii_chars, ascii_string};

verus! {

/// The path separator of an address.
pub const SLASH: u8 = 0x2f;

/// Whether a byte may appear in an address: printable ASCII
/// other than space, `<` and `>`.
pub open spec fn spec_is_addr_token(b: u8) -> bool {
    0x21 <= b <= 0x7e && b != 0x3c && b != 0x3e
}

/// Whether every byte of `s` may appear in an address.
pub open spec fn all_tokens(s: Seq<u8>) -> bool {
    forall|i: int| 0 <= i < s.len() ==> spec_is_addr_token(#[trigger] s[i])
}

/// The `[begin, end)` ranges of the maximal runs of non-slash bytes of `s`, in order.
pub open spec fn path_ranges(s: Seq<u8>) -> Seq<(int, int)>
    decreases s.len(),
{
    if s.len() == 0 {
        seq![]
    } else {
        let prev = path_ranges(s.drop_last());
        let i = s.len() - 1;
        if s[i] == SLASH {
            prev
        } else if i == 0 || s[i - 1] == SLASH {
            prev.push((i, i + 1))
        } else {
            prev.update(prev.len() - 1, (prev.last().0, i + 1))
        }
    }
}

/// The byte values of the runs of non-slash bytes of `s`, in order.
pub open spec fn path_values(s: Seq<u8>) -> Seq<Seq<u8>> {
    path_ranges(s).map_values(|r: (int, int)| s.subrange(r.0, r.1))
}

/// Whether `b` may appear in an address.
pub fn is_addr_token(b: u8) -> (r: bool)
    ensures
        r == spec_is_addr_token(b),
{
    0x21 <= b && b <= 0x7e && b != 0x3c && b != 0x3e
}

/// The scanning state of the address parser.
pub enum Status {
    /// Not inside a path segment.
    Idle,
    /// Inside a path segment that started at the given offset.
    IndicatorBegin(usize),
}

impl Status {
    pub fn is_none(&self) -> (r: bool)
        ensures
            r == (*self is Idle),
    {
        match self {
            Status::Idle => true,
            _ => false,
        }
    }
}

/// Errors of address parsing.
#[derive(Debug, Clone, Copy, PartialEq, Eq, Structural)]
pub enum MultiAddrError {
    /// A byte that may not appear in an address.
    InvalidToken,
    /// The address has no path, so it has no schema.
    NoSchema,
}

/// One path segment of an address: the bytes `address[begin..end]`.
pub struct Indicator {
    pub begin: usize,
    pub end: usize,
    pub value: Vec<u8>,
}

impl Indicator {
    pub fn new(address: &[u8], begin: usize, end: usize) -> (r: Indicator)
        requires
            begin <= end <= address@.len(),
        ensures
            r.begin == begin,
            r.end == end,
            r.value@ == address@.subrange(begin as int, end as int),
    {
        let mut value: Vec<u8> = Vec::new();
        let mut i = begin;
        while i < end
            invariant
                begin <= i <= end <= address@.len(),
                value@ == address@.subrange(begin as int, i as int),
            decreases end - i,
        {
            value.push(address[i]);
            i = i + 1;
            assert(value@ =~= address@.subrange(begin as int, i as int));
        }
        Indicator { begin, end, value }
    }

    /// The bytes of the segment.
    pub fn value(&self) -> (r: &[u8])
        ensures
            r@ == self.value@,
    {
        self.value.as_slice()
    }

    /// The segment as text; every byte of a parsed segment is ASCII.
    pub fn value_to_str(&self) -> (r: String)
        ensures
            r@ == ascii_chars(self.value@),
    {
        ascii_string(&self.value)
    }
}

/// A parsed address: its path segments, in order.
pub struct MultiAddr {
    pub paths: Vec<Indicator>,
}

impl MultiAddr {
    /// The `[begin, end)` ranges of the segments.
    pub open spec fn ranges(&self) -> Seq<(int, int)> {
        self.paths@.map_values(|p: Indicator| (p.begin as int, p.end as int))
    }

    /// The byte values of the segments.
    pub open spec fn values(&self) -> Seq<Seq<u8>> {
        self.paths@.map_values(|p: Indicator| p.value@)
    }

    /// Whether this is what parsing `s` gives back.
    pub open spec fn parsed_from(&self, s: Seq<u8>) -> bool {
        &&& self.ranges() == path_ranges(s)
        &&& self.values() == path_values(s)
    }

    pub fn parse(address: &[u8]) -> (r: Result<MultiAddr, MultiAddrError>)
        ensures
            all_tokens(address@) <==> r is Ok,
            r matches Ok(a) ==> a.parsed_from(address@),
            r matches Err(e) ==> e == MultiAddrError::InvalidToken,
    {
        parse(address)
    }

    pub fn paths_ref(&self) -> (r: &Vec<Indicator>)
        ensures
            r == &self.paths,
    {
        &self.paths
    }

    /// The schema of the address: the text of its first segment.
    pub fn schema(&self) -> (r: Result<String, MultiAddrError>)
        ensures
            self.paths@.len() == 0 <==> r is Err,
            r matches Ok(s) ==> s@ == ascii_chars(self.paths@[0].value@),
            r matches Err(e) ==> e == MultiAddrError::NoSchema,
    {
        if self.paths.len() == 0 {
            Err(MultiAddrError::NoSchema)
        } else {
            Ok(self.paths[0].value_to_str())
        }
    }
}

/// Splits an address into its path segments, the runs of bytes between slashes.
pub fn parse(address: &[u8]) -> (r: Result<MultiAddr, MultiAddrError>)
    ensures
        all_tokens(address@) <==> r is Ok,
        r matches Ok(a) ==> a.parsed_from(address@),
        r matches Err(e) ==> e == MultiAddrError::InvalidToken,
{
    let n = address.len();
    let mut paths: Vec<Indicator> = Vec::new();
    let mut token = Status::Idle;
    let mut i: usize = 0;
    while i < n
        invariant
            n == address@.len(),
            i <= n,
            all_tokens(address@.subrange(0, i as int)),
            forall|k: int| 0 <= k < paths@.len() ==> (#[trigger] paths@[k]).value@ == address@.subrange(
                paths@[k].begin as int,
                paths@[k].end as int,
            ),
            match token {
                Status::Idle => {
                    &&& (i == 0 || address@[i - 1] == SLASH)
                    &&& path_ranges(address@.subrange(0, i as int)) == paths@.map_values(
                        |p: Indicator| (p.begin as int, p.end as int),
                    )
                },
                Status::IndicatorBegin(b) => {
                    &&& b < i
                    &&& address@[i - 1] != SLASH
                    &&& path_ranges(address@.subrange(0, i as int)) == paths@.map_values(
                        |p: Indicator| (p.begin as int, p.end as int),
                    ).push((b as int, i as int))
                },
            },
        decreases n - i,
    {
        let c = address[i];
        let ghost pre = address@.subrange(0, i as int);
        let ghost cur = address@.subrange(0, i + 1);
        assert(cur.drop_last() =~= pre);
        if !is_addr_token(c) {
            assert(!all_tokens(address@)) by {
                assert(!spec_is_addr_token(address@[i as int]));
            }
            return Err(MultiAddrError::InvalidToken);
        }
        assert(all_tokens(cur)) by {
            assert forall|k: int| 0 <= k < cur.len() implies spec_is_addr_token(#[trigger] cur[k]) by {
                if k < i {
                    assert(cur[k] == pre[k]);
                }
            }
        }
        match token {
            Status::Idle => {
                if c != SLASH {
                    token = Status::IndicatorBegin(i);
                }
            },
            Status::IndicatorBegin(b) => {
                if c == SLASH {
                    let ghost old_paths = paths@;
                    let ind = Indicator::new(address, b, i);
                    paths.push(ind);
                    assert(paths@.map_values(|p: Indicator| (p.begin as int, p.end as int))
                        =~= old_paths.map_values(|p: Indicator| (p.begin as int, p.end as int)).push(
                        (b as int, i as int),
                    ));
                    token = Status::Idle;
                }
            },
        }
        i = i + 1;
    }
    let ghost whole = address@.subrange(0, n as int);
    assert(whole =~= address@);
    if let Status::IndicatorBegin(b) = token {
        let ghost old_paths = paths@;
        let ind = Indicator::new(address, b, n);
        paths.push(ind);
        assert(paths@.map_values(|p: Indicator| (p.begin as int, p.end as int)) =~= old_paths.map_values(
            |p: Indicator| (p.begin as int, p.end as int),
        ).push((b as int, n as int)));
    }
    let a = MultiAddr { paths };
    proof {
        let rs = path_ranges(address@);
        assert(a.ranges() == rs);
        assert(a.values() =~= path_values(address@)) by {
            assert forall|k: int| 0 <= k < a.values().len() implies a.values()[k] == path_values(
                address@,
            )[k] by {
                assert(a.values()[k] == a.paths@[k].value@);
                assert(a.ranges()[k] == (a.paths@[k].begin as int, a.paths@[k].end as int));
            }
        }
    }
    Ok(a)
}

} // verus!
