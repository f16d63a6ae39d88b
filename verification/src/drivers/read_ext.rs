use vstd::prelude::*;

verus! {

/// How many bytes are left to read of `source` from `point`.
pub open spec fn remaining(source: Option<Seq<u8>>, point: int) -> int {
    match source {
        Some(b) => b.len() - point,
        None => 0,
    }
}

/// The buffer `buf` with its first bytes replaced by `part`.
pub open spec fn overwrite_prefix(buf: Seq<u8>, part: Seq<u8>) -> Seq<u8> {
    part + buf.subrange(part.len() as int, buf.len() as int)
}

/// Something read in pieces: a sequence of bytes, if there is one, and how
/// much of it has been read.
pub trait ReadRemain {
    /// The bytes read from, if any.
    spec fn source(&self) -> Option<Seq<u8>>;

    /// How many bytes have been read.
    spec fn point(&self) -> usize;

    fn as_bytes_ref(&self) -> (r: Option<&[u8]>)
        ensures
            match r {
                Some(b) => self.source() == Some(b@),
                None => self.source() is None,
            },
    ;

    fn read_point(&self) -> (r: usize)
        ensures
            r == self.point(),
    ;

    fn set_read_point(&mut self, point: usize)
        ensures
            final(self).point() == point,
            final(self).source() == old(self).source(),
    ;

    /// How many bytes are left to read.
    fn remain(&self) -> (r: usize)
        requires
            self.source() matches Some(b) ==> self.point() <= b.len(),
        ensures
            r == remaining(self.source(), self.point() as int),
    {
        match self.as_bytes_ref() {
            Some(b) => b.len() - self.read_point(),
            None => 0,
        }
    }

    /// Copies as many of the bytes left as fit into `buf`, and moves past
    /// them; returns how many were copied.
    fn copy_remain(&mut self, buf: &mut [u8]) -> (r: usize)
        requires
            old(self).source() matches Some(b) ==> old(self).point() <= b.len(),
        ensures
            r == if remaining(old(self).source(), old(self).point() as int) <= old(buf)@.len() {
                remaining(old(self).source(), old(self).point() as int)
            } else {
                old(buf)@.len() as int
            },
            final(self).source() == old(self).source(),
            final(self).point() == old(self).point() + r,
            r > 0 ==> final(buf)@ == overwrite_prefix(
                old(buf)@,
                old(self).source()->0.subrange(old(self).point() as int, old(self).point() + r),
            ),
            r == 0 ==> final(buf)@ == old(buf)@,
    {
        let remain = self.remain();
        if remain == 0 {
            return 0;
        }
        let size = if remain <= buf.len() {
            remain
        } else {
            buf.len()
        };
        let read_p = self.read_point();
        let copied = match self.as_bytes_ref() {
            Some(body) => {
                let blen = body.len();
                assert(read_p + size <= blen);
                let ghost before = buf@;
                let mut i: usize = 0;
                while i < size
                    invariant
                        i <= size,
                        size <= buf@.len(),
                        read_p + size <= blen,
                        blen == body@.len(),
                        buf@.len() == before.len(),
                        forall|k: int| 0 <= k < i ==> buf@[k] == body@[read_p + k],
                        forall|k: int| i <= k < buf@.len() ==> buf@[k] == before[k],
                    decreases size - i,
                {
                    assert(read_p + i < body@.len());
                    buf[i] = body[read_p + i];
                    i = i + 1;
                }
                assert(buf@ =~= overwrite_prefix(before, body@.subrange(read_p as int, read_p + size)));
                size
            },
            None => 0,
        };
        if copied > 0 {
            assert(copied == size);
            assert(read_p + copied <= remaining(self.source(), 0));
            self.set_read_point(read_p + copied);
        }
        copied
    }
}

} // verus!
