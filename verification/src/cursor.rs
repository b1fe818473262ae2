//! A read position over a byte buffer, with the big-endian readers that the
//! sign-server reply is parsed with.  Every reader fails with
//! "truncated data" when the buffer ends too early.
use vstd::prelude::*;

use crate::packet::be16;
use crate::text::{from_utf8_lossy, utf8_lossy};

verus! {

/// A position in a byte buffer.
pub struct ByteCursor<'a> {
    pub data: &'a [u8],
    pub pos: usize,
}

/// The big-endian value of four bytes.
pub open spec fn be32(a: u8, b: u8, c: u8, d: u8) -> u32 {
    (a as int * 0x100_0000 + b as int * 0x1_0000 + c as int * 0x100 + d as int) as u32
}

/// The byte at `p` and the position after it.
pub open spec fn rd_u8(d: Seq<u8>, p: int) -> Option<(u8, int)> {
    if 0 <= p < d.len() {
        Some((d[p], p + 1))
    } else {
        None
    }
}

/// The big-endian `u16` at `p` and the position after it.
pub open spec fn rd_u16(d: Seq<u8>, p: int) -> Option<(u16, int)> {
    if 0 <= p && p + 2 <= d.len() {
        Some((be16(d[p], d[p + 1]), p + 2))
    } else {
        None
    }
}

/// The big-endian `u32` at `p` and the position after it.
pub open spec fn rd_u32(d: Seq<u8>, p: int) -> Option<(u32, int)> {
    if 0 <= p && p + 4 <= d.len() {
        Some((be32(d[p], d[p + 1], d[p + 2], d[p + 3]), p + 4))
    } else {
        None
    }
}

/// The `n` bytes at `p` and the position after them.
pub open spec fn rd_bytes(d: Seq<u8>, p: int, n: int) -> Option<(Seq<u8>, int)> {
    if 0 <= p && 0 <= n && p + n <= d.len() {
        Some((d.subrange(p, p + n), p + n))
    } else {
        None
    }
}

/// A length-prefixed string at `p`: a length byte (0 for the empty
/// string), the text of length minus one bytes and a terminating byte.
pub open spec fn rd_pascal(d: Seq<u8>, p: int) -> Option<(Seq<char>, int)> {
    match rd_u8(d, p) {
        None => None,
        Some((slen, p1)) => if slen == 0 {
            Some((Seq::empty(), p1))
        } else {
            match rd_bytes(d, p1, slen - 1) {
                None => None,
                Some((b, p2)) => match rd_u8(d, p2) {
                    None => None,
                    Some((_, p3)) => Some((utf8_lossy(b), p3)),
                },
            }
        },
    }
}

/// Index of the first zero byte of `b`, or its length when there is none.
pub open spec fn first_zero(b: Seq<u8>) -> int
    decreases b.len(),
{
    if b.len() == 0 {
        0
    } else if b[0] == 0 {
        0
    } else {
        1 + first_zero(b.drop_first())
    }
}

/// A zero-padded string of `width` bytes at `p`: the text before the first
/// zero byte.
pub open spec fn rd_padded(d: Seq<u8>, p: int, width: int) -> Option<(Seq<char>, int)> {
    match rd_bytes(d, p, width) {
        None => None,
        Some((b, p1)) => Some((utf8_lossy(b.take(first_zero(b))), p1)),
    }
}

/// The message of every reader that runs out of data.
pub open spec fn truncated_message() -> Seq<char> {
    "truncated data"@
}

proof fn lemma_first_zero(b: Seq<u8>)
    ensures
        0 <= first_zero(b) <= b.len(),
        forall|j: int| 0 <= j < first_zero(b) ==> b[j] != 0,
        first_zero(b) < b.len() ==> b[first_zero(b)] == 0,
    decreases b.len(),
{
    if b.len() > 0 && b[0] != 0 {
        lemma_first_zero(b.drop_first());
        assert forall|j: int| 0 <= j < first_zero(b) implies b[j] != 0 by {
            if j > 0 {
                assert(b[j] == b.drop_first()[j - 1]);
            }
        }
    }
}

impl<'a> ByteCursor<'a> {
    /// A cursor at the start of `data`.
    pub fn new(data: &'a [u8]) -> (c: Self)
        ensures
            c.data@ == data@,
            c.pos == 0,
    {
        ByteCursor { data, pos: 0 }
    }

    /// Reads one byte.
    pub fn read_u8(&mut self) -> (r: Result<u8, String>)
        ensures
            final(self).data@ == old(self).data@,
            match rd_u8(old(self).data@, old(self).pos as int) {
                Some((v, p)) => r == Ok::<u8, String>(v) && final(self).pos == p,
                None => r matches Err(e) && e@ == truncated_message(),
            },
    {
        if self.pos < self.data.len() {
            let v = self.data[self.pos];
            self.pos = self.pos + 1;
            Ok(v)
        } else {
            Err("truncated data".to_string())
        }
    }

    /// Reads a big-endian `u16`.
    pub fn read_u16_be(&mut self) -> (r: Result<u16, String>)
        ensures
            final(self).data@ == old(self).data@,
            match rd_u16(old(self).data@, old(self).pos as int) {
                Some((v, p)) => r == Ok::<u16, String>(v) && final(self).pos == p,
                None => r matches Err(e) && e@ == truncated_message(),
            },
    {
        if self.pos < self.data.len() && self.data.len() - self.pos >= 2 {
            let hi = self.data[self.pos];
            let lo = self.data[self.pos + 1];
            self.pos = self.pos + 2;
            let v = ((hi as u16) << 8) | (lo as u16);
            assert(v == (hi as int * 256 + lo as int) as u16) by (bit_vector)
                requires
                    v == ((hi as u16) << 8u16) | (lo as u16),
            ;
            Ok(v)
        } else {
            Err("truncated data".to_string())
        }
    }

    /// Reads a big-endian `u32`.
    pub fn read_u32_be(&mut self) -> (r: Result<u32, String>)
        ensures
            final(self).data@ == old(self).data@,
            match rd_u32(old(self).data@, old(self).pos as int) {
                Some((v, p)) => r == Ok::<u32, String>(v) && final(self).pos == p,
                None => r matches Err(e) && e@ == truncated_message(),
            },
    {
        if self.pos < self.data.len() && self.data.len() - self.pos >= 4 {
            let a = self.data[self.pos];
            let b = self.data[self.pos + 1];
            let c = self.data[self.pos + 2];
            let d = self.data[self.pos + 3];
            self.pos = self.pos + 4;
            let v = ((a as u32) << 24) | ((b as u32) << 16) | ((c as u32) << 8) | (d as u32);
            assert(v == (a as int * 0x100_0000 + b as int * 0x1_0000 + c as int * 0x100
                + d as int) as u32) by (bit_vector)
                requires
                    v == ((a as u32) << 24u32) | ((b as u32) << 16u32) | ((c as u32) << 8u32) | (
                    d as u32),
            ;
            Ok(v)
        } else {
            Err("truncated data".to_string())
        }
    }

    /// Reads `n` bytes.
    pub fn read_bytes(&mut self, n: usize) -> (r: Result<Vec<u8>, String>)
        ensures
            final(self).data@ == old(self).data@,
            match rd_bytes(old(self).data@, old(self).pos as int, n as int) {
                Some((v, p)) => r matches Ok(b) && b@ == v && final(self).pos == p,
                None => r matches Err(e) && e@ == truncated_message(),
            },
    {
        if self.pos <= self.data.len() && self.data.len() - self.pos >= n {
            let mut out: Vec<u8> = Vec::new();
            let start = self.pos;
            let mut i: usize = 0;
            while i < n
                invariant
                    start + n <= self.data@.len(),
                    self.data@.len() <= usize::MAX,
                    i <= n,
                    out@ =~= self.data@.subrange(start as int, start + i),
                decreases n - i,
            {
                out.push(self.data[start + i]);
                i = i + 1;
            }
            self.pos = start + n;
            Ok(out)
        } else {
            Err("truncated data".to_string())
        }
    }

    /// Skips `n` bytes.
    pub fn skip_bytes(&mut self, n: usize) -> (r: Result<(), String>)
        ensures
            final(self).data@ == old(self).data@,
            match rd_bytes(old(self).data@, old(self).pos as int, n as int) {
                Some((_, p)) => r is Ok && final(self).pos == p,
                None => r matches Err(e) && e@ == truncated_message(),
            },
    {
        if self.pos <= self.data.len() && self.data.len() - self.pos >= n {
            self.pos = self.pos + n;
            Ok(())
        } else {
            Err("truncated data".to_string())
        }
    }

    /// Reads a length-prefixed string.
    pub fn read_pascal_string(&mut self) -> (r: Result<String, String>)
        ensures
            final(self).data@ == old(self).data@,
            match rd_pascal(old(self).data@, old(self).pos as int) {
                Some((v, p)) => r matches Ok(s) && s@ == v && final(self).pos == p,
                None => r matches Err(e) && e@ == truncated_message(),
            },
    {
        let slen = self.read_u8()?;
        if slen == 0 {
            return Ok(String::new());
        }
        let bytes = self.read_bytes((slen as usize) - 1)?;
        let _terminator = self.read_u8()?;
        Ok(from_utf8_lossy(bytes.as_slice()))
    }

    /// Skips a length-prefixed string, which must be there in full.
    pub fn skip_pascal_string(&mut self)
        requires
            rd_pascal(old(self).data@, old(self).pos as int) is Some,
        ensures
            final(self).data@ == old(self).data@,
            final(self).pos == rd_pascal(old(self).data@, old(self).pos as int).unwrap().1,
    {
        let _ = self.read_pascal_string();
    }

    /// Reads a zero-padded string of `width` bytes.
    pub fn read_padded_string(&mut self, width: usize) -> (r: Result<String, String>)
        ensures
            final(self).data@ == old(self).data@,
            match rd_padded(old(self).data@, old(self).pos as int, width as int) {
                Some((v, p)) => r matches Ok(s) && s@ == v && final(self).pos == p,
                None => r matches Err(e) && e@ == truncated_message(),
            },
    {
        let bytes = self.read_bytes(width)?;
        let mut len: usize = 0;
        while len < bytes.len() && bytes[len] != 0
            invariant
                len <= bytes@.len(),
                forall|j: int| 0 <= j < len ==> bytes@[j] != 0,
            decreases bytes@.len() - len,
        {
            len = len + 1;
        }
        proof {
            lemma_first_zero(bytes@);
            let f = first_zero(bytes@);
            if (len as int) < f {
                assert(bytes@[len as int] != 0);
            } else if f < len {
                assert(bytes@[f] != 0);
            }
        }
        let raw = slice_prefix(bytes.as_slice(), len);
        Ok(from_utf8_lossy(raw.as_slice()))
    }
}

/// The first `n` bytes of `b`.
pub fn slice_prefix(b: &[u8], n: usize) -> (r: Vec<u8>)
    requires
        n <= b@.len(),
    ensures
        r@ == b@.take(n as int),
{
    let mut out: Vec<u8> = Vec::new();
    let mut i: usize = 0;
    while i < n
        invariant
            n <= b@.len(),
            i <= n,
            out@ =~= b@.take(i as int),
        decreases n - i,
    {
        out.push(b[i]);
        i = i + 1;
    }
    out
}

} // verus!
