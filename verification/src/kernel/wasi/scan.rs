//! Byte scanning for module admission: substring search and a little-endian base-128 reader.
use vstd::prelude::*;

verus! {

/// Whether `n` occurs in `h` at index `i`.
pub open spec fn bytes_at(h: Seq<u8>, n: Seq<u8>, i: int) -> bool {
    0 <= i && i + n.len() <= h.len() && h.subrange(i, i + n.len()) == n
}

/// The first index at or after `start` where `n` occurs in `h`.
pub open spec fn find_bytes_from(h: Seq<u8>, n: Seq<u8>, start: int) -> Option<int>
    decreases h.len() + 1 - start,
{
    if start < 0 || start + n.len() > h.len() {
        None
    } else if bytes_at(h, n, start) {
        Some(start)
    } else {
        find_bytes_from(h, n, start + 1)
    }
}

/// The first index where `n` occurs in `h`; an empty needle occurs at 0.
pub open spec fn spec_find_bytes(h: Seq<u8>, n: Seq<u8>) -> Option<int> {
    find_bytes_from(h, n, 0)
}

pub open spec fn contains_bytes(h: Seq<u8>, n: Seq<u8>) -> bool {
    spec_find_bytes(h, n) is Some
}

pub proof fn lemma_find_bytes_from(h: Seq<u8>, n: Seq<u8>, start: int)
    requires
        0 <= start,
    ensures
        find_bytes_from(h, n, start) is Some ==> bytes_at(h, n, find_bytes_from(h, n, start)->Some_0)
            && start <= find_bytes_from(h, n, start)->Some_0,
    decreases h.len() + 1 - start,
{
    if start + n.len() <= h.len() && !bytes_at(h, n, start) {
        lemma_find_bytes_from(h, n, start + 1);
    }
}

fn bytes_match_at(h: &[u8], n: &[u8], at: usize) -> (out: bool)
    requires
        at + n@.len() <= h@.len(),
    ensures
        out == bytes_at(h@, n@, at as int),
{
    let hl = h.len();
    let mut k: usize = 0;
    while k < n.len()
        invariant
            hl == h@.len(),
            at + n@.len() <= h@.len(),
            k <= n@.len(),
            forall|j: int| 0 <= j < k ==> h@[at + j] == n@[j],
        decreases n@.len() - k,
    {
        assert(at + k < hl);
        if h[at + k] != n[k] {
            assert(h@.subrange(at as int, at + n@.len())[k as int] != n@[k as int]);
            return false;
        }
        k = k + 1;
    }
    assert(h@.subrange(at as int, at + n@.len()) =~= n@);
    true
}

/// Whether two byte strings are equal.
pub fn bytes_equal(a: &[u8], b: &[u8]) -> (out: bool)
    ensures
        out == (a@ == b@),
{
    if a.len() != b.len() {
        return false;
    }
    let r = bytes_match_at(a, b, 0);
    assert(a@.subrange(0, b@.len() as int) =~= a@);
    r
}

/// The first index where `needle` occurs in `haystack`.
pub fn find_bytes(haystack: &[u8], needle: &[u8]) -> (out: Option<usize>)
    ensures
        match out {
            Some(i) => spec_find_bytes(haystack@, needle@) == Some(i as int),
            None => spec_find_bytes(haystack@, needle@) is None,
        },
{
    if needle.len() > haystack.len() {
        return None;
    }
    let last = haystack.len() - needle.len();
    let mut idx: usize = 0;
    loop
        invariant
            last == haystack@.len() - needle@.len(),
            idx <= last,
            spec_find_bytes(haystack@, needle@) == find_bytes_from(haystack@, needle@, idx as int),
        decreases last - idx,
    {
        if bytes_match_at(haystack, needle, idx) {
            return Some(idx);
        }
        if idx == last {
            return None;
        }
        idx = idx + 1;
    }
}

/// The result of one base-128 little-endian step reading `b` at `pos` into `acc` at bit `shift`.
pub open spec fn spec_var_u32(b: Seq<u8>, pos: int, shift: u32, acc: u32) -> Result<(u32, int), ScanError>
    decreases 42 - shift,
{
    if shift >= 35 {
        Err(ScanError::Overlong)
    } else if pos < 0 || pos >= b.len() {
        Err(ScanError::Truncated)
    } else {
        let byte = b[pos];
        let acc2 = acc | (((byte & 0x7f) as u32) << shift);
        if byte & 0x80 == 0 {
            Ok((acc2, pos + 1))
        } else {
            spec_var_u32(b, pos + 1, (shift + 7) as u32, acc2)
        }
    }
}

pub proof fn lemma_var_u32_advances(b: Seq<u8>, pos: int, shift: u32, acc: u32)
    ensures
        spec_var_u32(b, pos, shift, acc) is Ok ==> spec_var_u32(b, pos, shift, acc)->Ok_0.1 > pos
            && spec_var_u32(b, pos, shift, acc)->Ok_0.1 <= b.len(),
    decreases 42 - shift,
{
    if shift < 35 && 0 <= pos < b.len() && b[pos] & 0x80 != 0 {
        lemma_var_u32_advances(b, pos + 1, (shift + 7) as u32, acc | (((b[pos] & 0x7f) as u32) << shift));
    }
}

/// Why a scan of module bytes stopped.
#[derive(Clone, Copy, Debug, PartialEq, Eq, Structural)]
pub enum ScanError {
    Truncated,
    Overlong,
}

/// A cursor over module bytes.
pub struct WasmByteReader<'a> {
    pub bytes: &'a [u8],
    pub pos: usize,
}

impl<'a> WasmByteReader<'a> {
    pub fn new(bytes: &'a [u8]) -> (out: Self)
        ensures
            out.bytes@ == bytes@,
            out.pos == 0,
    {
        Self { bytes, pos: 0 }
    }

    pub fn is_empty(&self) -> (out: bool)
        ensures
            out == (self.pos == self.bytes@.len()),
    {
        self.pos == self.bytes.len()
    }

    pub fn read_u8(&mut self) -> (out: Result<u8, ScanError>)
        requires
            old(self).pos <= old(self).bytes@.len(),
        ensures
            final(self).bytes == old(self).bytes,
            final(self).pos <= final(self).bytes@.len(),
            old(self).pos < old(self).bytes@.len() ==> out == Ok::<u8, ScanError>(old(self).bytes@[old(self).pos as int])
                && final(self).pos == old(self).pos + 1,
            old(self).pos >= old(self).bytes@.len() ==> out == Err::<u8, ScanError>(ScanError::Truncated)
                && final(self).pos == old(self).pos,
    {
        if self.pos >= self.bytes.len() {
            return Err(ScanError::Truncated);
        }
        let byte = self.bytes[self.pos];
        self.pos = self.pos + 1;
        Ok(byte)
    }

    pub fn read_bytes(&mut self, len: usize) -> (out: Result<&'a [u8], ScanError>)
        requires
            old(self).pos <= old(self).bytes@.len(),
        ensures
            final(self).bytes == old(self).bytes,
            final(self).pos <= final(self).bytes@.len(),
            old(self).pos + len <= old(self).bytes@.len() ==> out is Ok
                && out->Ok_0@ == old(self).bytes@.subrange(old(self).pos as int, old(self).pos + len)
                && final(self).pos == old(self).pos + len,
            old(self).pos + len > old(self).bytes@.len() ==> out == Err::<&'a [u8], ScanError>(ScanError::Truncated)
                && final(self).pos == old(self).pos,
    {
        if len > self.bytes.len() - self.pos {
            return Err(ScanError::Truncated);
        }
        let end = self.pos + len;
        let slice = &self.bytes[self.pos..end];
        self.pos = end;
        Ok(slice)
    }

    pub fn read_var_u32(&mut self) -> (out: Result<u32, ScanError>)
        requires
            old(self).pos <= old(self).bytes@.len(),
        ensures
            final(self).bytes == old(self).bytes,
            final(self).pos <= final(self).bytes@.len(),
            match spec_var_u32(old(self).bytes@, old(self).pos as int, 0, 0) {
                Ok(p) => out == Ok::<u32, ScanError>(p.0) && final(self).pos == p.1,
                Err(e) => out == Err::<u32, ScanError>(e),
            },
    {
        let mut result: u32 = 0;
        let mut shift: u32 = 0;
        loop
            invariant
                self.bytes == old(self).bytes,
                self.pos <= self.bytes@.len(),
                shift % 7 == 0,
                shift <= 35,
                spec_var_u32(old(self).bytes@, old(self).pos as int, 0, 0)
                    == spec_var_u32(self.bytes@, self.pos as int, shift, result),
            decreases 35 - shift,
        {
            if shift >= 35 {
                return Err(ScanError::Overlong);
            }
            let byte = self.read_u8()?;
            result = result | (((byte & 0x7f) as u32) << shift);
            if byte & 0x80 == 0 {
                return Ok(result);
            }
            shift = shift + 7;
        }
    }
}

} // verus!
