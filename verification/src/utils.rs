//! Fixed-size, nul-terminated byte buffers as they appear in CLAP records.

use vstd::prelude::*;

verus! {

/// Whether no byte of `s` is a nul byte.
pub open spec fn is_nul_free(s: Seq<u8>) -> bool {
    forall|i: int| 0 <= i < s.len() ==> s[i] != 0u8
}

/// The index of the first nul byte of `s`, or its length if it holds none.
pub open spec fn first_nul(s: Seq<u8>) -> nat
    decreases s.len(),
{
    if s.len() == 0 {
        0
    } else if s[0] == 0u8 {
        0
    } else {
        1 + first_nul(s.drop_first())
    }
}

/// The data stored in a nul-terminated buffer: every byte before the first nul byte, or the
/// whole buffer if it holds no nul byte.
pub open spec fn stored_data(buf: Seq<u8>) -> Seq<u8> {
    buf.take(first_nul(buf) as int)
}

/// The number of bytes of `value` that a buffer of `n` bytes keeps, leaving room for the nul byte.
pub open spec fn kept_len(n: nat, value: Seq<u8>) -> int {
    if value.len() < n - 1 {
        value.len() as int
    } else {
        n - 1
    }
}

/// What a buffer of `old_buf.len()` bytes holds after `value` was written into it.
pub open spec fn written_buf(old_buf: Seq<u8>, value: Seq<u8>) -> Seq<u8> {
    let k = kept_len(old_buf.len(), value);
    value.take(k) + seq![0u8] + old_buf.skip(k + 1)
}

/// The index of the first nul byte is pinned down by the bytes before it and the byte at it.
pub proof fn lemma_first_nul_characterization(s: Seq<u8>, k: int)
    requires
        0 <= k <= s.len(),
        is_nul_free(s.take(k)),
        k < s.len() ==> s[k] == 0u8,
    ensures
        first_nul(s) == k,
    decreases s.len(),
{
    if s.len() == 0 {
    } else if s[0] == 0u8 {
        if k > 0 {
            assert(s.take(k)[0] == s[0]);
        }
    } else {
        assert(k > 0) by {
            if k == 0 {
                assert(s[k] == 0u8);
            }
        }
        let t = s.drop_first();
        assert forall|i: int| 0 <= i < t.take(k - 1).len() implies #[trigger] t.take(k - 1)[i] != 0u8 by {
            assert(t.take(k - 1)[i] == s.take(k)[i + 1]);
        }
        if k - 1 < t.len() {
            assert(t[k - 1] == s[k]);
        }
        lemma_first_nul_characterization(t, k - 1);
    }
}

/// The first nul index never passes the length, and all bytes before it are non-nul.
pub proof fn lemma_first_nul_bounds(s: Seq<u8>)
    ensures
        first_nul(s) <= s.len(),
        is_nul_free(s.take(first_nul(s) as int)),
        first_nul(s) < s.len() ==> s[first_nul(s) as int] == 0u8,
    decreases s.len(),
{
    if s.len() == 0 {
    } else if s[0] == 0u8 {
    } else {
        let t = s.drop_first();
        lemma_first_nul_bounds(t);
        let k = first_nul(s) as int;
        assert forall|i: int| 0 <= i < s.take(k).len() implies #[trigger] s.take(k)[i] != 0u8 by {
            if i > 0 {
                assert(s.take(k)[i] == t.take(k - 1)[i - 1]);
            }
        }
    }
}

/// Reading back a buffer that a nul-free value was written into gives the kept part of the value.
pub proof fn lemma_written_buf_stored_data(old_buf: Seq<u8>, value: Seq<u8>)
    requires
        old_buf.len() >= 1,
        is_nul_free(value),
    ensures
        stored_data(written_buf(old_buf, value)) == value.take(kept_len(old_buf.len(), value)),
        written_buf(old_buf, value).len() == old_buf.len(),
{
    let k = kept_len(old_buf.len(), value);
    let w = written_buf(old_buf, value);
    assert(w.take(k) =~= value.take(k));
    assert(w[k] == 0u8);
    lemma_first_nul_characterization(w, k);
}

/// Returns the data stored in a nul-terminated buffer: the bytes before the first nul byte, or
/// the whole buffer if there is none.
pub fn data_from_array_buf<const N: usize>(buf: &[u8; N]) -> (data: Vec<u8>)
    ensures
        data@ == stored_data(buf@),
{
    let mut data: Vec<u8> = Vec::new();
    let mut i: usize = 0;
    while i < N && buf[i] != 0u8
        invariant
            i <= N,
            buf@.len() == N,
            data@ == buf@.take(i as int),
            is_nul_free(buf@.take(i as int)),
        decreases N - i,
    {
        data.push(buf[i]);
        i = i + 1;
        assert(data@ =~= buf@.take(i as int));
    }
    proof {
        lemma_first_nul_characterization(buf@, i as int);
    }
    data
}

/// Writes `value` into a nul-terminated buffer: as many of its bytes as fit while leaving room for
/// a nul byte, followed by the nul byte. The bytes after the nul byte are left as they were.
pub fn write_to_array_buf<const N: usize>(buf: &mut [u8; N], value: &[u8])
    requires
        N >= 1,
    ensures
        final(buf)@ == written_buf(old(buf)@, value@),
{
    let max_len: usize = if value.len() < N - 1 {
        value.len()
    } else {
        N - 1
    };
    let mut i: usize = 0;
    while i < max_len
        invariant
            max_len == kept_len(N as nat, value@),
            max_len < N,
            max_len <= value@.len(),
            i <= max_len,
            buf@.len() == N,
            old(buf)@.len() == N,
            buf@ == value@.take(i as int) + old(buf)@.skip(i as int),
        decreases max_len - i,
    {
        buf[i] = value[i];
        i = i + 1;
        assert(buf@ =~= value@.take(i as int) + old(buf)@.skip(i as int));
    }
    buf[max_len] = 0u8;
    assert(buf@ =~= written_buf(old(buf)@, value@));
}

/// Returns whether two byte strings are equal.
pub fn bytes_eq(a: &[u8], b: &[u8]) -> (eq: bool)
    ensures
        eq == (a@ == b@),
{
    if a.len() != b.len() {
        return false;
    }
    let mut i: usize = 0;
    while i < a.len()
        invariant
            a@.len() == b@.len(),
            i <= a@.len(),
            a@.take(i as int) == b@.take(i as int),
        decreases a@.len() - i,
    {
        if a[i] != b[i] {
            assert(a@[i as int] != b@[i as int]);
            return false;
        }
        i = i + 1;
        assert(a@.take(i as int) =~= a@.take(i as int - 1).push(a@[i as int - 1]));
        assert(b@.take(i as int) =~= b@.take(i as int - 1).push(b@[i as int - 1]));
    }
    assert(a@ =~= a@.take(i as int));
    assert(b@ =~= b@.take(i as int));
    true
}

} // verus!
