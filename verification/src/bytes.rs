//! Byte arrays: equality, and the array that holds a given byte sequence.

use vstd::prelude::*;

verus! {

/// The array of `N` bytes whose contents are `s`, for a sequence of length `N`.
pub open spec fn to_array<const N: usize>(s: Seq<u8>) -> [u8; N] {
    choose|a: [u8; N]| a@ == s
}

/// An array is determined by its contents.
pub proof fn lemma_to_array<const N: usize>(a: [u8; N])
    ensures
        to_array::<N>(a@) == a,
{
    let b = to_array::<N>(a@);
    assert(b@ == a@);
    assert(b =~= a) by {
        assert forall|i: int| 0 <= i < N implies b[i] == a[i] by {
            assert(b@[i] == a@[i]);
        }
    }
}

/// Three bytes are the contents of an array.
pub proof fn lemma_three_bytes(s: Seq<u8>)
    requires
        s.len() == 3,
    ensures
        to_array::<3>(s)@ == s,
{
    let a: [u8; 3] = [s[0], s[1], s[2]];
    assert(a@ == s);
    lemma_to_array(a);
}

/// `n` zero bytes.
pub open spec fn zeros(n: nat) -> Seq<u8> {
    Seq::new(n, |i: int| 0u8)
}

/// An array of zero bytes.
pub fn zero_array<const N: usize>() -> (r: [u8; N])
    ensures
        r == to_array::<N>(zeros(N as nat)),
        r@ == zeros(N as nat),
{
    let r: [u8; N] = [0u8; N];
    proof {
        assert(r@ == zeros(N as nat));
        lemma_to_array(r);
    }
    r
}

/// Whether two Bluetooth device addresses are the same.
pub fn same_address(a: &[u8; 6], b: &[u8; 6]) -> (r: bool)
    ensures
        r == (*a == *b),
{
    let r: bool = a[0] == b[0] && a[1] == b[1] && a[2] == b[2] && a[3] == b[3] && a[4] == b[4]
        && a[5] == b[5];
    proof {
        if r {
            assert(a@ == b@);
            lemma_to_array(*a);
            lemma_to_array(*b);
        }
    }
    r
}

/// The `N` bytes of `data` that start at `from`.
pub fn copy_array<const N: usize>(data: &[u8], from: usize) -> (r: [u8; N])
    requires
        from + N <= data@.len(),
    ensures
        r == to_array::<N>(data@.subrange(from as int, from + N)),
        r@ == data@.subrange(from as int, from + N),
{
    let mut r: [u8; N] = [0u8; N];
    let len: usize = data.len();
    let mut i: usize = 0;
    while i < N
        invariant
            i <= N,
            from + N <= len == data@.len(),
            forall|k: int| 0 <= k < i ==> r@[k] == data@[from + k],
        decreases N - i,
    {
        r[i] = data[from + i];
        i = i + 1;
    }
    proof {
        assert(r@ == data@.subrange(from as int, from + N));
        lemma_to_array(r);
    }
    r
}

/// Six bytes are the contents of an array.
pub proof fn lemma_six_bytes(s: Seq<u8>)
    requires
        s.len() == 6,
    ensures
        to_array::<6>(s)@ == s,
{
    let a: [u8; 6] = [s[0], s[1], s[2], s[3], s[4], s[5]];
    assert(a@ == s);
    lemma_to_array(a);
}

/// Eight bytes are the contents of an array.
pub proof fn lemma_eight_bytes(s: Seq<u8>)
    requires
        s.len() == 8,
    ensures
        to_array::<8>(s)@ == s,
{
    let a: [u8; 8] = [s[0], s[1], s[2], s[3], s[4], s[5], s[6], s[7]];
    assert(a@ == s);
    lemma_to_array(a);
}

/// Thirty-two bytes are the contents of an array.
pub proof fn lemma_thirty_two_bytes(s: Seq<u8>)
    requires
        s.len() == 32,
    ensures
        to_array::<32>(s)@ == s,
{
    let a: [u8; 32] = [
        s[0], s[1], s[2], s[3], s[4], s[5], s[6], s[7], s[8], s[9], s[10], s[11], s[12], s[13],
        s[14], s[15], s[16], s[17], s[18], s[19], s[20], s[21], s[22], s[23], s[24], s[25],
        s[26], s[27], s[28], s[29], s[30], s[31],
    ];
    assert(a@ == s);
    lemma_to_array(a);
}

/// A row of zero bytes has the asked length, and every byte in it is zero; so has
/// the array of them.
pub proof fn law_zeros_are_zero(n: nat)
    ensures
        zeros(n).len() == n,
        forall|i: int| 0 <= i < n ==> #[trigger] zeros(n)[i] == 0,
        to_array::<32>(zeros(32))@.len() == 32,
        forall|i: int| 0 <= i < 32 ==> #[trigger] to_array::<32>(zeros(32))@[i] == 0,
{
    lemma_thirty_two_bytes(zeros(32));
}

} // verus!
