//! Content addressing: a deterministic 64-bit digest over payload bytes,
//! rendered as a fixed-width hexadecimal string. The digest is the sole
//! deduplication key of the history store.

use vstd::prelude::*;
use vstd::slice::slice_index_get;

verus! {

/// FNV-1a 64-bit offset basis.
pub const FNV_OFFSET: u64 = 0xcbf29ce484222325;

/// FNV-1a 64-bit prime.
pub const FNV_PRIME: u64 = 0x100000001b3;

/// One FNV-1a round: fold a byte into the running state.
pub open spec fn fnv1a_step(h: u64, b: u8) -> u64 {
    vstd::wrapping::u64_specs::wrapping_mul(h ^ (b as u64), FNV_PRIME)
}

/// Digest of the first `n` bytes of `bytes`.
pub open spec fn fnv1a64_prefix(bytes: Seq<u8>, n: int) -> u64
    decreases n,
{
    if n <= 0 {
        FNV_OFFSET
    } else {
        fnv1a_step(fnv1a64_prefix(bytes, n - 1), bytes[n - 1])
    }
}

/// The FNV-1a 64-bit digest of a byte sequence.
pub open spec fn fnv1a64(bytes: Seq<u8>) -> u64 {
    fnv1a64_prefix(bytes, bytes.len() as int)
}

/// Digest of a byte slice.
pub fn fnv1a64_bytes(data: &[u8]) -> (h: u64)
    ensures
        h == fnv1a64(data@),
{
    let mut h: u64 = FNV_OFFSET;
    let n = data.len();
    let mut i: usize = 0;
    while i < n
        invariant
            n == data@.len(),
            i <= n,
            h == fnv1a64_prefix(data@, i as int),
        decreases n - i,
    {
        let b = *slice_index_get(data, i);
        h = (h ^ (b as u64)).wrapping_mul(FNV_PRIME);
        i = i + 1;
    }
    h
}

/// The lower-case hexadecimal character for a value below 16.
pub open spec fn hex_digit(d: u64) -> char {
    if d == 0 {
        '0'
    } else if d == 1 {
        '1'
    } else if d == 2 {
        '2'
    } else if d == 3 {
        '3'
    } else if d == 4 {
        '4'
    } else if d == 5 {
        '5'
    } else if d == 6 {
        '6'
    } else if d == 7 {
        '7'
    } else if d == 8 {
        '8'
    } else if d == 9 {
        '9'
    } else if d == 10 {
        'a'
    } else if d == 11 {
        'b'
    } else if d == 12 {
        'c'
    } else if d == 13 {
        'd'
    } else if d == 14 {
        'e'
    } else {
        'f'
    }
}

/// 16 to the power `k`.
pub open spec fn pow16(k: nat) -> int
    decreases k,
{
    if k == 0 {
        1
    } else {
        16 * pow16((k - 1) as nat)
    }
}

/// The 16-character, fixed-width, lower-case hexadecimal rendering of `v`,
/// most significant nibble first.
pub open spec fn hex16(v: u64) -> Seq<char> {
    Seq::new(16, |i: int| hex_digit(((v as int / pow16((15 - i) as nat)) % 16) as u64))
}

/// The single-character string for a value below 16, in lower-case hex.
fn hex_digit_str(d: u64) -> (r: &'static str)
    requires
        d < 16,
    ensures
        r@ =~= seq![hex_digit(d)],
{
    if d == 0 {
        proof { reveal_strlit("0"); }
        "0"
    } else if d == 1 {
        proof { reveal_strlit("1"); }
        "1"
    } else if d == 2 {
        proof { reveal_strlit("2"); }
        "2"
    } else if d == 3 {
        proof { reveal_strlit("3"); }
        "3"
    } else if d == 4 {
        proof { reveal_strlit("4"); }
        "4"
    } else if d == 5 {
        proof { reveal_strlit("5"); }
        "5"
    } else if d == 6 {
        proof { reveal_strlit("6"); }
        "6"
    } else if d == 7 {
        proof { reveal_strlit("7"); }
        "7"
    } else if d == 8 {
        proof { reveal_strlit("8"); }
        "8"
    } else if d == 9 {
        proof { reveal_strlit("9"); }
        "9"
    } else if d == 10 {
        proof { reveal_strlit("a"); }
        "a"
    } else if d == 11 {
        proof { reveal_strlit("b"); }
        "b"
    } else if d == 12 {
        proof { reveal_strlit("c"); }
        "c"
    } else if d == 13 {
        proof { reveal_strlit("d"); }
        "d"
    } else if d == 14 {
        proof { reveal_strlit("e"); }
        "e"
    } else {
        proof { reveal_strlit("f"); }
        "f"
    }
}

proof fn lemma_pow16_pos(k: nat)
    ensures
        pow16(k) >= 1,
    decreases k,
{
    if k > 0 {
        lemma_pow16_pos((k - 1) as nat);
    }
}

/// Render `v` as its 16-character hexadecimal string.
pub fn hex16_string(v: u64) -> (s: String)
    ensures
        s@ == hex16(v),
{
    proof {
        reveal_with_fuel(pow16, 17);
        assert(pow16(15) == 0x1000_0000_0000_0000);
    }
    let mut s = String::new();
    let mut p: u64 = 0x1000_0000_0000_0000;
    let mut j: usize = 0;
    while j < 16
        invariant
            j <= 16,
            j < 16 ==> p as int == pow16((15 - j) as nat),
            s@ =~= hex16(v).take(j as int),
        decreases 16 - j,
    {
        proof {
            lemma_pow16_pos((15 - j) as nat);
        }
        let d = (v / p) % 16;
        s.append(hex_digit_str(d));
        proof {
            assert(s@ =~= hex16(v).take((j + 1) as int));
        }
        if j < 15 {
            proof {
                assert(pow16((15 - j) as nat) == 16 * pow16((15 - (j + 1)) as nat));
            }
            p = p / 16;
        }
        j = j + 1;
    }
    proof {
        assert(s@ =~= hex16(v));
    }
    s
}

/// The digest string stored in `content_hash`: fixed-width hex of the
/// FNV-1a 64-bit digest of the payload bytes.
pub open spec fn digest_string(bytes: Seq<u8>) -> Seq<char> {
    hex16(fnv1a64(bytes))
}

/// Digest string of a byte slice.
pub fn digest_of_bytes(data: &[u8]) -> (s: String)
    ensures
        s@ == digest_string(data@),
{
    hex16_string(fnv1a64_bytes(data))
}

} // verus!
