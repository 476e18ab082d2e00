//! The identity hasher: a 64-bit asset identifier that is a pure,
//! deterministic function of the asset's path text and code bytes, stable
//! across processes, platforms and runs. It is the join key of the module
//! graph, so it derives from nothing but its declared inputs: no ambient
//! counters, no addresses, no per-process seeds.

use vstd::prelude::*;
use vstd::string::StrSliceExecFns;
use vstd::string::StringExecFns;

verus! {

/// FNV-1a 64-bit offset basis.
pub const FNV_OFFSET_BASIS: u64 = 0xcbf29ce484222325;

/// FNV-1a 64-bit prime.
pub const FNV_PRIME: u64 = 0x100000001b3;

/// One FNV-1a round: fold one byte into the running hash state.
pub open spec fn fnv1a_step(h: u64, b: u8) -> u64 {
    vstd::wrapping::u64_specs::wrapping_mul(h ^ (b as u64), FNV_PRIME)
}

/// FNV-1a folded left-to-right over a byte sequence, starting from state `h`.
pub open spec fn fnv1a_seq(h: u64, bytes: Seq<u8>) -> u64
    decreases bytes.len(),
{
    if bytes.len() == 0 {
        h
    } else {
        fnv1a_seq(fnv1a_step(h, bytes[0]), bytes.drop_first())
    }
}

/// The asset identifier: FNV-1a over the UTF-8 bytes of the path, then a
/// 0xff separator byte (which valid UTF-8 text never contains, so the
/// boundary between path and code is unambiguous), then the code bytes.
pub open spec fn asset_id_spec(path: Seq<char>, code: Seq<u8>) -> u64 {
    fnv1a_seq(fnv1a_step(fnv1a_seq(FNV_OFFSET_BASIS, vstd::utf8::encode_utf8(path)), 0xff), code)
}

fn fnv1a_fold(h0: u64, bytes: &Vec<u8>) -> (h: u64)
    ensures
        h == fnv1a_seq(h0, bytes@),
{
    let mut h = h0;
    let mut i: usize = 0;
    proof {
        assert(bytes@.skip(0) =~= bytes@);
    }
    while i < bytes.len()
        invariant
            i <= bytes@.len(),
            fnv1a_seq(h, bytes@.skip(i as int)) == fnv1a_seq(h0, bytes@),
        decreases bytes@.len() - i,
    {
        proof {
            assert(bytes@.skip(i as int)[0] == bytes@[i as int]);
            assert(bytes@.skip(i as int).drop_first() =~= bytes@.skip(i as int + 1));
        }
        h = (h ^ (bytes[i] as u64)).wrapping_mul(FNV_PRIME);
        i += 1;
    }
    proof {
        assert(bytes@.skip(i as int) =~= Seq::<u8>::empty());
    }
    h
}

/// Computes the identifier of the asset at `path` with content `code`.
pub fn asset_id(path: &str, code: &Vec<u8>) -> (r: u64)
    ensures
        r == asset_id_spec(path@, code@),
{
    let path_bytes = path.as_bytes_vec();
    let h1 = fnv1a_fold(FNV_OFFSET_BASIS, &path_bytes);
    let h2 = (h1 ^ 0xffu64).wrapping_mul(FNV_PRIME);
    proof {
        assert(h2 == fnv1a_step(h1, 0xff));
    }
    fnv1a_fold(h2, code)
}

/// Determinism of asset identity: the identifier depends on nothing but the
/// path text and the code bytes, so two assets with equal path and code are
/// assigned equal identifiers, in any process and on any run.
pub proof fn lemma_asset_id_deterministic(
    path1: Seq<char>,
    code1: Seq<u8>,
    path2: Seq<char>,
    code2: Seq<u8>,
)
    requires
        path1 == path2,
        code1 == code2,
    ensures
        asset_id_spec(path1, code1) == asset_id_spec(path2, code2),
{
}

/// The lower-case hex digit of one value below 16.
pub open spec fn nibble_char(n: u8) -> char
    recommends
        n < 16,
{
    if n == 0 {
        '0'
    } else if n == 1 {
        '1'
    } else if n == 2 {
        '2'
    } else if n == 3 {
        '3'
    } else if n == 4 {
        '4'
    } else if n == 5 {
        '5'
    } else if n == 6 {
        '6'
    } else if n == 7 {
        '7'
    } else if n == 8 {
        '8'
    } else if n == 9 {
        '9'
    } else if n == 10 {
        'a'
    } else if n == 11 {
        'b'
    } else if n == 12 {
        'c'
    } else if n == 13 {
        'd'
    } else if n == 14 {
        'e'
    } else {
        'f'
    }
}

/// The 16-character, zero-padded, lower-case hex rendering of a 64-bit
/// value, most significant nibble first.
pub open spec fn hex16_chars(v: u64) -> Seq<char> {
    Seq::new(16, |i: int| nibble_char((((v >> (((15 - i) * 4) as u64)) & 0xf) as u8)))
}

fn push_nibble(s: &mut String, n: u8)
    requires
        n < 16,
    ensures
        final(s)@ == old(s)@ + seq![nibble_char(n)],
{
    if n == 0 {
        s.append("0");
        proof {
            reveal_strlit("0");
            assert("0"@ =~= seq![nibble_char(n)]);
        }
    } else if n == 1 {
        s.append("1");
        proof {
            reveal_strlit("1");
            assert("1"@ =~= seq![nibble_char(n)]);
        }
    } else if n == 2 {
        s.append("2");
        proof {
            reveal_strlit("2");
            assert("2"@ =~= seq![nibble_char(n)]);
        }
    } else if n == 3 {
        s.append("3");
        proof {
            reveal_strlit("3");
            assert("3"@ =~= seq![nibble_char(n)]);
        }
    } else if n == 4 {
        s.append("4");
        proof {
            reveal_strlit("4");
            assert("4"@ =~= seq![nibble_char(n)]);
        }
    } else if n == 5 {
        s.append("5");
        proof {
            reveal_strlit("5");
            assert("5"@ =~= seq![nibble_char(n)]);
        }
    } else if n == 6 {
        s.append("6");
        proof {
            reveal_strlit("6");
            assert("6"@ =~= seq![nibble_char(n)]);
        }
    } else if n == 7 {
        s.append("7");
        proof {
            reveal_strlit("7");
            assert("7"@ =~= seq![nibble_char(n)]);
        }
    } else if n == 8 {
        s.append("8");
        proof {
            reveal_strlit("8");
            assert("8"@ =~= seq![nibble_char(n)]);
        }
    } else if n == 9 {
        s.append("9");
        proof {
            reveal_strlit("9");
            assert("9"@ =~= seq![nibble_char(n)]);
        }
    } else if n == 10 {
        s.append("a");
        proof {
            reveal_strlit("a");
            assert("a"@ =~= seq![nibble_char(n)]);
        }
    } else if n == 11 {
        s.append("b");
        proof {
            reveal_strlit("b");
            assert("b"@ =~= seq![nibble_char(n)]);
        }
    } else if n == 12 {
        s.append("c");
        proof {
            reveal_strlit("c");
            assert("c"@ =~= seq![nibble_char(n)]);
        }
    } else if n == 13 {
        s.append("d");
        proof {
            reveal_strlit("d");
            assert("d"@ =~= seq![nibble_char(n)]);
        }
    } else if n == 14 {
        s.append("e");
        proof {
            reveal_strlit("e");
            assert("e"@ =~= seq![nibble_char(n)]);
        }
    } else {
        s.append("f");
        proof {
            reveal_strlit("f");
            assert("f"@ =~= seq![nibble_char(n)]);
        }
    }
}

/// Renders an asset identifier as its canonical 16-digit hex form.
pub fn format_id(v: u64) -> (s: String)
    ensures
        s@ == hex16_chars(v),
{
    let mut s = String::new();
    proof {
        assert(s@ =~= hex16_chars(v).take(0));
    }
    let mut i: usize = 0;
    while i < 16
        invariant
            i <= 16,
            s@ == hex16_chars(v).take(i as int),
        decreases 16 - i,
    {
        let shift: u64 = ((15 - i) as u64) * 4;
        let nib_wide: u64 = (v >> shift) & 0xf;
        proof {
            assert((v >> shift) & 0xf < 16) by (bit_vector);
        }
        let nib: u8 = nib_wide as u8;
        proof {
            assert(shift as int == (15 - i as int) * 4);
            assert(hex16_chars(v)[i as int] == nibble_char(nib));
        }
        push_nibble(&mut s, nib);
        proof {
            assert(hex16_chars(v).take(i as int + 1) =~= hex16_chars(v).take(i as int) + seq![
                nibble_char(nib),
            ]);
        }
        i += 1;
    }
    proof {
        assert(hex16_chars(v).take(16) =~= hex16_chars(v));
    }
    s
}

} // verus!
