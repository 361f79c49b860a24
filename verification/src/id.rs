//! Short-identifier generation.
//!
//! A candidate identifier is the 64-bit FNV-1a hash of the full URL's bytes,
//! seeded with a salt, and written as 16 lowercase hexadecimal characters:
//! fixed length, URL-safe, and stable for a given URL and salt. The generator
//! advances its salt on every call, so repeated calls for the same URL yield
//! new candidates — which is what the collision-retry protocol needs.

use vstd::prelude::*;
use vstd::string::StringSliceAdditionalSpecFns;
use vstd::wrapping::u64_specs;

verus! {

/// The FNV-1a 64-bit offset basis.
pub const FNV_OFFSET: u64 = 0xcbf29ce484222325;

/// The FNV-1a 64-bit prime.
pub const FNV_PRIME: u64 = 0x100000001b3;

/// One FNV-1a step: fold the byte into the accumulator.
pub open spec fn spec_fnv_step(acc: u64, byte: u8) -> u64 {
    u64_specs::wrapping_mul(acc ^ (byte as u64), FNV_PRIME)
}

/// The FNV-1a accumulator after folding in every byte of `bytes`, left to
/// right, starting from `acc`.
pub open spec fn spec_fnv(bytes: Seq<u8>, acc: u64) -> u64
    decreases bytes.len(),
{
    if bytes.len() == 0 {
        acc
    } else {
        spec_fnv_step(spec_fnv(bytes.drop_last(), acc), bytes.last())
    }
}

/// The seed for a given salt: the salt folded into the offset basis.
pub open spec fn spec_seed(salt: u64) -> u64 {
    u64_specs::wrapping_mul(FNV_OFFSET ^ salt, FNV_PRIME)
}

/// The 64-bit hash a candidate identifier is written from.
pub open spec fn spec_hash(url: Seq<char>, salt: u64) -> u64 {
    spec_fnv(vstd::utf8::encode_utf8(url), spec_seed(salt))
}

/// The lowercase hexadecimal character for the low four bits of `n`.
pub open spec fn spec_hex_digit(n: u64) -> char {
    if n == 0 {
        '0'
    } else if n == 1 {
        '1'
    } else if n == 2 {
        '2'
    } else if n == 3 {
        '3'
    } else if n == 4 {
        '4'
    } else if n == 5 {
        '5'
    } else if n == 6 {
        '6'
    } else if n == 7 {
        '7'
    } else if n == 8 {
        '8'
    } else if n == 9 {
        '9'
    } else if n == 10 {
        'a'
    } else if n == 11 {
        'b'
    } else if n == 12 {
        'c'
    } else if n == 13 {
        'd'
    } else if n == 14 {
        'e'
    } else {
        'f'
    }
}

/// The 16 hexadecimal characters of `v`, most significant nibble first.
pub open spec fn spec_hex_chars(v: u64) -> Seq<char> {
    Seq::new(16, |i: int| spec_hex_digit((v >> ((60 - 4 * i) as u64)) & 0xf))
}

/// The candidate identifier generated for `url` with the given salt.
pub open spec fn spec_id(url: Seq<char>, salt: u64) -> Seq<char> {
    spec_hex_chars(spec_hash(url, salt))
}

/// The salt the generator uses after the given one.
pub open spec fn spec_next_salt(salt: u64) -> u64 {
    if salt == u64::MAX {
        0
    } else {
        (salt + 1) as u64
    }
}

/// The identifier-generation strategy: a salt that advances on every call, so
/// that a collision retry gets a fresh candidate for the same URL.
pub struct IdGen {
    salt: u64,
}

impl IdGen {
    /// The salt the next candidate will be generated with.
    pub closed spec fn salt(self) -> u64 {
        self.salt
    }

    /// A generator starting from salt zero.
    pub fn new() -> (g: IdGen)
        ensures
            g.salt() == 0,
    {
        IdGen { salt: 0 }
    }

    /// A generator starting from the given salt.
    pub fn with_salt(salt: u64) -> (g: IdGen)
        ensures
            g.salt() == salt,
    {
        IdGen { salt }
    }

    /// Generates a candidate short identifier for the full URL: 16 lowercase
    /// hexadecimal characters, determined by the URL and the current salt.
    /// The salt advances, so the next call yields a different candidate.
    pub fn generate_id(&mut self, full_url: &str) -> (id: String)
        ensures
            id@ == spec_id(full_url@, old(self).salt()),
            final(self).salt() == spec_next_salt(old(self).salt()),
    {
        let salt = self.salt;
        self.salt = if self.salt == u64::MAX {
            0
        } else {
            self.salt + 1
        };
        let bytes = full_url.as_bytes();
        let n = bytes.len();
        let mut acc: u64 = (FNV_OFFSET ^ salt).wrapping_mul(FNV_PRIME);
        assert(acc == spec_seed(salt));
        let mut i: usize = 0;
        while i < n
            invariant
                i <= n,
                n == full_url.spec_bytes().len(),
                bytes@ == full_url.spec_bytes(),
                acc == spec_fnv(full_url.spec_bytes().subrange(0, i as int), spec_seed(salt)),
            decreases n - i,
        {
            let b = bytes[i];
            acc = (acc ^ (b as u64)).wrapping_mul(FNV_PRIME);
            proof {
                let prefix = full_url.spec_bytes().subrange(0, i + 1);
                assert(prefix.drop_last() =~= full_url.spec_bytes().subrange(0, i as int));
                assert(prefix.last() == b);
            }
            i += 1;
        }
        proof {
            assert(full_url.spec_bytes().subrange(0, n as int) =~= full_url.spec_bytes());
        }
        hex_string(acc)
    }
}

/// Writes `v` as 16 lowercase hexadecimal characters, most significant nibble
/// first.
fn hex_string(v: u64) -> (s: String)
    ensures
        s@ == spec_hex_chars(v),
{
    let mut s = String::new();
    let mut i: usize = 0;
    while i < 16
        invariant
            i <= 16,
            s@ =~= spec_hex_chars(v).subrange(0, i as int),
        decreases 16 - i,
    {
        let shift: u64 = 60 - 4 * (i as u64);
        let nibble: u64 = (v >> shift) & 0xf;
        if nibble == 0 {
            s.append("0");
        } else if nibble == 1 {
            s.append("1");
        } else if nibble == 2 {
            s.append("2");
        } else if nibble == 3 {
            s.append("3");
        } else if nibble == 4 {
            s.append("4");
        } else if nibble == 5 {
            s.append("5");
        } else if nibble == 6 {
            s.append("6");
        } else if nibble == 7 {
            s.append("7");
        } else if nibble == 8 {
            s.append("8");
        } else if nibble == 9 {
            s.append("9");
        } else if nibble == 10 {
            s.append("a");
        } else if nibble == 11 {
            s.append("b");
        } else if nibble == 12 {
            s.append("c");
        } else if nibble == 13 {
            s.append("d");
        } else if nibble == 14 {
            s.append("e");
        } else {
            s.append("f");
        }
        proof {
            reveal_strlit("0");
            reveal_strlit("1");
            reveal_strlit("2");
            reveal_strlit("3");
            reveal_strlit("4");
            reveal_strlit("5");
            reveal_strlit("6");
            reveal_strlit("7");
            reveal_strlit("8");
            reveal_strlit("9");
            reveal_strlit("a");
            reveal_strlit("b");
            reveal_strlit("c");
            reveal_strlit("d");
            reveal_strlit("e");
            reveal_strlit("f");
            assert(spec_hex_chars(v)[i as int] == spec_hex_digit(nibble));
            assert(s@ =~= spec_hex_chars(v).subrange(0, i + 1));
        }
        i += 1;
    }
    proof {
        assert(spec_hex_chars(v).subrange(0, 16) =~= spec_hex_chars(v));
    }
    s
}

} // verus!
