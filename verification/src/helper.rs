//! Small computations that the session layer needs.

use vstd::prelude::*;

verus! {

/// Helper functions.
pub struct Helper;

/// The modulus of the token hash: two to the 31.
pub open spec fn spec_gtk_modulus() -> int {
    0x8000_0000
}

/// One step of the token hash: the hash so far, plus the sum of 32 times
/// the hash and the character's code point, each sum reduced modulo two to
/// the 31.
pub open spec fn spec_gtk_step(hash: int, ch: char) -> int {
    (hash + ((hash * 32) % spec_gtk_modulus() + ch as u32) % spec_gtk_modulus())
        % spec_gtk_modulus()
}

/// The token hash of a key: 5381, stepped through the characters of the
/// key from first to last.
pub open spec fn spec_gtk(key: Seq<char>) -> int
    decreases key.len(),
{
    if key.len() == 0 {
        5381
    } else {
        spec_gtk_step(spec_gtk(key.drop_last()), key.last())
    }
}

/// The token hash stays below two to the 31.
pub proof fn lemma_gtk_range(key: Seq<char>)
    ensures
        0 <= spec_gtk(key) < spec_gtk_modulus(),
    decreases key.len(),
{
    if key.len() > 0 {
        lemma_gtk_range(key.drop_last());
    }
}

impl Helper {
    /// Computes the `g_tk` token of a session key.
    pub fn gtk(skey: &str) -> (r: i64)
        ensures
            r == spec_gtk(skey@),
    {
        let mut hash: i64 = 5381;
        for ch in it: skey.chars()
            invariant
                it.seq() == skey@,
                hash == spec_gtk(skey@.take(it.index() as int)),
                0 <= hash < 0x8000_0000,
        {
            proof {
                lemma_gtk_range(skey@.take(it.index() as int));
                assert(skey@.take(it.index() + 1).drop_last() =~= skey@.take(it.index() as int));
            }
            let code = (ch as u32) as i64;
            let shifted = (hash << 5) & 2147483647;
            assert(shifted == (hash * 32) % 0x8000_0000) by (bit_vector)
                requires
                    0 <= hash < 0x8000_0000,
                    shifted == (hash << 5) & 2147483647,
            ;
            proof {
                vstd::utf8::char_is_scalar(ch);
            }
            let sum = shifted + code;
            let mixed = sum & 2147483647;
            assert(mixed == sum % 0x8000_0000) by (bit_vector)
                requires
                    0 <= sum < 0x1_0000_0000,
                    mixed == sum & 2147483647,
            ;
            hash += mixed;
            let reduced = hash & 2147483647;
            assert(reduced == hash % 0x8000_0000) by (bit_vector)
                requires
                    0 <= hash < 0x1_0000_0000,
                    reduced == hash & 2147483647,
            ;
            hash = reduced;
        }
        proof {
            assert(skey@.take(skey@.len() as int) =~= skey@);
        }
        let masked = hash & 2147483647;
        assert(masked == hash) by (bit_vector)
            requires
                0 <= hash < 0x8000_0000,
                masked == hash & 2147483647,
        ;
        masked
    }
}

} // verus!
