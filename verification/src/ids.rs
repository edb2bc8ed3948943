//! Record identifiers and their fixed textual format.
//!
//! Every persisted record carries an opaque 128-bit identifier. On the wire
//! an identifier is written as 32 hexadecimal digits in five groups of
//! 8-4-4-4-12, separated by hyphens. Text that does not conform is rejected
//! with a validation error before any query runs.

use vstd::prelude::*;
use vstd::arithmetic::power2::{pow2, lemma_pow2_adds, lemma_pow2_strictly_increases, lemma2_to64, lemma2_to64_rest};
use crate::errors::ApiError;

verus! {

/// An opaque, globally unique record identifier.
#[derive(Clone, Copy, Debug, PartialEq, Eq, Structural, Hash)]
pub struct Uid {
    pub hi: u64,
    pub lo: u64,
}

/// The positions of the four hyphens in the textual form.
pub open spec fn is_hyphen_pos(i: int) -> bool {
    i == 8 || i == 13 || i == 18 || i == 23
}

pub open spec fn is_hex_digit(c: u8) -> bool {
    (48 <= c && c <= 57) || (97 <= c && c <= 102) || (65 <= c && c <= 70)
}

pub open spec fn hex_digit_val(c: u8) -> u8 {
    if 48 <= c && c <= 57 {
        (c - 48) as u8
    } else if 97 <= c && c <= 102 {
        (c - 97 + 10) as u8
    } else {
        (c - 65 + 10) as u8
    }
}

/// Well-formed identifier text: 36 bytes, hyphens exactly at their four
/// fixed positions, hexadecimal digits everywhere else.
pub open spec fn valid_uid_text(s: Seq<u8>) -> bool {
    &&& s.len() == 36
    &&& forall|i: int|
        0 <= i < 36 ==> (if is_hyphen_pos(i) {
            #[trigger] s[i] == 45u8
        } else {
            is_hex_digit(s[i])
        })
}

/// Position in the 36-byte text of the `j`-th hexadecimal digit.
pub open spec fn digit_pos(j: int) -> int {
    if j < 8 {
        j
    } else if j < 12 {
        j + 1
    } else if j < 16 {
        j + 2
    } else if j < 20 {
        j + 3
    } else {
        j + 4
    }
}

/// How many of the first `i` bytes of the text are hexadecimal digits.
pub open spec fn digit_count(i: int) -> int {
    if i <= 8 {
        i
    } else if i <= 13 {
        i - 1
    } else if i <= 18 {
        i - 2
    } else if i <= 23 {
        i - 3
    } else {
        i - 4
    }
}

/// The values of the 32 hexadecimal digits of a well-formed text, in order.
pub open spec fn digits_of(s: Seq<u8>) -> Seq<u8> {
    Seq::new(32, |j: int| hex_digit_val(s[digit_pos(j)]))
}

/// The number a big-endian sequence of hexadecimal digit values denotes.
pub open spec fn hex_val(ds: Seq<u8>) -> nat
    decreases ds.len(),
{
    if ds.len() == 0 {
        0
    } else {
        (hex_val(ds.drop_last()) * 16 + ds.last()) as nat
    }
}

/// The identifier a well-formed text denotes: the first 16 digits form the
/// high half, the last 16 the low half.
pub open spec fn uid_of_text(s: Seq<u8>) -> Uid {
    Uid {
        hi: hex_val(digits_of(s).take(16)) as u64,
        lo: hex_val(digits_of(s).skip(16)) as u64,
    }
}

pub proof fn lemma_hex_val_bound(ds: Seq<u8>)
    requires
        forall|i: int| 0 <= i < ds.len() ==> #[trigger] ds[i] < 16,
    ensures
        hex_val(ds) < pow2((4 * ds.len()) as nat),
    decreases ds.len(),
{
    lemma2_to64();
    if ds.len() > 0 {
        lemma_hex_val_bound(ds.drop_last());
        lemma_pow2_adds((4 * (ds.len() - 1)) as nat, 4);
    }
}

fn hex_digit(c: u8) -> (r: Option<u8>)
    ensures
        is_hex_digit(c) ==> r == Some(hex_digit_val(c)),
        !is_hex_digit(c) ==> r is None,
{
    if 48 <= c && c <= 57 {
        Some(c - 48)
    } else if 97 <= c && c <= 102 {
        Some(c - 97 + 10)
    } else if 65 <= c && c <= 70 {
        Some(c - 65 + 10)
    } else {
        None
    }
}

/// Parse identifier text. Returns the denoted identifier exactly when the
/// text is well formed, and a validation error otherwise.
pub fn parse_uid(s: &[u8]) -> (r: Result<Uid, ApiError>)
    ensures
        valid_uid_text(s@) ==> r == Ok::<Uid, ApiError>(uid_of_text(s@)),
        !valid_uid_text(s@) ==> r == Err::<Uid, ApiError>(ApiError::Validation),
{
    if s.len() != 36 {
        return Err(ApiError::Validation);
    }
    let mut digits: Vec<u8> = Vec::new();
    let mut i: usize = 0;
    while i < 36
        invariant
            i <= 36,
            s@.len() == 36,
            digits@.len() == digit_count(i as int),
            forall|k: int|
                0 <= k < i ==> (if is_hyphen_pos(k) {
                    #[trigger] s@[k] == 45u8
                } else {
                    is_hex_digit(s@[k])
                }),
            forall|j: int|
                0 <= j < digits@.len() ==> digit_pos(j) < i && #[trigger] digits@[j]
                    == hex_digit_val(s@[digit_pos(j)]),
        decreases 36 - i,
    {
        let c = s[i];
        if i == 8 || i == 13 || i == 18 || i == 23 {
            if c != 45u8 {
                return Err(ApiError::Validation);
            }
        } else {
            match hex_digit(c) {
                Some(d) => digits.push(d),
                None => {
                    return Err(ApiError::Validation);
                },
            }
        }
        i = i + 1;
    }
    proof {
        assert(digits@ =~= digits_of(s@));
    }
    let hi = accumulate(&digits, 0);
    let lo = accumulate(&digits, 16);
    proof {
        assert(digits@.subrange(0, 16) =~= digits_of(s@).take(16));
        assert(digits@.subrange(16, 32) =~= digits_of(s@).skip(16));
        lemma_hex_val_bound(digits@.subrange(0, 16));
        lemma_hex_val_bound(digits@.subrange(16, 32));
        lemma2_to64();
        lemma_pow2_adds(60, 4);
    }
    Ok(Uid { hi, lo })
}

/// Combine digit values `start .. start + 16` into one 64-bit half.
fn accumulate(digits: &Vec<u8>, start: usize) -> (r: u64)
    requires
        digits@.len() == 32,
        start == 0 || start == 16,
        forall|j: int| 0 <= j < 32 ==> #[trigger] digits@[j] < 16,
    ensures
        r == hex_val(digits@.subrange(start as int, start as int + 16)),
{
    let mut v: u64 = 0;
    let mut j: usize = start;
    while j < start + 16
        invariant
            start <= j <= start + 16,
            start + 16 <= digits@.len() == 32,
            forall|k: int| 0 <= k < 32 ==> #[trigger] digits@[k] < 16,
            v == hex_val(digits@.subrange(start as int, j as int)),
        decreases start + 16 - j,
    {
        proof {
            lemma_hex_val_bound(digits@.subrange(start as int, j as int));
            lemma2_to64();
            lemma2_to64_rest();
            if 4 * (j - start) < 60 {
                lemma_pow2_strictly_increases((4 * (j - start)) as nat, 60);
            }
            assert(digits@.subrange(start as int, j as int + 1).drop_last() =~= digits@.subrange(
                start as int,
                j as int,
            ));
        }
        let d = digits[j];
        v = v * 16 + (d as u64);
        j = j + 1;
    }
    v
}

/// Relies on `uuid::Uuid::new_v4` and `as_u64_pair`: a freshly generated
/// random identifier, split into its high and low 64 bits. The value is
/// random, so nothing is assumed of it; callers treat a collision with an
/// existing identifier as possible.
#[verifier::external_body]
pub(crate) fn random_uid() -> Uid {
    let (hi, lo) = uuid::Uuid::new_v4().as_u64_pair();
    Uid { hi, lo }
}

} // verus!
