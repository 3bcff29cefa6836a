//! Reading the textual identifiers that the recipient store keeps into non-zero
//! 64-bit integers, with the rules of std's `NonZeroU64::from_str`.
use vstd::prelude::*;
use vstd::string::StringSliceAdditionalSpecFns;

verus! {

/// Why a text is no identifier.
#[derive(Debug, Clone, Copy, PartialEq, Eq, Structural)]
pub enum IdErrorKind {
    /// The text is empty.
    Empty,
    /// A byte is not a decimal digit (or a sign stands alone).
    InvalidDigit,
    /// The number does not fit in 64 bits.
    PosOverflow,
    /// The number is zero.
    Zero,
}

/// The byte is an ASCII decimal digit.
pub open spec fn is_digit(b: u8) -> bool {
    48 <= b <= 57
}

/// The value of a run of decimal digits read from the left, or the first fault: a
/// byte that is no digit, or a prefix whose value no longer fits in 64 bits.
pub open spec fn digits_value(ds: Seq<u8>) -> Result<nat, IdErrorKind>
    decreases ds.len(),
{
    if ds.len() == 0 {
        Ok(0)
    } else {
        match digits_value(ds.drop_last()) {
            Err(k) => Err(k),
            Ok(v) => if !is_digit(ds.last()) {
                Err(IdErrorKind::InvalidDigit)
            } else if v * 10 + (ds.last() - 48) > u64::MAX {
                Err(IdErrorKind::PosOverflow)
            } else {
                Ok((v * 10 + (ds.last() - 48)) as nat)
            },
        }
    }
}

/// What reading `text` as a non-zero identifier gives: an optional leading `+`
/// followed by decimal digits, whose value lies in `1..=u64::MAX`.
pub open spec fn id_from_bytes(text: Seq<u8>) -> Result<u64, IdErrorKind> {
    if text.len() == 0 {
        Err(IdErrorKind::Empty)
    } else {
        let ds = if text[0] == 43 && text.len() > 1 {
            text.drop_first()
        } else {
            text
        };
        match digits_value(ds) {
            Err(k) => Err(k),
            Ok(v) => if v == 0 {
                Err(IdErrorKind::Zero)
            } else {
                Ok(v as u64)
            },
        }
    }
}

/// Reads a non-zero decimal identifier.
pub fn parse_id(text: &str) -> (r: Result<u64, IdErrorKind>)
    ensures
        r == id_from_bytes(text.spec_bytes()),
{
    let b = text.as_bytes();
    let n = b.len();
    if n == 0 {
        return Err(IdErrorKind::Empty);
    }
    let start: usize = if b[0] == 43 && n > 1 {
        1
    } else {
        0
    };
    let ghost ds = if start == 1 {
        b@.drop_first()
    } else {
        b@
    };
    assert(ds == b@.subrange(start as int, n as int));
    let mut v: u64 = 0;
    let mut i: usize = start;
    while i < n
        invariant
            n == b@.len(),
            b@ == text.spec_bytes(),
            n > 0,
            ds == (if b@[0] == 43 && n > 1 {
                b@.drop_first()
            } else {
                b@
            }),
            start <= i <= n,
            ds == b@.subrange(start as int, n as int),
            digits_value(ds.subrange(0, i - start)) == Ok::<nat, IdErrorKind>(v as nat),
        decreases n - i,
    {
        let ghost pre = ds.subrange(0, i + 1 - start);
        assert(pre.drop_last() == ds.subrange(0, i - start));
        assert(pre.last() == b@[i as int]);
        let c = b[i];
        if c < 48 || c > 57 {
            proof {
                lemma_fault_of_prefix(ds, i + 1 - start);
            }
            return Err(IdErrorKind::InvalidDigit);
        }
        let d = (c - 48) as u64;
        match v.checked_mul(10) {
            None => {
                proof {
                    lemma_fault_of_prefix(ds, i + 1 - start);
                }
                return Err(IdErrorKind::PosOverflow);
            },
            Some(t) => match t.checked_add(d) {
                None => {
                    proof {
                        lemma_fault_of_prefix(ds, i + 1 - start);
                    }
                    return Err(IdErrorKind::PosOverflow);
                },
                Some(w) => {
                    v = w;
                },
            },
        }
        i = i + 1;
    }
    assert(ds.subrange(0, n - start) == ds);
    if v == 0 {
        Err(IdErrorKind::Zero)
    } else {
        Ok(v)
    }
}

/// Once a prefix of the digits holds a fault, it is the fault of the whole run.
proof fn lemma_fault_of_prefix(ds: Seq<u8>, k: int)
    requires
        0 <= k <= ds.len(),
        digits_value(ds.subrange(0, k)) is Err,
    ensures
        digits_value(ds) == digits_value(ds.subrange(0, k)),
    decreases ds.len() - k,
{
    if k < ds.len() {
        assert(ds.subrange(0, k + 1).drop_last() == ds.subrange(0, k));
        lemma_fault_of_prefix(ds, k + 1);
    } else {
        assert(ds.subrange(0, k) == ds);
    }
}

} // verus!
