//! Identifiers and time: UUIDs held as `u128`, timestamps as milliseconds
//! since the Unix epoch.

use vstd::prelude::*;

verus! {

/// A UUID as its 128-bit big-endian value.
pub type Uuid = u128;

/// Milliseconds since the Unix epoch (UTC).
pub type Timestamp = i64;

/// A fresh time-ordered UUID (version 7).
///
/// Calls `uuid::Uuid::now_v7` and returns its 128-bit value. Nothing is
/// claimed of the value: it depends on the clock and on random bits.
#[verifier::external_body]
pub(crate) fn new_uuid_v7() -> (r: Uuid) {
    uuid::Uuid::now_v7().as_u128()
}

/// The current time.
///
/// Calls `chrono::Utc::now` and returns its `timestamp_millis`. Nothing is
/// claimed of the value: it depends on the clock.
#[verifier::external_body]
pub(crate) fn now_millis() -> (r: Timestamp) {
    chrono::Utc::now().timestamp_millis()
}

/// The lowercase hexadecimal digit for `n < 16`.
pub open spec fn hex_digit(n: int) -> char {
    if n < 10 {
        (('0' as int) + n) as char
    } else {
        (('a' as int) + n - 10) as char
    }
}

/// The `k`-th hexadecimal digit of `v` counted from the most significant of
/// 32 digits.
pub open spec fn nibble(v: u128, k: int) -> int {
    ((v as int) / pow16(31 - k)) % 16
}

/// `16^n`.
pub open spec fn pow16(n: int) -> int
    decreases n,
{
    if n <= 0 {
        1
    } else {
        16 * pow16(n - 1)
    }
}

/// The 32 lowercase hexadecimal digits of `v`, most significant first.
pub open spec fn hex32(v: u128) -> Seq<char> {
    Seq::new(32, |k: int| hex_digit(nibble(v, k)))
}

/// The hyphenated text of a UUID: 8-4-4-4-12 lowercase hexadecimal digits.
pub open spec fn uuid_text_spec(v: u128) -> Seq<char> {
    let h = hex32(v);
    h.subrange(0, 8) + seq!['-'] + h.subrange(8, 12) + seq!['-'] + h.subrange(12, 16) + seq!['-']
        + h.subrange(16, 20) + seq!['-'] + h.subrange(20, 32)
}

/// The one-character text of the hexadecimal digit `n < 16`.
pub(crate) fn hex_str(n: u8) -> (s: &'static str)
    requires
        n < 16,
    ensures
        s@ == seq![hex_digit(n as int)],
{
    let digits: [&'static str; 16] = [
        "0", "1", "2", "3", "4", "5", "6", "7", "8", "9", "a", "b", "c", "d", "e", "f",
    ];
    proof {
        reveal_strlit("0");
        reveal_strlit("1");
        reveal_strlit("2");
        reveal_strlit("3");
        reveal_strlit("4");
        reveal_strlit("5");
        reveal_strlit("6");
        reveal_strlit("7");
        reveal_strlit("8");
        reveal_strlit("9");
        reveal_strlit("a");
        reveal_strlit("b");
        reveal_strlit("c");
        reveal_strlit("d");
        reveal_strlit("e");
        reveal_strlit("f");
        assert(digits@[n as int]@ =~= seq![hex_digit(n as int)]);
    }
    digits[n as usize]
}

pub(crate) proof fn lemma_pow16_positive(n: int)
    ensures
        pow16(n) >= 1,
    decreases n,
{
    if n > 0 {
        lemma_pow16_positive(n - 1);
    }
}

/// The hyphenated lowercase text of a UUID, as `uuid::Uuid`'s `Display`
/// writes it (for example `0190e1c4-...`).
pub fn uuid_text(id: Uuid) -> (r: String)
    ensures
        r@ == uuid_text_spec(id),
{
    let mut k: usize = 0;
    let mut rest: u128 = id;
    let mut rev: Vec<u8> = Vec::new();
    // Collect the digits least significant first.
    while k < 32
        invariant
            k <= 32,
            rev@.len() == k,
            rest as int == (id as int) / pow16(k as int),
            forall|j: int|
                0 <= j < k ==> #[trigger] rev@[j] as int == ((id as int) / pow16(j)) % 16,
        decreases 32 - k,
    {
        let n = (rest % 16) as u8;
        proof {
            lemma_pow16_positive(k as int);
            assert(pow16(k as int + 1) == 16 * pow16(k as int));
            vstd::arithmetic::div_mod::lemma_div_denominator(id as int, pow16(k as int), 16);
            assert((id as int) / pow16(k as int + 1) == ((id as int) / pow16(k as int)) / 16)
                by (nonlinear_arith)
                requires
                    (id as int) / (pow16(k as int) * 16) == ((id as int) / pow16(k as int)) / 16,
                    pow16(k as int + 1) == 16 * pow16(k as int),
            ;
        }
        rev.push(n);
        rest = rest / 16;
        k = k + 1;
    }
    // Reverse them, inserting the hyphens.
    let mut out = String::new();
    let mut i: usize = 0;
    let ghost h = hex32(id);
    assert forall|j: int| 0 <= j < 32 implies hex_digit(rev@[31 - j] as int) == #[trigger] h[j] by {
        assert(nibble(id, j) == ((id as int) / pow16(31 - j)) % 16);
    }
    while i < 32
        invariant
            i <= 32,
            rev@.len() == 32,
            h == hex32(id),
            forall|j: int| 0 <= j < 32 ==> hex_digit(rev@[31 - j] as int) == #[trigger] h[j],
            forall|j: int| 0 <= j < 32 ==> #[trigger] rev@[j] < 16,
            out@ == (if i <= 8 {
                h.subrange(0, i as int)
            } else if i <= 12 {
                h.subrange(0, 8) + seq!['-'] + h.subrange(8, i as int)
            } else if i <= 16 {
                h.subrange(0, 8) + seq!['-'] + h.subrange(8, 12) + seq!['-'] + h.subrange(
                    12,
                    i as int,
                )
            } else if i <= 20 {
                h.subrange(0, 8) + seq!['-'] + h.subrange(8, 12) + seq!['-'] + h.subrange(12, 16)
                    + seq!['-'] + h.subrange(16, i as int)
            } else {
                h.subrange(0, 8) + seq!['-'] + h.subrange(8, 12) + seq!['-'] + h.subrange(12, 16)
                    + seq!['-'] + h.subrange(16, 20) + seq!['-'] + h.subrange(20, i as int)
            }),
        decreases 32 - i,
    {
        if i == 8 || i == 12 || i == 16 || i == 20 {
            out.append("-");
            proof {
                reveal_strlit("-");
            }
        }
        let n = rev[31 - i];
        out.append(hex_str(n));
        proof {
            assert(h.subrange(0, i as int + 1) =~= h.subrange(0, i as int).push(h[i as int]));
        }
        assert(out@ =~= (if i + 1 <= 8 {
            h.subrange(0, i + 1)
        } else if i + 1 <= 12 {
            h.subrange(0, 8) + seq!['-'] + h.subrange(8, i + 1)
        } else if i + 1 <= 16 {
            h.subrange(0, 8) + seq!['-'] + h.subrange(8, 12) + seq!['-'] + h.subrange(12, i + 1)
        } else if i + 1 <= 20 {
            h.subrange(0, 8) + seq!['-'] + h.subrange(8, 12) + seq!['-'] + h.subrange(12, 16)
                + seq!['-'] + h.subrange(16, i + 1)
        } else {
            h.subrange(0, 8) + seq!['-'] + h.subrange(8, 12) + seq!['-'] + h.subrange(12, 16)
                + seq!['-'] + h.subrange(16, 20) + seq!['-'] + h.subrange(20, i + 1)
        }));
        i = i + 1;
    }
    out
}

} // verus!
