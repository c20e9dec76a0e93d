//! Base58 text: what it stands for, and that it stands for one thing only.

use vstd::prelude::*;

verus! {

/// The digit that a character of the Bitcoin alphabet stands for, and -1 for any
/// other character. The alphabet has no `0`, `I`, `O` or `l`.
pub open spec fn digit58(c: char) -> int {
    if '1' <= c <= '9' {
        c as int - '1' as int
    } else if 'A' <= c <= 'H' {
        c as int - 'A' as int + 9
    } else if 'J' <= c <= 'N' {
        c as int - 'J' as int + 17
    } else if 'P' <= c <= 'Z' {
        c as int - 'P' as int + 22
    } else if 'a' <= c <= 'k' {
        c as int - 'a' as int + 33
    } else if 'm' <= c <= 'z' {
        c as int - 'm' as int + 44
    } else {
        -1
    }
}

/// Whether every character is of the alphabet.
pub open spec fn is_base58(text: Seq<char>) -> bool {
    forall|i: int| 0 <= i < text.len() ==> digit58(#[trigger] text[i]) >= 0
}

/// The digits of a base58 text.
pub open spec fn text_digits(text: Seq<char>) -> Seq<int> {
    text.map_values(|c: char| digit58(c))
}

/// Bytes as digits.
pub open spec fn byte_digits(bytes: Seq<u8>) -> Seq<int> {
    bytes.map_values(|b: u8| b as int)
}

/// The number that digits stand for, the highest one first.
pub open spec fn digits_value(digits: Seq<int>, base: int) -> int
    decreases digits.len(),
{
    if digits.len() == 0 {
        0
    } else {
        digits_value(digits.drop_last(), base) * base + digits.last()
    }
}

/// How many zeros stand at the front.
pub open spec fn leading_zeros(digits: Seq<int>) -> nat
    decreases digits.len(),
{
    if digits.len() == 0 || digits[0] != 0 {
        0
    } else {
        1 + leading_zeros(digits.drop_first())
    }
}

/// Whether `text` is the base58 form of `bytes`: the two stand for the same
/// number and have the same count of zeros in front.
pub open spec fn base58_of(text: Seq<char>, bytes: Seq<u8>) -> bool {
    &&& is_base58(text)
    &&& digits_value(text_digits(text), 58) == digits_value(byte_digits(bytes), 256)
    &&& leading_zeros(text_digits(text)) == leading_zeros(byte_digits(bytes))
}

/// The bytes of which `text` is the base58 form.
pub open spec fn base58_bytes(text: Seq<char>) -> Seq<u8> {
    choose|bytes: Seq<u8>| base58_of(text, bytes)
}

/// `bs58::decode(..).into_vec()` with its default alphabet, that of Bitcoin: the
/// bytes of which the text is the base58 form, and an error exactly where a
/// character is not of the alphabet.
#[verifier::external_body]
pub(crate) fn decode(text: &str) -> (r: Result<Vec<u8>, bs58::decode::Error>)
    ensures
        match r {
            Ok(bytes) => base58_of(text@, bytes@),
            Err(_) => !is_base58(text@),
        },
{
    bs58::decode(text).into_vec()
}

/// `bs58::encode(..).into_string()` with its default alphabet, that of Bitcoin:
/// the base58 form of the bytes.
#[verifier::external_body]
pub(crate) fn encode(bytes: &[u8]) -> (r: String)
    ensures
        base58_of(r@, bytes@),
{
    bs58::encode(bytes).into_string()
}

/// Digits of a base: none is negative and none reaches the base.
pub open spec fn are_digits(digits: Seq<int>, base: int) -> bool {
    forall|i: int| 0 <= i < digits.len() ==> 0 <= #[trigger] digits[i] < base
}

proof fn lemma_value_nonnegative(digits: Seq<int>, base: int)
    requires
        are_digits(digits, base),
        base > 0,
    ensures
        digits_value(digits, base) >= 0,
    decreases digits.len(),
{
    if digits.len() > 0 {
        lemma_value_nonnegative(digits.drop_last(), base);
        assert(digits_value(digits.drop_last(), base) * base >= 0) by (nonlinear_arith)
            requires
                digits_value(digits.drop_last(), base) >= 0,
                base > 0,
        ;
    }
}

proof fn lemma_leading_zeros_bound(digits: Seq<int>)
    ensures
        leading_zeros(digits) <= digits.len(),
        leading_zeros(digits) < digits.len() ==> digits[leading_zeros(digits) as int] != 0,
        forall|i: int| 0 <= i < leading_zeros(digits) ==> digits[i] == 0,
    decreases digits.len(),
{
    if digits.len() > 0 && digits[0] == 0 {
        let rest = digits.drop_first();
        lemma_leading_zeros_bound(rest);
        assert forall|i: int| 0 <= i < leading_zeros(digits) implies digits[i] == 0 by {
            if i > 0 {
                assert(digits[i] == rest[i - 1]);
            }
        }
    }
}

/// The count of leading zeros is the only number with these properties.
proof fn lemma_leading_zeros_is(digits: Seq<int>, n: nat)
    requires
        n <= digits.len(),
        n < digits.len() ==> digits[n as int] != 0,
        forall|i: int| 0 <= i < n ==> digits[i] == 0,
    ensures
        leading_zeros(digits) == n,
{
    lemma_leading_zeros_bound(digits);
    let m = leading_zeros(digits);
    if m < n {
        assert(digits[m as int] == 0);
    }
    if n < m {
        assert(digits[n as int] == 0);
    }
}

/// A number is 0 exactly where all its digits are zeros.
proof fn lemma_value_zero(digits: Seq<int>, base: int)
    requires
        are_digits(digits, base),
        base > 0,
    ensures
        digits_value(digits, base) == 0 <==> leading_zeros(digits) == digits.len(),
    decreases digits.len(),
{
    if digits.len() > 0 {
        let front = digits.drop_last();
        let value = digits_value(front, base);
        lemma_value_zero(front, base);
        lemma_value_nonnegative(front, base);
        lemma_leading_zeros_bound(front);
        lemma_leading_zeros_bound(digits);
        assert(value == 0 ==> value * base == 0) by (nonlinear_arith);
        assert(value > 0 ==> value * base > 0) by (nonlinear_arith)
            requires
                base > 0,
        ;
        if leading_zeros(digits) == digits.len() {
            assert forall|i: int| 0 <= i < front.len() implies front[i] == 0 by {
                assert(digits[i] == 0);
            }
            lemma_leading_zeros_is(front, front.len());
            assert(digits[digits.len() - 1] == 0);
        }
        if digits_value(digits, base) == 0 {
            assert forall|i: int| 0 <= i < digits.len() implies digits[i] == 0 by {
                if i < front.len() {
                    assert(front[i] == 0);
                }
            }
            lemma_leading_zeros_is(digits, digits.len());
        }
    }
}

/// Digits that stand for the same number and have the same count of zeros in
/// front are the same digits.
pub proof fn digits_are_unique(a: Seq<int>, b: Seq<int>, base: int)
    requires
        base > 1,
        are_digits(a, base),
        are_digits(b, base),
        digits_value(a, base) == digits_value(b, base),
        leading_zeros(a) == leading_zeros(b),
    ensures
        a == b,
    decreases a.len(),
{
    lemma_value_zero(a, base);
    lemma_value_zero(b, base);
    lemma_leading_zeros_bound(a);
    lemma_leading_zeros_bound(b);
    if digits_value(a, base) == 0 {
        assert(a =~= b);
    } else {
        assert(a.len() > 0 && b.len() > 0);
        let fa = a.drop_last();
        let fb = b.drop_last();
        let va = digits_value(fa, base);
        let vb = digits_value(fb, base);
        assert(va * base + a.last() == vb * base + b.last());
        assert(va == vb && a.last() == b.last()) by (nonlinear_arith)
            requires
                va * base + a.last() == vb * base + b.last(),
                0 <= a.last() < base,
                0 <= b.last() < base,
                base > 1,
        ;
        lemma_leading_zeros_is(fa, leading_zeros(a));
        lemma_leading_zeros_is(fb, leading_zeros(b));
        digits_are_unique(fa, fb, base);
        assert(a =~= fa.push(a.last()));
        assert(b =~= fb.push(b.last()));
    }
}

/// A text is the base58 form of one sequence of bytes only: what was encoded is
/// what is decoded.
pub proof fn base58_round_trip(text: Seq<char>, bytes: Seq<u8>, decoded: Seq<u8>)
    requires
        base58_of(text, bytes),
        base58_of(text, decoded),
    ensures
        decoded == bytes,
        base58_bytes(text) == bytes,
{
    lemma_same_bytes(text, bytes, decoded);
    lemma_same_bytes(text, bytes, base58_bytes(text));
}

proof fn lemma_same_bytes(text: Seq<char>, bytes: Seq<u8>, decoded: Seq<u8>)
    requires
        base58_of(text, bytes),
        base58_of(text, decoded),
    ensures
        decoded == bytes,
{
    digits_are_unique(byte_digits(bytes), byte_digits(decoded), 256);
    assert forall|i: int| 0 <= i < bytes.len() implies bytes[i] == decoded[i] by {
        assert(byte_digits(bytes)[i] == byte_digits(decoded)[i]);
    }
    assert(byte_digits(bytes).len() == byte_digits(decoded).len());
    assert(bytes =~= decoded);
}

/// Bytes have one base58 form only.
pub proof fn base58_form_is_unique(bytes: Seq<u8>, first: Seq<char>, second: Seq<char>)
    requires
        base58_of(first, bytes),
        base58_of(second, bytes),
    ensures
        first == second,
{
    let a = text_digits(first);
    let b = text_digits(second);
    assert forall|i: int| 0 <= i < a.len() implies 0 <= #[trigger] a[i] < 58 by {
        assert(digit58(first[i]) >= 0);
    }
    assert forall|i: int| 0 <= i < b.len() implies 0 <= #[trigger] b[i] < 58 by {
        assert(digit58(second[i]) >= 0);
    }
    digits_are_unique(a, b, 58);
    assert(first.len() == a.len() && second.len() == b.len());
    assert forall|i: int| 0 <= i < first.len() implies first[i] == second[i] by {
        assert(a[i] == b[i]);
        assert(digit58(first[i]) >= 0);
    }
    assert(first =~= second);
}

} // verus!
