//! Identifiers of actors, receivers, sockets and transports: 128-bit UUIDs held as integers.

use vstd::prelude::*;

verus! {

/// A UUID as the integer that its sixteen bytes write in big-endian order.
pub type ActorUuid = u128;

/// Powers of sixteen.
pub open spec fn pow16(n: nat) -> nat
    decreases n,
{
    if n == 0 {
        1
    } else {
        16 * pow16((n - 1) as nat)
    }
}

/// The `k`-th hexadecimal digit of an identifier, counted from the most significant of its 32.
pub open spec fn nibble(id: u128, k: int) -> int {
    (id as int / pow16((31 - k) as nat) as int) % 16
}

/// The lower-case character of a hexadecimal digit.
pub open spec fn hex_char(d: int) -> char {
    if d < 10 {
        (48 + d) as char
    } else {
        (87 + d) as char
    }
}

/// Where the hyphens stand in the text of an identifier.
pub open spec fn is_hyphen_place(p: int) -> bool {
    p == 8 || p == 13 || p == 18 || p == 23
}

/// Which hexadecimal digit stands at a place of the text that holds no hyphen.
pub open spec fn digit_at(p: int) -> int {
    if p < 8 {
        p
    } else if p < 13 {
        p - 1
    } else if p < 18 {
        p - 2
    } else if p < 23 {
        p - 3
    } else {
        p - 4
    }
}

/// Where the text holds the `k`-th hexadecimal digit.
pub open spec fn place_of(k: int) -> int {
    if k < 8 {
        k
    } else if k < 12 {
        k + 1
    } else if k < 16 {
        k + 2
    } else if k < 20 {
        k + 3
    } else {
        k + 4
    }
}

/// The hyphenated lower-case text of an identifier: eight, four, four, four and twelve digits.
pub open spec fn uuid_chars(id: u128) -> Seq<char> {
    Seq::new(
        36,
        |p: int|
            if is_hyphen_place(p) {
                '-'
            } else {
                hex_char(nibble(id, digit_at(p)))
            },
    )
}

/// Calls `Uuid::to_string` on the identifier: the hyphenated form in lower case.
#[verifier::external_body]
pub(crate) fn uuid_text(id: u128) -> (r: String)
    ensures
        r@ == uuid_chars(id),
{
    active_uuid_registry::registry_uuid::Uuid::from_u128(id).to_string()
}

/// The number that bytes write in big-endian order.
pub open spec fn big_endian(bytes: Seq<u8>) -> nat
    decreases bytes.len(),
{
    if bytes.len() == 0 {
        0
    } else {
        big_endian(bytes.drop_last()) * 256 + bytes.last() as nat
    }
}

/// Calls `Uuid::from_bytes` on sixteen bytes.
#[verifier::external_body]
pub(crate) fn uuid_from_bytes(bytes: &Vec<u8>) -> (r: u128)
    requires
        bytes@.len() == 16,
    ensures
        r as nat == big_endian(bytes@),
{
    let mut array = [0u8; 16];
    array.copy_from_slice(bytes);
    active_uuid_registry::registry_uuid::Uuid::from_bytes(array).as_u128()
}

/// The nil UUID has every bit unset.
pub open spec fn is_nil(id: u128) -> bool {
    id == 0
}

/// The place of the first difference decides which text comes first.
pub open spec fn text_before(a: Seq<char>, b: Seq<char>) -> bool {
    ||| a.len() < b.len() && a == b.take(a.len() as int)
    ||| exists|p: int|
        0 <= p < a.len() && p < b.len() && (#[trigger] a[p]) < b[p] && a.take(p) == b.take(p)
}

proof fn lemma_pow16_positive(n: nat)
    ensures
        pow16(n) > 0,
    decreases n,
{
    if n > 0 {
        lemma_pow16_positive((n - 1) as nat);
    }
}

/// The first `k` hexadecimal digits as a number.
spec fn leading(id: u128, k: int) -> int {
    id as int / pow16((32 - k) as nat) as int
}

proof fn lemma_leading_step(id: u128, k: int)
    requires
        0 <= k < 32,
    ensures
        leading(id, k + 1) == 16 * leading(id, k) + nibble(id, k),
        0 <= nibble(id, k) < 16,
{
    let m = pow16((31 - k) as nat) as int;
    lemma_pow16_positive((31 - k) as nat);
    let x = id as int;
    assert(pow16((32 - k) as nat) as int == 16 * m);
    vstd::arithmetic::div_mod::lemma_div_denominator(x, m, 16);
    assert(m * 16 == 16 * m) by (nonlinear_arith);
    let q = x / m;
    assert(leading(id, k) == q / 16);
    assert(q == 16 * (q / 16) + q % 16);
}

proof fn lemma_leading_ends(id: u128)
    ensures
        leading(id, 0) == 0,
        leading(id, 32) == id,
{
    assert(pow16(32) == 0x1_0000_0000_0000_0000_0000_0000_0000_0000) by {
        reveal_with_fuel(pow16, 33);
    }
    assert(pow16(0) == 1);
    assert(id as int / pow16(32) as int == 0) by {
        vstd::arithmetic::div_mod::lemma_basic_div(id as int, pow16(32) as int);
    }
    assert(id as int / 1 == id as int);
}

proof fn lemma_first_difference(a: u128, b: u128, upto: int) -> (k: int)
    requires
        0 <= upto <= 32,
        leading(a, upto) != leading(b, upto),
    ensures
        0 <= k < upto,
        leading(a, k) == leading(b, k),
        leading(a, k + 1) != leading(b, k + 1),
        forall|j: int| 0 <= j < k ==> nibble(a, j) == nibble(b, j),
    decreases upto,
{
    lemma_leading_ends(a);
    lemma_leading_ends(b);
    assert(upto > 0);
    if leading(a, upto - 1) == leading(b, upto - 1) {
        lemma_equal_prefix(a, b, upto - 1);
        upto - 1
    } else {
        lemma_first_difference(a, b, upto - 1)
    }
}

proof fn lemma_equal_prefix(a: u128, b: u128, k: int)
    requires
        0 <= k <= 32,
        leading(a, k) == leading(b, k),
    ensures
        forall|j: int| 0 <= j < k ==> nibble(a, j) == nibble(b, j),
    decreases k,
{
    if k > 0 {
        lemma_leading_step(a, k - 1);
        lemma_leading_step(b, k - 1);
        lemma_equal_prefix(a, b, k - 1);
        assert forall|j: int| 0 <= j < k implies nibble(a, j) == nibble(b, j) by {
            if j == k - 1 {
            }
        }
    }
}

/// The texts of two identifiers stand in the order of the identifiers as numbers.
pub proof fn lemma_text_order_is_numeric(a: u128, b: u128)
    requires
        a < b,
    ensures
        text_before(uuid_chars(a), uuid_chars(b)),
{
    lemma_leading_ends(a);
    lemma_leading_ends(b);
    let k = lemma_first_difference(a, b, 32);
    lemma_leading_step(a, k);
    lemma_leading_step(b, k);
    let m = pow16((31 - k) as nat) as int;
    lemma_pow16_positive((31 - k) as nat);
    vstd::arithmetic::div_mod::lemma_div_is_ordered(a as int, b as int, m);
    assert(leading(a, k + 1) <= leading(b, k + 1));
    assert(nibble(a, k) < nibble(b, k));
    let p = place_of(k);
    let ta = uuid_chars(a);
    let tb = uuid_chars(b);
    assert(digit_at(p) == k && !is_hyphen_place(p));
    assert(ta[p] < tb[p]);
    assert forall|q: int| 0 <= q < p implies ta[q] == tb[q] by {
        if !is_hyphen_place(q) {
            assert(0 <= digit_at(q) < k);
            assert(nibble(a, digit_at(q)) == nibble(b, digit_at(q)));
        }
    }
    assert(ta.take(p) =~= tb.take(p));
}

/// Different identifiers have different texts.
pub proof fn lemma_text_is_unique(a: u128, b: u128)
    requires
        uuid_chars(a) == uuid_chars(b),
    ensures
        a == b,
{
    if a < b {
        lemma_text_order_is_numeric(a, b);
    } else if b < a {
        lemma_text_order_is_numeric(b, a);
    }
}

/// Only the identifier of which every bit is unset is nil.
pub proof fn law_only_zero_is_nil(id: u128)
    ensures
        is_nil(id) <==> id == 0,
{
}

/// A byte behind others counts once, and the others each as often as a byte has values.
pub proof fn law_bytes_count_place_by_place(bytes: Seq<u8>, last: u8)
    ensures
        big_endian(Seq::empty()) == 0,
        big_endian(seq![last]) == last,
        big_endian(bytes.push(last)) == big_endian(bytes) * 256 + last,
{
    assert(bytes.push(last).drop_last() =~= bytes);
    let one = seq![last];
    assert(one.drop_last() =~= Seq::<u8>::empty());
    assert(one.last() == last);
    assert(big_endian(one.drop_last()) == 0);
}

/// The text of an identifier has thirty-six places, with hyphens at four of them.
pub proof fn law_identifiers_are_hyphenated(id: u128)
    ensures
        uuid_chars(id).len() == 36,
        uuid_chars(id)[8] == '-' && uuid_chars(id)[13] == '-' && uuid_chars(id)[18] == '-'
            && uuid_chars(id)[23] == '-',
{
}

} // verus!
