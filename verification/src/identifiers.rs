//! The textual form of item identifiers: the letter `Q`, then a decimal number.

use vstd::prelude::*;

verus! {

/// The character that stands for the digit `d`, for `d` below ten.
pub open spec fn digit(d: nat) -> char {
    ('0' as nat + d) as char
}

/// Whether `c` is one of the ten decimal digits.
pub open spec fn is_digit(c: char) -> bool {
    '0' <= c <= '9'
}

/// The decimal digits of `n`, the most significant first, without leading zeros.
pub open spec fn decimal(n: nat) -> Seq<char>
    decreases n,
{
    if n < 10 {
        seq![digit(n)]
    } else {
        decimal(n / 10).push(digit(n % 10))
    }
}

/// The identifier of the item with number `n`.
pub open spec fn item_id_text(n: nat) -> Seq<char> {
    seq!['Q'] + decimal(n)
}

/// Whether `s` has the form of an item identifier: `Q`, then at least one digit,
/// then nothing but digits.
pub open spec fn is_item_id_text(s: Seq<char>) -> bool {
    &&& s.len() >= 2
    &&& s[0] == 'Q'
    &&& forall|i: int| 1 <= i < s.len() ==> is_digit(#[trigger] s[i])
}

/// What `is_item_id_text` asks of the characters read so far.
spec fn is_item_id_prefix(s: Seq<char>) -> bool {
    &&& s.len() >= 1 ==> s[0] == 'Q'
    &&& forall|i: int| 1 <= i < s.len() ==> is_digit(#[trigger] s[i])
}

/// The one-character text of the digit `d`.
fn digit_text(d: u64) -> (text: &'static str)
    requires
        d < 10,
    ensures
        text@ == seq![digit(d as nat)],
{
    proof {
        reveal_strlit("0");
        reveal_strlit("1");
        reveal_strlit("2");
        reveal_strlit("3");
        reveal_strlit("4");
        reveal_strlit("5");
        reveal_strlit("6");
        reveal_strlit("7");
        reveal_strlit("8");
        reveal_strlit("9");
    }
    if d == 0 {
        "0"
    } else if d == 1 {
        "1"
    } else if d == 2 {
        "2"
    } else if d == 3 {
        "3"
    } else if d == 4 {
        "4"
    } else if d == 5 {
        "5"
    } else if d == 6 {
        "6"
    } else if d == 7 {
        "7"
    } else if d == 8 {
        "8"
    } else {
        "9"
    }
}

/// Appends the decimal digits of `n` to `out`.
fn push_decimal(n: u64, out: &mut String)
    ensures
        final(out)@ == old(out)@ + decimal(n as nat),
    decreases n,
{
    if n >= 10 {
        push_decimal(n / 10, out);
    }
    out.append(digit_text(n % 10));
}

/// The identifier of the item with number `n`, such as `Q42`.
pub fn item_id(n: u64) -> (id: String)
    ensures
        id@ == item_id_text(n as nat),
{
    proof {
        reveal_strlit("Q");
    }
    let mut id = String::from_str("Q");
    push_decimal(n, &mut id);
    id
}

/// Whether `s` has the form of an item identifier, such as `Q42`.
pub fn is_item_id(s: &str) -> (yes: bool)
    ensures
        yes == is_item_id_text(s@),
{
    broadcast use vstd::string::group_string_axioms;

    let mut ok = true;
    let mut seen: u8 = 0;
    for c in it: s.chars()
        invariant
            it.seq() == s@,
            ok == is_item_id_prefix(s@.take(it.index() as int)),
            seen == if it.index() >= 2 { 2int } else { it.index() as int },
    {
        assert(s@.take(it.index() + 1)[it.index() as int] == c);
        if seen == 0 {
            if c != 'Q' {
                ok = false;
            }
            seen = 1;
        } else {
            if !('0' <= c && c <= '9') {
                ok = false;
            }
            seen = 2;
        }
    }
    assert(s@.take(s@.len() as int) =~= s@);
    ok && seen == 2
}

/// Every item has an identifier of the recognised form.
pub proof fn lemma_item_id_has_the_form(n: nat)
    ensures
        is_item_id_text(item_id_text(n)),
{
    lemma_decimal_is_digits(n);
}

/// The decimal form of a number has at least one character, and digits only.
pub proof fn lemma_decimal_is_digits(n: nat)
    ensures
        decimal(n).len() >= 1,
        forall|i: int| 0 <= i < decimal(n).len() ==> is_digit(#[trigger] decimal(n)[i]),
    decreases n,
{
    if n >= 10 {
        lemma_decimal_is_digits(n / 10);
    }
}

/// The number that the decimal digits `s` stand for.
pub open spec fn number_of(s: Seq<char>) -> nat
    decreases s.len(),
{
    if s.len() == 0 {
        0
    } else {
        (number_of(s.drop_last()) * 10 + (s.last() as nat - '0' as nat)) as nat
    }
}

/// The decimal form of a number stands for that number.
pub proof fn lemma_decimal_round_trip(n: nat)
    ensures
        number_of(decimal(n)) == n,
    decreases n,
{
    if n < 10 {
        assert(number_of(decimal(n).drop_last()) == 0);
    } else {
        lemma_decimal_round_trip(n / 10);
        assert(decimal(n).drop_last() =~= decimal(n / 10));
    }
}

/// Two items with the same identifier are the same item.
pub proof fn lemma_item_id_is_injective(a: nat, b: nat)
    requires
        item_id_text(a) == item_id_text(b),
    ensures
        a == b,
{
    assert(item_id_text(a).subrange(1, item_id_text(a).len() as int) =~= decimal(a));
    assert(item_id_text(b).subrange(1, item_id_text(b).len() as int) =~= decimal(b));
    lemma_decimal_round_trip(a);
    lemma_decimal_round_trip(b);
}

} // verus!
