//! Record identifiers: a prefix, an underscore and a number in decimal.
//! Different numbers give different identifiers.
use vstd::prelude::*;
use vstd::string::StringExecFns;

verus! {

/// The character of a decimal digit.
pub open spec fn digit_char(d: nat) -> char {
    if d == 0 {
        '0'
    } else if d == 1 {
        '1'
    } else if d == 2 {
        '2'
    } else if d == 3 {
        '3'
    } else if d == 4 {
        '4'
    } else if d == 5 {
        '5'
    } else if d == 6 {
        '6'
    } else if d == 7 {
        '7'
    } else if d == 8 {
        '8'
    } else {
        '9'
    }
}

/// A number in decimal, without leading zeros.
pub open spec fn decimal(n: nat) -> Seq<char>
    decreases n,
{
    if n < 10 {
        seq![digit_char(n)]
    } else {
        decimal(n / 10).push(digit_char(n % 10))
    }
}

/// The identifier made of `prefix` and `number`.
pub open spec fn id_text(prefix: Seq<char>, number: u64) -> Seq<char> {
    prefix + seq!['_'] + decimal(number as nat)
}

/// Two numbers with the same decimal text are the same number.
pub proof fn lemma_decimal_injective(a: nat, b: nat)
    requires
        decimal(a) == decimal(b),
    ensures
        a == b,
    decreases a,
{
    if a < 10 && b < 10 {
        assert(decimal(a)[0] == digit_char(a));
        assert(decimal(b)[0] == digit_char(b));
    } else if a >= 10 && b >= 10 {
        let x = decimal(a / 10);
        let y = decimal(b / 10);
        assert(decimal(a) == x.push(digit_char(a % 10)));
        assert(decimal(b) == y.push(digit_char(b % 10)));
        assert(decimal(a).last() == digit_char(a % 10));
        assert(decimal(b).last() == digit_char(b % 10));
        assert(x =~= decimal(a).drop_last());
        assert(y =~= decimal(b).drop_last());
        lemma_decimal_injective(a / 10, b / 10);
        assert(a % 10 == b % 10);
    } else if a >= 10 {
        lemma_decimal_nonempty(a / 10);
        assert(decimal(a).len() >= 2);
        assert(decimal(b).len() == 1);
    } else {
        lemma_decimal_nonempty(b / 10);
        assert(decimal(b).len() >= 2);
        assert(decimal(a).len() == 1);
    }
}

/// The decimal text of a number has at least one digit.
pub proof fn lemma_decimal_nonempty(n: nat)
    ensures
        decimal(n).len() >= 1,
    decreases n,
{
    if n >= 10 {
        lemma_decimal_nonempty(n / 10);
    }
}

/// Under one prefix, two numbers with the same identifier are the same
/// number.
pub proof fn lemma_id_text_injective(prefix: Seq<char>, a: u64, b: u64)
    requires
        id_text(prefix, a) == id_text(prefix, b),
    ensures
        a == b,
{
    let head = prefix + seq!['_'];
    assert(decimal(a as nat) =~= id_text(prefix, a).skip(head.len() as int));
    assert(decimal(b as nat) =~= id_text(prefix, b).skip(head.len() as int));
    lemma_decimal_injective(a as nat, b as nat);
}

fn digit_str(d: u64) -> (s: &'static str)
    requires
        d < 10,
    ensures
        s@ == seq![digit_char(d as nat)],
{
    proof {
        reveal_strlit("0");
        reveal_strlit("1");
        reveal_strlit("2");
        reveal_strlit("3");
        reveal_strlit("4");
        reveal_strlit("5");
        reveal_strlit("6");
        reveal_strlit("7");
        reveal_strlit("8");
        reveal_strlit("9");
    }
    let s = if d == 0 {
        "0"
    } else if d == 1 {
        "1"
    } else if d == 2 {
        "2"
    } else if d == 3 {
        "3"
    } else if d == 4 {
        "4"
    } else if d == 5 {
        "5"
    } else if d == 6 {
        "6"
    } else if d == 7 {
        "7"
    } else if d == 8 {
        "8"
    } else {
        "9"
    };
    assert(s@ =~= seq![digit_char(d as nat)]);
    s
}

fn push_decimal(out: &mut String, n: u64)
    ensures
        final(out)@ == old(out)@ + decimal(n as nat),
    decreases n,
{
    if n >= 10 {
        push_decimal(out, n / 10);
    }
    let d = digit_str(n % 10);
    out.append(d);
    assert(out@ =~= old(out)@ + decimal(n as nat));
}

/// Makes the identifier of `prefix` and `number`.
pub fn numbered_id(prefix: &str, number: u64) -> (id: String)
    ensures
        id@ == id_text(prefix@, number),
{
    let mut id = String::from_str(prefix);
    proof {
        reveal_strlit("_");
    }
    id.append("_");
    assert(id@ =~= prefix@ + seq!['_']);
    push_decimal(&mut id, number);
    id
}

} // verus!
