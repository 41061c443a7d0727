//! File names that avoid a clash: `name`, then `name(1)`, `name(2)`, ...
use vstd::prelude::*;

verus! {

/// The decimal digit for `d`.
pub open spec fn digit_char(d: nat) -> char {
    if d == 0 {
        '0'
    } else if d == 1 {
        '1'
    } else if d == 2 {
        '2'
    } else if d == 3 {
        '3'
    } else if d == 4 {
        '4'
    } else if d == 5 {
        '5'
    } else if d == 6 {
        '6'
    } else if d == 7 {
        '7'
    } else if d == 8 {
        '8'
    } else {
        '9'
    }
}

/// `n` written in decimal, without leading zeros.
pub open spec fn decimal_spec(n: nat) -> Seq<char>
    decreases n,
{
    if n < 10 {
        seq![digit_char(n)]
    } else {
        decimal_spec(n / 10).push(digit_char(n % 10))
    }
}

fn digit_str(d: u64) -> (r: &'static str)
    requires
        d < 10,
    ensures
        r@ == seq![digit_char(d as nat)],
{
    proof {
        reveal_strlit("0");
        reveal_strlit("1");
        reveal_strlit("2");
        reveal_strlit("3");
        reveal_strlit("4");
        reveal_strlit("5");
        reveal_strlit("6");
        reveal_strlit("7");
        reveal_strlit("8");
        reveal_strlit("9");
    }
    match d {
        0 => "0",
        1 => "1",
        2 => "2",
        3 => "3",
        4 => "4",
        5 => "5",
        6 => "6",
        7 => "7",
        8 => "8",
        _ => "9",
    }
}

/// `n` in decimal.
pub fn decimal(n: u64) -> (r: String)
    ensures
        r@ == decimal_spec(n as nat),
    decreases n,
{
    if n < 10 {
        digit_str(n).to_owned()
    } else {
        let mut s = decimal(n / 10);
        s.append(digit_str(n % 10));
        s
    }
}

/// The name tried at attempt `attempt`: the name itself first, then the name
/// followed by the attempt number in parentheses.
pub open spec fn candidate_name_spec(name: Seq<char>, attempt: nat) -> Seq<char> {
    if attempt == 0 {
        name
    } else {
        name + "("@ + decimal_spec(attempt) + ")"@
    }
}

proof fn lemma_decimal_len(n: nat)
    ensures
        decimal_spec(n).len() >= 1,
    decreases n,
{
    if n >= 10 {
        lemma_decimal_len(n / 10);
    }
}

/// Different numbers are written differently.
pub proof fn lemma_decimal_injective(a: nat, b: nat)
    requires
        decimal_spec(a) == decimal_spec(b),
    ensures
        a == b,
    decreases a,
{
    if a < 10 && b < 10 {
        assert(decimal_spec(a)[0] == digit_char(a));
        assert(decimal_spec(b)[0] == digit_char(b));
        lemma_digit_injective(a, b);
    } else if a < 10 {
        lemma_decimal_len(b / 10);
        assert(decimal_spec(b).len() >= 2);
    } else if b < 10 {
        lemma_decimal_len(a / 10);
        assert(decimal_spec(a).len() >= 2);
    } else {
        assert(decimal_spec(a).drop_last() == decimal_spec(a / 10));
        assert(decimal_spec(b).drop_last() == decimal_spec(b / 10));
        lemma_decimal_injective(a / 10, b / 10);
        assert(decimal_spec(a).last() == digit_char(a % 10));
        assert(decimal_spec(b).last() == digit_char(b % 10));
        lemma_digit_injective(a % 10, b % 10);
        assert(a == 10 * (a / 10) + a % 10);
        assert(b == 10 * (b / 10) + b % 10);
    }
}

proof fn lemma_digit_injective(x: nat, y: nat)
    requires
        x < 10,
        y < 10,
        digit_char(x) == digit_char(y),
    ensures
        x == y,
{
}

/// The name to try at attempt `attempt` when `name` may already be taken.
pub fn candidate_name(name: &String, attempt: u64) -> (r: String)
    ensures
        r@ == candidate_name_spec(name@, attempt as nat),
{
    if attempt == 0 {
        name.clone()
    } else {
        let mut s = name.clone();
        s.append("(");
        let d = decimal(attempt);
        s.append(d.as_str());
        s.append(")");
        s
    }
}

/// Different attempts try different names.
pub proof fn lemma_candidates_distinct(name: Seq<char>, a: nat, b: nat)
    requires
        candidate_name_spec(name, a) == candidate_name_spec(name, b),
    ensures
        a == b,
{
    reveal_strlit("(");
    reveal_strlit(")");
    if a > 0 && b > 0 {
        let ca = candidate_name_spec(name, a);
        let n = name.len() as int;
        let cb = candidate_name_spec(name, b);
        assert("("@.len() == 1);
        assert(")"@.len() == 1);
        assert(ca.len() == n + 1 + decimal_spec(a).len() + 1);
        assert(cb.len() == n + 1 + decimal_spec(b).len() + 1);
        assert(decimal_spec(a).len() == decimal_spec(b).len());
        assert(decimal_spec(a) =~= ca.subrange(n + 1, ca.len() - 1));
        assert(decimal_spec(b) =~= ca.subrange(n + 1, ca.len() - 1));
        lemma_decimal_injective(a, b);
    } else if a > 0 {
        lemma_decimal_len(a);
        assert(candidate_name_spec(name, a).len() > name.len());
    } else if b > 0 {
        lemma_decimal_len(b);
        assert(candidate_name_spec(name, b).len() > name.len());
    }
}

} // verus!
