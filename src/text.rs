use vstd::prelude::*;

verus! {

/// Number of occurrences of `c` in `s`.
pub open spec fn occurrences(s: Seq<char>, c: char) -> nat
    decreases s.len(),
{
    if s.len() == 0 {
        0
    } else {
        occurrences(s.drop_last(), c) + if s.last() == c { 1nat } else { 0nat }
    }
}

/// A text without `c` has no occurrence of it.
pub proof fn lemma_no_occurrences(s: Seq<char>, c: char)
    requires
        forall|i: int| 0 <= i < s.len() ==> s[i] != c,
    ensures
        occurrences(s, c) == 0,
    decreases s.len(),
{
    if s.len() > 0 {
        lemma_no_occurrences(s.drop_last(), c);
    }
}

/// The character of a decimal digit.
pub open spec fn digit_char(d: int) -> char {
    if d == 0 {
        '0'
    } else if d == 1 {
        '1'
    } else if d == 2 {
        '2'
    } else if d == 3 {
        '3'
    } else if d == 4 {
        '4'
    } else if d == 5 {
        '5'
    } else if d == 6 {
        '6'
    } else if d == 7 {
        '7'
    } else if d == 8 {
        '8'
    } else {
        '9'
    }
}

/// Decimal digits of a natural number, most significant first, no leading zero.
pub open spec fn natural_text(n: nat) -> Seq<char>
    decreases n,
{
    if n < 10 {
        seq![digit_char(n as int)]
    } else {
        natural_text(n / 10).push(digit_char(n as int % 10))
    }
}

/// Decimal text of an integer, with a leading `-` when negative.
pub open spec fn decimal_text(n: int) -> Seq<char> {
    if n < 0 {
        seq!['-'] + natural_text((-n) as nat)
    } else {
        natural_text(n as nat)
    }
}

/// Whether two strings hold the same characters.
pub fn same_text(a: &str, b: &str) -> (r: bool)
    ensures
        r == (a@ == b@),
{
    let a_owned = a.to_owned();
    let b_owned = b.to_owned();
    a_owned == b_owned
}

/// Counts the occurrences of a character in a string.
pub fn count_char(s: &str, ch: char) -> (r: usize)
    ensures
        r == occurrences(s@, ch),
{
    let n = s.unicode_len();
    let mut count: usize = 0;
    let mut i: usize = 0;
    while i < n
        invariant
            n == s@.len(),
            i <= n,
            count == occurrences(s@.take(i as int), ch),
            count <= i,
        decreases n - i,
    {
        assert(s@.take(i as int + 1).drop_last() == s@.take(i as int));
        if s.get_char(i) == ch {
            count = count + 1;
        }
        i = i + 1;
    }
    assert(s@.take(n as int) == s@);
    count
}

fn digit_str(d: u32) -> (r: &'static str)
    requires
        d < 10,
    ensures
        r@ == seq![digit_char(d as int)],
{
    proof {
        reveal_strlit("0");
        reveal_strlit("1");
        reveal_strlit("2");
        reveal_strlit("3");
        reveal_strlit("4");
        reveal_strlit("5");
        reveal_strlit("6");
        reveal_strlit("7");
        reveal_strlit("8");
        reveal_strlit("9");
    }
    let r = if d == 0 {
        "0"
    } else if d == 1 {
        "1"
    } else if d == 2 {
        "2"
    } else if d == 3 {
        "3"
    } else if d == 4 {
        "4"
    } else if d == 5 {
        "5"
    } else if d == 6 {
        "6"
    } else if d == 7 {
        "7"
    } else if d == 8 {
        "8"
    } else {
        "9"
    };
    assert(r@ =~= seq![digit_char(d as int)]);
    r
}

/// Appends the decimal digits of `n` to `s`.
pub fn push_natural(s: &mut String, n: u32)
    ensures
        final(s)@ == old(s)@ + natural_text(n as nat),
    decreases n,
{
    if n >= 10 {
        push_natural(s, n / 10);
    }
    s.append(digit_str(n % 10));
    assert(old(s)@ + natural_text(n as nat) =~= old(s)@ + (if n >= 10 {
        natural_text((n / 10) as nat)
    } else {
        Seq::empty()
    }) + seq![digit_char((n % 10) as int)]);
}

/// Appends the decimal text of `n` to `s`.
pub fn push_decimal(s: &mut String, n: i32)
    ensures
        final(s)@ == old(s)@ + decimal_text(n as int),
{
    if n < 0 {
        proof {
            reveal_strlit("-");
        }
        s.append("-");
        let magnitude: u32 = if n == i32::MIN {
            2147483648u32
        } else {
            (-n) as u32
        };
        push_natural(s, magnitude);
        assert(old(s)@ + decimal_text(n as int) =~= old(s)@ + seq!['-'] + natural_text(
            magnitude as nat,
        ));
    } else {
        push_natural(s, n as u32);
    }
}

pub open spec fn is_digit_char(c: char) -> bool {
    '0' <= c && c <= '9'
}

/// The digits of a natural number are digits, and there is one of them
/// exactly below ten.
pub proof fn lemma_natural_text_digits(n: nat)
    ensures
        (n < 10) <==> natural_text(n).len() == 1,
        natural_text(n).len() >= 1,
        forall|i: int| 0 <= i < natural_text(n).len() ==> is_digit_char(#[trigger] natural_text(n)[i]),
    decreases n,
{
    if n >= 10 {
        lemma_natural_text_digits(n / 10);
        let t = natural_text(n / 10);
        assert forall|i: int| 0 <= i < natural_text(n).len() implies is_digit_char(
            #[trigger] natural_text(n)[i],
        ) by {
            if i < t.len() {
                assert(natural_text(n)[i] == t[i]);
            }
        }
    }
}

/// Different natural numbers have different decimal texts.
pub proof fn lemma_natural_text_injective(a: nat, b: nat)
    requires
        natural_text(a) == natural_text(b),
    ensures
        a == b,
    decreases a,
{
    lemma_natural_text_digits(a);
    lemma_natural_text_digits(b);
    if a < 10 {
        assert(b < 10);
        assert(natural_text(a)[0] == digit_char(a as int));
        assert(natural_text(b)[0] == digit_char(b as int));
        assert(digit_char(a as int) == digit_char(b as int));
    } else {
        let ta = natural_text(a / 10);
        let tb = natural_text(b / 10);
        assert(natural_text(a).drop_last() =~= ta);
        assert(natural_text(b).drop_last() =~= tb);
        assert(natural_text(a).last() == digit_char(a as int % 10));
        assert(natural_text(b).last() == digit_char(b as int % 10));
        lemma_natural_text_injective(a / 10, b / 10);
        assert(a as int % 10 == b as int % 10);
        assert(a == 10 * (a / 10) + a % 10);
        assert(b == 10 * (b / 10) + b % 10);
    }
}

} // verus!
