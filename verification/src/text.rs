//! Decimal numerals: how a count is written and how an identifier is read.

use vstd::prelude::*;

verus! {

/// The character that writes the digit `d`.
pub open spec fn digit_char(d: nat) -> char
    recommends
        d < 10,
{
    if d == 0 {
        '0'
    } else if d == 1 {
        '1'
    } else if d == 2 {
        '2'
    } else if d == 3 {
        '3'
    } else if d == 4 {
        '4'
    } else if d == 5 {
        '5'
    } else if d == 6 {
        '6'
    } else if d == 7 {
        '7'
    } else if d == 8 {
        '8'
    } else {
        '9'
    }
}

/// The decimal numeral of `n`: no sign, no leading zero, `"0"` for zero.
pub open spec fn decimal(n: nat) -> Seq<char>
    decreases n,
{
    if n < 10 {
        seq![digit_char(n)]
    } else {
        decimal(n / 10).push(digit_char(n % 10))
    }
}

fn digit_text(d: u64) -> (t: &'static str)
    requires
        d < 10,
    ensures
        t@ == seq![digit_char(d as nat)],
{
    proof {
        reveal_strlit("0");
        reveal_strlit("1");
        reveal_strlit("2");
        reveal_strlit("3");
        reveal_strlit("4");
        reveal_strlit("5");
        reveal_strlit("6");
        reveal_strlit("7");
        reveal_strlit("8");
        reveal_strlit("9");
    }
    let t = if d == 0 {
        "0"
    } else if d == 1 {
        "1"
    } else if d == 2 {
        "2"
    } else if d == 3 {
        "3"
    } else if d == 4 {
        "4"
    } else if d == 5 {
        "5"
    } else if d == 6 {
        "6"
    } else if d == 7 {
        "7"
    } else if d == 8 {
        "8"
    } else {
        "9"
    };
    assert(t@ =~= seq![digit_char(d as nat)]);
    t
}

/// Writes `n` as a decimal numeral.
pub fn render_decimal(n: u64) -> (s: String)
    ensures
        s@ == decimal(n as nat),
    decreases n,
{
    if n < 10 {
        String::from_str(digit_text(n))
    } else {
        let mut s = render_decimal(n / 10);
        s.append(digit_text(n % 10));
        assert(s@ =~= decimal(n as nat));
        s
    }
}

/// The digit that `c` writes, if it writes one.
pub open spec fn digit_value(c: char) -> Option<nat> {
    if c == '0' {
        Some(0)
    } else if c == '1' {
        Some(1)
    } else if c == '2' {
        Some(2)
    } else if c == '3' {
        Some(3)
    } else if c == '4' {
        Some(4)
    } else if c == '5' {
        Some(5)
    } else if c == '6' {
        Some(6)
    } else if c == '7' {
        Some(7)
    } else if c == '8' {
        Some(8)
    } else if c == '9' {
        Some(9)
    } else {
        None
    }
}

/// The number that a non-empty run of decimal digits writes; `None` for the
/// empty text and for a text that holds anything but digits.
pub open spec fn numeral_value(s: Seq<char>) -> Option<nat>
    decreases s.len(),
{
    if s.len() == 0 {
        None
    } else if s.len() == 1 {
        digit_value(s[0])
    } else {
        match (numeral_value(s.drop_last()), digit_value(s.last())) {
            (Some(v), Some(d)) => Some(v * 10 + d),
            _ => None,
        }
    }
}

/// What is left of `s` once one leading plus sign is taken off.
pub open spec fn unsigned_body(s: Seq<char>) -> Seq<char> {
    if s.len() > 0 && s[0] == '+' {
        s.drop_first()
    } else {
        s
    }
}

/// The identifier that `s` writes: an optional plus sign, then at least one
/// decimal digit and nothing else, the number no larger than `u64::MAX`.
pub open spec fn parsed_u64(s: Seq<char>) -> Option<u64> {
    match numeral_value(unsigned_body(s)) {
        Some(v) => if v <= u64::MAX {
            Some(v as u64)
        } else {
            None
        },
        None => None,
    }
}

/// A numeral's prefixes are numerals, of numbers no larger than its own.
proof fn lemma_numeral_prefix(s: Seq<char>, k: int)
    requires
        0 < k <= s.len(),
        numeral_value(s) is Some,
    ensures
        numeral_value(s.take(k)) is Some,
        numeral_value(s.take(k))->0 <= numeral_value(s)->0,
        digit_value(s[k - 1]) is Some,
    decreases s.len() - k,
{
    if k == s.len() {
        assert(s.take(k) =~= s);
    } else {
        lemma_numeral_prefix(s.drop_last(), k);
        assert(s.drop_last().take(k) =~= s.take(k));
    }
}

fn digit_of(c: char) -> (d: Option<u64>)
    ensures
        match d {
            Some(v) => digit_value(c) == Some(v as nat) && v < 10,
            None => digit_value(c) is None,
        },
{
    match c {
        '0' => Some(0),
        '1' => Some(1),
        '2' => Some(2),
        '3' => Some(3),
        '4' => Some(4),
        '5' => Some(5),
        '6' => Some(6),
        '7' => Some(7),
        '8' => Some(8),
        '9' => Some(9),
        _ => None,
    }
}

/// Reads an identifier written in decimal.
pub fn parse_u64(s: &str) -> (r: Option<u64>)
    ensures
        r == parsed_u64(s@),
{
    let ghost body = unsigned_body(s@);
    let ghost offset = s@.len() - body.len();
    let ghost mut count: int = 0;
    let mut acc: u64 = 0;
    let mut first: bool = true;
    let mut any: bool = false;
    for c in it: s.chars()
        invariant
            it.seq() == s@,
            body == unsigned_body(s@),
            offset == s@.len() - body.len(),
            first == (it.index() == 0),
            first ==> count == 0,
            !first ==> count == it.index() - offset,
            any == (count > 0),
            !any ==> acc == 0,
            any ==> numeral_value(body.take(count)) == Some(acc as nat),
    {
        let sign = first && c == '+';
        first = false;
        if !sign {
            assert(body[count] == c);
            assert(body.take(count + 1).drop_last() =~= body.take(count));
            match digit_of(c) {
                None => {
                    proof {
                        if numeral_value(body) is Some {
                            lemma_numeral_prefix(body, count + 1);
                        }
                    }
                    return None;
                },
                Some(d) => {
                    if acc > (u64::MAX - d) / 10 {
                        proof {
                            if numeral_value(body) is Some {
                                lemma_numeral_prefix(body, count + 1);
                            }
                        }
                        return None;
                    }
                    acc = acc * 10 + d;
                    any = true;
                    proof {
                        count = count + 1;
                    }
                },
            }
        }
    }
    if any {
        assert(body.take(count) =~= body);
        Some(acc)
    } else {
        None
    }
}

/// The numeral of `n` is made of digits and writes `n`.
proof fn lemma_decimal_is_numeral(n: nat)
    ensures
        decimal(n).len() > 0,
        digit_value(decimal(n)[0]) is Some,
        numeral_value(decimal(n)) == Some(n),
    decreases n,
{
    if n >= 10 {
        lemma_decimal_is_numeral(n / 10);
        let shorter = decimal(n / 10);
        let longer = decimal(n);
        assert(longer.drop_last() =~= shorter);
        assert(longer[0] == shorter[0]);
        assert(digit_value(digit_char(n % 10)) == Some(n % 10));
    }
}

/// Reading undoes writing: the numeral of an identifier is read as that
/// identifier.
pub proof fn written_number_is_read_back(n: u64)
    ensures
        parsed_u64(decimal(n as nat)) == Some(n),
{
    lemma_decimal_is_numeral(n as nat);
}

} // verus!
