//! Strings as sequences of characters.

use vstd::prelude::*;

verus! {

/// The texts of a list of strings.
pub open spec fn texts(strings: Seq<String>) -> Seq<Seq<char>> {
    strings.map_values(|s: String| s@)
}

/// Whether `needle` is among `strings`.
pub fn contains_text(strings: &Vec<String>, needle: &String) -> (found: bool)
    ensures
        found == texts(strings@).contains(needle@),
{
    let mut i: usize = 0;
    while i < strings.len()
        invariant
            i <= strings.len(),
            forall|j: int| 0 <= j < i ==> texts(strings@)[j] != needle@,
        decreases strings.len() - i,
    {
        if strings[i] == *needle {
            assert(texts(strings@)[i as int] == needle@);
            return true;
        }
        i += 1;
    }
    false
}

/// A copy of a list of strings.
pub fn clone_texts(strings: &Vec<String>) -> (copy: Vec<String>)
    ensures
        texts(copy@) == texts(strings@),
{
    let mut copy: Vec<String> = Vec::new();
    let mut i: usize = 0;
    while i < strings.len()
        invariant
            i <= strings.len(),
            copy@.len() == i,
            texts(copy@) == texts(strings@).take(i as int),
        decreases strings.len() - i,
    {
        let ghost prev = copy@;
        let s = strings[i].clone();
        copy.push(s);
        assert forall|j: int| 0 <= j < i + 1 implies texts(copy@)[j] == texts(strings@).take(
            i + 1,
        )[j] by {
            if j < i {
                assert(texts(prev)[j] == texts(strings@).take(i as int)[j]);
            }
        }
        assert(texts(copy@) =~= texts(strings@).take(i + 1));
        i += 1;
    }
    assert(texts(strings@).take(strings.len() as int) =~= texts(strings@));
    copy
}

/// Whether two strings hold the same characters.
pub fn same_text(a: &str, b: &str) -> (same: bool)
    ensures
        same == (a@ == b@),
{
    let n = a.unicode_len();
    if n != b.unicode_len() {
        return false;
    }
    let mut i: usize = 0;
    while i < n
        invariant
            i <= n,
            n == a@.len(),
            n == b@.len(),
            forall|j: int| 0 <= j < i ==> a@[j] == b@[j],
        decreases n - i,
    {
        if a.get_char(i) != b.get_char(i) {
            return false;
        }
        i += 1;
    }
    assert(a@ =~= b@);
    true
}

/// Whether a field is there and holds `word`.
pub fn field_is(field: &Option<String>, word: &str) -> (same: bool)
    ensures
        same == (field matches Some(text) && text@ == word@),
{
    match field {
        Some(text) => same_text(text.as_str(), word),
        None => false,
    }
}

/// The character of a decimal digit.
pub open spec fn digit_char(digit: int) -> char {
    if digit == 0 {
        '0'
    } else if digit == 1 {
        '1'
    } else if digit == 2 {
        '2'
    } else if digit == 3 {
        '3'
    } else if digit == 4 {
        '4'
    } else if digit == 5 {
        '5'
    } else if digit == 6 {
        '6'
    } else if digit == 7 {
        '7'
    } else if digit == 8 {
        '8'
    } else {
        '9'
    }
}

/// The decimal digits of a number, the most significant first, without leading zeros.
pub open spec fn decimal_digits(n: nat) -> Seq<char>
    decreases n,
{
    if n < 10 {
        seq![digit_char(n as int)]
    } else {
        decimal_digits(n / 10).push(digit_char((n % 10) as int))
    }
}

/// A number in decimal, with a minus sign before a negative one.
pub open spec fn decimal_text(v: int) -> Seq<char> {
    if v < 0 {
        seq!['-'] + decimal_digits((-v) as nat)
    } else {
        decimal_digits(v as nat)
    }
}

fn digit_str(digit: u64) -> (text: &'static str)
    requires
        digit < 10,
    ensures
        text@ == seq![digit_char(digit as int)],
{
    proof {
        reveal_strlit("0");
        reveal_strlit("1");
        reveal_strlit("2");
        reveal_strlit("3");
        reveal_strlit("4");
        reveal_strlit("5");
        reveal_strlit("6");
        reveal_strlit("7");
        reveal_strlit("8");
        reveal_strlit("9");
    }
    let text = if digit == 0 {
        "0"
    } else if digit == 1 {
        "1"
    } else if digit == 2 {
        "2"
    } else if digit == 3 {
        "3"
    } else if digit == 4 {
        "4"
    } else if digit == 5 {
        "5"
    } else if digit == 6 {
        "6"
    } else if digit == 7 {
        "7"
    } else if digit == 8 {
        "8"
    } else {
        "9"
    };
    assert(text@ =~= seq![digit_char(digit as int)]);
    text
}

fn push_digits(out: &mut String, n: u64)
    ensures
        final(out)@ == old(out)@ + decimal_digits(n as nat),
    decreases n,
{
    if n >= 10 {
        push_digits(out, n / 10);
    }
    let ghost before = out@;
    out.append(digit_str(n % 10));
    assert(out@ =~= old(out)@ + decimal_digits(n as nat));
}

/// A number in decimal.
pub fn decimal_string(v: i64) -> (text: String)
    ensures
        text@ == decimal_text(v as int),
{
    let mut text = String::new();
    if v < 0 {
        proof {
            reveal_strlit("-");
        }
        text.append("-");
        assert(text@ =~= seq!['-']);
        let magnitude: u64 = (-(v as i128)) as u64;
        push_digits(&mut text, magnitude);
    } else {
        push_digits(&mut text, v as u64);
        assert(text@ =~= decimal_digits(v as nat));
    }
    text
}

} // verus!
