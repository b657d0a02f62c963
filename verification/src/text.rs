use vstd::prelude::*;
use vstd::string::StringExecFns;

verus! {

/// An identifier as it appears in rendered SQL: wrapped in double quotes.
pub open spec fn quoted(name: Seq<char>) -> Seq<char> {
    seq!['"'] + name + seq!['"']
}

/// How many times `c` occurs in `s`.
pub open spec fn count_char(s: Seq<char>, c: char) -> int
    decreases s.len(),
{
    if s.len() == 0 {
        0
    } else {
        count_char(s.drop_last(), c) + if s.last() == c {
            1int
        } else {
            0int
        }
    }
}

/// A fragment that contributes no `?` placeholder.
pub open spec fn placeholder_free(s: Seq<char>) -> bool {
    count_char(s, '?') == 0
}

/// Occurrences of a character in a one-character fragment.
pub proof fn lemma_count_char_singleton(c: char, t: char)
    ensures
        count_char(seq![c], t) == if c == t {
            1int
        } else {
            0int
        },
{
    let s = seq![c];
    assert(s.len() == 1);
    assert(s.last() == c);
    assert(s.drop_last() =~= Seq::<char>::empty());
    assert(count_char(s.drop_last(), t) == 0);
    assert(count_char(s, t) == count_char(s.drop_last(), t) + if s.last() == t {
        1int
    } else {
        0int
    });
}

/// A fragment without the character counts zero occurrences of it.
pub proof fn lemma_count_char_absent(s: Seq<char>, c: char)
    requires
        forall|i: int| 0 <= i < s.len() ==> s[i] != c,
    ensures
        count_char(s, c) == 0,
    decreases s.len(),
{
    if s.len() > 0 {
        lemma_count_char_absent(s.drop_last(), c);
    }
}

/// Occurrences of a character distribute over concatenation.
pub proof fn lemma_count_char_concat(a: Seq<char>, b: Seq<char>, c: char)
    ensures
        count_char(a + b, c) == count_char(a, c) + count_char(b, c),
    decreases b.len(),
{
    if b.len() == 0 {
        assert(a + b =~= a);
    } else {
        lemma_count_char_concat(a, b.drop_last(), c);
        assert((a + b).drop_last() =~= a + b.drop_last());
    }
}

/// Quoting an identifier adds no `?` to it.
pub proof fn lemma_count_quoted(name: Seq<char>)
    ensures
        count_char(quoted(name), '?') == count_char(name, '?'),
{
    lemma_count_char_singleton('"', '?');
    lemma_count_char_concat(seq!['"'], name, '?');
    lemma_count_char_concat(seq!['"'] + name, seq!['"'], '?');
    assert(quoted(name) =~= (seq!['"'] + name) + seq!['"']);
}

/// Appends `name` wrapped in double quotes.
pub fn push_quoted(f: &mut String, name: &str)
    ensures
        final(f)@ == old(f)@ + quoted(name@),
{
    f.append("\"");
    f.append(name);
    f.append("\"");
    proof {
        reveal_strlit("\"");
        assert(f@ =~= old(f)@ + quoted(name@));
    }
}

/// The decimal digit for `d`; meaningful for `0 <= d <= 9`.
pub open spec fn digit_char(d: int) -> char {
    if d == 0 {
        '0'
    } else if d == 1 {
        '1'
    } else if d == 2 {
        '2'
    } else if d == 3 {
        '3'
    } else if d == 4 {
        '4'
    } else if d == 5 {
        '5'
    } else if d == 6 {
        '6'
    } else if d == 7 {
        '7'
    } else if d == 8 {
        '8'
    } else {
        '9'
    }
}

/// The decimal digits of a nonnegative number, most significant first.
pub open spec fn dec_digits(n: int) -> Seq<char>
    recommends
        n >= 0,
    decreases n,
{
    if n < 10 {
        seq![digit_char(n)]
    } else {
        dec_digits(n / 10) + seq![digit_char(n % 10)]
    }
}

/// The decimal rendering of a signed number: a minus sign for negatives,
/// then the digits of its magnitude.
pub open spec fn dec_i64(n: int) -> Seq<char> {
    if n < 0 {
        seq!['-'] + dec_digits(-n)
    } else {
        dec_digits(n)
    }
}

/// A decimal digit is never a placeholder.
pub proof fn lemma_dec_digits_placeholder_free(n: int)
    requires
        n >= 0,
    ensures
        count_char(dec_digits(n), '?') == 0,
    decreases n,
{
    if n >= 10 {
        lemma_dec_digits_placeholder_free(n / 10);
        lemma_count_char_singleton(digit_char(n % 10), '?');
        lemma_count_char_concat(dec_digits(n / 10), seq![digit_char(n % 10)], '?');
    } else {
        lemma_count_char_singleton(digit_char(n), '?');
    }
}

/// A decimal rendering holds no placeholder.
pub proof fn lemma_dec_i64_placeholder_free(n: int)
    ensures
        count_char(dec_i64(n), '?') == 0,
{
    if n < 0 {
        lemma_dec_digits_placeholder_free(-n);
        lemma_count_char_singleton('-', '?');
        lemma_count_char_concat(seq!['-'], dec_digits(-n), '?');
    } else {
        lemma_dec_digits_placeholder_free(n);
    }
}

fn digit_str(d: u64) -> (r: &'static str)
    requires
        d < 10,
    ensures
        r@ == seq![digit_char(d as int)],
{
    proof {
        reveal_strlit("0");
        reveal_strlit("1");
        reveal_strlit("2");
        reveal_strlit("3");
        reveal_strlit("4");
        reveal_strlit("5");
        reveal_strlit("6");
        reveal_strlit("7");
        reveal_strlit("8");
        reveal_strlit("9");
    }
    if d == 0 {
        "0"
    } else if d == 1 {
        "1"
    } else if d == 2 {
        "2"
    } else if d == 3 {
        "3"
    } else if d == 4 {
        "4"
    } else if d == 5 {
        "5"
    } else if d == 6 {
        "6"
    } else if d == 7 {
        "7"
    } else if d == 8 {
        "8"
    } else {
        "9"
    }
}

fn push_dec_u64(f: &mut String, n: u64)
    ensures
        final(f)@ == old(f)@ + dec_digits(n as int),
    decreases n,
{
    if n < 10 {
        f.append(digit_str(n));
    } else {
        push_dec_u64(f, n / 10);
        f.append(digit_str(n % 10));
        proof {
            assert(f@ =~= old(f)@ + dec_digits(n as int));
        }
    }
}

/// Appends the decimal rendering of `n`.
pub fn push_dec_i64(f: &mut String, n: i64)
    ensures
        final(f)@ == old(f)@ + dec_i64(n as int),
{
    if n >= 0 {
        push_dec_u64(f, n as u64);
    } else {
        f.append("-");
        let m: u64 = if n == i64::MIN {
            9223372036854775808u64
        } else {
            (-n) as u64
        };
        proof {
            reveal_strlit("-");
            assert(m as int == -(n as int));
        }
        push_dec_u64(f, m);
        proof {
            assert(f@ =~= old(f)@ + dec_i64(n as int));
        }
    }
}

} // verus!
