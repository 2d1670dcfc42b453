//! Texts: the decimal text of a number, and comparisons of texts.
use vstd::prelude::*;

verus! {

/// The decimal digit of `d`, for `0 <= d < 10`.
pub open spec fn digit_char(d: nat) -> char {
    if d == 0 {
        '0'
    } else if d == 1 {
        '1'
    } else if d == 2 {
        '2'
    } else if d == 3 {
        '3'
    } else if d == 4 {
        '4'
    } else if d == 5 {
        '5'
    } else if d == 6 {
        '6'
    } else if d == 7 {
        '7'
    } else if d == 8 {
        '8'
    } else {
        '9'
    }
}

/// The decimal digits of `n`, most significant first, without leading zeros
/// (and "0" for zero).
pub open spec fn decimal_digits(n: nat) -> Seq<char>
    decreases n,
{
    if n < 10 {
        seq![digit_char(n)]
    } else {
        decimal_digits(n / 10).push(digit_char(n % 10))
    }
}

/// The decimal text of an integer: its digits, after a minus sign if it is
/// negative.
pub open spec fn decimal_text(v: int) -> Seq<char> {
    if v < 0 {
        seq!['-'] + decimal_digits((-v) as nat)
    } else {
        decimal_digits(v as nat)
    }
}

/// The one-character text of a decimal digit.
fn digit_text(d: u32) -> (res: String)
    requires
        d < 10,
    ensures
        res@ == seq![digit_char(d as nat)],
{
    let text = if d == 0 {
        "0"
    } else if d == 1 {
        "1"
    } else if d == 2 {
        "2"
    } else if d == 3 {
        "3"
    } else if d == 4 {
        "4"
    } else if d == 5 {
        "5"
    } else if d == 6 {
        "6"
    } else if d == 7 {
        "7"
    } else if d == 8 {
        "8"
    } else {
        "9"
    };
    proof {
        reveal_strlit("0");
        reveal_strlit("1");
        reveal_strlit("2");
        reveal_strlit("3");
        reveal_strlit("4");
        reveal_strlit("5");
        reveal_strlit("6");
        reveal_strlit("7");
        reveal_strlit("8");
        reveal_strlit("9");
    }
    let res = text.to_owned();
    proof {
        assert(res@ =~= seq![digit_char(d as nat)]);
    }
    res
}

/// The decimal digits of `n`.
fn digits_text(n: u32) -> (res: String)
    ensures
        res@ == decimal_digits(n as nat),
    decreases n,
{
    if n < 10 {
        digit_text(n)
    } else {
        let mut text = digits_text(n / 10);
        let last = digit_text(n % 10);
        text.append(last.as_str());
        text
    }
}

/// The decimal text of an `i32`: its digits, after a `-` if it is negative.
pub fn i32_to_decimal(v: i32) -> (res: String)
    ensures
        res@ == decimal_text(v as int),
{
    if v < 0 {
        let magnitude: u32 = (-(v as i64)) as u32;
        let mut text = "-".to_owned();
        let digits = digits_text(magnitude);
        text.append(digits.as_str());
        proof {
            reveal_strlit("-");
        }
        text
    } else {
        digits_text(v as u32)
    }
}

/// A text that the server may leave out, or the empty text in its place.
pub open spec fn text_or_empty(text: Option<Seq<char>>) -> Seq<char> {
    match text {
        Some(t) => t,
        None => Seq::empty(),
    }
}

/// The view of an optional text.
pub open spec fn optional_text(text: Option<String>) -> Option<Seq<char>> {
    match text {
        Some(t) => Some(t@),
        None => None,
    }
}

/// Whether two optional texts are equal.
pub fn optional_texts_equal(a: &Option<String>, b: &Option<String>) -> (res: bool)
    ensures
        res == (optional_text(*a) == optional_text(*b)),
{
    match (a, b) {
        (Some(x), Some(y)) => *x == *y,
        (None, None) => true,
        _ => false,
    }
}

/// The views of a sequence of texts.
pub open spec fn text_views(texts: Seq<String>) -> Seq<Seq<char>> {
    texts.map_values(|t: String| t@)
}

/// Whether two lists of texts are equal, text by text.
pub fn texts_equal(a: &Vec<String>, b: &Vec<String>) -> (res: bool)
    ensures
        res == (text_views(a@) == text_views(b@)),
{
    if a.len() != b.len() {
        proof {
            assert(text_views(a@).len() != text_views(b@).len());
        }
        return false;
    }
    let n = a.len();
    let mut i: usize = 0;
    while i < n
        invariant
            n == a@.len(),
            n == b@.len(),
            i <= n,
            forall|j: int| 0 <= j < i ==> #[trigger] a@[j]@ == b@[j]@,
        decreases n - i,
    {
        if a[i] != b[i] {
            proof {
                assert(text_views(a@)[i as int] != text_views(b@)[i as int]);
            }
            return false;
        }
        i = i + 1;
    }
    proof {
        assert(text_views(a@) =~= text_views(b@));
    }
    true
}

} // verus!
