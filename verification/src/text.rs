//! Text helpers: substring search, joining and decimal numerals.
use vstd::prelude::*;

verus! {

/// `part` stands in `text` at position `at`.
pub open spec fn text_at(text: Seq<char>, part: Seq<char>, at: int) -> bool {
    &&& 0 <= at
    &&& at + part.len() <= text.len()
    &&& text.subrange(at, at + part.len()) == part
}

/// `part` occurs somewhere in `text`.
pub open spec fn has_text(text: Seq<char>, part: Seq<char>) -> bool {
    exists|at: int| text_at(text, part, at)
}

/// Calls `str::contains` with a string pattern. The contract claims that the
/// result tells whether the pattern is a contiguous run of the text.
#[verifier::external_body]
pub(crate) fn contains_text(text: &str, part: &str) -> (found: bool)
    ensures
        found == has_text(text@, part@),
{
    text.contains(part)
}

/// The items one after another, with `separator` between neighbours.
pub open spec fn joined(items: Seq<Seq<char>>, separator: Seq<char>) -> Seq<char>
    decreases items.len(),
{
    if items.len() == 0 {
        Seq::empty()
    } else if items.len() == 1 {
        items[0]
    } else {
        joined(items.drop_last(), separator) + separator + items.last()
    }
}

/// Joins the items with `separator`.
pub fn join(items: &Vec<String>, separator: &str) -> (whole: String)
    ensures
        whole@ == joined(items.deep_view(), separator@),
{
    let ghost parts = items.deep_view();
    let mut whole = String::new();
    let mut count: usize = 0;
    while count < items.len()
        invariant
            count <= items.len(),
            parts == items.deep_view(),
            whole@ == joined(parts.take(count as int), separator@),
        decreases items.len() - count,
    {
        let ghost before = parts.take(count as int);
        let ghost after = parts.take(count + 1);
        assert(after.drop_last() =~= before);
        assert(after.last() == items[count as int]@);
        if count > 0 {
            whole.append(separator);
        }
        whole.append(items[count].as_str());
        assert(whole@ =~= joined(after, separator@));
        count += 1;
    }
    assert(parts.take(count as int) =~= parts);
    whole
}

/// The character of a decimal digit.
pub open spec fn digit_char(digit: nat) -> char {
    if digit == 0 {
        '0'
    } else if digit == 1 {
        '1'
    } else if digit == 2 {
        '2'
    } else if digit == 3 {
        '3'
    } else if digit == 4 {
        '4'
    } else if digit == 5 {
        '5'
    } else if digit == 6 {
        '6'
    } else if digit == 7 {
        '7'
    } else if digit == 8 {
        '8'
    } else {
        '9'
    }
}

/// The decimal numeral of a number, without leading zeros.
pub open spec fn decimal(number: nat) -> Seq<char>
    decreases number,
{
    if number < 10 {
        seq![digit_char(number)]
    } else {
        decimal(number / 10).push(digit_char(number % 10))
    }
}

/// The text is the decimal numeral of some `u128`.
pub open spec fn is_numeral(text: Seq<char>) -> bool {
    exists|number: u128| text == #[trigger] decimal(number as nat)
}

fn digit_text(digit: u128) -> (text: &'static str)
    requires
        digit < 10,
    ensures
        text@ == seq![digit_char(digit as nat)],
{
    proof {
        reveal_strlit("0");
        reveal_strlit("1");
        reveal_strlit("2");
        reveal_strlit("3");
        reveal_strlit("4");
        reveal_strlit("5");
        reveal_strlit("6");
        reveal_strlit("7");
        reveal_strlit("8");
        reveal_strlit("9");
    }
    if digit == 0 {
        "0"
    } else if digit == 1 {
        "1"
    } else if digit == 2 {
        "2"
    } else if digit == 3 {
        "3"
    } else if digit == 4 {
        "4"
    } else if digit == 5 {
        "5"
    } else if digit == 6 {
        "6"
    } else if digit == 7 {
        "7"
    } else if digit == 8 {
        "8"
    } else {
        "9"
    }
}

/// Writes a number in decimal.
pub fn decimal_string(number: u128) -> (text: String)
    ensures
        text@ == decimal(number as nat),
    decreases number,
{
    if number < 10 {
        String::from_str(digit_text(number))
    } else {
        let mut text = decimal_string(number / 10);
        text.append(digit_text(number % 10));
        assert(text@ =~= decimal(number as nat));
        text
    }
}

} // verus!
