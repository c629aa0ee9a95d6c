//! Rendering numbers and lists as text, for messages.
use vstd::prelude::*;
use vstd::string::StrSliceExecFns;
use vstd::string::StringExecFns;

verus! {

/// The decimal digit for `digit` (below ten).
pub open spec fn digit_char(digit: nat) -> char {
    if digit == 0 {
        '0'
    } else if digit == 1 {
        '1'
    } else if digit == 2 {
        '2'
    } else if digit == 3 {
        '3'
    } else if digit == 4 {
        '4'
    } else if digit == 5 {
        '5'
    } else if digit == 6 {
        '6'
    } else if digit == 7 {
        '7'
    } else if digit == 8 {
        '8'
    } else {
        '9'
    }
}

/// The decimal digits of `value`, most significant first, without leading zeros.
pub open spec fn spec_decimal(value: nat) -> Seq<char>
    decreases value,
{
    if value < 10 {
        seq![digit_char(value)]
    } else {
        spec_decimal(value / 10).push(digit_char(value % 10))
    }
}

/// `text` padded on the left with zeros to at least `width` characters.
pub open spec fn zero_padded(text: Seq<char>, width: nat) -> Seq<char> {
    if text.len() < width {
        Seq::new((width - text.len()) as nat, |i: int| '0') + text
    } else {
        text
    }
}

/// `items` joined with `separator` between each two.
pub open spec fn joined(items: Seq<Seq<char>>, separator: Seq<char>) -> Seq<char>
    decreases items.len(),
{
    if items.len() == 0 {
        Seq::empty()
    } else if items.len() == 1 {
        items[0]
    } else {
        joined(items.drop_last(), separator) + separator + items.last()
    }
}

/// The decimal digit for `digit`.
fn digit_text(digit: u64) -> (result: String)
    requires
        digit < 10,
    ensures
        result@ == seq![digit_char(digit as nat)],
{
    proof {
        reveal_strlit("0");
        reveal_strlit("1");
        reveal_strlit("2");
        reveal_strlit("3");
        reveal_strlit("4");
        reveal_strlit("5");
        reveal_strlit("6");
        reveal_strlit("7");
        reveal_strlit("8");
        reveal_strlit("9");
    }
    let text = match digit {
        0 => "0",
        1 => "1",
        2 => "2",
        3 => "3",
        4 => "4",
        5 => "5",
        6 => "6",
        7 => "7",
        8 => "8",
        _ => "9",
    };
    let result = String::from_str(text);
    assert(result@ =~= seq![digit_char(digit as nat)]);
    result
}

/// The decimal digits of `value`.
pub fn decimal(value: u64) -> (result: String)
    ensures
        result@ == spec_decimal(value as nat),
    decreases value,
{
    if value < 10 {
        digit_text(value)
    } else {
        let prefix = decimal(value / 10);
        let last = digit_text(value % 10);
        let result = prefix.concat(last.as_str());
        assert(result@ =~= spec_decimal(value as nat));
        result
    }
}

/// `text` padded on the left with zeros to at least `width` characters.
pub fn pad_with_zeros(text: String, width: usize) -> (result: String)
    ensures
        result@ == zero_padded(text@, width as nat),
{
    let length = text.as_str().unicode_len();
    if length >= width {
        return text;
    }
    let mut padding = String::new();
    let mut count: usize = 0;
    while count < width - length
        invariant
            count <= width - length,
            padding@ == Seq::new(count as nat, |i: int| '0'),
        decreases width - length - count,
    {
        proof {
            reveal_strlit("0");
        }
        padding = padding.concat("0");
        count = count + 1;
        assert(padding@ =~= Seq::new(count as nat, |i: int| '0'));
    }
    padding.concat(text.as_str())
}

} // verus!
