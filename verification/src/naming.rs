//! The names that generated code gives to what it declares.
use vstd::prelude::*;

verus! {

/// A name in upper camel case: its words, as letter case and the characters
/// that are no letters or digits part them, each with a capital first
/// letter, and nothing between them.
pub uninterp spec fn upper_camel_case(name: Seq<char>) -> Seq<char>;

/// Calls `heck::ToUpperCamelCase::to_upper_camel_case` on `name`.
///
/// The conversion depends on the characters of `name` alone, and the
/// contract says only that: the result is what the conversion gives for
/// these characters.
#[verifier::external_body]
pub(crate) fn to_upper_camel_case(name: &str) -> (converted: String)
    ensures
        converted@ == upper_camel_case(name@),
{
    heck::ToUpperCamelCase::to_upper_camel_case(name)
}

/// The decimal digit for `value`, which is below ten.
pub open spec fn digit(value: nat) -> char {
    if value == 0 {
        '0'
    } else if value == 1 {
        '1'
    } else if value == 2 {
        '2'
    } else if value == 3 {
        '3'
    } else if value == 4 {
        '4'
    } else if value == 5 {
        '5'
    } else if value == 6 {
        '6'
    } else if value == 7 {
        '7'
    } else if value == 8 {
        '8'
    } else {
        '9'
    }
}

/// The digits of `number` in base ten, without leading zeros.
pub open spec fn decimal(number: nat) -> Seq<char>
    decreases number,
{
    if number < 10 {
        seq![digit(number)]
    } else {
        decimal(number / 10).push(digit(number % 10))
    }
}

fn digit_text(value: usize) -> (text: &'static str)
    requires
        value < 10,
    ensures
        text@ == seq![digit(value as nat)],
{
    let text = if value == 0 {
        "0"
    } else if value == 1 {
        "1"
    } else if value == 2 {
        "2"
    } else if value == 3 {
        "3"
    } else if value == 4 {
        "4"
    } else if value == 5 {
        "5"
    } else if value == 6 {
        "6"
    } else if value == 7 {
        "7"
    } else if value == 8 {
        "8"
    } else {
        "9"
    };
    proof {
        reveal_strlit("0");
        reveal_strlit("1");
        reveal_strlit("2");
        reveal_strlit("3");
        reveal_strlit("4");
        reveal_strlit("5");
        reveal_strlit("6");
        reveal_strlit("7");
        reveal_strlit("8");
        reveal_strlit("9");
    }
    text
}

/// Writes `number` in base ten.
pub fn decimal_text(number: usize) -> (text: String)
    ensures
        text@ == decimal(number as nat),
    decreases number,
{
    if number < 10 {
        String::from_str(digit_text(number))
    } else {
        let mut text = decimal_text(number / 10);
        text.append(digit_text(number % 10));
        text
    }
}

/// The name of the variant for a member: the member's name in upper camel
/// case, or `Field` and the member's position where it has no name.
pub open spec fn variant_name(ident: Option<Seq<char>>, index: nat) -> Seq<char> {
    match ident {
        Some(name) => upper_camel_case(name),
        None => "Field"@ + decimal(index),
    }
}

/// Names the variant for the member called `ident`, or without a name, at
/// position `index` among the members of its record.
pub fn name_variant(ident: &Option<String>, index: usize) -> (variant: String)
    ensures
        variant@ == variant_name(ident.deep_view(), index as nat),
{
    match ident {
        Some(name) => to_upper_camel_case(name.as_str()),
        None => {
            let mut variant = String::from_str("Field");
            let digits = decimal_text(index);
            variant.append(digits.as_str());
            variant
        },
    }
}

} // verus!
