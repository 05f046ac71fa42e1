//! The names that a described structure gives to its parts.

use heck::ToPascalCase;
use vstd::prelude::*;
use vstd::string::StringExecFns;

use crate::utils::decimal::{decimal_text, digit_char};

verus! {

/// A text in Pascal case, as `heck` writes it: the words of the text, each
/// with a capital first letter, with nothing between them.
pub uninterp spec fn pascal_case(text: Seq<char>) -> Seq<char>;

/// Calls `heck::ToPascalCase::to_pascal_case`. The contract only names the
/// result; it claims nothing about where words begin and end.
#[verifier::external_body]
pub(crate) fn to_pascal_case(text: &str) -> (r: String)
    ensures
        r@ == pascal_case(text@),
{
    text.to_pascal_case()
}

/// The text of one decimal digit.
fn digit_str(d: usize) -> (s: &'static str)
    requires
        d < 10,
    ensures
        s@ == seq![digit_char(d as int)],
{
    proof {
        reveal_strlit("0");
        reveal_strlit("1");
        reveal_strlit("2");
        reveal_strlit("3");
        reveal_strlit("4");
        reveal_strlit("5");
        reveal_strlit("6");
        reveal_strlit("7");
        reveal_strlit("8");
        reveal_strlit("9");
    }
    let s = if d == 0 {
        "0"
    } else if d == 1 {
        "1"
    } else if d == 2 {
        "2"
    } else if d == 3 {
        "3"
    } else if d == 4 {
        "4"
    } else if d == 5 {
        "5"
    } else if d == 6 {
        "6"
    } else if d == 7 {
        "7"
    } else if d == 8 {
        "8"
    } else {
        "9"
    };
    assert(s@ =~= seq![digit_char(d as int)]);
    s
}

/// Writes a number in decimal digits.
pub fn decimal_string(n: usize) -> (s: String)
    ensures
        s@ == decimal_text(n as nat),
    decreases n,
{
    if n < 10 {
        String::from_str(digit_str(n))
    } else {
        let head = decimal_string(n / 10);
        let s = head.concat(digit_str(n % 10));
        assert(s@ =~= decimal_text((n / 10) as nat).push(digit_char((n % 10) as int)));
        s
    }
}

/// The name of a field that has none of its own: `field_` and its position.
pub open spec fn positional_name(idx: nat) -> Seq<char> {
    "field_"@ + decimal_text(idx)
}

/// The name of the error type of the structure `ident`.
pub open spec fn error_name(ident: Seq<char>) -> Seq<char> {
    ident + "EnvError"@
}

/// The name of the module that holds what is written for the structure
/// `ident`.
pub open spec fn module_name(ident: Seq<char>) -> Seq<char> {
    "__from_env_impls_"@ + ident
}

} // verus!
