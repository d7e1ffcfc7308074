//! Second-factor codes.
use rand::rngs::ThreadRng;
use rand::Rng;
use vstd::prelude::*;
use vstd::string::{StrSliceExecFns, StringExecFns};

verus! {

/// The number of digits in a second-factor code.
pub const CODE_DIGITS: usize = 6;

/// Whether `c` is one of the ten ASCII digits.
pub open spec fn is_digit_char(c: char) -> bool {
    '0' <= c && c <= '9'
}

/// The ASCII digit that stands for `digit`, a number below ten.
pub open spec fn digit_char(digit: u32) -> char {
    if digit == 0 {
        '0'
    } else if digit == 1 {
        '1'
    } else if digit == 2 {
        '2'
    } else if digit == 3 {
        '3'
    } else if digit == 4 {
        '4'
    } else if digit == 5 {
        '5'
    } else if digit == 6 {
        '6'
    } else if digit == 7 {
        '7'
    } else if digit == 8 {
        '8'
    } else {
        '9'
    }
}

/// Whether every character of `s` is an ASCII digit.
pub open spec fn all_digits(s: Seq<char>) -> bool {
    forall|i: int| 0 <= i < s.len() ==> is_digit_char(#[trigger] s[i])
}

/// Whether `s` is a second-factor code: exactly [`CODE_DIGITS`] ASCII digits.
pub open spec fn code_text_ok(s: Seq<char>) -> bool {
    s.len() == CODE_DIGITS && all_digits(s)
}

/// A second-factor code: six ASCII digits.
#[derive(Debug)]
pub struct TwoFACode(String);

impl View for TwoFACode {
    type V = Seq<char>;

    closed spec fn view(&self) -> Seq<char> {
        self.0@
    }
}

impl TwoFACode {
    #[verifier::type_invariant]
    spec fn six_digits(&self) -> bool {
        code_text_ok(self.0@)
    }

    /// Accepts `code` if it is exactly six ASCII digits, and rejects it with
    /// the message `Invalid 2FA code` otherwise.
    pub fn parse(code: String) -> (r: Result<Self, String>)
        ensures
            match r {
                Ok(parsed) => code_text_ok(code@) && parsed@ == code@,
                Err(message) => !code_text_ok(code@) && message@ == "Invalid 2FA code"@,
            },
    {
        if is_valid_code(code.as_str()) {
            Ok(TwoFACode(code))
        } else {
            Err("Invalid 2FA code".to_owned())
        }
    }

    /// The code's text.
    pub fn as_ref(&self) -> (s: &str)
        ensures
            s@ == self@,
            code_text_ok(s@),
    {
        proof {
            use_type_invariant(self);
        }
        self.0.as_str()
    }
}

impl Default for TwoFACode {
    /// A fresh random code.
    fn default() -> (r: Self)
        ensures
            code_text_ok(r@),
    {
        TwoFACode(generate_code())
    }
}

impl Clone for TwoFACode {
    fn clone(&self) -> (r: Self)
        ensures
            r@ == self@,
    {
        proof {
            use_type_invariant(self);
        }
        TwoFACode(self.0.clone())
    }
}

impl PartialEq for TwoFACode {
    fn eq(&self, other: &Self) -> (r: bool) {
        self.0 == other.0
    }
}

impl vstd::std_specs::cmp::PartialEqSpecImpl for TwoFACode {
    open spec fn obeys_eq_spec() -> bool {
        true
    }

    open spec fn eq_spec(&self, other: &Self) -> bool {
        self@ == other@
    }
}

/// Tells whether `code` is exactly six ASCII digits.
pub fn is_valid_code(code: &str) -> (ok: bool)
    ensures
        ok == code_text_ok(code@),
{
    if code.unicode_len() != CODE_DIGITS {
        return false;
    }
    let mut i: usize = 0;
    while i < CODE_DIGITS
        invariant
            i <= CODE_DIGITS,
            code@.len() == CODE_DIGITS,
            forall|j: int| 0 <= j < i ==> is_digit_char(#[trigger] code@[j]),
        decreases CODE_DIGITS - i,
    {
        let c = code.get_char(i);
        if !(c >= '0' && c <= '9') {
            return false;
        }
        i = i + 1;
    }
    true
}

/// The one-character text of `digit`, a number below ten.
pub fn digit_text(digit: u32) -> (text: &'static str)
    requires
        digit < 10,
    ensures
        text@ == seq![digit_char(digit)],
{
    proof {
        reveal_strlit("0");
        reveal_strlit("1");
        reveal_strlit("2");
        reveal_strlit("3");
        reveal_strlit("4");
        reveal_strlit("5");
        reveal_strlit("6");
        reveal_strlit("7");
        reveal_strlit("8");
        reveal_strlit("9");
    }
    let text = if digit == 0 {
        "0"
    } else if digit == 1 {
        "1"
    } else if digit == 2 {
        "2"
    } else if digit == 3 {
        "3"
    } else if digit == 4 {
        "4"
    } else if digit == 5 {
        "5"
    } else if digit == 6 {
        "6"
    } else if digit == 7 {
        "7"
    } else if digit == 8 {
        "8"
    } else {
        "9"
    };
    assert(text@ =~= seq![digit_char(digit)]);
    text
}

/// Whether every number of `digits` is below ten.
pub open spec fn all_below_ten(digits: Seq<u32>) -> bool {
    forall|i: int| 0 <= i < digits.len() ==> (#[trigger] digits[i]) < 10
}

/// The text that writes out `digits`: one ASCII digit for each number, in
/// their order.
pub open spec fn digits_text(digits: Seq<u32>) -> Seq<char> {
    Seq::new(digits.len(), |i: int| digit_char(digits[i]))
}

/// The number below ten that the ASCII digit `c` stands for.
pub open spec fn digit_of(c: char) -> u32 {
    if c == '0' {
        0
    } else if c == '1' {
        1
    } else if c == '2' {
        2
    } else if c == '3' {
        3
    } else if c == '4' {
        4
    } else if c == '5' {
        5
    } else if c == '6' {
        6
    } else if c == '7' {
        7
    } else if c == '8' {
        8
    } else {
        9
    }
}

/// Writes out `digits`, numbers below ten, as text: the digit of each, in
/// their order. Six of them make a second-factor code.
pub fn code_of_digits(digits: &Vec<u32>) -> (code: String)
    requires
        all_below_ten(digits@),
    ensures
        code@ == digits_text(digits@),
        digits@.len() == CODE_DIGITS ==> code_text_ok(code@),
{
    let mut code = String::new();
    let mut i: usize = 0;
    while i < digits.len()
        invariant
            i <= digits.len(),
            all_below_ten(digits@),
            code@ == digits_text(digits@.take(i as int)),
        decreases digits.len() - i,
    {
        let ghost before = code@;
        code.append(digit_text(digits[i]));
        assert(code@ =~= digits_text(digits@.take(i + 1))) by {
            assert(code@ =~= before.push(digit_char(digits@[i as int])));
        }
        i = i + 1;
    }
    assert(digits@.take(i as int) =~= digits@);
    code
}

/// Draws six random digits and writes them out, in the order drawn, as a
/// code.
pub fn generate_code() -> (code: String)
    ensures
        code_text_ok(code@),
{
    let mut rng = thread_rng();
    let mut digits: Vec<u32> = Vec::new();
    let mut i: usize = 0;
    while i < CODE_DIGITS
        invariant
            i <= CODE_DIGITS,
            digits@.len() == i,
            all_below_ten(digits@),
        decreases CODE_DIGITS - i,
    {
        let digit = random_digit(&mut rng);
        digits.push(digit);
        i = i + 1;
    }
    code_of_digits(&digits)
}

/// Draws that differ, in length or in any place, are written out as codes
/// that differ.
pub proof fn distinct_draws_give_distinct_codes(first: Seq<u32>, second: Seq<u32>)
    requires
        all_below_ten(first),
        all_below_ten(second),
        first != second,
    ensures
        digits_text(first) != digits_text(second),
{
    if first.len() == second.len() {
        if forall|i: int| 0 <= i < first.len() ==> first[i] == second[i] {
            assert(first =~= second);
        }
        let i = choose|i: int| 0 <= i < first.len() && first[i] != second[i];
        assert(digits_text(first)[i] == digit_char(first[i]));
        assert(digits_text(second)[i] == digit_char(second[i]));
    } else {
        assert(digits_text(first).len() != digits_text(second).len());
    }
}

/// Every second-factor code is the text of six digits that can be drawn:
/// all of `000000` to `999999` can come out of the generator.
pub proof fn every_code_can_be_drawn(code: Seq<char>)
    requires
        code_text_ok(code),
    ensures
        all_below_ten(Seq::new(CODE_DIGITS as nat, |i: int| digit_of(code[i]))),
        digits_text(Seq::new(CODE_DIGITS as nat, |i: int| digit_of(code[i]))) == code,
{
    let digits = Seq::new(CODE_DIGITS as nat, |i: int| digit_of(code[i]));
    assert forall|i: int| 0 <= i < code.len() implies digit_char(digit_of(code[i]))
        == code[i] by {
        assert(is_digit_char(code[i]));
    }
    assert(digits_text(digits) =~= code);
}

/// `rand::rngs::ThreadRng`, the handle to a thread's random generator. It is
/// carried to the calls that draw from it; nothing is known of its state.
#[verifier::external_type_specification]
#[verifier::external_body]
pub struct ExThreadRng(ThreadRng);

/// `rand::rng`: a handle to the random generator of the calling thread.
#[verifier::external_body]
fn thread_rng() -> ThreadRng {
    rand::rng()
}

/// `rand::Rng::random_range` over `0..10`: some number from zero to nine.
/// Which one is left open.
#[verifier::external_body]
fn random_digit(rng: &mut ThreadRng) -> (digit: u32)
    ensures
        digit < 10,
{
    rng.random_range(0..10)
}

} // verus!
