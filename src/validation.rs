//! The analysis request and the rules an inbound request must pass.

use crate::magnitude::{exceeds_limit, exceeds_magnitude_limit};
use vstd::prelude::*;
use vstd::string::StrSliceExecFns;

verus! {

/// The most numbers a request may carry.
pub const MAX_NUMBERS: usize = 100;

/// The most characters the text of a request may hold.
pub const MAX_TEXT_CHARS: usize = 1000;

/// An analysis request: a sequence of numbers and a text.
///
/// Each number is held as the bit pattern of its IEEE-754 binary64 value.
#[derive(Clone, Debug)]
pub struct AnalysisRequest {
    pub numbers: Vec<u64>,
    pub text: String,
}

/// The rule that a request broke, one per validation rule.
#[derive(Clone, Copy, Debug, PartialEq, Eq, Structural)]
pub enum Rejection {
    EmptyNumbers,
    TooManyNumbers,
    NumberOutOfRange,
    TextTooLong,
}

/// Whether some number in the sequence lies outside the accepted magnitude.
pub open spec fn has_out_of_range(numbers: Seq<u64>) -> bool {
    exists|i: int| 0 <= i < numbers.len() && exceeds_magnitude_limit(#[trigger] numbers[i])
}

/// The first rule, in order, that a request with these numbers and this text
/// breaks; `None` when it passes them all.
pub open spec fn first_violation(numbers: Seq<u64>, text: Seq<char>) -> Option<Rejection> {
    if numbers.len() == 0 {
        Some(Rejection::EmptyNumbers)
    } else if numbers.len() > MAX_NUMBERS {
        Some(Rejection::TooManyNumbers)
    } else if has_out_of_range(numbers) {
        Some(Rejection::NumberOutOfRange)
    } else if text.len() > MAX_TEXT_CHARS {
        Some(Rejection::TextTooLong)
    } else {
        None
    }
}

impl AnalysisRequest {
    pub open spec fn violation(&self) -> Option<Rejection> {
        first_violation(self.numbers@, self.text@)
    }

    pub open spec fn is_acceptable(&self) -> bool {
        self.violation() is None
    }
}

/// The message that reports a broken rule.
pub open spec fn rejection_text(rejection: Rejection) -> Seq<char> {
    match rejection {
        Rejection::EmptyNumbers => "numbers array cannot be empty."@,
        Rejection::TooManyNumbers => "too many numbers (max 100)"@,
        Rejection::NumberOutOfRange => "number out of valid range"@,
        Rejection::TextTooLong => "text field exceeds maximum length of 1000 characters."@,
    }
}

impl Rejection {
    pub fn message(&self) -> (r: String)
        ensures
            r@ == rejection_text(*self),
    {
        match self {
            Rejection::EmptyNumbers => "numbers array cannot be empty.".to_string(),
            Rejection::TooManyNumbers => "too many numbers (max 100)".to_string(),
            Rejection::NumberOutOfRange => "number out of valid range".to_string(),
            Rejection::TextTooLong => "text field exceeds maximum length of 1000 characters.".to_string(),
        }
    }
}

/// Applies the rules in order and reports the first one broken.
pub fn validate(request: &AnalysisRequest) -> (r: Result<(), Rejection>)
    ensures
        r matches Ok(_) <==> request.is_acceptable(),
        r matches Err(v) ==> request.violation() == Some(v),
{
    let count = request.numbers.len();
    if count == 0 {
        return Err(Rejection::EmptyNumbers);
    }
    if count > MAX_NUMBERS {
        return Err(Rejection::TooManyNumbers);
    }
    let mut i: usize = 0;
    while i < count
        invariant
            count == request.numbers@.len(),
            0 < count <= MAX_NUMBERS,
            i <= count,
            forall|j: int| 0 <= j < i ==> !exceeds_magnitude_limit(#[trigger] request.numbers@[j]),
        decreases count - i,
    {
        if exceeds_limit(request.numbers[i]) {
            assert(exceeds_magnitude_limit(request.numbers@[i as int]));
            return Err(Rejection::NumberOutOfRange);
        }
        i = i + 1;
    }
    if request.text.as_str().unicode_len() > MAX_TEXT_CHARS {
        return Err(Rejection::TextTooLong);
    }
    Ok(())
}

} // verus!
