//! Bounds-checked lookup in a fixed array of five numbers, and the decision
//! that a console loop takes on each line it reads.

use vstd::prelude::*;
use vstd::string::*;
use crate::text::{
    all_digits, is_digit, parse_unsigned, signed_decimal, signed_text, trim, trimmed,
    unsigned_digits, unsigned_word,
};

verus! {

/// The values of the fixed array, in order.
pub open spec fn fixed_values() -> Seq<i32> {
    seq![1i32, 2i32, 3i32, 4i32, 5i32]
}

/// What looking up `index` gives: the value at that place, or nothing where
/// the index is the array's length or more.
pub open spec fn lookup_spec(index: nat) -> Option<i32> {
    if index < fixed_values().len() {
        Some(fixed_values()[index as int])
    } else {
        None
    }
}

/// What the loop does with one line of input.
#[derive(Clone, Copy, Debug, PartialEq, Eq, Structural)]
pub enum Reply {
    /// The line is no index: ask again, saying nothing.
    Retry,
    /// The line is a valid index: show this value and ask again.
    Found(i32),
    /// The line is an index at or past the array's end: say so and stop.
    TooLarge,
}

/// The index that a line of input names, if it names one: the line is
/// trimmed and read as an unsigned number that fits the machine's word.
pub open spec fn index_of_line(line: Seq<char>) -> Option<usize> {
    unsigned_word(trimmed(line))
}

/// The reply that a line of input calls for.
pub open spec fn reply_spec(line: Seq<char>) -> Reply {
    match index_of_line(line) {
        None => Reply::Retry,
        Some(index) => match lookup_spec(index as nat) {
            Some(value) => Reply::Found(value),
            None => Reply::TooLarge,
        },
    }
}

impl Reply {
    /// What is shown for this reply: nothing before asking again, the value
    /// that was found, or that the index is too large.
    pub open spec fn message_spec(self) -> Option<Seq<char>> {
        match self {
            Reply::Retry => None,
            Reply::Found(value) => Some("Here's your number "@ + signed_text(value as int)),
            Reply::TooLarge => Some("Too big !"@),
        }
    }

    /// Writes what is shown for this reply, if anything is.
    pub fn message(&self) -> (r: Option<String>)
        ensures
            r is Some <==> self.message_spec() is Some,
            r matches Some(text) ==> self.message_spec() == Some(text@),
    {
        match self {
            Reply::Retry => None,
            Reply::Found(value) => {
                let mut text: String = String::from_str("Here's your number ");
                text.append(signed_decimal(*value).as_str());
                Some(text)
            },
            Reply::TooLarge => Some(String::from_str("Too big !")),
        }
    }

    /// Whether the loop goes on after this reply.
    pub open spec fn continues_spec(self) -> bool {
        self != Reply::TooLarge
    }

    /// Whether the loop goes on after this reply: it stops only on an index
    /// that is too large.
    pub fn continues(&self) -> (r: bool)
        ensures
            r == self.continues_spec(),
    {
        match self {
            Reply::TooLarge => false,
            _ => true,
        }
    }
}

/// The fixed array.
pub fn fixed_array() -> (a: [i32; 5])
    ensures
        a@ == fixed_values(),
{
    let a: [i32; 5] = [1, 2, 3, 4, 5];
    assert(a@ =~= fixed_values());
    a
}

/// Looks `index` up in the fixed array. Any index below the array's length
/// gives the value there; the length itself and anything above give `None`.
pub fn lookup(index: usize) -> (r: Option<i32>)
    ensures
        r == lookup_spec(index as nat),
{
    let a: [i32; 5] = fixed_array();
    if index < a.len() {
        Some(a[index])
    } else {
        None
    }
}

/// Reads the index that a line of input names.
pub fn parse_index(line: &str) -> (r: Option<usize>)
    ensures
        r == index_of_line(line@),
{
    parse_unsigned(trim(line))
}

/// Decides what the loop does with one line of input.
pub fn respond(line: &str) -> (r: Reply)
    ensures
        r == reply_spec(line@),
{
    match parse_index(line) {
        None => Reply::Retry,
        Some(index) => match lookup(index) {
            Some(value) => Reply::Found(value),
            None => Reply::TooLarge,
        },
    }
}

/// Every index below five finds the value at its place, which is the index
/// plus one: the array holds 1, 2, 3, 4, 5.
pub proof fn lemma_lookup_in_range(index: nat)
    requires
        index < 5,
    ensures
        lookup_spec(index) == Some(fixed_values()[index as int]),
        lookup_spec(index) == Some((index + 1) as i32),
{
}

/// The index five and every larger one find nothing: the array's length
/// bounds the valid indices.
pub proof fn lemma_lookup_out_of_range(index: nat)
    requires
        index >= 5,
    ensures
        lookup_spec(index) is None,
{
}

/// A line that names the index five or a larger one is answered with
/// "too large", and the loop stops there.
pub proof fn lemma_too_large_stops(line: Seq<char>)
    requires
        index_of_line(line) matches Some(index) && index >= 5,
    ensures
        reply_spec(line) == Reply::TooLarge,
        reply_spec(line).message_spec() == Some("Too big !"@),
        !reply_spec(line).continues_spec(),
{
}

/// A line that names an index below five is answered with the value at that
/// index, and the loop goes on.
pub proof fn lemma_found_continues(line: Seq<char>)
    requires
        index_of_line(line) matches Some(index) && index < 5,
    ensures
        reply_spec(line) == Reply::Found(fixed_values()[index_of_line(line).unwrap() as int]),
        reply_spec(line).continues_spec(),
{
}

/// A line whose text, once trimmed, holds a character that is no digit, other
/// than a plus sign in front, is no index: the loop asks again and does not
/// stop.
pub proof fn lemma_non_numeric_retries(line: Seq<char>, k: int)
    requires
        0 <= k < trimmed(line).len(),
        !is_digit(trimmed(line)[k]),
        !(k == 0 && trimmed(line)[0] == '+'),
    ensures
        reply_spec(line) == Reply::Retry,
        reply_spec(line).message_spec() is None,
        reply_spec(line).continues_spec(),
{
    let t = trimmed(line);
    let d = unsigned_digits(t);
    if t[0] == '+' {
        assert(d[k - 1] == t[k]);
    } else {
        assert(d[k] == t[k]);
    }
    assert(!all_digits(d));
}

/// A line whose text, once trimmed, starts with a minus sign is no index:
/// the loop asks again and does not stop.
pub proof fn lemma_negative_retries(line: Seq<char>)
    requires
        trimmed(line).len() > 0,
        trimmed(line)[0] == '-',
    ensures
        reply_spec(line) == Reply::Retry,
        reply_spec(line).continues_spec(),
{
    lemma_non_numeric_retries(line, 0);
}

/// A line that holds nothing but white space is no index: the loop asks
/// again and does not stop.
pub proof fn lemma_blank_retries(line: Seq<char>)
    requires
        trimmed(line).len() == 0,
    ensures
        reply_spec(line) == Reply::Retry,
        reply_spec(line).continues_spec(),
{
}

} // verus!
