//! Reading a search request out of the decoded query string of a call.
//!
//! A call carries `q`, the query, and may carry `nhits`, the number of results
//! wanted, and `offset`, the number of best matches to leave out. Where a name
//! is given more than once, its first value counts.

use crate::text::{chars_of, same_text};
use vstd::prelude::*;

verus! {

/// How many results a call gets that asks for no number of its own.
pub const DEFAULT_HITS: usize = 10;

/// How many matches are left out for a call that names no offset.
pub const DEFAULT_OFFSET: usize = 0;

/// The status with which a call is turned away.
pub const BAD_REQUEST: u16 = 400;

/// What a call asks for.
#[derive(Debug, Clone, PartialEq, Eq)]
pub struct SearchRequest {
    /// The query, as free text.
    pub query: String,
    /// How many results to return at most; never zero.
    pub num_hits: usize,
    /// How many of the best matches to leave out.
    pub offset: usize,
}

/// The mathematical value of a [`SearchRequest`].
pub struct RequestView {
    pub query: Seq<char>,
    pub num_hits: usize,
    pub offset: usize,
}

impl View for SearchRequest {
    type V = RequestView;

    open spec fn view(&self) -> RequestView {
        RequestView { query: self.query@, num_hits: self.num_hits, offset: self.offset }
    }
}

/// Why a call is turned away. Either way the fault is the caller's.
#[derive(Debug, Clone, Copy, PartialEq, Eq, Structural)]
pub enum RequestError {
    /// The query string could not be decoded.
    Undecodable,
    /// The call names no `q`.
    MissingQuery,
}

/// The name/value pairs of a decoded query string.
pub type Pairs = Seq<(Seq<char>, Seq<char>)>;

/// The views of a list of pairs.
pub open spec fn pairs_of(pairs: Seq<(String, String)>) -> Pairs {
    pairs.map_values(|p: (String, String)| (p.0@, p.1@))
}

/// The views of a decoded query string, where there is one.
pub open spec fn decoded_of(decoded: Option<Vec<(String, String)>>) -> Option<Pairs> {
    match decoded {
        Some(pairs) => Some(pairs_of(pairs@)),
        None => None,
    }
}

/// The value of the first pair named `name`.
pub open spec fn first_value_of(pairs: Pairs, name: Seq<char>) -> Option<Seq<char>>
    decreases pairs.len(),
{
    if pairs.len() == 0 {
        None
    } else if pairs[0].0 == name {
        Some(pairs[0].1)
    } else {
        first_value_of(pairs.drop_first(), name)
    }
}

/// Whether `c` is one of the ten decimal digits.
pub open spec fn is_digit(c: char) -> bool {
    '0' <= c <= '9'
}

/// The number that the digits `digits` spell.
pub open spec fn decimal_value(digits: Seq<char>) -> nat
    decreases digits.len(),
{
    if digits.len() == 0 {
        0
    } else {
        (decimal_value(digits.drop_last()) * 10 + (digits.last() as u32 - '0' as u32)) as nat
    }
}

/// What is left of a number's text after an optional plus sign.
pub open spec fn unsigned_part(text: Seq<char>) -> Seq<char> {
    if text.len() > 0 && text[0] == '+' {
        text.skip(1)
    } else {
        text
    }
}

/// The count that `text` spells: decimal digits, at least one, after an
/// optional plus sign, and no more than a `usize` holds.
pub open spec fn count_of(text: Seq<char>) -> Option<usize> {
    let digits = unsigned_part(text);
    if digits.len() > 0 && (forall|i: int| 0 <= i < digits.len() ==> is_digit(#[trigger] digits[i]))
        && decimal_value(digits) <= usize::MAX {
        Some(decimal_value(digits) as usize)
    } else {
        None
    }
}

/// The number of results wanted: what `nhits` spells if that is a count above
/// zero, ten otherwise.
pub open spec fn num_hits_of(pairs: Pairs) -> usize {
    match first_value_of(pairs, "nhits"@) {
        Some(text) => match count_of(text) {
            Some(n) => if n > 0 {
                n
            } else {
                DEFAULT_HITS
            },
            None => DEFAULT_HITS,
        },
        None => DEFAULT_HITS,
    }
}

/// The offset wanted: what `offset` spells if that is a count, zero otherwise.
pub open spec fn offset_of(pairs: Pairs) -> usize {
    match first_value_of(pairs, "offset"@) {
        Some(text) => match count_of(text) {
            Some(n) => n,
            None => DEFAULT_OFFSET,
        },
        None => DEFAULT_OFFSET,
    }
}

/// What a call asks for, or why it is turned away.
pub open spec fn request_of(decoded: Option<Pairs>) -> Result<RequestView, RequestError> {
    match decoded {
        None => Err(RequestError::Undecodable),
        Some(pairs) => match first_value_of(pairs, "q"@) {
            None => Err(RequestError::MissingQuery),
            Some(query) => Ok(
                RequestView { query, num_hits: num_hits_of(pairs), offset: offset_of(pairs) },
            ),
        },
    }
}

/// The views of the outcome of reading a request.
pub open spec fn outcome_of(outcome: Result<SearchRequest, RequestError>) -> Result<
    RequestView,
    RequestError,
> {
    match outcome {
        Ok(request) => Ok(request@),
        Err(e) => Err(e),
    }
}

/// A number grows, or stays, with every digit that is appended.
proof fn lemma_decimal_value_grows(digits: Seq<char>, k: int)
    requires
        0 <= k <= digits.len(),
        forall|i: int| 0 <= i < digits.len() ==> is_digit(#[trigger] digits[i]),
    ensures
        decimal_value(digits.take(k)) <= decimal_value(digits),
    decreases digits.len() - k,
{
    if k < digits.len() {
        lemma_decimal_value_grows(digits, k + 1);
        assert(digits.take(k + 1).drop_last() =~= digits.take(k));
        assert(is_digit(digits[k]));
    } else {
        assert(digits.take(k) =~= digits);
    }
}

/// Reads a count: decimal digits after an optional plus sign. Anything else,
/// and a number too large for a `usize`, gives `None`.
pub fn parse_count(text: &str) -> (count: Option<usize>)
    ensures
        count == count_of(text@),
{
    let chars = chars_of(text);
    let start: usize = if chars.len() > 0 && chars[0] == '+' {
        1
    } else {
        0
    };
    let ghost digits = unsigned_part(text@);
    assert(digits =~= chars@.skip(start as int));
    if start == chars.len() {
        return None;
    }
    let mut value: usize = 0;
    let mut at: usize = start;
    while at < chars.len()
        invariant
            start <= at <= chars.len(),
            start < chars.len(),
            digits == unsigned_part(text@),
            digits == chars@.skip(start as int),
            forall|i: int| 0 <= i < at - start ==> is_digit(#[trigger] digits[i]),
            value == decimal_value(digits.take(at - start)),
        decreases chars.len() - at,
    {
        let c = chars[at];
        assert(c == digits[at - start]);
        if c < '0' || c > '9' {
            return None;
        }
        let digit: usize = (c as u32 - '0' as u32) as usize;
        assert(digits.take(at - start + 1).drop_last() =~= digits.take(at - start));
        let ghost next = decimal_value(digits.take(at - start + 1));
        assert(next == value * 10 + digit);
        let grown = match value.checked_mul(10) {
            Some(tens) => tens.checked_add(digit),
            None => None,
        };
        match grown {
            Some(v) => {
                value = v;
            },
            None => {
                proof {
                    if forall|i: int| 0 <= i < digits.len() ==> is_digit(#[trigger] digits[i]) {
                        lemma_decimal_value_grows(digits, at - start + 1);
                    }
                }
                return None;
            },
        }
        at += 1;
    }
    assert(digits.take(at - start) =~= digits);
    Some(value)
}

/// Looks up the value of the first pair named `name`.
pub fn first_value<'a>(pairs: &'a Vec<(String, String)>, name: &str) -> (value: Option<&'a String>)
    ensures
        match value {
            Some(text) => first_value_of(pairs_of(pairs@), name@) == Some(text@),
            None => first_value_of(pairs_of(pairs@), name@) is None,
        },
{
    let ghost all = pairs_of(pairs@);
    assert(all.skip(0) =~= all);
    let mut at: usize = 0;
    while at < pairs.len()
        invariant
            at <= pairs.len(),
            all == pairs_of(pairs@),
            first_value_of(all, name@) == first_value_of(all.skip(at as int), name@),
        decreases pairs.len() - at,
    {
        assert(all.skip(at as int)[0] == all[at as int]);
        assert(all.skip(at as int).drop_first() =~= all.skip(at + 1));
        if same_text(pairs[at].0.as_str(), name) {
            return Some(&pairs[at].1);
        }
        at += 1;
    }
    None
}

/// Reads the count named `name`, if the call gives one that can be read.
fn count_named(pairs: &Vec<(String, String)>, name: &str) -> (count: Option<usize>)
    ensures
        count == match first_value_of(pairs_of(pairs@), name@) {
            Some(text) => count_of(text),
            None => None,
        },
{
    match first_value(pairs, name) {
        Some(text) => parse_count(text.as_str()),
        None => None,
    }
}

/// Reads what a call asks for out of its decoded query string; `None` stands
/// for a query string that could not be decoded. The call is turned away when
/// there is nothing decoded or no `q` in it. A number of results that is
/// missing, unreadable or zero becomes ten, and an offset that is missing or
/// unreadable becomes zero.
pub fn search_request(decoded: Option<Vec<(String, String)>>) -> (outcome: Result<
    SearchRequest,
    RequestError,
>)
    ensures
        outcome_of(outcome) == request_of(decoded_of(decoded)),
{
    let pairs = match decoded {
        Some(pairs) => pairs,
        None => {
            return Err(RequestError::Undecodable);
        },
    };
    let num_hits = match count_named(&pairs, "nhits") {
        Some(n) => if n > 0 {
            n
        } else {
            DEFAULT_HITS
        },
        None => DEFAULT_HITS,
    };
    let offset = match count_named(&pairs, "offset") {
        Some(n) => n,
        None => DEFAULT_OFFSET,
    };
    match first_value(&pairs, "q") {
        Some(query) => Ok(SearchRequest { query: query.clone(), num_hits, offset }),
        None => Err(RequestError::MissingQuery),
    }
}

impl RequestError {
    /// The status to answer with.
    pub open spec fn status_of(self) -> u16 {
        BAD_REQUEST
    }

    /// The text to answer with.
    pub open spec fn message_of(self) -> Seq<char> {
        match self {
            RequestError::Undecodable => "Failed to decode error"@,
            RequestError::MissingQuery => "Parameter q is missing from the query"@,
        }
    }

    /// The status to answer with: the call was a bad request.
    pub fn status(&self) -> (code: u16)
        ensures
            code == self.status_of(),
    {
        BAD_REQUEST
    }

    /// The text to answer with.
    pub fn message(&self) -> (text: String)
        ensures
            text@ == self.message_of(),
    {
        match self {
            RequestError::Undecodable => "Failed to decode error".to_owned(),
            RequestError::MissingQuery => "Parameter q is missing from the query".to_owned(),
        }
    }
}

} // verus!
