//! Checking what the operator types into the Settings and Debug prompts.

use vstd::prelude::*;
use crate::auth::Notice;
use crate::format::{is_http_url, is_http_url_text};
use crate::onboarding::{digit_part, digits_value, is_digit, lemma_digits_value_grows};
use crate::text::{chars_of, decimal, decimal_string, push_str, string_from_chars, trim_chars, trimmed};
use crate::toast::Level;

verus! {

/// The smallest poll interval accepted, in milliseconds.
pub const MIN_POLL_INTERVAL_MS: u64 = 250;

/// The number `s` spells when it is at most `max`: an optional `+` followed by
/// one or more ASCII digits (as `str::parse` reads an unsigned integer).
pub open spec fn parsed_upto(s: Seq<char>, max: nat) -> Option<nat> {
    let ds = digit_part(s);
    if ds.len() > 0 && (forall|i: int| 0 <= i < ds.len() ==> is_digit(#[trigger] ds[i]))
        && digits_value(ds) <= max {
        Some(digits_value(ds))
    } else {
        None
    }
}

/// The unsigned number `s` spells, if it is at most `max`.
#[verifier::rlimit(40)]
#[verifier::spinoff_prover]
pub fn parse_bounded(s: &[char], max: u64) -> (r: Option<u64>)
    ensures
        r is None ==> parsed_upto(s@, max as nat) is None,
        r matches Some(n) ==> parsed_upto(s@, max as nat) == Some(n as nat),
{
    let start: usize = if s.len() > 0 && s[0] == '+' {
        1
    } else {
        0
    };
    let ghost ds = digit_part(s@);
    assert(ds =~= s@.skip(start as int));
    if start >= s.len() {
        return None;
    }
    let mut value: u128 = 0;
    let mut i = start;
    while i < s.len()
        invariant
            start <= i <= s@.len(),
            start < s@.len(),
            ds == s@.skip(start as int),
            ds == digit_part(s@),
            forall|j: int| 0 <= j < i - start ==> is_digit(#[trigger] ds[j]),
            value == digits_value(ds.take(i - start)),
            value <= max,
        decreases s@.len() - i,
    {
        let c = s[i];
        assert(ds[i - start] == s@[i as int]);
        if !('0' <= c && c <= '9') {
            assert(!is_digit(ds[i - start]));
            assert(!(forall|j: int| 0 <= j < ds.len() ==> is_digit(#[trigger] ds[j])));
            return None;
        }
        let d = ((c as u32) - ('0' as u32)) as u128;
        assert(ds.take(i + 1 - start).drop_last() =~= ds.take(i - start));
        let next = value * 10 + d;
        if next > max as u128 {
            proof {
                assert(digits_value(ds.take(i + 1 - start)) == next);
                if forall|j: int| 0 <= j < ds.len() ==> is_digit(#[trigger] ds[j]) {
                    lemma_digits_value_grows(ds, i + 1 - start);
                }
            }
            return None;
        }
        value = next;
        i = i + 1;
    }
    assert(ds.take(ds.len() as int) =~= ds);
    Some(value as u64)
}

fn trimmed_chars(input: &str) -> (r: Vec<char>)
    ensures
        r@ == trimmed(input@),
{
    let cs = chars_of(input);
    trim_chars(&cs)
}

fn warning(text: &str) -> (r: Notice)
    ensures
        r.level == Level::Warn,
        r.text@ == text@,
{
    Notice { level: Level::Warn, text: text.to_owned() }
}

/// A new operator API URL: the input without surrounding whitespace, which
/// must start with `http://` or `https://`.
pub fn operator_url_input(input: &str) -> (r: Result<String, Notice>)
    ensures
        is_http_url_text(trimmed(input@)) ==> (r matches Ok(v) && v@ == trimmed(input@)),
        !is_http_url_text(trimmed(input@)) ==> (r matches Err(n) && n.level == Level::Warn
            && n.text@ == "Enter an http:// or https:// URL."@),
{
    let value = string_from_chars(&trimmed_chars(input));
    if is_http_url(value.as_str()) {
        Ok(value)
    } else {
        Err(warning("Enter an http:// or https:// URL."))
    }
}

/// A new booth debug token: the input without surrounding whitespace, which
/// must not be empty.
pub fn booth_token_input(input: &str) -> (r: Result<String, Notice>)
    ensures
        trimmed(input@).len() > 0 ==> (r matches Ok(v) && v@ == trimmed(input@)),
        trimmed(input@).len() == 0 ==> (r matches Err(n) && n.level == Level::Warn && n.text@
            == "Paste a non-empty debug token."@),
{
    let cs = trimmed_chars(input);
    if cs.len() == 0 {
        Err(warning("Paste a non-empty debug token."))
    } else {
        Ok(string_from_chars(&cs))
    }
}

/// A new poll interval: a whole number of milliseconds, at least
/// [`MIN_POLL_INTERVAL_MS`].
pub fn poll_interval_input(input: &str) -> (r: Result<u64, Notice>)
    ensures
        match parsed_upto(trimmed(input@), u64::MAX as nat) {
            Some(n) => if n >= MIN_POLL_INTERVAL_MS {
                r == Ok::<u64, Notice>(n as u64)
            } else {
                r matches Err(e) && e.level == Level::Warn && e.text@
                    == "Poll interval must be at least 250 ms."@
            },
            None => r matches Err(e) && e.level == Level::Warn && e.text@
                == "Enter a whole number of milliseconds."@,
        },
{
    let cs = trimmed_chars(input);
    match parse_bounded(&cs, u64::MAX) {
        Some(value) => {
            if value < MIN_POLL_INTERVAL_MS {
                Err(warning("Poll interval must be at least 250 ms."))
            } else {
                Ok(value)
            }
        },
        None => Err(warning("Enter a whole number of milliseconds.")),
    }
}

/// The notice after a poll interval was saved.
pub fn poll_interval_saved(value: u64) -> (r: String)
    ensures
        r@ == "Poll interval saved: "@ + decimal(value as nat) + " ms."@,
{
    let mut text = String::new();
    push_str(&mut text, "Poll interval saved: ");
    push_str(&mut text, decimal_string(value).as_str());
    push_str(&mut text, " ms.");
    text
}

/// A rotary digit to simulate dialing: a number from 0 to 9 (read as a `u8`,
/// so `+7` and `007` are 7).
pub fn dial_digit_input(input: &str) -> (r: Result<u8, Notice>)
    ensures
        match parsed_upto(trimmed(input@), 255) {
            Some(n) => if n <= 9 {
                r == Ok::<u8, Notice>(n as u8)
            } else {
                r matches Err(e) && e.level == Level::Warn && e.text@ == "Enter a single digit 0-9."@
            },
            None => r matches Err(e) && e.level == Level::Warn && e.text@
                == "Enter a single digit 0-9."@,
        },
{
    let cs = trimmed_chars(input);
    match parse_bounded(&cs, 255) {
        Some(value) => {
            if value <= 9 {
                Ok(value as u8)
            } else {
                Err(warning("Enter a single digit 0-9."))
            }
        },
        None => Err(warning("Enter a single digit 0-9.")),
    }
}

} // verus!
