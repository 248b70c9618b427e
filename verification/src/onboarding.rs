//! First-run onboarding: the interactive setup questions, asked line by line.
//!
//! Each prompt writes its question to an output buffer and reads answers from
//! a [`LineReader`], a cursor over the text typed so far. The answers feed the
//! shareable configuration and the separately stored booth secrets.

use vstd::prelude::*;
use vstd::string::StringSliceAdditionalSpecFns;

use crate::text::{chars_of, push_str, string_from_chars, trim_chars, trimmed};

verus! {

broadcast use vstd::string::group_string_axioms;

/// The number of characters before the first line break of `rest` (all of
/// them when there is none).
pub open spec fn line_len(rest: Seq<char>) -> nat
    decreases rest.len(),
{
    if rest.len() == 0 || rest[0] == '\n' {
        0
    } else {
        1 + line_len(rest.drop_first())
    }
}

/// What remains of `rest` after its first line and that line's break.
pub open spec fn after_line(rest: Seq<char>) -> Seq<char> {
    if line_len(rest) < rest.len() {
        rest.skip(line_len(rest) + 1int)
    } else {
        Seq::empty()
    }
}

/// The first line of `rest`, trimmed, or `None` at the end of the input.
pub open spec fn first_line(rest: Seq<char>) -> Option<Seq<char>> {
    if rest.len() == 0 {
        None
    } else {
        Some(trimmed(rest.take(line_len(rest) as int)))
    }
}

proof fn lemma_line_len(rest: Seq<char>, k: int)
    requires
        0 <= k <= rest.len(),
        forall|j: int| 0 <= j < k ==> rest[j] != '\n',
        k < rest.len() ==> rest[k] == '\n',
    ensures
        line_len(rest) == k,
    decreases k,
{
    if k > 0 {
        lemma_line_len(rest.drop_first(), k - 1);
    }
}

/// Reading a line consumes at least one character unless the input is over.
pub proof fn lemma_after_line_shorter(rest: Seq<char>)
    ensures
        rest.len() > 0 ==> after_line(rest).len() < rest.len(),
        rest.len() == 0 ==> after_line(rest).len() == 0,
    decreases rest.len(),
{
    if rest.len() > 0 && rest[0] != '\n' {
        lemma_after_line_shorter(rest.drop_first());
    }
}

/// A cursor over typed input, handing it out one line at a time.
pub struct LineReader {
    text: Vec<char>,
    pos: usize,
}

impl LineReader {
    /// The cursor stays within the input.
    #[verifier::type_invariant]
    spec fn cursor_in_bounds(self) -> bool {
        self.pos <= self.text@.len()
    }

    /// The input not yet read.
    pub closed spec fn rest(self) -> Seq<char> {
        self.text@.skip(self.pos as int)
    }

    /// A reader over the whole of `input`.
    pub fn new(input: &str) -> (r: LineReader)
        ensures
            r.rest() == input@,
    {
        let text = chars_of(input);
        let r = LineReader { text, pos: 0 };
        assert(r.text@.skip(0) =~= input@);
        r
    }

    /// A second reader over the input this one has not read yet.
    pub fn snapshot(&self) -> (r: LineReader)
        ensures
            r.rest() == self.rest(),
    {
        proof {
            use_type_invariant(self);
        }
        let mut text: Vec<char> = Vec::new();
        let mut i = self.pos;
        while i < self.text.len()
            invariant
                self.pos <= i <= self.text@.len(),
                text@ == self.text@.subrange(self.pos as int, i as int),
            decreases self.text@.len() - i,
        {
            text.push(self.text[i]);
            assert(self.text@.subrange(self.pos as int, i + 1) =~= self.text@.subrange(
                self.pos as int,
                i as int,
            ).push(self.text@[i as int]));
            i = i + 1;
        }
        let r = LineReader { text, pos: 0 };
        assert(r.text@.skip(0) =~= self.text@.skip(self.pos as int));
        r
    }

    /// Read one trimmed line, returning `None` at end-of-input.
    pub fn read_line(&mut self) -> (r: Option<String>)
        ensures
            r matches Some(s) ==> first_line(old(self).rest()) == Some(s@),
            r is None ==> first_line(old(self).rest()) is None,
            final(self).rest() == after_line(old(self).rest()),
    {
        proof {
            use_type_invariant(&*self);
        }
        let n = self.text.len();
        if self.pos >= n {
            assert(self.text@.skip(self.pos as int) =~= Seq::<char>::empty());
            return None;
        }
        let ghost rest = self.rest();
        let start = self.pos;
        let mut end = start;
        while end < n && self.text[end] != '\n'
            invariant
                n == self.text@.len(),
                start <= end <= n,
                start < n,
                rest == self.text@.skip(start as int),
                forall|j: int| start <= j < end ==> self.text@[j] != '\n',
            decreases n - end,
        {
            end = end + 1;
        }
        proof {
            lemma_line_len(rest, end - start);
        }
        let mut line: Vec<char> = Vec::new();
        let mut i = start;
        while i < end
            invariant
                start <= i <= end <= n,
                n == self.text@.len(),
                line@ == self.text@.subrange(start as int, i as int),
            decreases end - i,
        {
            line.push(self.text[i]);
            assert(self.text@.subrange(start as int, i + 1) =~= self.text@.subrange(start as int, i as int).push(self.text@[i as int]));
            i = i + 1;
        }
        assert(line@ =~= rest.take(line_len(rest) as int));
        let trimmed_line = trim_chars(&line);
        self.pos = if end < n {
            end + 1
        } else {
            n
        };
        assert(self.rest() =~= after_line(rest));
        Some(string_from_chars(trimmed_line.as_slice()))
    }
}

/// The question asked for a value with a default: `label [default]: `.
pub open spec fn line_prompt_text(label: Seq<char>, default: Seq<char>) -> Seq<char> {
    label + " ["@ + default + "]: "@
}

/// The value a defaulted prompt takes from `rest`: the first line when it is
/// non-empty, otherwise `default` (also at the end of the input).
pub open spec fn line_answer(rest: Seq<char>, default: Seq<char>) -> Seq<char> {
    match first_line(rest) {
        Some(v) => if v.len() > 0 {
            v
        } else {
            default
        },
        None => default,
    }
}

/// Prompt for a value, returning `default` when the input is empty.
pub fn prompt_line(input: &mut LineReader, output: &mut String, label: &str, default: &str) -> (r:
    String)
    ensures
        r@ == line_answer(old(input).rest(), default@),
        final(input).rest() == after_line(old(input).rest()),
        final(output)@ == old(output)@ + line_prompt_text(label@, default@),
{
    push_str(output, label);
    push_str(output, " [");
    push_str(output, default);
    push_str(output, "]: ");
    match input.read_line() {
        Some(value) => {
            if value.as_str().is_empty() {
                default.to_owned()
            } else {
                value
            }
        },
        None => default.to_owned(),
    }
}

/// The question asked for an optional value: `label (optional): `.
pub open spec fn optional_prompt_text(label: Seq<char>) -> Seq<char> {
    label + " (optional): "@
}

/// The value an optional prompt takes from `rest`: the first line when it is
/// non-empty, otherwise none.
pub open spec fn optional_answer(rest: Seq<char>) -> Option<Seq<char>> {
    match first_line(rest) {
        Some(v) => if v.len() > 0 {
            Some(v)
        } else {
            None
        },
        None => None,
    }
}

/// A string's characters, or none.
pub open spec fn opt_text(v: Option<String>) -> Option<Seq<char>> {
    match v {
        Some(s) => Some(s@),
        None => None,
    }
}

/// Prompt for an optional value, returning `None` when left blank.
pub fn prompt_optional(input: &mut LineReader, output: &mut String, label: &str) -> (r: Option<
    String,
>)
    ensures
        opt_text(r) == optional_answer(old(input).rest()),
        final(input).rest() == after_line(old(input).rest()),
        final(output)@ == old(output)@ + optional_prompt_text(label@),
{
    push_str(output, label);
    push_str(output, " (optional): ");
    match input.read_line() {
        Some(value) => {
            if value.as_str().is_empty() {
                None
            } else {
                Some(value)
            }
        },
        None => None,
    }
}

/// A required prompt over `rest`: it asks `label: `, re-asking after `A value
/// is required.` for every blank line, until a non-empty line (the value) or
/// the end of the input (none). Gives the value, what remains of the input,
/// and the text written.
pub open spec fn required_exchange(rest: Seq<char>, label: Seq<char>) -> (
    Option<Seq<char>>,
    Seq<char>,
    Seq<char>,
)
    decreases rest.len(),
{
    let ask = label + ": "@;
    match first_line(rest) {
        None => (None, after_line(rest), ask),
        Some(v) => if v.len() > 0 {
            (Some(v), after_line(rest), ask)
        } else {
            proof {
                lemma_after_line_shorter(rest);
            }
            let (value, left, written) = required_exchange(after_line(rest), label);
            (value, left, ask + "A value is required.\n"@ + written)
        },
    }
}

/// Prompt repeatedly until a non-empty value is given, returning `None` at
/// end-of-input so callers can stop gracefully.
pub fn prompt_required(input: &mut LineReader, output: &mut String, label: &str) -> (r: Option<
    String,
>)
    ensures
        opt_text(r) == required_exchange(old(input).rest(), label@).0,
        final(input).rest() == required_exchange(old(input).rest(), label@).1,
        final(output)@ == old(output)@ + required_exchange(old(input).rest(), label@).2,
    decreases old(input).rest().len(),
{
    let ghost before = input.rest();
    push_str(output, label);
    push_str(output, ": ");
    match input.read_line() {
        Some(value) => {
            if value.as_str().is_empty() {
                push_str(output, "A value is required.\n");
                proof {
                    lemma_after_line_shorter(before);
                }
                let ghost mid = output@;
                let r = prompt_required(input, output, label);
                assert(output@ =~= old(output)@ + required_exchange(before, label@).2);
                r
            } else {
                Some(value)
            }
        },
        None => None,
    }
}

/// `c` with ASCII upper-case letters lowered.
pub open spec fn ascii_lower(c: char) -> char {
    if 'A' <= c && c <= 'Z' {
        (((c as u32) + 32) as u8) as char
    } else {
        c
    }
}

/// The reply a yes/no prompt reads from a non-empty answer, case-insensitive
/// for ASCII: `y`/`yes` is yes, `n`/`no` is no, anything else is no reply.
pub open spec fn yes_no_reply(answer: Seq<char>) -> Option<bool> {
    let lower = answer.map_values(|c: char| ascii_lower(c));
    if lower == "y"@ || lower == "yes"@ {
        Some(true)
    } else if lower == "n"@ || lower == "no"@ {
        Some(false)
    } else {
        None
    }
}

/// The hint a yes/no prompt shows for its default.
pub open spec fn yes_no_hint(default_yes: bool) -> Seq<char> {
    if default_yes {
        "[Y/n]"@
    } else {
        "[y/N]"@
    }
}

/// A yes/no prompt over `rest`: it asks `label [Y/n]: ` (or `[y/N]`), takes
/// the default on a blank line or at the end of the input, and re-asks after
/// `Please answer y or n.` for any other unrecognised answer. Gives the
/// answer, what remains of the input, and the text written.
pub open spec fn yes_no_exchange(rest: Seq<char>, label: Seq<char>, default_yes: bool) -> (
    bool,
    Seq<char>,
    Seq<char>,
)
    decreases rest.len(),
{
    let ask = label + " "@ + yes_no_hint(default_yes) + ": "@;
    match first_line(rest) {
        None => (default_yes, after_line(rest), ask),
        Some(v) => if v.len() == 0 {
            (default_yes, after_line(rest), ask)
        } else {
            match yes_no_reply(v) {
                Some(b) => (b, after_line(rest), ask),
                None => {
                    proof {
                        lemma_after_line_shorter(rest);
                    }
                    let (value, left, written) = yes_no_exchange(after_line(rest), label, default_yes);
                    (value, left, ask + "Please answer y or n.\n"@ + written)
                },
            }
        },
    }
}

/// `s` with ASCII upper-case letters lowered (`str::to_ascii_lowercase`).
fn lowercase_ascii(s: &str) -> (r: Vec<char>)
    ensures
        r@ == s@.map_values(|c: char| ascii_lower(c)),
{
    let cs = chars_of(s);
    let mut out: Vec<char> = Vec::new();
    let mut i: usize = 0;
    while i < cs.len()
        invariant
            i <= cs@.len(),
            out@ == cs@.take(i as int).map_values(|c: char| ascii_lower(c)),
        decreases cs@.len() - i,
    {
        let c = cs[i];
        let lowered = if 'A' <= c && c <= 'Z' {
            (((c as u32) + 32) as u8) as char
        } else {
            c
        };
        out.push(lowered);
        assert(cs@.take(i + 1).map_values(|c: char| ascii_lower(c)) =~= cs@.take(
            i as int,
        ).map_values(|c: char| ascii_lower(c)).push(ascii_lower(cs@[i as int])));
        i = i + 1;
    }
    assert(cs@.take(cs@.len() as int) =~= cs@);
    out
}

/// Whether the characters of `cs` are exactly those of `lit`.
fn chars_equal(cs: &Vec<char>, lit: &str) -> (r: bool)
    ensures
        r == (cs@ == lit@),
{
    let l = chars_of(lit);
    if l.len() != cs.len() {
        return false;
    }
    let mut i: usize = 0;
    while i < l.len()
        invariant
            l@ == lit@,
            l@.len() == cs@.len(),
            i <= l@.len(),
            forall|j: int| 0 <= j < i ==> l@[j] == cs@[j],
        decreases l@.len() - i,
    {
        if l[i] != cs[i] {
            return false;
        }
        i = i + 1;
    }
    assert(l@ =~= cs@);
    true
}

/// Prompt for a yes/no answer, returning `default_yes` on an empty answer or
/// at end-of-input.
pub fn prompt_yes_no(input: &mut LineReader, output: &mut String, label: &str, default_yes: bool) -> (r:
    bool)
    ensures
        r == yes_no_exchange(old(input).rest(), label@, default_yes).0,
        final(input).rest() == yes_no_exchange(old(input).rest(), label@, default_yes).1,
        final(output)@ == old(output)@ + yes_no_exchange(old(input).rest(), label@, default_yes).2,
    decreases old(input).rest().len(),
{
    let ghost before = input.rest();
    push_str(output, label);
    push_str(output, " ");
    push_str(output, if default_yes {
        "[Y/n]"
    } else {
        "[y/N]"
    });
    push_str(output, ": ");
    match input.read_line() {
        None => default_yes,
        Some(value) => {
            let lower = lowercase_ascii(value.as_str());
            if lower.len() == 0 {
                return default_yes;
            }
            if chars_equal(&lower, "y") || chars_equal(&lower, "yes") {
                return true;
            }
            if chars_equal(&lower, "n") || chars_equal(&lower, "no") {
                return false;
            }
            push_str(output, "Please answer y or n.\n");
            proof {
                lemma_after_line_shorter(before);
            }
            let r = prompt_yes_no(input, output, label, default_yes);
            assert(output@ =~= old(output)@ + yes_no_exchange(before, label@, default_yes).2);
            r
        },
    }
}

/// A section header: a blank line, the title, and a dashed underline as long
/// as the title's UTF-8 encoding.
pub open spec fn section_text(title: &str) -> Seq<char> {
    "\n"@ + title@ + "\n"@ + Seq::new(title.len() as nat, |i: int| '-') + "\n"@
}

/// Print a section header to visually group related prompts.
pub fn section(output: &mut String, title: &str)
    ensures
        final(output)@ == old(output)@ + section_text(title),
{
    push_str(output, "\n");
    push_str(output, title);
    push_str(output, "\n");
    let ghost start = output@;
    let n = title.len();
    let mut k: usize = 0;
    while k < n
        invariant
            k <= n,
            n == title.len(),
            output@ == start + Seq::new(k as nat, |i: int| '-'),
        decreases n - k,
    {
        crate::text::push_char(output, '-');
        assert(Seq::new((k + 1) as nat, |i: int| '-') =~= Seq::new(k as nat, |i: int| '-').push('-'));
        k = k + 1;
    }
    push_str(output, "\n");
    assert(output@ =~= old(output)@ + section_text(title));
}

/// Explanatory lines, each indented by two spaces.
pub open spec fn explain_text(lines: Seq<Seq<char>>) -> Seq<char>
    decreases lines.len(),
{
    if lines.len() == 0 {
        Seq::empty()
    } else {
        explain_text(lines.drop_last()) + "  "@ + lines.last() + "\n"@
    }
}

/// Print indented explanatory lines beneath a section header.
pub fn explain(output: &mut String, lines: &[&str])
    ensures
        final(output)@ == old(output)@ + explain_text(lines@.map_values(|l: &str| l@)),
{
    let ghost start = output@;
    let ghost views = lines@.map_values(|l: &str| l@);
    let mut i: usize = 0;
    while i < lines.len()
        invariant
            i <= lines@.len(),
            views == lines@.map_values(|l: &str| l@),
            output@ == start + explain_text(views.take(i as int)),
        decreases lines@.len() - i,
    {
        push_str(output, "  ");
        push_str(output, lines[i]);
        push_str(output, "\n");
        assert(views.take(i + 1).drop_last() =~= views.take(i as int));
        assert(output@ =~= start + explain_text(views.take(i + 1)));
        i = i + 1;
    }
    assert(views.take(lines@.len() as int) =~= views);
}

/// Whether `c` is an ASCII decimal digit.
pub open spec fn is_digit(c: char) -> bool {
    '0' <= c && c <= '9'
}

/// The value of a string of decimal digits (`0` when empty).
pub open spec fn digits_value(ds: Seq<char>) -> nat
    decreases ds.len(),
{
    if ds.len() == 0 {
        0
    } else {
        digits_value(ds.drop_last()) * 10 + ((ds.last() as u32) - ('0' as u32)) as nat
    }
}

/// `s` without a leading `+`.
pub open spec fn digit_part(s: Seq<char>) -> Seq<char> {
    if s.len() > 0 && s[0] == '+' {
        s.drop_first()
    } else {
        s
    }
}

/// The unsigned integer `s` spells (`str::parse::<usize>`): an optional `+`
/// followed by one or more ASCII digits whose value fits in a `usize`.
pub open spec fn parsed_usize(s: Seq<char>) -> Option<nat> {
    let ds = digit_part(s);
    if ds.len() > 0 && (forall|i: int| 0 <= i < ds.len() ==> is_digit(#[trigger] ds[i]))
        && digits_value(ds) <= usize::MAX {
        Some(digits_value(ds))
    } else {
        None
    }
}

pub(crate) proof fn lemma_digits_value_grows(ds: Seq<char>, k: int)
    requires
        0 <= k <= ds.len(),
        forall|i: int| 0 <= i < ds.len() ==> is_digit(#[trigger] ds[i]),
    ensures
        digits_value(ds.take(k)) <= digits_value(ds),
    decreases ds.len() - k,
{
    if k < ds.len() {
        lemma_digits_value_grows(ds, k + 1);
        assert(ds.take(k + 1).drop_last() =~= ds.take(k));
    } else {
        assert(ds.take(k) =~= ds);
    }
}

/// Parse `s` as an unsigned integer the way `str::parse::<usize>` does.
#[verifier::rlimit(40)]
#[verifier::spinoff_prover]
pub fn parse_usize(s: &str) -> (r: Option<usize>)
    ensures
        r is None ==> parsed_usize(s@) is None,
        r matches Some(n) ==> parsed_usize(s@) == Some(n as nat),
{
    let cs = chars_of(s);
    let start: usize = if cs.len() > 0 && cs[0] == '+' {
        1
    } else {
        0
    };
    let ghost ds = digit_part(s@);
    assert(ds =~= cs@.skip(start as int));
    if start >= cs.len() {
        return None;
    }
    let mut value: u128 = 0;
    let mut i = start;
    while i < cs.len()
        invariant
            start <= i <= cs@.len(),
            start < cs@.len(),
            cs@ == s@,
            ds == cs@.skip(start as int),
            ds == digit_part(s@),
            forall|j: int| 0 <= j < i - start ==> is_digit(#[trigger] ds[j]),
            value == digits_value(ds.take(i - start)),
            value <= usize::MAX,
        decreases cs@.len() - i,
    {
        let c = cs[i];
        assert(ds[i - start] == cs@[i as int]);
        if !('0' <= c && c <= '9') {
            assert(!is_digit(ds[i - start]));
            assert(!(forall|j: int| 0 <= j < ds.len() ==> is_digit(#[trigger] ds[j])));
            return None;
        }
        let d = ((c as u32) - ('0' as u32)) as u128;
        assert(ds.take(i + 1 - start).drop_last() =~= ds.take(i - start));
        let next = value * 10 + d;
        if next > usize::MAX as u128 {
            proof {
                assert(digits_value(ds.take(i + 1 - start)) == next);
                if forall|j: int| 0 <= j < ds.len() ==> is_digit(#[trigger] ds[j]) {
                    lemma_digits_value_grows(ds, i + 1 - start);
                    assert(digits_value(ds) > usize::MAX);
                }
            }
            return None;
        }
        value = next;
        i = i + 1;
    }
    assert(ds.take(ds.len() as int) =~= ds);
    Some(value as usize)
}

/// The theme an answer selects: a listed number (`1` for the first) or a
/// listed name; nothing otherwise.
pub open spec fn theme_choice(answer: Seq<char>) -> Option<Seq<char>> {
    match parsed_usize(answer) {
        Some(n) => if 1 <= n && n <= crate::theme::theme_names().len() {
            Some(crate::theme::theme_names()[n - 1])
        } else {
            None
        },
        None => if crate::theme::theme_names().contains(answer) {
            Some(answer)
        } else {
            None
        },
    }
}

/// The numbered list of theme names, from the `first`-th on.
pub open spec fn theme_list_lines(first: nat) -> Seq<char>
    decreases crate::theme::theme_names().len() - first,
{
    if first >= crate::theme::theme_names().len() {
        Seq::empty()
    } else {
        "  "@ + crate::text::decimal(first + 1) + ". "@ + crate::theme::theme_names()[first as int]
            + "\n"@ + theme_list_lines(first + 1)
    }
}

/// The question asked for the theme.
pub open spec fn theme_prompt_label() -> Seq<char> {
    "Theme (name or number)"@
}

/// The theme prompt loop over `rest`: it asks with `default` as the default
/// answer and re-asks after `Please enter a listed theme name or number.`
/// until an answer selects a theme. Gives the theme, what remains of the
/// input, and the text written.
pub open spec fn theme_exchange(rest: Seq<char>, default: Seq<char>) -> (
    Seq<char>,
    Seq<char>,
    Seq<char>,
)
    decreases rest.len(),
{
    let ask = line_prompt_text(theme_prompt_label(), default);
    match theme_choice(line_answer(rest, default)) {
        Some(name) => (name, after_line(rest), ask),
        None => if rest.len() == 0 {
            (default, rest, ask)
        } else {
            proof {
                lemma_after_line_shorter(rest);
            }
            let (value, left, written) = theme_exchange(after_line(rest), default);
            (value, left, ask + "Please enter a listed theme name or number.\n"@ + written)
        },
    }
}

/// Whether the theme prompt over `rest` ever gets an answer that selects a
/// theme (at the end of the input every answer is the default).
pub open spec fn theme_prompt_ends(rest: Seq<char>, default: Seq<char>) -> bool
    decreases rest.len(),
{
    theme_choice(line_answer(rest, default)) is Some || (rest.len() > 0 && {
        proof {
            lemma_after_line_shorter(rest);
        }
        theme_prompt_ends(after_line(rest), default)
    })
}

/// Whether `answer` is one of the theme names.
fn is_theme_name(answer: &str) -> (r: bool)
    ensures
        r == crate::theme::theme_names().contains(answer@),
{
    let names: &[&'static str] = &crate::theme::NAMES;
    assert(names@.map_values(|n: &str| n@) =~= crate::theme::theme_names());
    let mut i: usize = 0;
    while i < names.len()
        invariant
            names@.map_values(|n: &str| n@) == crate::theme::theme_names(),
            i <= names@.len(),
            forall|j: int| 0 <= j < i ==> crate::theme::theme_names()[j] != answer@,
        decreases names@.len() - i,
    {
        assert(names@.map_values(|n: &str| n@)[i as int] == names@[i as int]@);
        if crate::theme::str_eq(names[i], answer) {
            return true;
        }
        i = i + 1;
    }
    false
}

/// Print the numbered list of themes.
#[verifier::rlimit(80)]
fn print_theme_list(output: &mut String)
    ensures
        final(output)@ == old(output)@ + "Available colour themes:\n"@ + theme_list_lines(0),
{
    push_str(output, "Available colour themes:\n");
    let ghost start = output@;
    let names: &[&'static str] = &crate::theme::NAMES;
    assert(names@.map_values(|n: &str| n@) =~= crate::theme::theme_names());
    let mut i: usize = 0;
    while i < names.len()
        invariant
            names@.map_values(|n: &str| n@) == crate::theme::theme_names(),
            names@.len() == 7,
            i <= 7,
            start + theme_list_lines(0) == output@ + theme_list_lines(i as nat),
        decreases 7 - i,
    {
        assert(names@.map_values(|n: &str| n@)[i as int] == names@[i as int]@);
        push_str(output, "  ");
        crate::text::push_decimal(output, (i + 1) as u64);
        push_str(output, ". ");
        push_str(output, names[i]);
        push_str(output, "\n");
        assert(theme_list_lines(i as nat) =~= "  "@ + crate::text::decimal((i + 1) as nat) + ". "@
            + crate::theme::theme_names()[i as int] + "\n"@ + theme_list_lines((i + 1) as nat));
        i = i + 1;
    }
    assert(theme_list_lines(7) =~= Seq::<char>::empty());
    assert(output@ =~= start + theme_list_lines(0));
}

/// Ask until a listed theme is chosen (the loop of the theme prompt).
fn ask_theme(input: &mut LineReader, output: &mut String, default: &str) -> (r: String)
    requires
        theme_prompt_ends(old(input).rest(), default@),
    ensures
        r@ == theme_exchange(old(input).rest(), default@).0,
        final(input).rest() == theme_exchange(old(input).rest(), default@).1,
        final(output)@ == old(output)@ + theme_exchange(old(input).rest(), default@).2,
    decreases old(input).rest().len(),
{
    let ghost before = input.rest();
    let answer = prompt_line(input, output, "Theme (name or number)", default);
    proof {
        reveal_strlit("Theme (name or number)");
        lemma_after_line_shorter(before);
    }
    match parse_usize(answer.as_str()) {
        Some(number) => {
            if number >= 1 && number <= crate::theme::NAMES.len() {
                let names: &[&'static str] = &crate::theme::NAMES;
                assert(names@.map_values(|n: &str| n@) =~= crate::theme::theme_names());
                assert(names@.map_values(|n: &str| n@)[number - 1] == names@[number - 1]@);
                return names[number - 1].to_owned();
            }
        },
        None => {
            if is_theme_name(answer.as_str()) {
                return answer;
            }
        },
    }
    push_str(output, "Please enter a listed theme name or number.\n");
    let r = ask_theme(input, output, default);
    assert(output@ =~= old(output)@ + theme_exchange(before, default@).2);
    r
}

/// Prompt for a colour theme, listing the available palettes and accepting
/// either a name or its list number. Returns `default` on empty input.
pub fn prompt_theme(input: &mut LineReader, output: &mut String, default: &str) -> (r: String)
    requires
        theme_prompt_ends(old(input).rest(), default@),
    ensures
        r@ == theme_exchange(old(input).rest(), default@).0,
        final(input).rest() == theme_exchange(old(input).rest(), default@).1,
        final(output)@ == old(output)@ + "Available colour themes:\n"@ + theme_list_lines(0)
            + theme_exchange(old(input).rest(), default@).2,
{
    print_theme_list(output);
    let r = ask_theme(input, output, default);
    assert(output@ =~= old(output)@ + "Available colour themes:\n"@ + theme_list_lines(0)
        + theme_exchange(old(input).rest(), default@).2);
    r
}

/// A yes/no prompt never reads past the input, and reads at least one line
/// whenever its answer is not the default.
pub proof fn lemma_yes_no_consumes(rest: Seq<char>, label: Seq<char>, default_yes: bool)
    ensures
        yes_no_exchange(rest, label, default_yes).1.len() <= rest.len(),
        yes_no_exchange(rest, label, default_yes).0 != default_yes ==> yes_no_exchange(
            rest,
            label,
            default_yes,
        ).1.len() < rest.len(),
    decreases rest.len(),
{
    lemma_after_line_shorter(rest);
    if first_line(rest) is Some && first_line(rest)->0.len() > 0 && yes_no_reply(
        first_line(rest)->0,
    ) is None {
        lemma_yes_no_consumes(after_line(rest), label, default_yes);
    }
}

/// A required prompt never reads past the input.
pub proof fn lemma_required_consumes(rest: Seq<char>, label: Seq<char>)
    ensures
        required_exchange(rest, label).1.len() <= rest.len(),
    decreases rest.len(),
{
    lemma_after_line_shorter(rest);
    if first_line(rest) is Some && first_line(rest)->0.len() == 0 {
        lemma_required_consumes(after_line(rest), label);
    }
}

/// Authentik / OIDC settings for the device-code flow.
#[derive(Debug, Clone, PartialEq, Eq)]
pub struct AuthSettings {
    /// Authentik application URL.
    pub issuer: String,
    /// Public client id.
    pub client_id: String,
    /// Space-separated OAuth scopes.
    pub scopes: String,
}

/// The text of [`AuthSettings`].
pub struct AuthView {
    /// Issuer URL.
    pub issuer: Seq<char>,
    /// Client id.
    pub client_id: Seq<char>,
    /// Scopes.
    pub scopes: Seq<char>,
}

impl View for AuthSettings {
    type V = AuthView;

    open spec fn view(&self) -> AuthView {
        AuthView { issuer: self.issuer@, client_id: self.client_id@, scopes: self.scopes@ }
    }
}

impl AuthSettings {
    /// An equal copy.
    pub fn duplicate(&self) -> (r: AuthSettings)
        ensures
            r@ == self@,
    {
        AuthSettings {
            issuer: self.issuer.clone(),
            client_id: self.client_id.clone(),
            scopes: self.scopes.clone(),
        }
    }

    /// Whether both hold the same settings.
    pub fn same_as(&self, other: &AuthSettings) -> (r: bool)
        ensures
            r == (self@ == other@),
    {
        self.issuer == other.issuer && self.client_id == other.client_id && self.scopes
            == other.scopes
    }
}

/// The answers collected for a single booth debug-server connection.
#[derive(Debug, Clone, PartialEq, Eq)]
pub struct BoothAnswer {
    /// Stable booth identifier (matches the API's `boothId`).
    pub id: String,
    /// Optional human-friendly display name.
    pub name: Option<String>,
    /// Debug server base URL.
    pub debug_base_url: String,
    /// Optional static bearer token (stored as a secret, not in the config).
    pub debug_token: Option<String>,
    /// Optional pinned TLS certificate SHA-256 (LAN TLS only).
    pub pinned_sha256: Option<String>,
}

/// The text of a [`BoothAnswer`].
pub struct BoothView {
    /// Booth id.
    pub id: Seq<char>,
    /// Display name.
    pub name: Option<Seq<char>>,
    /// Debug server URL.
    pub debug_base_url: Seq<char>,
    /// Bearer token.
    pub debug_token: Option<Seq<char>>,
    /// Pinned certificate fingerprint.
    pub pinned_sha256: Option<Seq<char>>,
}

impl View for BoothAnswer {
    type V = BoothView;

    open spec fn view(&self) -> BoothView {
        BoothView {
            id: self.id@,
            name: opt_text(self.name),
            debug_base_url: self.debug_base_url@,
            debug_token: opt_text(self.debug_token),
            pinned_sha256: opt_text(self.pinned_sha256),
        }
    }
}

/// An equal copy of an optional string.
pub fn copy_opt(v: &Option<String>) -> (r: Option<String>)
    ensures
        r == *v,
{
    match v {
        Some(s) => Some(s.clone()),
        None => None,
    }
}

impl BoothAnswer {
    /// An equal copy.
    pub fn duplicate(&self) -> (r: BoothAnswer)
        ensures
            r == *self,
    {
        BoothAnswer {
            id: self.id.clone(),
            name: copy_opt(&self.name),
            debug_base_url: self.debug_base_url.clone(),
            debug_token: copy_opt(&self.debug_token),
            pinned_sha256: copy_opt(&self.pinned_sha256),
        }
    }
}

/// The text of a list of booths.
pub open spec fn booth_views(booths: Seq<BoothAnswer>) -> Seq<BoothView> {
    booths.map_values(|b: BoothAnswer| b@)
}

/// The lines explaining the booths section.
pub open spec fn booth_intro() -> Seq<Seq<char>> {
    seq![
        "A booth's on-device debug server powers the System Health and Debug"@,
        "screens. This is only for booths you operate — skip it otherwise; the"@,
        "messages/questions/stats screens work without any booth configured."@,
    ]
}

/// The lines explaining each booth field.
pub open spec fn booth_help() -> Seq<Seq<char>> {
    seq![
        "id:           the booth's stable identifier (matches the API's boothId)."@,
        "display name: an optional friendly label shown in the UI."@,
        "debug URL:    the debug server, e.g. https://<booth>.<tailnet>.ts.net/"@,
        "              from Tailscale Serve or https://<lan-ip>:8443 (LAN TLS)."@,
        "bearer token: the static token the debug server requires; stored in a"@,
        "              separate owner-only secrets file, never in config.toml."@,
        "TLS SHA-256:  for an https:// LAN server with a self-signed certificate,"@,
        "              paste the cert's SHA-256 fingerprint (lower-case hex) to pin"@,
        "              it. Leave blank for http:// connections."@,
    ]
}

/// The default debug server URL offered for a new booth.
pub open spec fn default_booth_url() -> Seq<char> {
    "https://telephone-booth.example.ts.net/"@
}

/// The questions asked for one booth after its id.
pub open spec fn booth_detail_prompts() -> Seq<char> {
    optional_prompt_text("Display name"@) + line_prompt_text("Debug server URL"@, default_booth_url())
        + optional_prompt_text("Debug bearer token"@) + optional_prompt_text(
        "Pinned TLS SHA-256"@,
    )
}

/// Adding booths over `rest`: while the operator answers yes to adding one,
/// explain the fields and ask for an id (stopping at the end of the input),
/// a display name, a debug URL, a token, and a fingerprint. Gives the new
/// booths, what remains of the input, and the text written.
pub open spec fn add_booths_exchange(rest: Seq<char>) -> (Seq<BoothView>, Seq<char>, Seq<char>)
    decreases rest.len(),
{
    let (more, r1, w1) = yes_no_exchange(rest, "Add a booth debug connection?"@, false);
    if !more {
        (Seq::empty(), r1, w1)
    } else {
        let w2 = explain_text(booth_help());
        let (id, r2, w3) = required_exchange(r1, "Booth id"@);
        match id {
            None => (Seq::empty(), r2, w1 + w2 + w3),
            Some(id) => {
                let r3 = after_line(r2);
                let r4 = after_line(r3);
                let r5 = after_line(r4);
                let r6 = after_line(r5);
                let booth = BoothView {
                    id: id,
                    name: optional_answer(r2),
                    debug_base_url: line_answer(r3, default_booth_url()),
                    debug_token: optional_answer(r4),
                    pinned_sha256: optional_answer(r5),
                };
                proof {
                    lemma_yes_no_consumes(rest, "Add a booth debug connection?"@, false);
                    lemma_required_consumes(r1, "Booth id"@);
                    lemma_after_line_shorter(r2);
                    lemma_after_line_shorter(r3);
                    lemma_after_line_shorter(r4);
                    lemma_after_line_shorter(r5);
                }
                let (others, r7, w5) = add_booths_exchange(r6);
                (seq![booth] + others, r7, w1 + w2 + w3 + booth_detail_prompts() + w5)
            },
        }
    }
}

/// The question asked about keeping `n` configured booths.
pub open spec fn keep_booths_label(n: nat) -> Seq<char> {
    "Keep the "@ + crate::text::decimal(n) + " existing booth(s)?"@
}

/// The booths section over `rest` with `existing` booths configured: the
/// header, the offer to keep the existing booths (when there are any), then
/// the new booths. Gives the booths, what remains of the input, and the text
/// written.
pub open spec fn booths_exchange(rest: Seq<char>, existing: Seq<BoothView>) -> (
    Seq<BoothView>,
    Seq<char>,
    Seq<char>,
) {
    let w0 = section_text("Booths (optional)") + explain_text(booth_intro());
    let (kept, r1, w1) = if existing.len() > 0 {
        let (keep, r, w) = yes_no_exchange(rest, keep_booths_label(existing.len()), true);
        (if keep {
            existing
        } else {
            Seq::empty()
        }, r, w)
    } else {
        (Seq::empty(), rest, Seq::empty())
    };
    let (added, r2, w2) = add_booths_exchange(r1);
    (kept + added, r2, w0 + w1 + w2)
}

/// Ask for new booths until the operator declines or the input ends.
fn add_booths(input: &mut LineReader, output: &mut String, booths: &mut Vec<BoothAnswer>)
    ensures
        booth_views(final(booths)@) == booth_views(old(booths)@) + add_booths_exchange(
            old(input).rest(),
        ).0,
        final(input).rest() == add_booths_exchange(old(input).rest()).1,
        final(output)@ == old(output)@ + add_booths_exchange(old(input).rest()).2,
    decreases old(input).rest().len(),
{
    let ghost rest = input.rest();
    proof {
        reveal_strlit("Add a booth debug connection?");
        reveal_strlit("Booth id");
    }
    let more = prompt_yes_no(input, output, "Add a booth debug connection?", false);
    if !more {
        assert(booth_views(booths@) =~= booth_views(old(booths)@) + Seq::<BoothView>::empty());
        return;
    }
    let help: [&str; 9] = [
        "id:           the booth's stable identifier (matches the API's boothId).",
        "display name: an optional friendly label shown in the UI.",
        "debug URL:    the debug server, e.g. https://<booth>.<tailnet>.ts.net/",
        "              from Tailscale Serve or https://<lan-ip>:8443 (LAN TLS).",
        "bearer token: the static token the debug server requires; stored in a",
        "              separate owner-only secrets file, never in config.toml.",
        "TLS SHA-256:  for an https:// LAN server with a self-signed certificate,",
        "              paste the cert's SHA-256 fingerprint (lower-case hex) to pin",
        "              it. Leave blank for http:// connections.",
    ];
    assert(help@.map_values(|l: &str| l@) =~= booth_help());
    let ghost r1 = input.rest();
    explain(output, &help);
    let id = match prompt_required(input, output, "Booth id") {
        Some(id) => id,
        None => {
            assert(booth_views(booths@) =~= booth_views(old(booths)@) + Seq::<BoothView>::empty());
            assert(output@ =~= old(output)@ + add_booths_exchange(rest).2);
            return;
        },
    };
    let name = prompt_optional(input, output, "Display name");
    let debug_base_url = prompt_line(
        input,
        output,
        "Debug server URL",
        "https://telephone-booth.example.ts.net/",
    );
    let debug_token = prompt_optional(input, output, "Debug bearer token");
    let pinned_sha256 = prompt_optional(input, output, "Pinned TLS SHA-256");
    let ghost before_push = booths@;
    booths.push(BoothAnswer { id, name, debug_base_url, debug_token, pinned_sha256 });
    proof {
        lemma_yes_no_consumes(rest, "Add a booth debug connection?"@, false);
        lemma_required_consumes(r1, "Booth id"@);
        let r2 = required_exchange(r1, "Booth id"@).1;
        lemma_after_line_shorter(r2);
        lemma_after_line_shorter(after_line(r2));
        lemma_after_line_shorter(after_line(after_line(r2)));
        lemma_after_line_shorter(after_line(after_line(after_line(r2))));
    }
    add_booths(input, output, booths);
    proof {
        assert(booth_views(before_push.push(booths@[before_push.len() as int])) =~= booth_views(
            before_push,
        ).push(booths@[before_push.len() as int]@));
    }
    assert(booth_views(booths@) =~= booth_views(old(booths)@) + add_booths_exchange(rest).0);
    assert(output@ =~= old(output)@ + add_booths_exchange(rest).2);
}

/// What setup starts from: the values already configured (offered as
/// defaults), plus the built-in Authentik settings.
#[derive(Debug, Clone, PartialEq, Eq)]
pub struct SetupDefaults {
    /// Configured operator API base URL.
    pub operator_base_url: String,
    /// Configured Authentik settings.
    pub auth: AuthSettings,
    /// The built-in (production tenant) Authentik settings.
    pub default_auth: AuthSettings,
    /// Configured theme name.
    pub theme: String,
    /// Whether Nerd Font icons are configured on.
    pub nerd_fonts: bool,
    /// Configured poll interval in milliseconds.
    pub poll_interval_ms: u64,
    /// Configured booths.
    pub booths: Vec<BoothAnswer>,
}

/// The full set of answers gathered during onboarding.
#[derive(Debug, Clone, PartialEq, Eq)]
pub struct OnboardingAnswers {
    /// Operator API base URL.
    pub operator_base_url: String,
    /// Authentik OIDC settings for the device-code flow.
    pub auth: AuthSettings,
    /// UI theme name.
    pub theme: String,
    /// Whether to render Nerd Font glyphs in the interface.
    pub nerd_fonts: bool,
    /// Poll interval in milliseconds.
    pub poll_interval_ms: u64,
    /// Configured booths.
    pub booths: Vec<BoothAnswer>,
}

/// The text of [`OnboardingAnswers`].
pub struct AnswersView {
    /// Operator API base URL.
    pub operator_base_url: Seq<char>,
    /// Authentik settings.
    pub auth: AuthView,
    /// Theme name.
    pub theme: Seq<char>,
    /// Nerd Font icons.
    pub nerd_fonts: bool,
    /// Poll interval.
    pub poll_interval_ms: u64,
    /// Booths.
    pub booths: Seq<BoothView>,
}

impl View for OnboardingAnswers {
    type V = AnswersView;

    open spec fn view(&self) -> AnswersView {
        AnswersView {
            operator_base_url: self.operator_base_url@,
            auth: self.auth@,
            theme: self.theme@,
            nerd_fonts: self.nerd_fonts,
            poll_interval_ms: self.poll_interval_ms,
            booths: booth_views(self.booths@),
        }
    }
}

/// Collect booth debug-server connections, optionally keeping any already
/// configured booths and then adding new ones.
pub fn collect_booths(input: &mut LineReader, output: &mut String, existing: &SetupDefaults) -> (r:
    Vec<BoothAnswer>)
    ensures
        booth_views(r@) == booths_exchange(old(input).rest(), booth_views(existing.booths@)).0,
        final(input).rest() == booths_exchange(old(input).rest(), booth_views(existing.booths@)).1,
        final(output)@ == old(output)@ + booths_exchange(
            old(input).rest(),
            booth_views(existing.booths@),
        ).2,
{
    let ghost rest = input.rest();
    section(output, "Booths (optional)");
    let intro: [&str; 3] = [
        "A booth's on-device debug server powers the System Health and Debug",
        "screens. This is only for booths you operate — skip it otherwise; the",
        "messages/questions/stats screens work without any booth configured.",
    ];
    assert(intro@.map_values(|l: &str| l@) =~= booth_intro());
    explain(output, &intro);
    let ghost after_intro = output@;
    let mut booths: Vec<BoothAnswer> = Vec::new();
    if existing.booths.len() > 0 {
        let mut label = String::new();
        push_str(&mut label, "Keep the ");
        crate::text::push_decimal(&mut label, existing.booths.len() as u64);
        push_str(&mut label, " existing booth(s)?");
        assert(label@ =~= keep_booths_label(existing.booths@.len()));
        if prompt_yes_no(input, output, label.as_str(), true) {
            let mut i: usize = 0;
            while i < existing.booths.len()
                invariant
                    i <= existing.booths@.len(),
                    booths@ == existing.booths@.take(i as int),
                decreases existing.booths@.len() - i,
            {
                booths.push(existing.booths[i].duplicate());
                assert(existing.booths@.take(i + 1) =~= existing.booths@.take(i as int).push(
                    existing.booths@[i as int],
                ));
                i = i + 1;
            }
            assert(existing.booths@.take(existing.booths@.len() as int) =~= existing.booths@);
        }
    }
    add_booths(input, output, &mut booths);
    assert(booth_views(booths@) =~= booths_exchange(rest, booth_views(existing.booths@)).0);
    assert(output@ =~= old(output)@ + booths_exchange(rest, booth_views(existing.booths@)).2);
    booths
}

/// The lines explaining the operator API question.
pub open spec fn operator_intro() -> Seq<Seq<char>> {
    seq![
        "The backend that serves messages, questions, sessions, and stats."@,
        "Use the default unless you run your own Telephone-Booth operator API."@,
    ]
}

/// The lines explaining sign-in.
pub open spec fn auth_intro() -> Seq<Seq<char>> {
    seq![
        "Sign-in uses Authentik's OAuth device-code flow (like a smart TV):"@,
        "no password is typed here — you approve a code in a browser."@,
        "The defaults target the production Telephone-Booth tenant."@,
    ]
}

/// The lines explaining custom OIDC settings.
pub open spec fn oidc_help() -> Seq<Seq<char>> {
    seq![
        "issuer:    your Authentik application URL, .../application/o/<slug>."@,
        "client id: the public client id of that application (no secret)."@,
        "scopes:    space-separated OAuth scopes (keep offline_access for refresh)."@,
    ]
}

/// The lines explaining Nerd Font icons.
pub open spec fn nerd_font_help() -> Seq<Seq<char>> {
    seq![
        "Nerd Font icons add glyphs to the tabs and status bar."@,
        "They need a Nerd Font (https://nerdfonts.com) installed in your"@,
        "terminal; choose no to keep plain text labels."@,
    ]
}

/// The question asked about the built-in Authentik settings.
pub open spec fn default_auth_label() -> Seq<char> {
    "Use the default Telephone-Booth Authentik (OIDC) settings?"@
}

/// The sign-in settings part of setup over `rest` (after the operator URL):
/// the built-in settings when the operator keeps them, otherwise the three
/// custom OIDC answers. Gives the settings, what remains, and the text
/// written.
pub open spec fn auth_exchange(rest: Seq<char>, d: SetupDefaults) -> (AuthView, Seq<char>, Seq<
    char,
>) {
    let (use_default, r, w) = yes_no_exchange(rest, default_auth_label(), d.auth@ == d.default_auth@);
    if use_default {
        (d.default_auth@, r, w)
    } else {
        let auth = AuthView {
            issuer: line_answer(r, d.auth.issuer@),
            client_id: line_answer(after_line(r), d.auth.client_id@),
            scopes: line_answer(after_line(after_line(r)), d.auth.scopes@),
        };
        (
            auth,
            after_line(after_line(after_line(r))),
            w + explain_text(oidc_help()) + line_prompt_text("OIDC issuer URL"@, d.auth.issuer@)
                + line_prompt_text("OIDC client id"@, d.auth.client_id@) + line_prompt_text(
                "OIDC scopes"@,
                d.auth.scopes@,
            ),
        )
    }
}

/// The operator URL part of setup over `rest`. Gives the URL, what remains,
/// and the text written.
pub open spec fn operator_exchange(rest: Seq<char>, d: SetupDefaults) -> (Seq<char>, Seq<char>, Seq<
    char,
>) {
    (
        line_answer(rest, d.operator_base_url@),
        after_line(rest),
        section_text("Operator API") + explain_text(operator_intro()) + line_prompt_text(
            "Operator API URL"@,
            d.operator_base_url@,
        ),
    )
}

/// The sign-in section of setup over `rest`, header included.
pub open spec fn auth_section_exchange(rest: Seq<char>, d: SetupDefaults) -> (AuthView, Seq<char>, Seq<
    char,
>) {
    let (auth, r, w) = auth_exchange(rest, d);
    (auth, r, section_text("Authentication (Authentik / OIDC)") + explain_text(auth_intro()) + w)
}

/// The interface section of setup over `rest`: the theme and the Nerd Font
/// question. Gives both answers, what remains, and the text written.
pub open spec fn interface_exchange(rest: Seq<char>, d: SetupDefaults) -> (
    Seq<char>,
    bool,
    Seq<char>,
    Seq<char>,
) {
    let (theme, r1, w1) = theme_exchange(rest, d.theme@);
    let (nerd, r2, w2) = yes_no_exchange(r1, "Enable Nerd Font icons?"@, d.nerd_fonts);
    (
        theme,
        nerd,
        r2,
        section_text("Interface") + "Available colour themes:\n"@ + theme_list_lines(0) + w1
            + explain_text(nerd_font_help()) + w2,
    )
}

/// The input left when setup over `rest` reaches the theme question.
pub open spec fn rest_before_theme(rest: Seq<char>, d: SetupDefaults) -> Seq<char> {
    auth_exchange(after_line(rest), d).1
}

/// The whole setup conversation over `rest`: the operator URL, sign-in
/// settings, theme, Nerd Font icons, and booths, each behind its section
/// header and explanation. Gives the answers, what remains of the input, and
/// the text written.
pub open spec fn answers_exchange(rest: Seq<char>, d: SetupDefaults) -> (AnswersView, Seq<char>, Seq<
    char,
>) {
    let (url, r1, w1) = operator_exchange(rest, d);
    let (auth, r2, w2) = auth_section_exchange(r1, d);
    let (theme, nerd, r3, w3) = interface_exchange(r2, d);
    let (booths, r4, w4) = booths_exchange(r3, booth_views(d.booths@));
    (
        AnswersView {
            operator_base_url: url,
            auth: auth,
            theme: theme,
            nerd_fonts: nerd,
            poll_interval_ms: d.poll_interval_ms,
            booths: booths,
        },
        r4,
        w1 + w2 + w3 + w4,
    )
}

/// Ask for the operator API URL.
fn ask_operator_url(input: &mut LineReader, output: &mut String, existing: &SetupDefaults) -> (r:
    String)
    ensures
        r@ == operator_exchange(old(input).rest(), *existing).0,
        final(input).rest() == operator_exchange(old(input).rest(), *existing).1,
        final(output)@ == old(output)@ + operator_exchange(old(input).rest(), *existing).2,
{
    section(output, "Operator API");
    let operator_lines: [&str; 2] = [
        "The backend that serves messages, questions, sessions, and stats.",
        "Use the default unless you run your own Telephone-Booth operator API.",
    ];
    assert(operator_lines@.map_values(|l: &str| l@) =~= operator_intro());
    explain(output, &operator_lines);
    let r = prompt_line(input, output, "Operator API URL", existing.operator_base_url.as_str());
    assert(output@ =~= old(output)@ + operator_exchange(old(input).rest(), *existing).2);
    r
}

/// Ask for the sign-in settings.
fn ask_auth(input: &mut LineReader, output: &mut String, existing: &SetupDefaults) -> (r:
    AuthSettings)
    ensures
        r@ == auth_section_exchange(old(input).rest(), *existing).0,
        final(input).rest() == auth_section_exchange(old(input).rest(), *existing).1,
        final(output)@ == old(output)@ + auth_section_exchange(old(input).rest(), *existing).2,
{
    section(output, "Authentication (Authentik / OIDC)");
    let auth_lines: [&str; 3] = [
        "Sign-in uses Authentik's OAuth device-code flow (like a smart TV):",
        "no password is typed here — you approve a code in a browser.",
        "The defaults target the production Telephone-Booth tenant.",
    ];
    assert(auth_lines@.map_values(|l: &str| l@) =~= auth_intro());
    explain(output, &auth_lines);
    let use_default = prompt_yes_no(
        input,
        output,
        "Use the default Telephone-Booth Authentik (OIDC) settings?",
        existing.auth.same_as(&existing.default_auth),
    );
    if use_default {
        let r = existing.default_auth.duplicate();
        assert(output@ =~= old(output)@ + auth_section_exchange(old(input).rest(), *existing).2);
        r
    } else {
        let oidc_lines: [&str; 3] = [
            "issuer:    your Authentik application URL, .../application/o/<slug>.",
            "client id: the public client id of that application (no secret).",
            "scopes:    space-separated OAuth scopes (keep offline_access for refresh).",
        ];
        assert(oidc_lines@.map_values(|l: &str| l@) =~= oidc_help());
        explain(output, &oidc_lines);
        let issuer = prompt_line(input, output, "OIDC issuer URL", existing.auth.issuer.as_str());
        let client_id = prompt_line(
            input,
            output,
            "OIDC client id",
            existing.auth.client_id.as_str(),
        );
        let scopes = prompt_line(input, output, "OIDC scopes", existing.auth.scopes.as_str());
        assert(output@ =~= old(output)@ + auth_section_exchange(old(input).rest(), *existing).2);
        AuthSettings { issuer, client_id, scopes }
    }
}

/// Ask for the theme and the Nerd Font preference.
fn ask_interface(input: &mut LineReader, output: &mut String, existing: &SetupDefaults) -> (r: (
    String,
    bool,
))
    requires
        theme_prompt_ends(old(input).rest(), existing.theme@),
    ensures
        r.0@ == interface_exchange(old(input).rest(), *existing).0,
        r.1 == interface_exchange(old(input).rest(), *existing).1,
        final(input).rest() == interface_exchange(old(input).rest(), *existing).2,
        final(output)@ == old(output)@ + interface_exchange(old(input).rest(), *existing).3,
{
    section(output, "Interface");
    let theme = prompt_theme(input, output, existing.theme.as_str());
    let nerd_lines: [&str; 3] = [
        "Nerd Font icons add glyphs to the tabs and status bar.",
        "They need a Nerd Font (https://nerdfonts.com) installed in your",
        "terminal; choose no to keep plain text labels.",
    ];
    assert(nerd_lines@.map_values(|l: &str| l@) =~= nerd_font_help());
    explain(output, &nerd_lines);
    let nerd_fonts = prompt_yes_no(input, output, "Enable Nerd Font icons?", existing.nerd_fonts);
    assert(output@ =~= old(output)@ + interface_exchange(old(input).rest(), *existing).3);
    (theme, nerd_fonts)
}

/// Gather all onboarding answers interactively, seeding defaults from any
/// existing configuration so a re-run preserves prior choices. Each section is
/// preceded by a short explanation of what the prompts mean.
pub fn collect_answers(input: &mut LineReader, output: &mut String, existing: &SetupDefaults) -> (r:
    OnboardingAnswers)
    requires
        theme_prompt_ends(rest_before_theme(old(input).rest(), *existing), existing.theme@),
    ensures
        r@ == answers_exchange(old(input).rest(), *existing).0,
        final(input).rest() == answers_exchange(old(input).rest(), *existing).1,
        final(output)@ == old(output)@ + answers_exchange(old(input).rest(), *existing).2,
{
    let ghost rest = input.rest();
    let operator_base_url = ask_operator_url(input, output, existing);
    let auth = ask_auth(input, output, existing);
    let (theme, nerd_fonts) = ask_interface(input, output, existing);
    let booths = collect_booths(input, output, existing);
    let r = OnboardingAnswers {
        operator_base_url,
        auth,
        theme,
        nerd_fonts,
        poll_interval_ms: existing.poll_interval_ms,
        booths,
    };
    assert(output@ =~= old(output)@ + answers_exchange(rest, *existing).2);
    r
}

/// The shareable configuration setup writes: everything but the booth
/// tokens, which live in [`BoothSecrets`].
#[derive(Debug)]
pub struct SetupConfig {
    /// Operator API base URL.
    pub operator_base_url: String,
    /// Authentik OIDC settings.
    pub auth: AuthSettings,
    /// Configured booths.
    pub booths: Vec<BoothAnswer>,
    /// UI theme name.
    pub theme: String,
    /// Poll interval in milliseconds.
    pub poll_interval_ms: u64,
    /// Whether to render Nerd Font glyphs.
    pub nerd_fonts: bool,
}

/// Booth debug tokens, stored apart from the shareable configuration.
#[derive(Debug)]
pub struct BoothSecrets {
    entries: Vec<(String, String)>,
}

/// The booth tokens of `booths` as `(booth id, token)` pairs, in booth order.
pub open spec fn tokens_of(booths: Seq<BoothView>) -> Seq<(Seq<char>, Seq<char>)>
    decreases booths.len(),
{
    if booths.len() == 0 {
        Seq::empty()
    } else {
        let last = booths.last();
        let earlier = tokens_of(booths.drop_last());
        match last.debug_token {
            Some(token) => earlier.push((last.id, token)),
            None => earlier,
        }
    }
}

/// `b` without its token.
pub open spec fn without_token(b: BoothView) -> BoothView {
    BoothView { debug_token: None, ..b }
}

/// The token stored for booth `id`: the last one recorded for it.
pub open spec fn token_for(entries: Seq<(Seq<char>, Seq<char>)>, id: Seq<char>) -> Option<Seq<char>>
    decreases entries.len(),
{
    if entries.len() == 0 {
        None
    } else if entries.last().0 == id {
        Some(entries.last().1)
    } else {
        token_for(entries.drop_last(), id)
    }
}

impl BoothSecrets {
    /// The `(booth id, token)` pairs, in the order they were recorded.
    pub closed spec fn pairs(self) -> Seq<(Seq<char>, Seq<char>)> {
        self.entries@.map_values(|e: (String, String)| (e.0@, e.1@))
    }

    /// The `(booth id, token)` pairs, handed over in the order they were
    /// recorded.
    pub fn into_pairs(self) -> (r: Vec<(String, String)>)
        ensures
            r@.map_values(|e: (String, String)| (e.0@, e.1@)) == self.pairs(),
    {
        self.entries
    }

    /// The token stored for the booth with `id`, if any.
    pub fn booth_token(&self, id: &str) -> (r: Option<&str>)
        ensures
            match r {
                Some(t) => token_for(self.pairs(), id@) == Some(t@),
                None => token_for(self.pairs(), id@) is None,
            },
    {
        let mut i = self.entries.len();
        assert(self.pairs().take(i as int) =~= self.pairs());
        while i > 0
            invariant
                i <= self.entries@.len(),
                token_for(self.pairs(), id@) == token_for(self.pairs().take(i as int), id@),
            decreases i,
        {
            assert(self.pairs().take(i as int).drop_last() =~= self.pairs().take(i - 1));
            if crate::theme::str_eq(self.entries[i - 1].0.as_str(), id) {
                return Some(self.entries[i - 1].1.as_str());
            }
            i = i - 1;
        }
        None
    }
}

impl SetupConfig {
    /// The booths as configured.
    pub open spec fn booth_list(self) -> Seq<BoothView> {
        booth_views(self.booths@)
    }

    /// Move every booth's debug token out of the configuration into the
    /// secrets, leaving the booths without tokens.
    pub fn take_secrets(&mut self) -> (r: BoothSecrets)
        ensures
            r.pairs() == tokens_of(old(self).booth_list()),
            final(self).booth_list() == old(self).booth_list().map_values(|b: BoothView| without_token(b)),
            final(self).operator_base_url == old(self).operator_base_url,
            final(self).auth == old(self).auth,
            final(self).theme == old(self).theme,
            final(self).poll_interval_ms == old(self).poll_interval_ms,
            final(self).nerd_fonts == old(self).nerd_fonts,
    {
        let mut entries: Vec<(String, String)> = Vec::new();
        let mut booths: Vec<BoothAnswer> = Vec::new();
        std::mem::swap(&mut booths, &mut self.booths);
        let ghost all = booths@;
        let n = booths.len();
        let mut kept: Vec<BoothAnswer> = Vec::new();
        let mut i: usize = 0;
        while i < n
            invariant
                n == all.len(),
                i <= n,
                booths@ == all.skip(i as int),
                booth_views(kept@) == booth_views(all.take(i as int)).map_values(|b: BoothView| without_token(b)),
                entries@.map_values(|e: (String, String)| (e.0@, e.1@)) == tokens_of(booth_views(all.take(i as int))),
            decreases n - i,
        {
            let booth = booths.remove(0);
            assert(booth == all[i as int]);
            assert(booth_views(all.take(i + 1)) =~= booth_views(all.take(i as int)).push(booth@));
            assert(booth_views(all.take(i + 1)).drop_last() =~= booth_views(all.take(i as int)));
            let ghost bv = booth@;
            let ghost before = kept@;
            let BoothAnswer { id, name, debug_base_url, debug_token, pinned_sha256 } = booth;
            match debug_token {
                Some(token) => {
                    entries.push((id.clone(), token));
                    assert(entries@.map_values(|e: (String, String)| (e.0@, e.1@)) =~= tokens_of(
                        booth_views(all.take(i as int)),
                    ).push((id@, entries@.last().1@)));
                },
                None => {},
            }
            kept.push(BoothAnswer { id, name, debug_base_url, debug_token: None, pinned_sha256 });
            assert(kept@.last()@.id == bv.id);
            assert(kept@.last()@.debug_token is None);
            assert(kept@.last()@ =~= without_token(bv));
            assert(booth_views(kept@) =~= booth_views(before).push(without_token(bv)));
            assert(booth_views(kept@) =~= booth_views(all.take(i + 1)).map_values(|b: BoothView| without_token(b)));
            assert(booths@ =~= all.skip(i + 1));
            i = i + 1;
        }
        assert(all.take(n as int) =~= all);
        self.booths = kept;
        BoothSecrets { entries }
    }
}

/// Turn the collected answers into a shareable configuration plus the booth
/// debug tokens split out of it.
pub fn assemble(answers: OnboardingAnswers) -> (r: (SetupConfig, BoothSecrets))
    ensures
        r.0.operator_base_url@ == answers@.operator_base_url,
        r.0.auth@ == answers@.auth,
        r.0.theme@ == answers@.theme,
        r.0.nerd_fonts == answers@.nerd_fonts,
        r.0.poll_interval_ms == answers@.poll_interval_ms,
        r.0.booth_list() == answers@.booths.map_values(|b: BoothView| without_token(b)),
        r.1.pairs() == tokens_of(answers@.booths),
{
    let OnboardingAnswers { operator_base_url, auth, theme, nerd_fonts, poll_interval_ms, booths } =
        answers;
    let mut config = SetupConfig {
        operator_base_url,
        auth,
        booths,
        theme,
        poll_interval_ms,
        nerd_fonts,
    };
    let secrets = config.take_secrets();
    (config, secrets)
}


/// Whether `answer` picks a listed theme.
fn theme_resolves(answer: &str) -> (r: bool)
    ensures
        r == theme_choice(answer@) is Some,
{
    match parse_usize(answer) {
        Some(number) => number >= 1 && number <= crate::theme::NAMES.len(),
        None => is_theme_name(answer),
    }
}

/// Whether asking for the theme over what `reader` has left comes to an end:
/// some line picks a listed theme, or the input runs out on a default that
/// is one.
fn theme_ends(reader: &mut LineReader, default: &str) -> (r: bool)
    ensures
        r == theme_prompt_ends(old(reader).rest(), default@),
    decreases old(reader).rest().len(),
{
    let ghost before = reader.rest();
    proof {
        lemma_after_line_shorter(before);
    }
    let line = reader.read_line();
    let at_end = line.is_none();
    let answer = match line {
        Some(v) => {
            if chars_of(v.as_str()).len() > 0 {
                v
            } else {
                default.to_owned()
            }
        },
        None => default.to_owned(),
    };
    assert(answer@ == line_answer(before, default@));
    if theme_resolves(answer.as_str()) {
        return true;
    }
    if at_end {
        return false;
    }
    theme_ends(reader, default)
}

/// Setup as [`collect_answers`] runs it, for any input: `None` (with nothing
/// read or written) when the theme question would never be answered, that
/// is when no line picks a listed theme and the configured theme is not one
/// either.
pub fn collect_answers_checked(input: &mut LineReader, output: &mut String, existing: &SetupDefaults) -> (r:
    Option<OnboardingAnswers>)
    ensures
        r is None <==> !theme_prompt_ends(
            rest_before_theme(old(input).rest(), *existing),
            existing.theme@,
        ),
        r is None ==> final(input).rest() == old(input).rest() && final(output)@ == old(output)@,
        r matches Some(a) ==> a@ == answers_exchange(old(input).rest(), *existing).0
            && final(input).rest() == answers_exchange(old(input).rest(), *existing).1
            && final(output)@ == old(output)@ + answers_exchange(old(input).rest(), *existing).2,
{
    let mut probe = input.snapshot();
    let mut scratch = String::new();
    ask_operator_url(&mut probe, &mut scratch, existing);
    ask_auth(&mut probe, &mut scratch, existing);
    assert(probe.rest() == rest_before_theme(input.rest(), *existing));
    if !theme_ends(&mut probe, existing.theme.as_str()) {
        return None;
    }
    Some(collect_answers(input, output, existing))
}


/// A yes/no prompt takes the literal answers at their word, whatever their
/// ASCII case: a first line reading `n` or `no` answers no, one reading `y`
/// or `yes` answers yes, and either way only that line is read and the
/// question is asked once.
pub proof fn lemma_yes_no_literal_answers(rest: Seq<char>, label: Seq<char>, default_yes: bool)
    requires
        first_line(rest) is Some,
    ensures
        ({
            let lower = first_line(rest)->0.map_values(|c: char| ascii_lower(c));
            &&& (lower == "n"@ || lower == "no"@) ==> yes_no_exchange(rest, label, default_yes).0 == false
            &&& (lower == "y"@ || lower == "yes"@) ==> yes_no_exchange(rest, label, default_yes).0 == true
            &&& (lower == "n"@ || lower == "no"@ || lower == "y"@ || lower == "yes"@) ==> {
                &&& yes_no_exchange(rest, label, default_yes).1 == after_line(rest)
                &&& yes_no_exchange(rest, label, default_yes).2 == label + " "@ + yes_no_hint(default_yes)
                    + ": "@
            }
        }),
{
    reveal_strlit("n");
    reveal_strlit("no");
    reveal_strlit("y");
    reveal_strlit("yes");
    let v = first_line(rest)->0;
    let lower = v.map_values(|c: char| ascii_lower(c));
    assert(lower.len() == v.len());
    if lower == "n"@ || lower == "no"@ || lower == "y"@ || lower == "yes"@ {
        assert(v.len() > 0);
        if lower == "n"@ || lower == "no"@ {
            assert(lower[0] == 'n');
            assert(lower != "y"@ && lower != "yes"@);
        }
    }
}


/// A blank answer or the end of the input takes the default, reading at most
/// that one line and asking once.
pub proof fn lemma_yes_no_blank_takes_default(rest: Seq<char>, label: Seq<char>, default_yes: bool)
    requires
        first_line(rest) is None || first_line(rest)->0.len() == 0,
    ensures
        yes_no_exchange(rest, label, default_yes).0 == default_yes,
        yes_no_exchange(rest, label, default_yes).1 == after_line(rest),
        yes_no_exchange(rest, label, default_yes).2 == label + " "@ + yes_no_hint(default_yes) + ": "@,
{
}

} // verus!
