//! Lists that a template hands to a test.
//!
//! Tera's grammar takes a list literal as the argument of a test, as in
//! `{{ x is containing([1]) }}`, but its parser stops the program on one.  This
//! module reads a template from left to right and finds such a list.
//!
//! Only tags are looked at, the parts between `{{` and `}}` or between `{%` and
//! `%}`, and in them only what stands outside quotes.  Comments and raw sections
//! are text.  A tag's blanks are mostly optional: `x iscontaining([1])` and
//! `a[0]is not in([1])` hold tests too, and no word is reserved, so that `and`
//! or `not` can be what a test is put to.  A name that begins with `is`, as in
//! `a and is_open([1])`, is the name of a function where no value that it could
//! be a test of stands before it; Tera answers such a call with an error.
//!
//! A template that ends inside a tag, a string, a comment or a raw section, or
//! one of whose tags does not close as it opened, is refused by Tera before it
//! looks at tests.

use vstd::prelude::*;
use vstd::string::StrSliceExecFns;

use crate::template::trimmed;

verus! {

/// The blanks that may stand between the words of a tag.
pub open spec fn is_blank(c: char) -> bool {
    c == ' ' || c == '\t' || c == '\r' || c == '\n'
}

/// The characters of names, paths and numbers.
pub open spec fn is_word_char(c: char) -> bool {
    ||| 'a' <= c <= 'z'
    ||| 'A' <= c <= 'Z'
    ||| '0' <= c <= '9'
    ||| c == '_'
    ||| c == '.'
}

pub open spec fn is_digit(c: char) -> bool {
    '0' <= c <= '9'
}

/// The signs that a tag may hold outside strings.
pub open spec fn is_sign(c: char) -> bool {
    ||| c == '(' || c == ')' || c == '[' || c == ']' || c == ','
    ||| c == '=' || c == '<' || c == '>' || c == '!'
    ||| c == '+' || c == '-' || c == '*' || c == '/' || c == '%'
    ||| c == '|' || c == '~' || c == ':'
}

/// The characters that stand round a string.
pub open spec fn is_quote(c: char) -> bool {
    c == '"' || c == '\'' || c == '`'
}

/// A text without the blanks at its end.
pub open spec fn before_blanks(text: Seq<char>) -> Seq<char>
    decreases text.len(),
{
    if text.len() > 0 && is_blank(text.last()) {
        before_blanks(text.drop_last())
    } else {
        text
    }
}

/// A text without the word at its end.
pub open spec fn before_word(text: Seq<char>) -> Seq<char>
    decreases text.len(),
{
    if text.len() > 0 && is_word_char(text.last()) {
        before_word(text.drop_last())
    } else {
        text
    }
}

/// The word at the end of a text, empty where there is none.
pub open spec fn last_word(text: Seq<char>) -> Seq<char> {
    text.subrange(before_word(text).len() as int, text.len() as int)
}

/// What stands before the word at the end of a text.
pub open spec fn before_last_word(text: Seq<char>) -> Seq<char> {
    before_blanks(before_word(text))
}

pub open spec fn starts_with(text: Seq<char>, start: Seq<char>) -> bool {
    text.len() >= start.len() && text.subrange(0, start.len() as int) == start
}

pub open spec fn ends_with(text: Seq<char>, end: Seq<char>) -> bool {
    text.len() >= end.len() && text.subrange(text.len() - end.len(), text.len() as int) == end
}

/// The text of a tag that has only been opened: its second brace or the percent
/// sign, and perhaps the dash of white space control.
pub open spec fn is_opening(text: Seq<char>, opening: char) -> bool {
    ||| text.len() == 1 && text[0] == opening
    ||| text.len() == 2 && text[0] == opening && text[1] == '-'
}

/// Whether a word can be the name of a test.
pub open spec fn is_name(word: Seq<char>) -> bool {
    word.len() > 0 && !is_digit(word[0]) && !word.contains('.')
}

/// Whether a word, other than `and`, `or`, `in` and `not`, can be the end of a
/// path; `joined` tells whether it stands right behind an element.  A number is
/// none, nor is a word that begins with a truth value: Tera reads the truth
/// value and no path.
pub open spec fn is_path(word: Seq<char>, joined: bool) -> bool {
    if word[0] == '.' {
        joined
    } else {
        !is_digit(word[0]) && !starts_with(word, "true"@) && !starts_with(word, "false"@)
            && !starts_with(word, "True"@) && !starts_with(word, "False"@)
    }
}

/// Whether the text of a tag ends inside an expression where a value is still
/// to come: after a bracket that opens, a comma or an operator's sign.
pub open spec fn ends_in_sign(text: Seq<char>) -> bool {
    text.len() > 0 && !is_word_char(text.last()) && text.last() != ')' && text.last() != ']'
        && text.last() != '"'
}

/// Whether a value is to follow on the text of a tag.  The words that call for
/// one may be joined to a number or a truth value before them.
pub open spec fn wants_value(text: Seq<char>) -> bool {
    let word = last_word(text);
    ||| ends_in_sign(text)
    ||| is_opening(before_last_word(text), '%')
    ||| ends_with(word, "and"@)
    ||| ends_with(word, "or"@)
    ||| ends_with(word, "in"@)
    ||| ends_with(word, "not"@)
}

/// Whether `not`, after the text of a tag, negates what follows: at the start of
/// an expression, of an element or of an argument.
pub open spec fn negates(text: Seq<char>) -> bool {
    ||| is_opening(text, '{')
    ||| text.len() > 0 && (text.last() == '[' || text.last() == ',')
    ||| text.len() > 1 && text.last() == '=' && !is_comparison(text[text.len() - 2])
}

/// The characters that stand before the equals sign of a comparison.
pub open spec fn is_comparison(c: char) -> bool {
    c == '=' || c == '<' || c == '>' || c == '!'
}

/// Whether a test can be put to what the text of a tag ends with: a path or an
/// element.  The first word of a `{%` tag is its keyword.  The words `and`,
/// `or` and `in` are paths only where a value is to follow, and `not` only
/// where it does not negate one.
pub open spec fn ends_in_subject(text: Seq<char>) -> bool {
    let word = last_word(text);
    let before = before_last_word(text);
    if word.len() == 0 {
        text.len() > 0 && text.last() == ']'
    } else if is_opening(before, '%') {
        false
    } else if word == "and"@ || word == "or"@ || word == "in"@ {
        wants_value(before)
    } else if word == "not"@ {
        ||| ends_in_sign(before) && !negates(before)
        ||| ends_with(last_word(before), "in"@)
        ||| ends_with(last_word(before), "not"@)
    } else {
        let rest = before_word(text);
        is_path(word, rest.len() > 0 && rest.last() == ']')
    }
}

/// Whether a bracket that opens after the text of a tag holds the arguments of
/// a test: before it stand a subject, `is`, perhaps `not`, and a name.
pub open spec fn ends_in_test(text: Seq<char>) -> bool {
    let first = before_blanks(text);
    let second = before_last_word(first);
    let third = before_last_word(second);
    let fourth = before_last_word(third);
    let name = last_word(first);
    let verb = last_word(second);
    ||| starts_with(name, "is"@) && is_name(name.skip(2)) && ends_in_subject(second)
    ||| is_name(name) && (verb == "is"@ || verb == "isnot"@) && ends_in_subject(third)
    ||| is_name(name) && verb == "not"@ && last_word(third) == "is"@ && ends_in_subject(fourth)
}

/// Whether the text of a tag, up to its last brace, is a `{%` tag of one word.
pub open spec fn is_mark(text: Seq<char>, word: Seq<char>) -> bool {
    &&& text.len() > 0
    &&& text.last() == '%'
    &&& {
        let inner = text.drop_last();
        let body = if inner.len() > 0 && inner.last() == '-' {
            before_blanks(inner.drop_last())
        } else {
            before_blanks(inner)
        };
        last_word(body) == word && is_opening(before_last_word(body), '%')
    }
}

/// The part of a template that is being read.
#[derive(Clone, Copy, Debug, PartialEq, Eq, Structural)]
pub enum ScanMode {
    Text,
    Comment,
    Raw,
    Tag,
    /// A string in a tag, and the character that ends it.
    Quoted(char),
    /// After the first of the two braces that end a `{{` tag.
    Closing,
    /// After a fault for which Tera refuses the template.
    Broken,
}

/// A bracket that is open.
#[derive(Clone, Copy, Debug, PartialEq, Eq, Structural)]
pub enum Bracket {
    /// Holds the arguments of a test.
    Test,
    /// Any other round bracket.
    Round,
    Square,
}

/// What is known of a template after a part of it was read.
#[verifier::ext_equal]
pub struct Scan {
    pub mode: ScanMode,
    /// The character before, outside tags.
    pub last: char,
    /// The text of the tag, from its second character on, with a quote for each
    /// string.  In a raw section this is what may become the tag that ends it.
    pub tag: Seq<char>,
    /// The brackets of the tag that are open.
    pub open: Seq<Bracket>,
    /// Whether an argument of a test starts here.
    pub argument: bool,
    /// Whether a list was found.
    pub found: bool,
}

impl Scan {
    /// A tag that is being read has been opened.
    pub open spec fn wf(self) -> bool {
        self.mode is Tag || self.mode is Quoted ==> self.tag.len() > 0
    }
}

/// Where the reading goes on after the brace that ends a tag.
pub open spec fn after_tag(before: Scan) -> ScanMode {
    if before.open.len() > 0 {
        ScanMode::Broken
    } else if before.tag[0] == '{' {
        ScanMode::Closing
    } else if before.tag.len() < 2 || before.tag.last() != '%' {
        ScanMode::Broken
    } else if is_mark(before.tag, "raw"@) {
        ScanMode::Raw
    } else {
        ScanMode::Text
    }
}

/// Whether a bracket that closes has no fellow.
pub open spec fn is_stray(open: Seq<Bracket>, c: char) -> bool {
    ||| c == ')' && (open.len() == 0 || open.last() == Bracket::Square)
    ||| c == ']' && (open.len() == 0 || open.last() != Bracket::Square)
}

/// Reads one character of a tag, outside quotes.
pub open spec fn tag_step(before: Scan, c: char) -> Scan {
    if is_quote(c) {
        Scan { mode: ScanMode::Quoted(c), argument: false, ..before }
    } else if c == '}' {
        Scan { mode: after_tag(before), last: ' ', tag: seq![], ..before }
    } else if !(is_blank(c) || is_word_char(c) || is_sign(c)) || is_stray(before.open, c) {
        Scan { mode: ScanMode::Broken, ..before }
    } else {
        let test = ends_in_test(before.tag);
        Scan {
            tag: before.tag.push(c),
            open: if c == '(' {
                before.open.push(
                    if test {
                        Bracket::Test
                    } else {
                        Bracket::Round
                    },
                )
            } else if c == '[' {
                before.open.push(Bracket::Square)
            } else if c == ')' || c == ']' {
                before.open.drop_last()
            } else {
                before.open
            },
            argument: if c == '(' {
                test
            } else if c == ',' {
                before.open.len() > 0 && before.open.last() == Bracket::Test
            } else {
                is_blank(c) && before.argument
            },
            found: before.found || (c == '[' && before.argument),
            ..before
        }
    }
}

/// Reads one character of a template.
pub open spec fn scan_step(before: Scan, c: char) -> Scan {
    match before.mode {
        ScanMode::Text => if before.last == '{' && (c == '{' || c == '%') {
            Scan {
                mode: ScanMode::Tag,
                last: ' ',
                tag: seq![c],
                open: seq![],
                argument: false,
                ..before
            }
        } else if before.last == '{' && c == '#' {
            Scan { mode: ScanMode::Comment, last: ' ', ..before }
        } else {
            Scan { last: c, ..before }
        },
        ScanMode::Comment => if before.last == '#' && c == '}' {
            Scan { mode: ScanMode::Text, last: ' ', ..before }
        } else {
            Scan { last: c, ..before }
        },
        ScanMode::Raw => if before.last == '{' && c == '%' {
            Scan { last: c, tag: seq![c], ..before }
        } else if c == '}' && is_mark(before.tag, "endraw"@) {
            Scan { mode: ScanMode::Text, last: ' ', tag: seq![], ..before }
        } else if before.tag.len() > 0 {
            Scan { last: c, tag: before.tag.push(c), ..before }
        } else {
            Scan { last: c, ..before }
        },
        ScanMode::Tag => tag_step(before, c),
        ScanMode::Closing => Scan {
            mode: if c == '}' {
                ScanMode::Text
            } else {
                ScanMode::Broken
            },
            ..before
        },
        ScanMode::Broken => before,
        ScanMode::Quoted(quote) => if c == quote {
            Scan { mode: ScanMode::Tag, tag: before.tag.push('"'), ..before }
        } else {
            before
        },
    }
}

/// What is known after the whole of a template was read.
pub open spec fn scan(content: Seq<char>) -> Scan
    decreases content.len(),
{
    if content.len() == 0 {
        Scan {
            mode: ScanMode::Text,
            last: ' ',
            tag: seq![],
            open: seq![],
            argument: false,
            found: false,
        }
    } else {
        scan_step(scan(content.drop_last()), content.last())
    }
}

/// Whether a template whose tags all close hands a list literal to a test.
/// This holds also of some that Tera would refuse for another fault, such as
/// two values side by side or a section that does not end.  After an opening
/// bracket, `not` counts as what a name that begins with `is` is a test of, even
/// where it can only negate the name.
pub open spec fn list_in_test(content: Seq<char>) -> bool {
    scan(content).found && scan(content).mode == ScanMode::Text
}

fn blank(c: char) -> (answer: bool)
    ensures
        answer == is_blank(c),
{
    c == ' ' || c == '\t' || c == '\r' || c == '\n'
}

fn word_char(c: char) -> (answer: bool)
    ensures
        answer == is_word_char(c),
{
    ('a' <= c && c <= 'z') || ('A' <= c && c <= 'Z') || ('0' <= c && c <= '9') || c == '_' || c
        == '.'
}

fn digit(c: char) -> (answer: bool)
    ensures
        answer == is_digit(c),
{
    '0' <= c && c <= '9'
}

fn sign(c: char) -> (answer: bool)
    ensures
        answer == is_sign(c),
{
    match c {
        '(' | ')' | '[' | ']' | ',' | '=' | '<' | '>' | '!' | '+' | '-' | '*' | '/' | '%' | '|'
        | '~' | ':' => true,
        _ => false,
    }
}

/// Where the blanks begin that stand before `end`.
fn skip_blanks(tag: &Vec<char>, end: usize) -> (start: usize)
    requires
        end <= tag@.len(),
    ensures
        start <= end,
        tag@.take(start as int) == before_blanks(tag@.take(end as int)),
{
    let mut start: usize = end;
    while start > 0 && blank(tag[start - 1])
        invariant
            start <= end <= tag@.len(),
            before_blanks(tag@.take(start as int)) == before_blanks(tag@.take(end as int)),
        decreases start,
    {
        assert(tag@.take(start as int).drop_last() =~= tag@.take(start - 1));
        start = start - 1;
    }
    start
}

/// Where the word begins that stands before `end`.
fn skip_word(tag: &Vec<char>, end: usize) -> (start: usize)
    requires
        end <= tag@.len(),
    ensures
        start <= end,
        tag@.take(start as int) == before_word(tag@.take(end as int)),
        tag@.subrange(start as int, end as int) == last_word(tag@.take(end as int)),
{
    let mut start: usize = end;
    while start > 0 && word_char(tag[start - 1])
        invariant
            start <= end <= tag@.len(),
            before_word(tag@.take(start as int)) == before_word(tag@.take(end as int)),
        decreases start,
    {
        assert(tag@.take(start as int).drop_last() =~= tag@.take(start - 1));
        start = start - 1;
    }
    assert(tag@.subrange(start as int, end as int) =~= last_word(tag@.take(end as int)));
    start
}

/// Whether a part of a tag is the word.
fn is_text(tag: &Vec<char>, start: usize, end: usize, word: &str) -> (same: bool)
    requires
        start <= end <= tag@.len(),
    ensures
        same == (tag@.subrange(start as int, end as int) == word@),
{
    let length: usize = word.unicode_len();
    if end - start != length {
        return false;
    }
    let mut i: usize = 0;
    while i < length
        invariant
            start <= end <= tag@.len(),
            end - start == length == word@.len(),
            i <= length,
            forall|k: int| 0 <= k < i ==> tag@[start + k] == word@[k],
        decreases length - i,
    {
        if tag[start + i] != word.get_char(i) {
            assert(tag@.subrange(start as int, end as int)[i as int] != word@[i as int]);
            return false;
        }
        i = i + 1;
    }
    assert(tag@.subrange(start as int, end as int) =~= word@);
    true
}

fn starts_in(tag: &Vec<char>, start: usize, end: usize, word: &str) -> (answer: bool)
    requires
        start <= end <= tag@.len(),
    ensures
        answer == starts_with(tag@.subrange(start as int, end as int), word@),
{
    let length: usize = word.unicode_len();
    if end - start < length {
        return false;
    }
    assert(tag@.subrange(start as int, end as int).subrange(0, length as int)
        =~= tag@.subrange(start as int, start + length));
    is_text(tag, start, start + length, word)
}

fn ends_in(tag: &Vec<char>, start: usize, end: usize, word: &str) -> (answer: bool)
    requires
        start <= end <= tag@.len(),
    ensures
        answer == ends_with(tag@.subrange(start as int, end as int), word@),
{
    let length: usize = word.unicode_len();
    if end - start < length {
        return false;
    }
    assert(tag@.subrange(start as int, end as int).subrange(
        end - start - length,
        end - start as int,
    ) =~= tag@.subrange(end - length, end as int));
    is_text(tag, end - length, end, word)
}

fn opening(tag: &Vec<char>, end: usize, c: char) -> (answer: bool)
    requires
        end <= tag@.len(),
    ensures
        answer == is_opening(tag@.take(end as int), c),
{
    (end == 1 && tag[0] == c) || (end == 2 && tag[0] == c && tag[1] == '-')
}

fn name_in(tag: &Vec<char>, start: usize, end: usize) -> (answer: bool)
    requires
        start <= end <= tag@.len(),
    ensures
        answer == is_name(tag@.subrange(start as int, end as int)),
{
    if start == end || digit(tag[start]) {
        return false;
    }
    let mut i: usize = start;
    while i < end
        invariant
            start <= i <= end <= tag@.len(),
            forall|k: int| start <= k < i ==> tag@[k] != '.',
        decreases end - i,
    {
        if tag[i] == '.' {
            assert(tag@.subrange(start as int, end as int)[i - start] == '.');
            return false;
        }
        i = i + 1;
    }
    true
}

fn path_in(tag: &Vec<char>, start: usize, end: usize) -> (answer: bool)
    requires
        start < end <= tag@.len(),
    ensures
        answer == is_path(
            tag@.subrange(start as int, end as int),
            start > 0 && tag@[start - 1] == ']',
        ),
{
    if tag[start] == '.' {
        start > 0 && tag[start - 1] == ']'
    } else {
        !digit(tag[start]) && !starts_in(tag, start, end, "true") && !starts_in(
            tag,
            start,
            end,
            "false",
        ) && !starts_in(tag, start, end, "True") && !starts_in(tag, start, end, "False")
    }
}

fn sign_before(tag: &Vec<char>, end: usize) -> (answer: bool)
    requires
        end <= tag@.len(),
    ensures
        answer == ends_in_sign(tag@.take(end as int)),
{
    if end == 0 {
        return false;
    }
    let c: char = tag[end - 1];
    !word_char(c) && c != ')' && c != ']' && c != '"'
}

fn negation_after(tag: &Vec<char>, end: usize) -> (answer: bool)
    requires
        end <= tag@.len(),
    ensures
        answer == negates(tag@.take(end as int)),
{
    if end == 0 {
        return false;
    }
    let c: char = tag[end - 1];
    if c == '=' && end > 1 {
        let d: char = tag[end - 2];
        d != '=' && d != '<' && d != '>' && d != '!'
    } else {
        c == '[' || c == ',' || opening(tag, end, '{')
    }
}

fn value_wanted(tag: &Vec<char>, end: usize) -> (answer: bool)
    requires
        end <= tag@.len(),
    ensures
        answer == wants_value(tag@.take(end as int)),
{
    let start: usize = skip_word(tag, end);
    let before: usize = skip_blanks(tag, start);
    sign_before(tag, end) || opening(tag, before, '%') || ends_in(tag, start, end, "and")
        || ends_in(tag, start, end, "or") || ends_in(tag, start, end, "in") || ends_in(
        tag,
        start,
        end,
        "not",
    )
}

fn subject_before(tag: &Vec<char>, end: usize) -> (answer: bool)
    requires
        end <= tag@.len(),
    ensures
        answer == ends_in_subject(tag@.take(end as int)),
{
    let start: usize = skip_word(tag, end);
    let before: usize = skip_blanks(tag, start);
    if start == end {
        end > 0 && tag[end - 1] == ']'
    } else if opening(tag, before, '%') {
        false
    } else if is_text(tag, start, end, "and") || is_text(tag, start, end, "or") || is_text(
        tag,
        start,
        end,
        "in",
    ) {
        value_wanted(tag, before)
    } else if is_text(tag, start, end, "not") {
        let previous: usize = skip_word(tag, before);
        (sign_before(tag, before) && !negation_after(tag, before)) || ends_in(
            tag,
            previous,
            before,
            "in",
        ) || ends_in(tag, previous, before, "not")
    } else {
        path_in(tag, start, end)
    }
}

fn test_before(tag: &Vec<char>) -> (answer: bool)
    ensures
        answer == ends_in_test(tag@),
{
    assert(tag@.take(tag@.len() as int) =~= tag@);
    let first: usize = skip_blanks(tag, tag.len());
    let name: usize = skip_word(tag, first);
    let second: usize = skip_blanks(tag, name);
    let verb: usize = skip_word(tag, second);
    let third: usize = skip_blanks(tag, verb);
    let start: usize = skip_word(tag, third);
    let fourth: usize = skip_blanks(tag, start);
    if starts_in(tag, name, first, "is") {
        proof {
            reveal_strlit("is");
            assert(tag@.subrange(name as int, first as int).skip(2) =~= tag@.subrange(
                name + 2,
                first as int,
            ));
        }
        if name_in(tag, name + 2, first) && subject_before(tag, second) {
            return true;
        }
    }
    if !name_in(tag, name, first) {
        return false;
    }
    if (is_text(tag, verb, second, "is") || is_text(tag, verb, second, "isnot")) && subject_before(
        tag,
        third,
    ) {
        return true;
    }
    is_text(tag, verb, second, "not") && is_text(tag, start, third, "is") && subject_before(
        tag,
        fourth,
    )
}

fn mark(tag: &Vec<char>, word: &str) -> (answer: bool)
    ensures
        answer == is_mark(tag@, word@),
{
    let length: usize = tag.len();
    if length == 0 || tag[length - 1] != '%' {
        return false;
    }
    let inner: usize = length - 1;
    assert(tag@.drop_last() =~= tag@.take(inner as int));
    let dash: bool = inner > 0 && tag[inner - 1] == '-';
    if dash {
        assert(tag@.take(inner as int).drop_last() =~= tag@.take(inner - 1));
    }
    let end: usize = skip_blanks(
        tag,
        if dash {
            inner - 1
        } else {
            inner
        },
    );
    let start: usize = skip_word(tag, end);
    let before: usize = skip_blanks(tag, start);
    is_text(tag, start, end, word) && opening(tag, before, '%')
}

/// Reads a template, character by character.
struct Scanner {
    mode: ScanMode,
    last: char,
    tag: Vec<char>,
    open: Vec<Bracket>,
    argument: bool,
    found: bool,
}

impl View for Scanner {
    type V = Scan;

    closed spec fn view(&self) -> Scan {
        Scan {
            mode: self.mode,
            last: self.last,
            tag: self.tag@,
            open: self.open@,
            argument: self.argument,
            found: self.found,
        }
    }
}

impl Scanner {
    /// Ends a tag.
    fn close_tag(&mut self)
        requires
            old(self)@.tag.len() > 0,
        ensures
            final(self)@ == (Scan {
                mode: after_tag(old(self)@),
                last: ' ',
                tag: seq![],
                ..old(self)@
            }),
    {
        let length: usize = self.tag.len();
        self.mode = if self.open.len() > 0 {
            ScanMode::Broken
        } else if self.tag[0] == '{' {
            ScanMode::Closing
        } else if length < 2 || self.tag[length - 1] != '%' {
            ScanMode::Broken
        } else if mark(&self.tag, "raw") {
            ScanMode::Raw
        } else {
            ScanMode::Text
        };
        self.last = ' ';
        self.tag = Vec::new();
    }

    fn feed_tag(&mut self, c: char)
        requires
            old(self)@.tag.len() > 0,
        ensures
            final(self)@ == tag_step(old(self)@, c),
    {
        let depth: usize = self.open.len();
        if c == '"' || c == '\'' || c == '`' {
            self.mode = ScanMode::Quoted(c);
            self.argument = false;
        } else if c == '}' {
            self.close_tag();
        } else if !(blank(c) || word_char(c) || sign(c)) || (c == ')' && (depth == 0
            || self.open[depth - 1] == Bracket::Square)) || (c == ']' && (depth == 0
            || self.open[depth - 1] != Bracket::Square)) {
            self.mode = ScanMode::Broken;
        } else {
            let list: bool = c == '[' && self.argument;
            self.found = self.found || list;
            if c == '(' {
                let test: bool = test_before(&self.tag);
                self.open.push(
                    if test {
                        Bracket::Test
                    } else {
                        Bracket::Round
                    },
                );
                self.argument = test;
            } else if c == ',' {
                self.argument = depth > 0 && self.open[depth - 1] == Bracket::Test;
            } else {
                self.argument = blank(c) && self.argument;
                if c == '[' {
                    self.open.push(Bracket::Square);
                } else if c == ')' || c == ']' {
                    let _ = self.open.pop();
                }
            }
            self.tag.push(c);
        }
        assert(self@ =~= tag_step(old(self)@, c));
    }

    fn feed(&mut self, c: char)
        requires
            old(self)@.wf(),
        ensures
            final(self)@ == scan_step(old(self)@, c),
            final(self)@.wf(),
    {
        match self.mode {
            ScanMode::Text => {
                if self.last == '{' && (c == '{' || c == '%') {
                    self.mode = ScanMode::Tag;
                    self.last = ' ';
                    self.tag = vec![c];
                    self.open = Vec::new();
                    self.argument = false;
                } else if self.last == '{' && c == '#' {
                    self.mode = ScanMode::Comment;
                    self.last = ' ';
                } else {
                    self.last = c;
                }
            },
            ScanMode::Comment => {
                if self.last == '#' && c == '}' {
                    self.mode = ScanMode::Text;
                    self.last = ' ';
                } else {
                    self.last = c;
                }
            },
            ScanMode::Raw => {
                if self.last == '{' && c == '%' {
                    self.last = c;
                    self.tag = vec![c];
                } else if c == '}' && mark(&self.tag, "endraw") {
                    self.mode = ScanMode::Text;
                    self.last = ' ';
                    self.tag = Vec::new();
                } else {
                    self.last = c;
                    if self.tag.len() > 0 {
                        self.tag.push(c);
                    }
                }
            },
            ScanMode::Tag => self.feed_tag(c),
            ScanMode::Closing => {
                self.mode = if c == '}' {
                    ScanMode::Text
                } else {
                    ScanMode::Broken
                };
            },
            ScanMode::Broken => {},
            ScanMode::Quoted(quote) => {
                if c == quote {
                    self.mode = ScanMode::Tag;
                    self.tag.push('"');
                }
            },
        }
        assert(self@ =~= scan_step(old(self)@, c));
    }
}

/// Whether a message template hands a list literal to a test, which Tera cannot
/// read.
pub fn tests_a_list(template_raw: &str) -> (found: bool)
    ensures
        found == list_in_test(trimmed(template_raw@)),
{
    let content: &str = template_raw.trim();
    let mut scanner: Scanner = Scanner {
        mode: ScanMode::Text,
        last: ' ',
        tag: Vec::new(),
        open: Vec::new(),
        argument: false,
        found: false,
    };
    assert(scanner@ =~= scan(content@.take(0)));
    for c in characters: content.chars()
        invariant
            characters.seq() == content@,
            scanner@ == scan(content@.take(characters.index())),
            scanner@.wf(),
    {
        assert(content@.take(characters.index() + 1).drop_last() =~= content@.take(
            characters.index(),
        ));
        scanner.feed(c);
    }
    assert(content@.take(content@.len() as int) =~= content@);
    scanner.found && scanner.mode == ScanMode::Text
}

} // verus!
