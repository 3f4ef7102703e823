//! What holds of the reading of templates.

use vstd::prelude::*;

use crate::scan::{
    before_blanks, before_last_word, before_word, ends_in_subject, ends_in_test, ends_with,
    is_blank, is_mark, is_name, is_opening, is_path, is_word_char, last_word, list_in_test, scan,
    scan_step, Bracket, Scan, ScanMode,
};

verus! {

/// Goes on reading, from what is known.
pub open spec fn scan_from(state: Scan, text: Seq<char>) -> Scan
    decreases text.len(),
{
    if text.len() == 0 {
        state
    } else {
        scan_step(scan_from(state, text.drop_last()), text.last())
    }
}

/// All of a text is blank.
pub open spec fn all_blank(text: Seq<char>) -> bool {
    forall|i: int|
        0 <= i < text.len() ==> #[trigger] text[i] == ' ' || text[i] == '\t' || text[i] == '\r'
            || text[i] == '\n'
}

/// All of a text belongs to words.
pub open spec fn all_word(text: Seq<char>) -> bool {
    forall|i: int|
        0 <= i < text.len() ==> {
            ||| 'a' <= #[trigger] text[i] <= 'z'
            ||| 'A' <= text[i] <= 'Z'
            ||| '0' <= text[i] <= '9'
            ||| text[i] == '_'
            ||| text[i] == '.'
        }
}

/// A name: letters, digits and underscores, without a digit at its start.
pub open spec fn plain_name(text: Seq<char>) -> bool {
    &&& text.len() > 0
    &&& all_word(text)
    &&& !('0' <= text[0] <= '9')
    &&& forall|i: int| 0 <= i < text.len() ==> #[trigger] text[i] != '.'
}

/// A path that no word of the grammar is mistaken for: it is none of the four
/// words between values, and does not begin with a truth value.
pub open spec fn plain_path(text: Seq<char>) -> bool {
    &&& text.len() > 0
    &&& all_word(text)
    &&& !('0' <= text[0] <= '9')
    &&& text[0] != '.'
    &&& text != "and"@ && text != "or"@ && text != "in"@ && text != "not"@
    &&& !(text.len() >= 4 && text.take(4) == "true"@)
    &&& !(text.len() >= 4 && text.take(4) == "True"@)
    &&& !(text.len() >= 5 && text.take(5) == "false"@)
    &&& !(text.len() >= 5 && text.take(5) == "False"@)
}

proof fn lemma_from_add(state: Scan, first: Seq<char>, second: Seq<char>)
    ensures
        scan_from(state, first + second) == scan_from(scan_from(state, first), second),
    decreases second.len(),
{
    if second.len() == 0 {
        assert(first + second == first);
    } else {
        lemma_from_add(state, first, second.drop_last());
        assert((first + second).drop_last() == first + second.drop_last());
    }
}

proof fn lemma_from_one(state: Scan, c: char)
    ensures
        scan_from(state, seq![c]) == scan_step(state, c),
{
    assert(seq![c].drop_last() == Seq::<char>::empty());
    assert(scan_from(state, Seq::<char>::empty()) == state);
    reveal_with_fuel(scan_from, 2);
}

/// Reading a text is reading its first part and then its second.
pub proof fn law_reading_goes_on(first: Seq<char>, second: Seq<char>)
    ensures
        scan(first + second) == scan_from(scan(first), second),
    decreases second.len(),
{
    if second.len() == 0 {
        assert(first + second == first);
    } else {
        law_reading_goes_on(first, second.drop_last());
        assert((first + second).drop_last() == first + second.drop_last());
    }
}

// Templates side by side.

/// What is known after two readings differs at most in what was found and in
/// what no longer matters.
pub open spec fn reads_alike(first: Scan, second: Scan) -> bool {
    &&& first.mode == second.mode
    &&& match first.mode {
        ScanMode::Text => first.last == '{' <==> second.last == '{',
        ScanMode::Comment => first.last == second.last,
        ScanMode::Raw => first.last == second.last && first.tag == second.tag,
        ScanMode::Tag => first.tag == second.tag && first.open == second.open && first.argument
            == second.argument,
        ScanMode::Quoted(_) => first.tag == second.tag && first.open == second.open
            && first.argument == second.argument,
        ScanMode::Closing => first.last == second.last,
        ScanMode::Broken => true,
    }
}

proof fn lemma_step_alike(first: Scan, second: Scan, c: char)
    requires
        reads_alike(first, second),
        second.found ==> first.found,
        first.mode == ScanMode::Closing ==> first.last == ' ',
    ensures
        reads_alike(scan_step(first, c), scan_step(second, c)),
        scan_step(first, c).found <==> first.found || scan_step(second, c).found,
        scan_step(first, c).mode == ScanMode::Closing ==> scan_step(first, c).last == ' ',
{
}

proof fn lemma_reads_alike(first: Scan, second: Scan, text: Seq<char>)
    requires
        reads_alike(first, second),
        !second.found,
        first.mode == ScanMode::Text,
    ensures
        reads_alike(scan_from(first, text), scan_from(second, text)),
        scan_from(first, text).found <==> first.found || scan_from(second, text).found,
        scan_from(first, text).mode == ScanMode::Closing ==> scan_from(first, text).last == ' ',
    decreases text.len(),
{
    if text.len() > 0 {
        lemma_reads_alike(first, second, text.drop_last());
        lemma_step_alike(
            scan_from(first, text.drop_last()),
            scan_from(second, text.drop_last()),
            text.last(),
        );
    }
}

/// Two templates side by side, the first of which ends in text and not in the
/// middle of an opening brace, are read each as if it stood alone: a list is
/// found in the two exactly where it is found in one of them.
pub proof fn law_templates_side_by_side(first: Seq<char>, second: Seq<char>)
    requires
        scan(first).mode == ScanMode::Text,
        scan(first).last != '{',
    ensures
        scan(first + second).mode == scan(second).mode,
        scan(first + second).found <==> scan(first).found || scan(second).found,
        scan(second).mode == ScanMode::Text ==> (list_in_test(first + second) <==> list_in_test(
            first,
        ) || list_in_test(second)),
{
    let start = scan(Seq::<char>::empty());
    law_reading_goes_on(first, second);
    law_reading_goes_on(Seq::<char>::empty(), second);
    assert(Seq::<char>::empty() + second == second);
    lemma_reads_alike(scan(first), start, second);
}

// What a list in a test needs.

/// A template without a square bracket holds no list.
pub proof fn law_no_list_without_square_bracket(content: Seq<char>)
    requires
        forall|i: int| 0 <= i < content.len() ==> #[trigger] content[i] != '[',
    ensures
        !scan(content).found,
        !list_in_test(content),
    decreases content.len(),
{
    if content.len() > 0 {
        assert forall|i: int| 0 <= i < content.drop_last().len() implies #[trigger]
        content.drop_last()[i] != '[' by {
            assert(content[i] != '[');
        }
        law_no_list_without_square_bracket(content.drop_last());
        assert(content[content.len() - 1] != '[');
    }
}

/// A template without a round bracket hands nothing to a test.
pub proof fn law_no_argument_without_round_bracket(content: Seq<char>)
    requires
        forall|i: int| 0 <= i < content.len() ==> #[trigger] content[i] != '(',
    ensures
        !scan(content).found,
        !list_in_test(content),
{
    lemma_no_round_bracket(content);
}

proof fn lemma_no_round_bracket(content: Seq<char>)
    requires
        forall|i: int| 0 <= i < content.len() ==> #[trigger] content[i] != '(',
    ensures
        !scan(content).found,
        !scan(content).argument,
        forall|i: int|
            0 <= i < scan(content).open.len() ==> #[trigger] scan(content).open[i]
                == Bracket::Square,
    decreases content.len(),
{
    if content.len() > 0 {
        assert forall|i: int| 0 <= i < content.drop_last().len() implies #[trigger]
        content.drop_last()[i] != '(' by {
            assert(content[i] != '(');
        }
        lemma_no_round_bracket(content.drop_last());
        assert(content[content.len() - 1] != '(');
    }
}

/// A list counts only right behind the bracket that opens a test's arguments or
/// behind a comma, blanks aside.
pub proof fn law_list_elsewhere_does_not_count(state: Scan, c: char)
    requires
        state.mode == ScanMode::Tag,
        c != '(' && c != ',',
        c == '[' ==> !state.argument,
        c != ' ' && c != '\t' && c != '\r' && c != '\n',
    ensures
        scan_from(state, seq![c, '[']).found == state.found,
{
    assert(seq![c, '['] == seq![c] + seq!['[']);
    lemma_from_add(state, seq![c], seq!['[']);
    lemma_from_one(state, c);
    lemma_from_one(scan_step(state, c), '[');
}

// Strings, comments and raw sections.

proof fn lemma_quoted(state: Scan, quote: char, text: Seq<char>)
    requires
        state.mode == ScanMode::Quoted(quote),
        forall|i: int| 0 <= i < text.len() ==> #[trigger] text[i] != quote,
    ensures
        scan_from(state, text) == state,
    decreases text.len(),
{
    if text.len() > 0 {
        assert forall|i: int| 0 <= i < text.drop_last().len() implies #[trigger]
        text.drop_last()[i] != quote by {
            assert(text[i] != quote);
        }
        lemma_quoted(state, quote, text.drop_last());
        assert(text[text.len() - 1] != quote);
    }
}

/// What stands in a string of a tag, whatever it is, leaves no trace but that
/// there was a string.
pub proof fn law_strings_are_not_read(state: Scan, quote: char, text: Seq<char>)
    requires
        state.mode == ScanMode::Tag,
        quote == '"' || quote == '\'' || quote == '`',
        forall|i: int| 0 <= i < text.len() ==> #[trigger] text[i] != quote,
    ensures
        scan_from(state, seq![quote] + text + seq![quote]) == (Scan {
            tag: state.tag.push('"'),
            argument: false,
            ..state
        }),
{
    let opened = scan_step(state, quote);
    lemma_from_add(state, seq![quote] + text, seq![quote]);
    lemma_from_add(state, seq![quote], text);
    lemma_from_one(state, quote);
    lemma_quoted(opened, quote, text);
    lemma_from_one(opened, quote);
}

proof fn lemma_comment(state: Scan, text: Seq<char>)
    requires
        state.mode == ScanMode::Comment,
        state.last == ' ',
        forall|i: int|
            0 <= i < text.len() - 1 ==> !(#[trigger] text[i] == '#' && text[i + 1] == '}'),
    ensures
        scan_from(state, text) == (Scan {
            last: if text.len() == 0 { ' ' } else { text.last() },
            ..state
        }),
    decreases text.len(),
{
    if text.len() > 0 {
        let earlier = text.drop_last();
        assert forall|i: int| 0 <= i < earlier.len() - 1 implies !(#[trigger] earlier[i] == '#'
            && earlier[i + 1] == '}') by {
            assert(!(text[i] == '#' && text[i + 1] == '}'));
        }
        lemma_comment(state, earlier);
        if earlier.len() > 0 {
            let i = text.len() - 2;
            assert(!(text[i] == '#' && text[i + 1] == '}'));
        }
    }
}

/// What stands in a comment, whatever it is, changes nothing.
pub proof fn law_comments_are_not_read(before: Seq<char>, text: Seq<char>)
    requires
        scan(before).mode == ScanMode::Text,
        scan(before).last != '{',
        forall|i: int|
            0 <= i < text.len() - 1 ==> !(#[trigger] text[i] == '#' && text[i + 1] == '}'),
    ensures
        scan(before + seq!['{', '#'] + text + seq!['#', '}']) == (Scan {
            last: ' ',
            ..scan(before)
        }),
{
    let state = scan(before);
    let braced = scan_step(state, '{');
    let opened = scan_step(braced, '#');
    law_reading_goes_on(before + seq!['{', '#'] + text, seq!['#', '}']);
    law_reading_goes_on(before + seq!['{', '#'], text);
    law_reading_goes_on(before, seq!['{', '#']);
    assert(seq!['{', '#'] == seq!['{'] + seq!['#']);
    lemma_from_add(state, seq!['{'], seq!['#']);
    lemma_from_one(state, '{');
    lemma_from_one(braced, '#');
    lemma_comment(opened, text);
    let read = scan_from(opened, text);
    let closing = scan_step(read, '#');
    assert(seq!['#', '}'] == seq!['#'] + seq!['}']);
    lemma_from_add(read, seq!['#'], seq!['}']);
    lemma_from_one(read, '#');
    lemma_from_one(closing, '}');
}

proof fn lemma_before_blanks(text: Seq<char>, blanks: Seq<char>)
    requires
        all_blank(blanks),
        text.len() == 0 || !is_blank(text.last()),
    ensures
        before_blanks(text + blanks) == text,
    decreases blanks.len(),
{
    if blanks.len() == 0 {
        assert(text + blanks == text);
    } else {
        assert((text + blanks).drop_last() == text + blanks.drop_last());
        assert(is_blank(blanks[blanks.len() - 1]));
        assert(all_blank(blanks.drop_last())) by {
            assert forall|i: int| 0 <= i < blanks.drop_last().len() implies is_blank(
                #[trigger] blanks.drop_last()[i],
            ) by {
                assert(is_blank(blanks[i]));
            }
        }
        lemma_before_blanks(text, blanks.drop_last());
    }
}

proof fn lemma_before_word(text: Seq<char>, word: Seq<char>)
    requires
        all_word(word),
        text.len() == 0 || !is_word_char(text.last()),
    ensures
        before_word(text + word) == text,
        last_word(text + word) == word,
    decreases word.len(),
{
    if word.len() == 0 {
        assert(text + word == text);
        assert(last_word(text + word) == word);
    } else {
        assert((text + word).drop_last() == text + word.drop_last());
        assert(is_word_char(word[word.len() - 1]));
        assert(all_word(word.drop_last())) by {
            assert forall|i: int| 0 <= i < word.drop_last().len() implies is_word_char(
                #[trigger] word.drop_last()[i],
            ) by {
                assert(is_word_char(word[i]));
            }
        }
        lemma_before_word(text, word.drop_last());
        assert(last_word(text + word) == word);
    }
}

/// The end of a text, seen from the end: a word and the blanks before it.
proof fn lemma_word_after_blanks(text: Seq<char>, blanks: Seq<char>, word: Seq<char>)
    requires
        all_blank(blanks),
        all_word(word),
        text.len() > 0,
        !is_blank(text.last()),
        blanks.len() > 0 || !is_word_char(text.last()),
    ensures
        last_word(text + blanks + word) == word,
        before_last_word(text + blanks + word) == text,
{
    let front = text + blanks;
    if blanks.len() > 0 {
        assert(front.last() == blanks[blanks.len() - 1]);
        assert(is_blank(blanks[blanks.len() - 1]));
    } else {
        assert(front == text);
    }
    lemma_before_word(front, word);
    lemma_before_blanks(text, blanks);
}

proof fn lemma_words()
    ensures
        "is"@ == seq!['i', 's'],
        "not"@ == seq!['n', 'o', 't'],
        "isnot"@ == seq!['i', 's', 'n', 'o', 't'],
        "raw"@ == seq!['r', 'a', 'w'],
        "endraw"@ == seq!['e', 'n', 'd', 'r', 'a', 'w'],
        all_word("is"@),
        all_word("not"@),
        all_word("isnot"@),
        all_word("raw"@),
        all_word("endraw"@),
{
    reveal_strlit("is");
    reveal_strlit("not");
    reveal_strlit("isnot");
    reveal_strlit("raw");
    reveal_strlit("endraw");
    assert("is"@ == seq!['i', 's']);
    assert("not"@ == seq!['n', 'o', 't']);
    assert("isnot"@ == seq!['i', 's', 'n', 'o', 't']);
    assert("raw"@ == seq!['r', 'a', 'w']);
    assert("endraw"@ == seq!['e', 'n', 'd', 'r', 'a', 'w']);
}

/// A `{%` tag of one word, with any blanks and with a dash at either end or
/// none, is that tag and no other; with two dashes at its start it is not.
pub proof fn law_marks_are_told_by_their_word(
    opening_dash: bool,
    first: Seq<char>,
    word: Seq<char>,
    second: Seq<char>,
    closing_dash: bool,
    other: Seq<char>,
)
    requires
        all_blank(first),
        all_blank(second),
        all_word(word),
        word.len() > 0,
        other != word,
    ensures
        !is_mark(
            (if opening_dash { seq!['%', '-'] } else { seq!['%'] }) + first + word + second + (
            if closing_dash { seq!['-', '%'] } else { seq!['%'] }),
            other,
        ),
        is_mark(
            (if opening_dash { seq!['%', '-'] } else { seq!['%'] }) + first + word + second + (
            if closing_dash { seq!['-', '%'] } else { seq!['%'] }),
            word,
        ),
        !is_mark(seq!['%', '-', '-'] + first + word + second + seq!['%'], word),
{
    let open = if opening_dash { seq!['%', '-'] } else { seq!['%'] };
    let body = open + first + word;
    let text = body + second + (if closing_dash { seq!['-', '%'] } else { seq!['%'] });
    assert(body.last() == word[word.len() - 1]);
    assert(is_word_char(word[word.len() - 1]));
    lemma_word_after_blanks(open, first, word);
    lemma_before_blanks(body, second);
    if closing_dash {
        assert(text.drop_last() == body + second + seq!['-']);
        assert(text.drop_last().drop_last() == body + second);
    } else {
        assert(text.drop_last() == body + second);
        assert(text.drop_last().last() != '-') by {
            if second.len() > 0 {
                assert(is_blank(second[second.len() - 1]));
            } else {
                assert(body + second == body);
            }
        }
    }
    let wrong_open = seq!['%', '-', '-'];
    let wrong_body = wrong_open + first + word;
    let wrong = wrong_body + second + seq!['%'];
    assert(wrong_body.last() == word[word.len() - 1]);
    lemma_word_after_blanks(wrong_open, first, word);
    lemma_before_blanks(wrong_body, second);
    assert(wrong.drop_last() == wrong_body + second);
    assert(wrong.drop_last().last() != '-') by {
        if second.len() > 0 {
            assert(is_blank(second[second.len() - 1]));
        } else {
            assert(wrong_body + second == wrong_body);
        }
    }
}

proof fn lemma_word_run(state: Scan, word: Seq<char>)
    requires
        state.mode == ScanMode::Tag,
        all_word(word),
    ensures
        scan_from(state, word) == (Scan {
            tag: state.tag + word,
            argument: state.argument && word.len() == 0,
            ..state
        }),
    decreases word.len(),
{
    if word.len() == 0 {
        assert(state.tag + word == state.tag);
    } else {
        assert(is_word_char(word[word.len() - 1]));
        assert(all_word(word.drop_last())) by {
            assert forall|i: int| 0 <= i < word.drop_last().len() implies is_word_char(
                #[trigger] word.drop_last()[i],
            ) by {
                assert(is_word_char(word[i]));
            }
        }
        lemma_word_run(state, word.drop_last());
        assert((state.tag + word.drop_last()).push(word.last()) == state.tag + word);
    }
}

proof fn lemma_blank_run(state: Scan, blanks: Seq<char>)
    requires
        state.mode == ScanMode::Tag,
        all_blank(blanks),
    ensures
        scan_from(state, blanks) == (Scan { tag: state.tag + blanks, ..state }),
    decreases blanks.len(),
{
    if blanks.len() == 0 {
        assert(state.tag + blanks == state.tag);
    } else {
        assert(is_blank(blanks[blanks.len() - 1]));
        assert(all_blank(blanks.drop_last())) by {
            assert forall|i: int| 0 <= i < blanks.drop_last().len() implies is_blank(
                #[trigger] blanks.drop_last()[i],
            ) by {
                assert(is_blank(blanks[i]));
            }
        }
        lemma_blank_run(state, blanks.drop_last());
        assert((state.tag + blanks.drop_last()).push(blanks.last()) == state.tag + blanks);
    }
}

// Tests.

/// A path that stands behind something that is no word, and is not the keyword
/// of its tag, is what a test can be put to; so is an element.
pub proof fn law_paths_and_elements_are_subjects(head: Seq<char>, path: Seq<char>)
    requires
        head.len() > 0,
        !is_word_char(head.last()),
        plain_path(path),
        !is_opening(before_blanks(head), '%'),
    ensures
        ends_in_subject(head + path),
        ends_in_subject(head.push(']')),
{
    let text = head + path;
    lemma_before_word(head, path);
    reveal_strlit("true");
    reveal_strlit("True");
    reveal_strlit("false");
    reveal_strlit("False");
    if path.len() >= 4 {
        assert(path.subrange(0, 4) == path.take(4));
    }
    if path.len() >= 5 {
        assert(path.subrange(0, 5) == path.take(5));
    }
    assert(is_path(path, false));
    let element = head.push(']');
    lemma_before_word(element, Seq::<char>::empty());
    assert(element + Seq::<char>::empty() == element);
}

/// A subject, `is`, perhaps `not`, and a name are a test, however many blanks
/// stand between them; only between a path and `is` there must be one.
pub proof fn law_tests_are_recognised(
    subject: Seq<char>,
    first: Seq<char>,
    second: Seq<char>,
    third: Seq<char>,
    name: Seq<char>,
    fourth: Seq<char>,
)
    requires
        subject.len() > 0,
        ends_in_subject(subject),
        !is_blank(subject.last()),
        all_blank(first),
        all_blank(second),
        all_blank(third),
        all_blank(fourth),
        first.len() > 0 || !is_word_char(subject.last()),
        plain_name(name),
    ensures
        ends_in_test(subject + first + "is"@ + second + name + fourth),
        ends_in_test(subject + first + "is"@ + second + "not"@ + third + name + fourth),
{
    lemma_words();
    lemma_test(subject, first, second, name, fourth);
    let verb = subject + first + "is"@;
    let negated = verb + second + "not"@;
    let text = negated + third + name;
    lemma_name(name);
    if third.len() == 0 {
        let joined = "not"@ + name;
        assert(plain_name(joined)) by {
            assert forall|i: int| 0 <= i < joined.len() implies is_word_char(#[trigger] joined[i])
                && joined[i] != '.' by {
                if i >= 3 {
                    assert(joined[i] == name[i - 3]);
                    assert(is_word_char(name[i - 3]));
                }
            }
        }
        lemma_test(subject, first, second, joined, fourth);
        assert(text == verb + second + joined);
    } else {
        assert(text.last() == name[name.len() - 1]);
        assert(is_word_char(name[name.len() - 1]));
        lemma_before_blanks(text, fourth);
        assert(negated.last() == 't');
        lemma_word_after_blanks(negated, third, name);
        if second.len() == 0 {
            assert(negated == subject + first + "isnot"@);
            lemma_word_after_blanks(subject, first, "isnot"@);
        } else {
            assert(verb.last() == 's');
            lemma_word_after_blanks(verb, second, "not"@);
            lemma_word_after_blanks(subject, first, "is"@);
        }
    }
}

proof fn lemma_name(name: Seq<char>)
    requires
        plain_name(name),
    ensures
        is_name(name),
{
    if name.contains('.') {
        let i = name.index_of('.');
        assert(name[i] == '.');
    }
}

proof fn lemma_test(
    subject: Seq<char>,
    first: Seq<char>,
    second: Seq<char>,
    name: Seq<char>,
    third: Seq<char>,
)
    requires
        subject.len() > 0,
        ends_in_subject(subject),
        !is_blank(subject.last()),
        all_blank(first),
        all_blank(second),
        all_blank(third),
        first.len() > 0 || !is_word_char(subject.last()),
        plain_name(name),
    ensures
        ends_in_test(subject + first + "is"@ + second + name + third),
{
    lemma_words();
    lemma_name(name);
    let verb = subject + first + "is"@;
    let text = verb + second + name;
    assert(text.last() == name[name.len() - 1]);
    assert(is_word_char(name[name.len() - 1]));
    lemma_before_blanks(text, third);
    if second.len() == 0 {
        let joined = "is"@ + name;
        assert(text == subject + first + joined);
        assert(all_word(joined)) by {
            assert forall|i: int| 0 <= i < joined.len() implies is_word_char(
                #[trigger] joined[i],
            ) by {
                if i >= 2 {
                    assert(joined[i] == name[i - 2]);
                    assert(is_word_char(name[i - 2]));
                }
            }
        }
        lemma_word_after_blanks(subject, first, joined);
        assert(joined.subrange(0, 2) == "is"@);
        assert(joined.skip(2) == name);
    } else {
        assert(verb.last() == 's');
        lemma_word_after_blanks(verb, second, name);
        lemma_word_after_blanks(subject, first, "is"@);
    }
}

/// A name right behind a sign or the start of its tag is no test: what follows
/// in brackets is handed to a function.
pub proof fn law_calls_are_no_tests(
    head: Seq<char>,
    first: Seq<char>,
    name: Seq<char>,
    second: Seq<char>,
)
    requires
        head.len() > 0,
        !is_word_char(head.last()),
        !is_blank(head.last()),
        head.last() != ']',
        all_blank(first),
        all_blank(second),
        all_word(name),
        name.len() > 0,
    ensures
        !ends_in_test(head + first + name + second),
{
    lemma_words();
    let text = head + first + name;
    assert(text.last() == name[name.len() - 1]);
    assert(is_word_char(name[name.len() - 1]));
    lemma_before_blanks(text, second);
    lemma_word_after_blanks(head, first, name);
    lemma_before_word(head, Seq::<char>::empty());
    assert(head + Seq::<char>::empty() == head);
}

/// Where the text of a tag ends in a test, a bracket and a square bracket behind
/// it are a list that is handed to the test; where it does not, they are not.
pub proof fn law_list_behind_a_test_is_found(state: Scan, blanks: Seq<char>)
    requires
        state.mode == ScanMode::Tag,
        all_blank(blanks),
    ensures
        ends_in_test(state.tag) ==> scan_from(state, seq!['('] + blanks + seq!['[']).found,
        !ends_in_test(state.tag) ==> scan_from(state, seq!['('] + blanks + seq!['[']).found
            == state.found,
{
    lemma_from_add(state, seq!['('] + blanks, seq!['[']);
    lemma_from_add(state, seq!['('], blanks);
    lemma_from_one(state, '(');
    let opened = scan_step(state, '(');
    lemma_blank_run(opened, blanks);
    lemma_from_one(scan_from(opened, blanks), '[');
}

/// A list behind a comma is handed to a test exactly where the innermost
/// bracket that is open holds the arguments of one.
pub proof fn law_list_behind_a_comma(state: Scan, blanks: Seq<char>)
    requires
        state.mode == ScanMode::Tag,
        all_blank(blanks),
        !state.found,
    ensures
        scan_from(state, seq![','] + blanks + seq!['[']).found <==> state.open.len() > 0
            && state.open.last() == Bracket::Test,
{
    lemma_from_add(state, seq![','] + blanks, seq!['[']);
    lemma_from_add(state, seq![','], blanks);
    lemma_from_one(state, ',');
    let behind = scan_step(state, ',');
    lemma_blank_run(behind, blanks);
    lemma_from_one(scan_from(behind, blanks), '[');
}

/// Brackets close what they opened: after a bracket, any words and blanks, and
/// its fellow, what is open is what was open before.
pub proof fn law_brackets_close(state: Scan, word: Seq<char>, blanks: Seq<char>)
    requires
        state.mode == ScanMode::Tag,
        all_word(word),
        all_blank(blanks),
    ensures
        scan_from(state, seq!['['] + word + blanks + seq![']']).mode == ScanMode::Tag,
        scan_from(state, seq!['['] + word + blanks + seq![']']).open == state.open,
        scan_from(state, seq!['('] + word + blanks + seq![')']).mode == ScanMode::Tag,
        scan_from(state, seq!['('] + word + blanks + seq![')']).open == state.open,
        scan_from(state, seq!['('] + word + blanks + seq![')']).found == state.found,
{
    lemma_bracket(state, '[', word, blanks, ']');
    lemma_bracket(state, '(', word, blanks, ')');
}

proof fn lemma_bracket(state: Scan, open: char, word: Seq<char>, blanks: Seq<char>, close: char)
    requires
        state.mode == ScanMode::Tag,
        all_word(word),
        all_blank(blanks),
        open == '[' && close == ']' || open == '(' && close == ')',
    ensures
        ({
            let after = scan_from(state, seq![open] + word + blanks + seq![close]);
            &&& after.mode == ScanMode::Tag
            &&& after.open == state.open
            &&& after.found == (state.found || (open == '[' && state.argument))
            &&& after.tag == state.tag.push(open) + word + blanks.push(close)
        }),
{
    lemma_from_add(state, seq![open] + word + blanks, seq![close]);
    lemma_from_add(state, seq![open] + word, blanks);
    lemma_from_add(state, seq![open], word);
    lemma_from_one(state, open);
    let opened = scan_step(state, open);
    lemma_word_run(opened, word);
    let read = scan_from(opened, word);
    lemma_blank_run(read, blanks);
    let blanked = scan_from(read, blanks);
    lemma_from_one(blanked, close);
    let after = scan_step(blanked, close);
    assert(opened.open.drop_last() == state.open);
    assert(after.tag == state.tag.push(open) + word + blanks.push(close));
}

/// Whatever stands before it, a `{{` tag that puts a test to a path and hands it
/// a list is found; with the name of a function in place of the test it is not.
#[verifier::spinoff_prover]
pub proof fn law_list_in_a_tag(
    before: Seq<char>,
    blanks: Seq<char>,
    path: Seq<char>,
    gap: Seq<char>,
    name: Seq<char>,
    element: Seq<char>,
)
    requires
        scan(before).mode == ScanMode::Text,
        scan(before).last != '{',
        all_blank(blanks),
        all_blank(gap),
        gap.len() > 0,
        plain_path(path),
        plain_name(name),
        all_word(element),
    ensures
        list_in_test(
            before + seq!['{', '{'] + (blanks + path + gap + "is"@ + gap + name) + seq!['('] + (
            seq!['['] + element + seq![] + seq![']']) + seq![')', '}', '}'],
        ),
        list_in_test(
            before + seq!['{', '{'] + (blanks + name) + seq!['('] + (seq!['['] + element + seq![]
                + seq![']']) + seq![')', '}', '}'],
        ) <==> scan(before).found,
{
    lemma_words();
    let opened = Scan {
        mode: ScanMode::Tag,
        last: ' ',
        tag: seq!['{'],
        open: seq![],
        argument: false,
        ..scan(before)
    };
    let head = seq!['{'] + blanks;
    assert(!is_word_char(head.last())) by {
        if blanks.len() > 0 {
            assert(is_blank(blanks[blanks.len() - 1]));
        }
    }
    lemma_before_blanks(seq!['{'], blanks);
    law_paths_and_elements_are_subjects(head, path);
    assert((head + path).last() == path[path.len() - 1]);
    assert(is_word_char(path[path.len() - 1]));
    let none = Seq::<char>::empty();
    law_tests_are_recognised(head + path, gap, gap, none, name, none);
    let test = blanks + path + gap + "is"@ + gap + name;
    assert(opened.tag + test == head + path + gap + "is"@ + gap + name + none);
    lemma_text_run(opened, blanks, path, gap, name);
    lemma_tag(before, test, element);
    let call = blanks + name;
    lemma_from_add(opened, blanks, name);
    lemma_blank_run(opened, blanks);
    lemma_word_run(scan_from(opened, blanks), name);
    assert(opened.tag + blanks + name == opened.tag + call);
    law_calls_are_no_tests(seq!['{'], blanks, name, none);
    assert(seq!['{'] + blanks + name + none == opened.tag + call);
    lemma_tag(before, call, element);
}

proof fn lemma_text_run(
    state: Scan,
    blanks: Seq<char>,
    path: Seq<char>,
    gap: Seq<char>,
    name: Seq<char>,
)
    requires
        state.mode == ScanMode::Tag,
        !state.argument,
        all_blank(blanks),
        all_blank(gap),
        all_word(path),
        all_word(name),
    ensures
        ({
            let text = blanks + path + gap + "is"@ + gap + name;
            scan_from(state, text) == (Scan { tag: state.tag + text, ..state })
        }),
{
    lemma_words();
    let t1 = blanks + path;
    let t2 = t1 + gap;
    let t3 = t2 + "is"@;
    let t4 = t3 + gap;
    let t5 = t4 + name;
    lemma_blank_run(state, blanks);
    lemma_from_add(state, blanks, path);
    lemma_word_run(scan_from(state, blanks), path);
    assert(state.tag + blanks + path == state.tag + t1);
    lemma_from_add(state, t1, gap);
    lemma_blank_run(scan_from(state, t1), gap);
    assert(state.tag + t1 + gap == state.tag + t2);
    lemma_from_add(state, t2, "is"@);
    lemma_word_run(scan_from(state, t2), "is"@);
    assert(state.tag + t2 + "is"@ == state.tag + t3);
    lemma_from_add(state, t3, gap);
    lemma_blank_run(scan_from(state, t3), gap);
    assert(state.tag + t3 + gap == state.tag + t4);
    lemma_from_add(state, t4, name);
    lemma_word_run(scan_from(state, t4), name);
    assert(state.tag + t4 + name == state.tag + t5);
}

/// A whole `{{` tag that ends in a list in brackets.
#[verifier::spinoff_prover]
proof fn lemma_tag(before: Seq<char>, text: Seq<char>, element: Seq<char>)
    requires
        scan(before).mode == ScanMode::Text,
        scan(before).last != '{',
        all_word(element),
        ({
            let opened = Scan {
                mode: ScanMode::Tag,
                last: ' ',
                tag: seq!['{'],
                open: seq![],
                argument: false,
                ..scan(before)
            };
            scan_from(opened, text) == (Scan { tag: opened.tag + text, ..opened })
        }),
    ensures
        list_in_test(
            before + seq!['{', '{'] + text + seq!['('] + (seq!['['] + element + seq![]
                + seq![']']) + seq![')', '}', '}'],
        ) <==> scan(before).found || ends_in_test(seq!['{'] + text),
{
    let none = Seq::<char>::empty();
    let list = seq!['['] + element + none + seq![']'];
    let end = seq![')', '}', '}'];
    let s0 = scan(before);
    let s1 = scan_step(s0, '{');
    let s2 = scan_step(s1, '{');
    law_reading_goes_on(before, seq!['{', '{']);
    assert(seq!['{', '{'] == seq!['{'] + seq!['{']);
    lemma_from_add(s0, seq!['{'], seq!['{']);
    lemma_from_one(s0, '{');
    lemma_from_one(s1, '{');
    law_reading_goes_on(before + seq!['{', '{'], text);
    let s3 = scan_from(s2, text);
    law_reading_goes_on(before + seq!['{', '{'] + text, seq!['(']);
    lemma_from_one(s3, '(');
    let s4 = scan_step(s3, '(');
    law_reading_goes_on(before + seq!['{', '{'] + text + seq!['('], list);
    lemma_bracket(s4, '[', element, none, ']');
    let s5 = scan_from(s4, list);
    law_reading_goes_on(before + seq!['{', '{'] + text + seq!['('] + list, end);
    assert(end == seq![')'] + seq!['}'] + seq!['}']);
    lemma_from_add(s5, seq![')'] + seq!['}'], seq!['}']);
    lemma_from_add(s5, seq![')'], seq!['}']);
    lemma_from_one(s5, ')');
    let s6 = scan_step(s5, ')');
    lemma_from_one(s6, '}');
    let s7 = scan_step(s6, '}');
    lemma_from_one(s7, '}');
    assert(s4.open.drop_last() == s3.open);
    assert(s6.open.len() == 0);
    assert(s5.tag[0] == '{');
    assert(s6.tag[0] == '{');
}

// The characters of a tag.

/// What a character does in a tag outside strings: signs are kept, and only a
/// comma can make room for an argument; what no tag holds, and a bracket without
/// its fellow, make the template one that is refused.
pub proof fn law_characters_of_a_tag(state: Scan, c: char)
    requires
        state.mode == ScanMode::Tag,
    ensures
        c == '=' || c == '<' || c == '>' || c == '!' || c == '+' || c == '-' || c == '*' || c == '/'
            || c == '%' || c == '|' || c == '~' || c == ':' ==> scan_step(state, c) == (Scan {
            tag: state.tag.push(c),
            argument: false,
            ..state
        }),
        c == ',' ==> scan_step(state, c) == (Scan {
            tag: state.tag.push(c),
            argument: state.open.len() > 0 && state.open.last() == Bracket::Test,
            ..state
        }),
        c == ')' ==> (scan_step(state, c).mode == ScanMode::Broken <==> state.open.len() == 0
            || state.open.last() == Bracket::Square),
        c == ']' ==> (scan_step(state, c).mode == ScanMode::Broken <==> state.open.len() == 0
            || state.open.last() != Bracket::Square),
        c == '{' || c == '#' || c == ';' || c == '@' || c == '$' || c == '&' || c == '?' || c == '\\'
            || c as int > 127 ==> scan_step(state, c).mode == ScanMode::Broken,
{
}

/// How a tag ends: with all its brackets closed, a `{{` tag with two braces and
/// a `{%` tag with a percent sign and a brace.  What ends otherwise is refused.
pub proof fn law_tags_end_as_they_began(state: Scan)
    requires
        state.mode == ScanMode::Tag,
        state.tag.len() > 0,
        state.tag[0] == '{' || state.tag[0] == '%',
    ensures
        state.open.len() > 0 ==> scan_step(state, '}').mode == ScanMode::Broken,
        state.open.len() == 0 && state.tag[0] == '{' ==> {
            let closing = scan_step(state, '}');
            &&& closing.found == state.found
            &&& closing.mode == ScanMode::Closing
            &&& scan_step(closing, '}').mode == ScanMode::Text
            &&& scan_step(closing, '}').last == ' '
            &&& scan_step(closing, '}').found == state.found
            &&& forall|c: char|
                c != '}' ==> (#[trigger] scan_step(closing, c)).mode == ScanMode::Broken
        },
        state.open.len() == 0 && state.tag[0] == '%' ==> {
            let after = scan_step(state, '}');
            &&& after.found == state.found
            &&& state.tag.len() >= 2 && state.tag.last() == '%' ==> after.mode == (if is_mark(
                state.tag,
                "raw"@,
            ) {
                ScanMode::Raw
            } else {
                ScanMode::Text
            })
            &&& !(state.tag.len() >= 2 && state.tag.last() == '%') ==> after.mode
                == ScanMode::Broken
        },
{
}

/// A template that is refused stays so.
pub proof fn law_refused_template_stays_refused(state: Scan, text: Seq<char>)
    requires
        state.mode == ScanMode::Broken,
    ensures
        scan_from(state, text) == state,
    decreases text.len(),
{
    if text.len() > 0 {
        law_refused_template_stays_refused(state, text.drop_last());
    }
}

// The four words between values.

/// Whether a word ends with another one of three or two letters.
pub open spec fn closes_with(word: Seq<char>, end: Seq<char>) -> bool {
    exists|front: Seq<char>| word == #[trigger] (front + end)
}

proof fn lemma_closes_with(word: Seq<char>, end: Seq<char>)
    ensures
        ends_with(word, end) <==> closes_with(word, end),
{
    if ends_with(word, end) {
        let front = word.take(word.len() - end.len());
        assert(word == front + end);
    }
    if closes_with(word, end) {
        let front = choose|front: Seq<char>| word == #[trigger] (front + end);
        assert(word.subrange(word.len() - end.len(), word.len() as int) == end);
    }
}

/// Which of the four words is read.
proof fn lemma_between(text: Seq<char>, blanks: Seq<char>, word: Seq<char>)
    requires
        text.len() > 0,
        !is_blank(text.last()),
        all_blank(blanks),
        blanks.len() > 0 || !is_word_char(text.last()),
        word == "and"@ || word == "or"@ || word == "in"@ || word == "not"@,
    ensures
        word.len() > 0,
        last_word(text + blanks + word) == word,
        before_last_word(text + blanks + word) == text,
        "not"@ != "and"@ && "not"@ != "or"@ && "not"@ != "in"@,
{
    reveal_strlit("and");
    reveal_strlit("or");
    reveal_strlit("in");
    reveal_strlit("not");
    assert("not"@[0] != "and"@[0]);
    assert("not"@[0] != "or"@[0]);
    assert("not"@[0] != "in"@[0]);
    assert(all_word(word));
    lemma_word_after_blanks(text, blanks, word);
}

/// Behind a sign a value is to come, so that `and`, `or` and `in` are paths
/// there; `not` is one but at the start of an expression, of an element or of an
/// argument, where it negates.
pub proof fn law_words_behind_a_sign(head: Seq<char>, sign: char, blanks: Seq<char>)
    requires
        all_blank(blanks),
        !is_word_char(sign) && !is_blank(sign),
        sign != ')' && sign != ']' && sign != '"',
        !(head.len() == 0 && sign == '%'),
        !(head == seq!['%'] && sign == '-'),
    ensures
        ends_in_subject(head.push(sign) + blanks + "and"@),
        ends_in_subject(head.push(sign) + blanks + "or"@),
        ends_in_subject(head.push(sign) + blanks + "in"@),
        ends_in_subject(head.push(sign) + blanks + "not"@) <==> {
            &&& !(head.len() == 0 && sign == '{')
            &&& !(head == seq!['{'] && sign == '-')
            &&& sign != '[' && sign != ','
            &&& sign == '=' && head.len() > 0 ==> head.last() == '=' || head.last() == '<'
                || head.last() == '>' || head.last() == '!'
        },
{
    let text = head.push(sign);
    lemma_between(text, blanks, "and"@);
    lemma_between(text, blanks, "or"@);
    lemma_between(text, blanks, "in"@);
    lemma_between(text, blanks, "not"@);
    lemma_before_word(text, Seq::<char>::empty());
    assert(text + Seq::<char>::empty() == text);
    reveal_strlit("in");
    reveal_strlit("not");
    if text.len() == 2 {
        assert(head == seq![text[0]]);
    }
    if text.len() > 1 {
        assert(text[text.len() - 2] == head.last());
    }
}

/// Behind a value that ends in a bracket or a string, the four words stand
/// between values.
pub proof fn law_words_behind_a_value(head: Seq<char>, end: char, blanks: Seq<char>)
    requires
        all_blank(blanks),
        end == ')' || end == ']' || end == '"',
    ensures
        !ends_in_subject(head.push(end) + blanks + "and"@),
        !ends_in_subject(head.push(end) + blanks + "or"@),
        !ends_in_subject(head.push(end) + blanks + "in"@),
        !ends_in_subject(head.push(end) + blanks + "not"@),
{
    let text = head.push(end);
    lemma_between(text, blanks, "and"@);
    lemma_between(text, blanks, "or"@);
    lemma_between(text, blanks, "in"@);
    lemma_between(text, blanks, "not"@);
    lemma_before_word(text, Seq::<char>::empty());
    assert(text + Seq::<char>::empty() == text);
    lemma_before_blanks(text, Seq::<char>::empty());
    reveal_strlit("and");
    reveal_strlit("or");
    reveal_strlit("in");
    reveal_strlit("not");
}

/// Behind a word, `and`, `or` and `in` are paths exactly where the word calls
/// for a value: the keyword of the tag, or one that ends with one of the four
/// words; `not` is one exactly behind a word that ends with `in` or `not`.
pub proof fn law_words_behind_a_word(head: Seq<char>, word: Seq<char>, blanks: Seq<char>)
    requires
        head.len() > 0,
        !is_word_char(head.last()),
        all_word(word),
        word.len() > 0,
        all_blank(blanks),
        blanks.len() > 0,
    ensures
        ({
            let keyword = is_opening(before_blanks(head), '%');
            let calls = keyword || closes_with(word, "and"@) || closes_with(word, "or"@)
                || closes_with(word, "in"@) || closes_with(word, "not"@);
            &&& ends_in_subject(head + word + blanks + "and"@) <==> calls
            &&& ends_in_subject(head + word + blanks + "or"@) <==> calls
            &&& ends_in_subject(head + word + blanks + "in"@) <==> calls
            &&& ends_in_subject(head + word + blanks + "not"@) <==> closes_with(word, "in"@)
                || closes_with(word, "not"@)
        }),
{
    let text = head + word;
    assert(text.last() == word[word.len() - 1]);
    assert(is_word_char(word[word.len() - 1]));
    lemma_between(text, blanks, "and"@);
    lemma_between(text, blanks, "or"@);
    lemma_between(text, blanks, "in"@);
    lemma_between(text, blanks, "not"@);
    lemma_before_word(head, word);
    lemma_closes_with(word, "and"@);
    lemma_closes_with(word, "or"@);
    lemma_closes_with(word, "in"@);
    lemma_closes_with(word, "not"@);
    assert(!is_opening(text, '%')) by {
        assert(text[text.len() - 1] == word[word.len() - 1]);
    }
}

/// A path goes on behind an element: `a[0].b` is what a test can be put to.
pub proof fn law_path_goes_on_behind_an_element(head: Seq<char>, rest: Seq<char>)
    requires
        all_word(rest),
    ensures
        ends_in_subject(head.push(']') + (seq!['.'] + rest)),
{
    let text = head.push(']');
    let word = seq!['.'] + rest;
    assert(all_word(word)) by {
        assert forall|i: int| 0 <= i < word.len() implies is_word_char(#[trigger] word[i]) by {
            if i > 0 {
                assert(word[i] == rest[i - 1]);
                assert(is_word_char(rest[i - 1]));
            }
        }
    }
    lemma_before_word(text, word);
    lemma_before_blanks(text, Seq::<char>::empty());
    assert(text + Seq::<char>::empty() == text);
    reveal_strlit("and");
    reveal_strlit("or");
    reveal_strlit("in");
    reveal_strlit("not");
    assert(word[0] == '.');
    assert("and"@[0] != '.' && "or"@[0] != '.' && "in"@[0] != '.' && "not"@[0] != '.');
}

// Raw sections.

proof fn lemma_raw(state: Scan, text: Seq<char>)
    requires
        state.mode == ScanMode::Raw,
        state.tag.len() == 0,
        forall|i: int| 0 <= i < text.len() ==> #[trigger] text[i] != '%',
    ensures
        scan_from(state, text) == (Scan {
            last: if text.len() == 0 { state.last } else { text.last() },
            ..state
        }),
    decreases text.len(),
{
    if text.len() > 0 {
        assert forall|i: int| 0 <= i < text.drop_last().len() implies #[trigger]
        text.drop_last()[i] != '%' by {
            assert(text[i] != '%');
        }
        lemma_raw(state, text.drop_last());
        assert(text[text.len() - 1] != '%');
    }
}

/// Characters that are gathered while the end of a raw section is looked for.
proof fn lemma_raw_run(state: Scan, text: Seq<char>)
    requires
        state.mode == ScanMode::Raw,
        state.tag.len() > 0,
        state.last != '{',
        forall|i: int|
            0 <= i < text.len() ==> #[trigger] text[i] != '{' && text[i] != '}',
    ensures
        scan_from(state, text) == (Scan {
            last: if text.len() == 0 { state.last } else { text.last() },
            tag: state.tag + text,
            ..state
        }),
    decreases text.len(),
{
    if text.len() == 0 {
        assert(state.tag + text == state.tag);
    } else {
        let earlier = text.drop_last();
        assert forall|i: int| 0 <= i < earlier.len() implies #[trigger] earlier[i] != '{'
            && earlier[i] != '}' by {
            assert(text[i] != '{' && text[i] != '}');
        }
        lemma_raw_run(state, earlier);
        assert(text[text.len() - 1] != '}');
        if earlier.len() > 0 {
            assert(text[text.len() - 2] != '{');
        }
        assert((state.tag + earlier).push(text.last()) == state.tag + text);
    }
}

/// A `{% raw %}` tag in a text opens a raw section, whatever its blanks and
/// whether it bears a dash.
#[verifier::spinoff_prover]
pub proof fn law_raw_section_opens(
    before: Seq<char>,
    dash: bool,
    first: Seq<char>,
    second: Seq<char>,
)
    requires
        scan(before).mode == ScanMode::Text,
        scan(before).last != '{',
        all_blank(first),
        all_blank(second),
    ensures
        ({
            let after = scan(
                before + seq!['{', '%'] + ((if dash { seq!['-'] } else { seq![] }) + first
                    + "raw"@ + second + seq!['%']) + seq!['}'],
            );
            &&& after.mode == ScanMode::Raw
            &&& after.tag.len() == 0
            &&& after.last == ' '
            &&& after.found == scan(before).found
        }),
{
    lemma_words();
    let none = Seq::<char>::empty();
    let d = if dash { seq!['-'] } else { none };
    let inner = d + first + "raw"@ + second + seq!['%'];
    let s0 = scan(before);
    let s1 = scan_step(s0, '{');
    let s2 = scan_step(s1, '%');
    law_reading_goes_on(before, seq!['{', '%']);
    assert(seq!['{', '%'] == seq!['{'] + seq!['%']);
    lemma_from_add(s0, seq!['{'], seq!['%']);
    lemma_from_one(s0, '{');
    lemma_from_one(s1, '%');
    law_reading_goes_on(before + seq!['{', '%'], inner);
    lemma_from_add(s2, d + first + "raw"@ + second, seq!['%']);
    lemma_from_add(s2, d + first + "raw"@, second);
    lemma_from_add(s2, d + first, "raw"@);
    lemma_from_add(s2, d, first);
    if dash {
        lemma_from_one(s2, '-');
        assert(d == seq!['-']);
    } else {
        assert(scan_from(s2, d) == s2);
    }
    let s3 = scan_from(s2, d);
    assert(s3 =~= (Scan { tag: seq!['%'] + d, ..s2 }));
    lemma_blank_run(s3, first);
    let s4 = scan_from(s3, first);
    lemma_word_run(s4, "raw"@);
    let s5 = scan_from(s4, "raw"@);
    lemma_blank_run(s5, second);
    let s6 = scan_from(s5, second);
    lemma_from_one(s6, '%');
    let s7 = scan_step(s6, '%');
    law_reading_goes_on(before + seq!['{', '%'] + inner, seq!['}']);
    lemma_from_one(s7, '}');
    law_marks_are_told_by_their_word(dash, first, "raw"@, second, false, "endraw"@);
    let open = if dash { seq!['%', '-'] } else { seq!['%'] };
    assert(seq!['%'] + d == open);
    assert(s7.tag == open + first + "raw"@ + second + seq!['%']);
}

/// A raw section ends with its `{% endraw %}` tag; what stands in it, here
/// without percent signs, is not read as a tag.
#[verifier::spinoff_prover]
pub proof fn law_raw_section_closes(
    state: Scan,
    text: Seq<char>,
    dash: bool,
    first: Seq<char>,
    second: Seq<char>,
)
    requires
        state.mode == ScanMode::Raw,
        state.tag.len() == 0,
        forall|i: int| 0 <= i < text.len() ==> #[trigger] text[i] != '%',
        all_blank(first),
        all_blank(second),
    ensures
        ({
            let after = scan_from(
                state,
                text + seq!['{', '%'] + ((if dash { seq!['-'] } else { seq![] }) + first
                    + "endraw"@ + second + seq!['%']) + seq!['}'],
            );
            &&& after.mode == ScanMode::Text
            &&& after.last == ' '
            &&& after.found == state.found
        }),
{
    lemma_words();
    let none = Seq::<char>::empty();
    let d = if dash { seq!['-'] } else { none };
    let inner = d + first + "endraw"@ + second + seq!['%'];
    lemma_from_add(state, text + seq!['{', '%'] + inner, seq!['}']);
    lemma_from_add(state, text + seq!['{', '%'], inner);
    lemma_from_add(state, text, seq!['{', '%']);
    lemma_raw(state, text);
    let s0 = scan_from(state, text);
    assert(seq!['{', '%'] == seq!['{'] + seq!['%']);
    lemma_from_add(s0, seq!['{'], seq!['%']);
    lemma_from_one(s0, '{');
    let s1 = scan_step(s0, '{');
    assert(s1 =~= (Scan { last: '{', ..s0 })) by {
        assert(!is_mark(s0.tag, "endraw"@));
    }
    lemma_from_one(s1, '%');
    let s2 = scan_step(s1, '%');
    assert forall|i: int| 0 <= i < inner.len() implies #[trigger] inner[i] != '{' && inner[i]
        != '}' by {
        let n0 = d.len() as int;
        let n1 = n0 + first.len();
        let n2 = n1 + 6;
        if n0 <= i < n1 {
            assert(inner[i] == first[i - n0]);
            assert(is_blank(first[i - n0]));
        } else if n2 <= i < n2 + second.len() {
            assert(inner[i] == second[i - n2]);
            assert(is_blank(second[i - n2]));
        }
    }
    lemma_raw_run(s2, inner);
    let s3 = scan_from(s2, inner);
    lemma_from_one(s3, '}');
    law_marks_are_told_by_their_word(dash, first, "endraw"@, second, false, "raw"@);
    let open = if dash { seq!['%', '-'] } else { seq!['%'] };
    assert(seq!['%'] + inner == open + first + "endraw"@ + second + seq!['%']);
}

} // verus!
