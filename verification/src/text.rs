//! Character-level text operations used by the configuration parser, each stated over
//! the sequence of characters it works on.

use vstd::prelude::*;

verus! {

/// `char::is_whitespace`: the characters with the Unicode `White_Space` property.
pub open spec fn is_whitespace(c: char) -> bool {
    let code = c as u32;
    ||| 0x9 <= code <= 0xd
    ||| code == 0x20
    ||| code == 0x85
    ||| code == 0xa0
    ||| code == 0x1680
    ||| 0x2000 <= code <= 0x200a
    ||| code == 0x2028
    ||| code == 0x2029
    ||| code == 0x202f
    ||| code == 0x205f
    ||| code == 0x3000
}

/// The text with trailing whitespace removed (`str::trim_end`).
pub open spec fn trim_end(text: Seq<char>) -> Seq<char>
    decreases text.len(),
{
    if text.len() > 0 && is_whitespace(text.last()) {
        trim_end(text.drop_last())
    } else {
        text
    }
}

/// The text with leading whitespace removed (`str::trim_start`).
pub open spec fn trim_start(text: Seq<char>) -> Seq<char>
    decreases text.len(),
{
    if text.len() > 0 && is_whitespace(text[0]) {
        trim_start(text.drop_first())
    } else {
        text
    }
}

/// The text with whitespace removed at both ends (`str::trim`).
pub open spec fn trim(text: Seq<char>) -> Seq<char> {
    trim_end(trim_start(text))
}

/// The text with every occurrence of `removed` taken out (`str::replace(removed, "")`).
pub open spec fn without(text: Seq<char>, removed: char) -> Seq<char>
    decreases text.len(),
{
    if text.len() == 0 {
        text
    } else if text.last() == removed {
        without(text.drop_last(), removed)
    } else {
        without(text.drop_last(), removed).push(text.last())
    }
}

/// `at` is the first position of `separator` in `text`.
pub open spec fn is_first_position(text: Seq<char>, separator: char, at: int) -> bool {
    &&& 0 <= at < text.len()
    &&& text[at] == separator
    &&& forall|j: int| 0 <= j < at ==> text[j] != separator
}

/// `str::split_once`: the parts before and after the first `separator`, if there is one.
pub open spec fn split_once(text: Seq<char>, separator: char) -> Option<(Seq<char>, Seq<char>)> {
    if exists|at: int| 0 <= at < text.len() && text[at] == separator {
        let at = choose|at: int| is_first_position(text, separator, at);
        Some((text.take(at), text.skip(at + 1)))
    } else {
        None
    }
}

/// A line as `str::lines` hands it out: one final carriage return before the line feed
/// is dropped.
pub open spec fn strip_carriage_return(line: Seq<char>) -> Seq<char> {
    if line.len() > 0 && line.last() == '\r' {
        line.drop_last()
    } else {
        line
    }
}

/// Reading the text from the left: the lines closed by a line feed so far, and the
/// characters of the line still open.
pub open spec fn line_scan(text: Seq<char>) -> (Seq<Seq<char>>, Seq<char>)
    decreases text.len(),
{
    if text.len() == 0 {
        (Seq::empty(), Seq::empty())
    } else {
        let (closed, open) = line_scan(text.drop_last());
        if text.last() == '\n' {
            (closed.push(strip_carriage_return(open)), Seq::empty())
        } else {
            (closed, open.push(text.last()))
        }
    }
}

/// `str::lines`: split at each line feed, a carriage return just before it dropped, and
/// no empty line after a final line feed.
pub open spec fn lines(text: Seq<char>) -> Seq<Seq<char>> {
    let (closed, open) = line_scan(text);
    if open.len() > 0 {
        closed.push(open)
    } else {
        closed
    }
}

/// The views of a sequence of character vectors.
pub open spec fn views(vectors: Seq<Vec<char>>) -> Seq<Seq<char>> {
    Seq::new(vectors.len(), |i: int| vectors[i]@)
}

/// The decimal digit for a number below ten.
pub open spec fn digit(value: nat) -> char {
    if value == 0 {
        '0'
    } else if value == 1 {
        '1'
    } else if value == 2 {
        '2'
    } else if value == 3 {
        '3'
    } else if value == 4 {
        '4'
    } else if value == 5 {
        '5'
    } else if value == 6 {
        '6'
    } else if value == 7 {
        '7'
    } else if value == 8 {
        '8'
    } else {
        '9'
    }
}

/// A number written in decimal, without leading zeros (`usize`'s `Display`).
pub open spec fn decimal(value: nat) -> Seq<char>
    decreases value,
{
    if value < 10 {
        seq![digit(value)]
    } else {
        decimal(value / 10).push(digit(value % 10))
    }
}

/// Appends a character to a string.
///
/// Calls `String::push`, which appends the character at the end of the string; the
/// contract states exactly that.
#[verifier::external_body]
fn push_char(text: &mut String, c: char)
    ensures
        final(text)@ == old(text)@.push(c),
{
    text.push(c)
}

/// The decimal digit for a number below ten.
fn digit_char(value: usize) -> (c: char)
    requires
        value < 10,
    ensures
        c == digit(value as nat),
{
    if value == 0 {
        '0'
    } else if value == 1 {
        '1'
    } else if value == 2 {
        '2'
    } else if value == 3 {
        '3'
    } else if value == 4 {
        '4'
    } else if value == 5 {
        '5'
    } else if value == 6 {
        '6'
    } else if value == 7 {
        '7'
    } else if value == 8 {
        '8'
    } else {
        '9'
    }
}

/// Appends a number written in decimal.
pub fn push_decimal(text: &mut String, value: usize)
    ensures
        final(text)@ == old(text)@ + decimal(value as nat),
    decreases value,
{
    if value >= 10 {
        push_decimal(text, value / 10);
    }
    push_char(text, digit_char(value % 10));
    proof {
        if value >= 10 {
            assert(decimal(value as nat) == decimal((value / 10) as nat).push(
                digit((value % 10) as nat),
            ));
        }
    }
    assert(text@ =~= old(text)@ + decimal(value as nat));
}

/// A report of a length against a bound: the opening words, the bound, then the length
/// given, as in `More than maximum length(32) is provided(40)`.
pub open spec fn bound_report(opening: Seq<char>, bound: usize, length: usize) -> Seq<char> {
    opening + decimal(bound as nat) + ") is provided("@ + decimal(length as nat) + ")"@
}

/// Writes a report of a length against a bound.
pub fn write_bound_report(opening: &str, bound: usize, length: usize) -> (text: String)
    ensures
        text@ == bound_report(opening@, bound, length),
{
    let mut text = opening.to_owned();
    push_decimal(&mut text, bound);
    text.append(") is provided(");
    push_decimal(&mut text, length);
    text.append(")");
    text
}

/// The characters of a text.
pub fn chars_of(text: &str) -> (chars: Vec<char>)
    ensures
        chars@ == text@,
{
    let length = text.unicode_len();
    let mut chars: Vec<char> = Vec::new();
    let mut i: usize = 0;
    while i < length
        invariant
            length == text@.len(),
            i <= length,
            chars@ == text@.take(i as int),
        decreases length - i,
    {
        chars.push(text.get_char(i));
        i = i + 1;
        assert(chars@ =~= text@.take(i as int));
    }
    assert(chars@ =~= text@);
    chars
}

/// The string made of the given characters.
pub fn string_of(chars: &Vec<char>) -> (text: String)
    ensures
        text@ == chars@,
{
    let mut text = String::new();
    let mut i: usize = 0;
    while i < chars.len()
        invariant
            i <= chars.len(),
            text@ == chars@.take(i as int),
        decreases chars.len() - i,
    {
        push_char(&mut text, chars[i]);
        i = i + 1;
        assert(text@ =~= chars@.take(i as int));
    }
    assert(text@ =~= chars@);
    text
}

/// Whether a character is whitespace.
pub fn char_is_whitespace(c: char) -> (whitespace: bool)
    ensures
        whitespace == is_whitespace(c),
{
    let code = c as u32;
    (0x9 <= code && code <= 0xd) || code == 0x20 || code == 0x85 || code == 0xa0 || code
        == 0x1680 || (0x2000 <= code && code <= 0x200a) || code == 0x2028 || code == 0x2029
        || code == 0x202f || code == 0x205f || code == 0x3000
}

/// The characters from `start` up to, not including, `end`.
pub fn slice_of(chars: &Vec<char>, start: usize, end: usize) -> (part: Vec<char>)
    requires
        start <= end <= chars.len(),
    ensures
        part@ == chars@.subrange(start as int, end as int),
{
    let mut part: Vec<char> = Vec::new();
    let mut i: usize = start;
    while i < end
        invariant
            start <= i <= end <= chars.len(),
            part@ == chars@.subrange(start as int, i as int),
        decreases end - i,
    {
        part.push(chars[i]);
        i = i + 1;
        assert(part@ =~= chars@.subrange(start as int, i as int));
    }
    part
}

/// The characters with trailing whitespace removed.
pub fn trim_end_chars(chars: &Vec<char>) -> (trimmed: Vec<char>)
    ensures
        trimmed@ == trim_end(chars@),
{
    let mut end: usize = chars.len();
    assert(chars@.take(end as int) =~= chars@);
    while end > 0 && char_is_whitespace(chars[end - 1])
        invariant
            end <= chars.len(),
            trim_end(chars@.take(end as int)) == trim_end(chars@),
        decreases end,
    {
        assert(chars@.take(end as int).drop_last() =~= chars@.take(end - 1));
        end = end - 1;
    }
    let trimmed = slice_of(chars, 0, end);
    assert(chars@.subrange(0, end as int) =~= chars@.take(end as int));
    trimmed
}

/// The characters with leading whitespace removed.
pub fn trim_start_chars(chars: &Vec<char>) -> (trimmed: Vec<char>)
    ensures
        trimmed@ == trim_start(chars@),
{
    let mut start: usize = 0;
    assert(chars@.skip(0) =~= chars@);
    while start < chars.len() && char_is_whitespace(chars[start])
        invariant
            start <= chars.len(),
            trim_start(chars@.skip(start as int)) == trim_start(chars@),
        decreases chars.len() - start,
    {
        assert(chars@.skip(start as int).drop_first() =~= chars@.skip(start + 1));
        start = start + 1;
    }
    let trimmed = slice_of(chars, start, chars.len());
    assert(chars@.subrange(start as int, chars.len() as int) =~= chars@.skip(start as int));
    trimmed
}

/// The characters with whitespace removed at both ends.
pub fn trim_chars(chars: &Vec<char>) -> (trimmed: Vec<char>)
    ensures
        trimmed@ == trim(chars@),
{
    let start_trimmed = trim_start_chars(chars);
    trim_end_chars(&start_trimmed)
}

/// The characters with every occurrence of `removed` taken out.
pub fn without_chars(chars: &Vec<char>, removed: char) -> (kept: Vec<char>)
    ensures
        kept@ == without(chars@, removed),
{
    let mut kept: Vec<char> = Vec::new();
    let mut i: usize = 0;
    while i < chars.len()
        invariant
            i <= chars.len(),
            kept@ == without(chars@.take(i as int), removed),
        decreases chars.len() - i,
    {
        assert(chars@.take(i + 1).drop_last() =~= chars@.take(i as int));
        if chars[i] != removed {
            kept.push(chars[i]);
        }
        i = i + 1;
    }
    assert(chars@.take(chars.len() as int) =~= chars@);
    kept
}

/// The parts before and after the first `separator`, if there is one.
pub fn split_once_chars(chars: &Vec<char>, separator: char) -> (parts: Option<(Vec<char>, Vec<char>)>)
    ensures
        match split_once(chars@, separator) {
            Some((before, after)) => parts matches Some((b, a)) && b@ == before && a@ == after,
            None => parts is None,
        },
{
    let mut at: usize = 0;
    while at < chars.len() && chars[at] != separator
        invariant
            at <= chars.len(),
            forall|j: int| 0 <= j < at ==> chars@[j] != separator,
        decreases chars.len() - at,
    {
        at = at + 1;
    }
    if at == chars.len() {
        assert(!exists|k: int| 0 <= k < chars@.len() && chars@[k] == separator);
        None
    } else {
        let ghost text = chars@;
        assert(is_first_position(text, separator, at as int));
        let ghost chosen = choose|k: int| is_first_position(text, separator, k);
        assert(chosen == at) by {
            if chosen < at {
                assert(text[chosen] != separator);
            } else if chosen > at {
                assert(text[at as int] != separator);
            }
        }
        let before = slice_of(chars, 0, at);
        let after = slice_of(chars, at + 1, chars.len());
        assert(before@ =~= text.take(at as int));
        assert(after@ =~= text.skip(at + 1));
        Some((before, after))
    }
}

/// The lines of a text, as `str::lines` yields them.
pub fn lines_of(chars: &Vec<char>) -> (result: Vec<Vec<char>>)
    ensures
        views(result@) == lines(chars@),
{
    let mut closed: Vec<Vec<char>> = Vec::new();
    let mut open: Vec<char> = Vec::new();
    let mut i: usize = 0;
    while i < chars.len()
        invariant
            i <= chars.len(),
            (views(closed@), open@) == line_scan(chars@.take(i as int)),
        decreases chars.len() - i,
    {
        let ghost before = chars@.take(i as int);
        assert(chars@.take(i + 1).drop_last() =~= before);
        assert(chars@.take(i + 1).last() == chars@[i as int]);
        let c = chars[i];
        if c == '\n' {
            let ghost open_before = open@;
            let length = open.len();
            if length > 0 && open[length - 1] == '\r' {
                open.pop();
            }
            assert(open@ == strip_carriage_return(open_before));
            let line = open;
            closed.push(line);
            open = Vec::new();
            assert(views(closed@) =~= line_scan(before).0.push(strip_carriage_return(open_before)));
        } else {
            open.push(c);
            assert(views(closed@) =~= line_scan(before).0);
        }
        i = i + 1;
    }
    assert(chars@.take(chars.len() as int) =~= chars@);
    if open.len() > 0 {
        let ghost closed_before = closed@;
        closed.push(open);
        assert(views(closed@) =~= views(closed_before).push(line_scan(chars@).1));
    }
    closed
}

/// The characters the Unicode standard gives the `White_Space` property (PropList.txt),
/// one by one: tab, line feed, line tabulation, form feed, carriage return, space, next
/// line, no-break space, ogham space mark, en quad through hair space, line separator,
/// paragraph separator, narrow no-break space, medium mathematical space and ideographic
/// space.
pub open spec fn unicode_white_space(c: char) -> bool {
    ||| c == '\u{9}'
    ||| c == '\u{a}'
    ||| c == '\u{b}'
    ||| c == '\u{c}'
    ||| c == '\u{d}'
    ||| c == ' '
    ||| c == '\u{85}'
    ||| c == '\u{a0}'
    ||| c == '\u{1680}'
    ||| c == '\u{2000}'
    ||| c == '\u{2001}'
    ||| c == '\u{2002}'
    ||| c == '\u{2003}'
    ||| c == '\u{2004}'
    ||| c == '\u{2005}'
    ||| c == '\u{2006}'
    ||| c == '\u{2007}'
    ||| c == '\u{2008}'
    ||| c == '\u{2009}'
    ||| c == '\u{200a}'
    ||| c == '\u{2028}'
    ||| c == '\u{2029}'
    ||| c == '\u{202f}'
    ||| c == '\u{205f}'
    ||| c == '\u{3000}'
}

proof fn lemma_white_space_listed(c: char)
    ensures
        is_whitespace(c) <==> unicode_white_space(c),
{
}

proof fn lemma_trim_start_parts(text: Seq<char>)
    ensures
        exists|start: int|
            #![trigger text.subrange(start, text.len() as int)]
            {
                &&& 0 <= start <= text.len()
                &&& trim_start(text) == text.subrange(start, text.len() as int)
                &&& forall|k: int| 0 <= k < start ==> unicode_white_space(#[trigger] text[k])
                &&& start < text.len() ==> !unicode_white_space(text[start])
            },
    decreases text.len(),
{
    if text.len() > 0 && is_whitespace(text[0]) {
        lemma_white_space_listed(text[0]);
        let rest = text.drop_first();
        lemma_trim_start_parts(rest);
        let start = choose|start: int|
            #![trigger rest.subrange(start, rest.len() as int)]
            {
                &&& 0 <= start <= rest.len()
                &&& trim_start(rest) == rest.subrange(start, rest.len() as int)
                &&& forall|k: int| 0 <= k < start ==> unicode_white_space(#[trigger] rest[k])
                &&& start < rest.len() ==> !unicode_white_space(rest[start])
            };
        assert(rest.subrange(start, rest.len() as int) =~= text.subrange(
            start + 1,
            text.len() as int,
        ));
        assert forall|k: int| 0 <= k < start + 1 implies unicode_white_space(#[trigger] text[k]) by {
            if k > 0 {
                assert(text[k] == rest[k - 1]);
            }
        }
        if start + 1 < text.len() {
            assert(text[start + 1] == rest[start]);
        }
        assert(text.subrange(start + 1, text.len() as int) == text.subrange(
            start + 1,
            text.len() as int,
        ));
    } else {
        assert(text.subrange(0, text.len() as int) =~= text);
        if text.len() > 0 {
            lemma_white_space_listed(text[0]);
        }
    }
}

proof fn lemma_trim_end_parts(text: Seq<char>)
    ensures
        exists|end: int|
            #![trigger text.subrange(0, end)]
            {
                &&& 0 <= end <= text.len()
                &&& trim_end(text) == text.subrange(0, end)
                &&& forall|k: int| end <= k < text.len() ==> unicode_white_space(#[trigger] text[k])
                &&& end > 0 ==> !unicode_white_space(text[end - 1])
            },
    decreases text.len(),
{
    if text.len() > 0 && is_whitespace(text.last()) {
        lemma_white_space_listed(text.last());
        let rest = text.drop_last();
        lemma_trim_end_parts(rest);
        let end = choose|end: int|
            #![trigger rest.subrange(0, end)]
            {
                &&& 0 <= end <= rest.len()
                &&& trim_end(rest) == rest.subrange(0, end)
                &&& forall|k: int| end <= k < rest.len() ==> unicode_white_space(#[trigger] rest[k])
                &&& end > 0 ==> !unicode_white_space(rest[end - 1])
            };
        assert(rest.subrange(0, end) =~= text.subrange(0, end));
        assert forall|k: int| end <= k < text.len() implies unicode_white_space(#[trigger] text[k]) by {
            if k < text.len() - 1 {
                assert(text[k] == rest[k]);
            }
        }
        if end > 0 {
            assert(text[end - 1] == rest[end - 1]);
        }
    } else {
        assert(text.subrange(0, text.len() as int) =~= text);
        if text.len() > 0 {
            lemma_white_space_listed(text.last());
        }
    }
}

/// What trimming a text gives (`str::trim`): a stretch of it, with only Unicode
/// `White_Space` characters cut off before and after, and no such character left at either
/// end.
pub proof fn law_trim_cuts_only_white_space(text: Seq<char>)
    ensures
        exists|start: int, end: int|
            #![trigger text.subrange(start, end)]
            {
                &&& 0 <= start <= end <= text.len()
                &&& trim(text) == text.subrange(start, end)
                &&& forall|k: int| 0 <= k < start ==> unicode_white_space(#[trigger] text[k])
                &&& forall|k: int| end <= k < text.len() ==> unicode_white_space(#[trigger] text[k])
            },
        trim(text).len() > 0 ==> !unicode_white_space(trim(text)[0]) && !unicode_white_space(
            trim(text).last(),
        ),
{
    lemma_trim_start_parts(text);
    let start = choose|start: int|
        #![trigger text.subrange(start, text.len() as int)]
        {
            &&& 0 <= start <= text.len()
            &&& trim_start(text) == text.subrange(start, text.len() as int)
            &&& forall|k: int| 0 <= k < start ==> unicode_white_space(#[trigger] text[k])
            &&& start < text.len() ==> !unicode_white_space(text[start])
        };
    let middle = trim_start(text);
    lemma_trim_end_parts(middle);
    let end = choose|end: int|
        #![trigger middle.subrange(0, end)]
        {
            &&& 0 <= end <= middle.len()
            &&& trim_end(middle) == middle.subrange(0, end)
            &&& forall|k: int| end <= k < middle.len() ==> unicode_white_space(#[trigger] middle[k])
            &&& end > 0 ==> !unicode_white_space(middle[end - 1])
        };
    assert(middle.subrange(0, end) =~= text.subrange(start, start + end));
    assert forall|k: int| start + end <= k < text.len() implies unicode_white_space(
        #[trigger] text[k],
    ) by {
        assert(text[k] == middle[k - start]);
    }
    if end > 0 {
        assert(trim(text)[0] == middle[0]);
        assert(middle[0] == text[start]);
        assert(trim(text).last() == middle[end - 1]);
    }
    assert(trim(text) == text.subrange(start, start + end));
}

/// A Unicode `White_Space` character before or after a text is trimmed away; any other
/// character at an end stays.
pub proof fn law_trim_ends(c: char, text: Seq<char>)
    ensures
        unicode_white_space(c) ==> {
            &&& trim_start(seq![c] + text) == trim_start(text)
            &&& trim_end(text.push(c)) == trim_end(text)
        },
        !unicode_white_space(c) ==> {
            &&& trim_start(seq![c] + text) == seq![c] + text
            &&& trim_end(text.push(c)) == text.push(c)
        },
{
    lemma_white_space_listed(c);
    let front = seq![c] + text;
    assert(front[0] == c);
    assert(front.drop_first() =~= text);
    let back = text.push(c);
    assert(back.last() == c);
    assert(back.drop_last() =~= text);
}

} // verus!
