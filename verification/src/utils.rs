//! A small configuration-file format: a `[header]` line, then `key = value` lines.

use vstd::prelude::*;

use crate::error::file_operation::Error as FileOperationError;
use crate::error::Error;
use crate::text::{
    chars_of, law_trim_cuts_only_white_space, lines, lines_of, split_once, split_once_chars,
    string_of, trim, trim_chars, trim_end, trim_end_chars, unicode_white_space, views, without,
    without_chars,
};

verus! {

/// The map a list of fields stands for: each pair in order, a later pair replacing an
/// earlier one with the same key.
pub open spec fn field_map(fields: Seq<(String, String)>) -> Map<Seq<char>, Seq<char>>
    decreases fields.len(),
{
    if fields.len() == 0 {
        Map::empty()
    } else {
        field_map(fields.drop_last()).insert(fields.last().0@, fields.last().1@)
    }
}

/// No key occurs twice.
pub open spec fn keys_distinct(fields: Seq<(String, String)>) -> bool {
    forall|i: int, j: int|
        0 <= i < fields.len() && 0 <= j < fields.len() && i != j ==> fields[i].0@ != fields[j].0@
}

/// A header line: brackets removed, then trailing whitespace.
pub open spec fn parse_header(line: Seq<char>) -> Seq<char> {
    trim_end(without(without(line, '['), ']'))
}

/// A field line: split at the first `=`, quotes removed from both sides, both sides trimmed.
pub open spec fn parse_field(line: Seq<char>) -> Option<(Seq<char>, Seq<char>)> {
    match split_once(line, '=') {
        Some((key, value)) => Some((trim(without(key, '"')), trim(without(value, '"')))),
        None => None,
    }
}

/// The fields of the given lines, in order, or `None` when one of them holds no `=`.
pub open spec fn parse_fields(field_lines: Seq<Seq<char>>) -> Option<Map<Seq<char>, Seq<char>>>
    decreases field_lines.len(),
{
    if field_lines.len() == 0 {
        Some(Map::empty())
    } else {
        match parse_fields(field_lines.drop_last()) {
            Some(fields) => match parse_field(field_lines.last()) {
                Some((key, value)) => Some(fields.insert(key, value)),
                None => None,
            },
            None => None,
        }
    }
}

/// What a configuration text holds: its header and its fields, or why it holds none.
pub open spec fn naive_toml(content: Seq<char>) -> Result<
    (Seq<char>, Map<Seq<char>, Seq<char>>),
    FileOperationError,
> {
    let all = lines(content);
    if all.len() == 0 {
        Err(FileOperationError::Empty)
    } else {
        match parse_fields(all.skip(1)) {
            Some(fields) => Ok((parse_header(all[0]), fields)),
            None => Err(FileOperationError::Split),
        }
    }
}

proof fn lemma_field_map_update(fields: Seq<(String, String)>, at: int, pair: (String, String))
    requires
        keys_distinct(fields),
        0 <= at < fields.len(),
        fields[at].0@ == pair.0@,
    ensures
        field_map(fields.update(at, pair)) == field_map(fields).insert(pair.0@, pair.1@),
    decreases fields.len(),
{
    let updated = fields.update(at, pair);
    if at == fields.len() - 1 {
        assert(updated.drop_last() =~= fields.drop_last());
        assert(field_map(updated) =~= field_map(fields).insert(pair.0@, pair.1@));
    } else {
        assert(updated.drop_last() =~= fields.drop_last().update(at, pair));
        lemma_field_map_update(fields.drop_last(), at, pair);
        assert(fields.last().0@ != pair.0@);
        assert(field_map(updated) =~= field_map(fields).insert(pair.0@, pair.1@));
    }
}

proof fn lemma_parse_fields_prefix(field_lines: Seq<Seq<char>>, count: int)
    requires
        0 <= count <= field_lines.len(),
        parse_fields(field_lines.take(count)) is None,
    ensures
        parse_fields(field_lines) is None,
    decreases field_lines.len(),
{
    if count == field_lines.len() {
        assert(field_lines.take(count) =~= field_lines);
    } else {
        assert(field_lines.drop_last().take(count) =~= field_lines.take(count));
        lemma_parse_fields_prefix(field_lines.drop_last(), count);
    }
}

/// Adds a field, replacing the value of an existing field with the same key.
fn insert_field(fields: &mut Vec<(String, String)>, key: String, value: String)
    requires
        keys_distinct(old(fields)@),
    ensures
        keys_distinct(final(fields)@),
        field_map(final(fields)@) == field_map(old(fields)@).insert(key@, value@),
{
    let mut at: usize = 0;
    while at < fields.len() && !(fields[at].0 == key)
        invariant
            at <= fields.len(),
            forall|t: int| 0 <= t < at ==> fields@[t].0@ != key@,
        decreases fields.len() - at,
    {
        at = at + 1;
    }
    if at < fields.len() {
        proof {
            lemma_field_map_update(fields@, at as int, (key, value));
        }
        fields.set(at, (key, value));
    } else {
        let ghost before = fields@;
        fields.push((key, value));
        assert(fields@.drop_last() =~= before);
    }
}

/// A parsed configuration: the header and the fields.
#[derive(Debug, Clone)]
pub struct TOML {
    pub header: String,
    pub fields: Vec<(String, String)>,
}

impl TOML {
    /// The fields as a map.
    pub open spec fn field_view(&self) -> Map<Seq<char>, Seq<char>> {
        field_map(self.fields@)
    }

    /// Parses a configuration text: the first line is the header, each further line a
    /// field; a text without lines, or a field line without `=`, is refused.
    pub fn naive_toml_parser_from_content(content: &str) -> (result: Result<TOML, Error>)
        ensures
            match naive_toml(content@) {
                Ok((header, fields)) => result matches Ok(toml) && toml.header@ == header
                    && toml.field_view() == fields && keys_distinct(toml.fields@),
                Err(error_value) => result == Err::<TOML, Error>(Error::FileOperation(error_value)),
            },
    {
        let chars = chars_of(content);
        let all = lines_of(&chars);
        let ghost all_lines = views(all@);
        if all.len() == 0 {
            return Err(Error::FileOperation(FileOperationError::Empty));
        }
        assert(all_lines[0] == all@[0]@);
        let without_open = without_chars(&all[0], '[');
        let without_close = without_chars(&without_open, ']');
        let header_chars = trim_end_chars(&without_close);
        let header = string_of(&header_chars);
        let ghost field_lines = all_lines.skip(1);
        let mut fields: Vec<(String, String)> = Vec::new();
        let mut i: usize = 1;
        assert(field_lines.take(0) =~= Seq::<Seq<char>>::empty());
        while i < all.len()
            invariant
                1 <= i <= all.len(),
                all_lines == views(all@),
                all_lines == lines(content@),
                field_lines == all_lines.skip(1),
                header@ == parse_header(all_lines[0]),
                keys_distinct(fields@),
                parse_fields(field_lines.take(i - 1)) == Some(field_map(fields@)),
            decreases all.len() - i,
        {
            assert(field_lines.take(i as int).drop_last() =~= field_lines.take(i - 1));
            assert(field_lines.take(i as int).last() == all@[i as int]@);
            match split_once_chars(&all[i], '=') {
                Some((key_part, value_part)) => {
                    let key = string_of(&trim_chars(&without_chars(&key_part, '"')));
                    let value = string_of(&trim_chars(&without_chars(&value_part, '"')));
                    insert_field(&mut fields, key, value);
                },
                None => {
                    proof {
                        assert(parse_field(field_lines.take(i as int).last()) is None);
                        assert(parse_fields(field_lines.take(i as int)) is None);
                        lemma_parse_fields_prefix(field_lines, i as int);
                        assert(lines(content@) == all_lines);
                        assert(all_lines.len() > 0);
                        assert(naive_toml(content@) == Err::<(Seq<char>, Map<Seq<char>, Seq<char>>), FileOperationError>(FileOperationError::Split));
                    }
                    return Err(Error::FileOperation(FileOperationError::Split));
                },
            }
            i = i + 1;
        }
        assert(field_lines.take(all.len() - 1) =~= field_lines);
        Ok(TOML { header, fields })
    }

    /// The value of a field, if the configuration holds it.
    pub fn get(&self, key: &str) -> (value: Option<&str>)
        ensures
            match value {
                Some(found) => self.field_view().dom().contains(key@) && found@
                    == self.field_view()[key@],
                None => !self.field_view().dom().contains(key@),
            },
    {
        let wanted = key.to_owned();
        let mut end: usize = self.fields.len();
        assert(self.fields@.take(end as int) =~= self.fields@);
        while end > 0
            invariant
                end <= self.fields.len(),
                wanted@ == key@,
                field_map(self.fields@.take(end as int)).dom().contains(key@)
                    == self.field_view().dom().contains(key@),
                field_map(self.fields@.take(end as int)).dom().contains(key@) ==> field_map(
                    self.fields@.take(end as int),
                )[key@] == self.field_view()[key@],
            decreases end,
        {
            assert(self.fields@.take(end as int).drop_last() =~= self.fields@.take(end - 1));
            if self.fields[end - 1].0 == wanted {
                return Some(self.fields[end - 1].1.as_str());
            }
            end = end - 1;
        }
        None
    }
}

/// Neither end of the text is a Unicode `White_Space` character.
pub open spec fn no_white_space_at_ends(text: Seq<char>) -> bool {
    text.len() > 0 ==> !unicode_white_space(text[0]) && !unicode_white_space(text.last())
}

proof fn lemma_parsed_fields_trimmed(field_lines: Seq<Seq<char>>)
    ensures
        parse_fields(field_lines) matches Some(fields) ==> forall|key: Seq<char>|
            #[trigger] fields.dom().contains(key) ==> no_white_space_at_ends(key)
                && no_white_space_at_ends(fields[key]),
    decreases field_lines.len(),
{
    if field_lines.len() > 0 {
        lemma_parsed_fields_trimmed(field_lines.drop_last());
        if let Some((key, value)) = split_once(field_lines.last(), '=') {
            law_trim_cuts_only_white_space(without(key, '"'));
            law_trim_cuts_only_white_space(without(value, '"'));
        }
    }
}

/// Every key and every value read from a configuration has no Unicode `White_Space`
/// character at either end, tabs included: spaces around `=` and at the ends of a line
/// never become part of a setting.
pub proof fn law_settings_are_trimmed(content: Seq<char>)
    ensures
        naive_toml(content) matches Ok((header, fields)) ==> forall|key: Seq<char>|
            #[trigger] fields.dom().contains(key) ==> no_white_space_at_ends(key)
                && no_white_space_at_ends(fields[key]),
{
    let all = lines(content);
    if all.len() > 0 {
        lemma_parsed_fields_trimmed(all.skip(1));
    }
}

} // verus!
