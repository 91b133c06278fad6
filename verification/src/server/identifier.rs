//! Fresh record identifiers: monotonic ULIDs in their text form.

use vstd::prelude::*;

use ulid::Generator;

use crate::order::{lemma_text_before_transitive, text_leq};

verus! {

/// The generator of monotonic ULIDs, held inside `KeyGenerator`.
#[verifier::external_type_specification]
#[verifier::external_body]
pub struct ExGenerator(Generator);

/// A character of Crockford's base-32 alphabet, as ULIDs are written.
pub open spec fn is_crockford_digit(c: char) -> bool {
    ('0' <= c && c <= '9') || ('A' <= c && c <= 'H') || c == 'J' || c == 'K' || c == 'M' || c
        == 'N' || ('P' <= c && c <= 'T') || ('V' <= c && c <= 'Z')
}

/// The text of a ULID: 26 Crockford base-32 digits.
pub open spec fn is_ulid_text(text: Seq<char>) -> bool {
    &&& text.len() == 26
    &&& forall|i: int| 0 <= i < text.len() ==> is_crockford_digit(#[trigger] text[i])
}

/// The text of the nil ULID, all zeros: a new generator counts it as drawn before any
/// other, and every ULID it gives is larger.
pub open spec fn nil_ulid_text() -> Seq<char> {
    Seq::new(26, |i: int| '0')
}

/// Makes a generator: `ulid::Generator::new`, whose last ULID is the nil one. Nothing
/// is stated of the value; `KeyGenerator::new` records that it starts from nil.
#[verifier::external_body]
fn new_generator() -> (generator: Generator) {
    Generator::new()
}

/// A generator of monotonic ULIDs, with the text of the last one it gave (the nil ULID
/// before the first).
pub struct KeyGenerator {
    generator: Generator,
    last: Ghost<Seq<char>>,
}

impl KeyGenerator {
    /// The text of the last ULID given, or the nil ULID before the first.
    pub closed spec fn last(&self) -> Seq<char> {
        self.last@
    }

    /// A new generator: nothing given yet.
    pub fn new() -> (generator: KeyGenerator)
        ensures
            generator.last() == nil_ulid_text(),
    {
        KeyGenerator { generator: new_generator(), last: Ghost(nil_ulid_text()) }
    }

    /// Draws the next ULID, in text form.
    ///
    /// Calls `ulid::Generator::generate`, which gives a ULID larger than the one it gave
    /// last (the nil ULID for a new generator) and fails only when the random part would
    /// overflow within the same millisecond, then `Ulid::to_string`, which writes the 128
    /// bits as 26 characters of Crockford's alphabet, in the alphabet's order and at a
    /// fixed width, so that a larger ULID has a later text. The contract states that form
    /// and that order; which ULID comes out depends on the clock and on chance and is not
    /// stated.
    #[verifier::external_body]
    pub(crate) fn next_key(&mut self) -> (key: Option<String>)
        ensures
            match key {
                Some(key) => {
                    &&& is_ulid_text(key@)
                    &&& text_leq(old(self).last(), key@)
                    &&& key@ != old(self).last()
                    &&& final(self).last() == key@
                },
                None => final(self).last() == old(self).last(),
            },
    {
        match self.generator.generate() {
            Ok(ulid) => Some(ulid.to_string()),
            Err(_) => None,
        }
    }
}

/// Keys come out of one generator in creation order: a key drawn after another (with
/// any keys between) sorts strictly after it, so no key is given twice and listing keys
/// in sorted order lists them as they were created.
pub proof fn law_keys_in_creation_order(earlier: Seq<char>, between: Seq<char>, later: Seq<char>)
    requires
        text_leq(earlier, between),
        earlier != between,
        text_leq(between, later),
        between != later,
    ensures
        text_leq(earlier, later),
        earlier != later,
{
    lemma_text_before_transitive(earlier, between, later);
}

} // verus!
