//! The rules that user names, community names and message bodies obey.

use vstd::prelude::*;
use vstd::utf8::{encode_scalar, encode_utf8, is_ascii_chars, is_ascii_chars_encode_utf8};

use crate::constant::{
    MAXIMUM_COMMUNITY_NAME_LENGTH, MAXIMUM_MESSAGE_LENGTH, MAXIMUM_USERNAME_LENGTH,
    MINIMUM_COMMUNITY_NAME_LENGTH, MINIMUM_MESSAGE_LENGTH, MINIMUM_USERNAME_LENGTH,
};
use crate::error::community::Error as CommunityError;
use crate::error::message::Error as MessageError;
use crate::error::user::Error as UserError;

verus! {

/// Length of a text in bytes, as `str::len` reports it (the UTF-8 length; a text held in
/// memory always fits in `usize`).
pub open spec fn byte_len(text: Seq<char>) -> usize {
    encode_utf8(text).len() as usize
}

/// The verdict on a user name: ASCII first, then the lower bound, then the upper bound.
pub open spec fn username_verdict(username: Seq<char>) -> Result<(), UserError> {
    if !is_ascii_chars(username) {
        Err(UserError::ASCII)
    } else if byte_len(username) < MINIMUM_USERNAME_LENGTH {
        Err(UserError::MinimumLength(byte_len(username)))
    } else if byte_len(username) > MAXIMUM_USERNAME_LENGTH {
        Err(UserError::MaximumLength(byte_len(username)))
    } else {
        Ok(())
    }
}

/// The verdict on a message body: only its length in bytes counts.
pub open spec fn message_body_verdict(message: Seq<char>) -> Result<(), MessageError> {
    if byte_len(message) < MINIMUM_MESSAGE_LENGTH {
        Err(MessageError::MinimumLength(byte_len(message)))
    } else if byte_len(message) > MAXIMUM_MESSAGE_LENGTH {
        Err(MessageError::MaximumLength(byte_len(message)))
    } else {
        Ok(())
    }
}

/// The verdict on a community name: ASCII first, then the lower bound, then the upper bound.
pub open spec fn community_name_verdict(community_name: Seq<char>) -> Result<(), CommunityError> {
    if !is_ascii_chars(community_name) {
        Err(CommunityError::ASCII)
    } else if byte_len(community_name) < MINIMUM_COMMUNITY_NAME_LENGTH {
        Err(CommunityError::MinimumLength(byte_len(community_name)))
    } else if byte_len(community_name) > MAXIMUM_COMMUNITY_NAME_LENGTH {
        Err(CommunityError::MaximumLength(byte_len(community_name)))
    } else {
        Ok(())
    }
}

/// Checks a user name.
pub fn validate_username(username: &str) -> (result: Result<(), UserError>)
    ensures
        result == username_verdict(username@),
{
    if !username.is_ascii() {
        return Err(UserError::ASCII);
    }
    if username.len() < MINIMUM_USERNAME_LENGTH {
        return Err(UserError::MinimumLength(username.len()));
    }
    if username.len() > MAXIMUM_USERNAME_LENGTH {
        return Err(UserError::MaximumLength(username.len()));
    }
    Ok(())
}

/// Checks a message body.
pub fn validate_message_body(message: &str) -> (result: Result<(), MessageError>)
    ensures
        result == message_body_verdict(message@),
{
    if message.len() < MINIMUM_MESSAGE_LENGTH {
        return Err(MessageError::MinimumLength(message.len()));
    }
    if message.len() > MAXIMUM_MESSAGE_LENGTH {
        return Err(MessageError::MaximumLength(message.len()));
    }
    Ok(())
}

/// Checks a community name.
pub fn validate_community_name(community_name: &str) -> (result: Result<(), CommunityError>)
    ensures
        result == community_name_verdict(community_name@),
{
    if !community_name.is_ascii() {
        return Err(CommunityError::ASCII);
    }
    if community_name.len() < MINIMUM_COMMUNITY_NAME_LENGTH {
        return Err(CommunityError::MinimumLength(community_name.len()));
    }
    if community_name.len() > MAXIMUM_COMMUNITY_NAME_LENGTH {
        return Err(CommunityError::MaximumLength(community_name.len()));
    }
    Ok(())
}

/// Every character is at least U+0000.
proof fn lemma_char_at_least_nul(c: char)
    ensures
        '\0' <= c,
{
}

/// The UTF-8 encoding takes between one and four bytes per character.
proof fn lemma_utf8_length_bounds(text: Seq<char>)
    ensures
        text.len() <= encode_utf8(text).len() <= 4 * text.len(),
    decreases text.len(),
{
    if text.len() > 0 {
        lemma_utf8_length_bounds(text.drop_first());
        let scalar = text[0] as u32;
        assert(1 <= encode_scalar(scalar).len() <= 4);
    }
}

/// A user name is accepted exactly when each of its characters is ASCII (at most
/// U+007F) and it has 1 to 32 of them; any character beyond ASCII makes the refusal
/// `ASCII`, whatever the length; an ASCII name's length error gives its number of
/// characters (one byte each).
pub proof fn law_username_rules(username: Seq<char>)
    requires
        username.len() <= usize::MAX,
    ensures
        (exists|i: int| 0 <= i < username.len() && username[i] > '\u{7f}') ==> username_verdict(
            username,
        ) == Err::<(), UserError>(UserError::ASCII),
        username_verdict(username) is Ok <==> (forall|i: int|
            0 <= i < username.len() ==> username[i] <= '\u{7f}') && 1 <= username.len() <= 32,
        (forall|i: int| 0 <= i < username.len() ==> username[i] <= '\u{7f}') ==> {
            &&& username.len() == 0 ==> username_verdict(username) == Err::<(), UserError>(
                UserError::MinimumLength(0),
            )
            &&& username.len() > 32 ==> username_verdict(username) == Err::<(), UserError>(
                UserError::MaximumLength(username.len() as usize),
            )
        },
{
    if exists|i: int| 0 <= i < username.len() && username[i] > '\u{7f}' {
        let i = choose|i: int| 0 <= i < username.len() && username[i] > '\u{7f}';
        assert(!('\0' <= username[i] <= '\u{7f}'));
        assert(!is_ascii_chars(username));
    }
    if forall|i: int| 0 <= i < username.len() ==> username[i] <= '\u{7f}' {
        assert forall|i: int| 0 <= i < username.len() implies '\0' <= #[trigger] username[i] <= '\u{7f}' by {
            assert(username[i] <= '\u{7f}');
            lemma_char_at_least_nul(username[i]);
        }
        assert(is_ascii_chars(username));
        is_ascii_chars_encode_utf8(username);
    } else {
        assert(!is_ascii_chars(username));
    }
}

/// A community name is accepted exactly when each of its characters is ASCII (at most
/// U+007F) and it has 1 to 32 of them; any character beyond ASCII, at any position, makes
/// the refusal `ASCII`, whatever the length; an ASCII name's length error gives its number
/// of characters (one byte each).
pub proof fn law_community_name_rules(community_name: Seq<char>)
    requires
        community_name.len() <= usize::MAX,
    ensures
        (exists|i: int| 0 <= i < community_name.len() && community_name[i] > '\u{7f}')
            ==> community_name_verdict(community_name) == Err::<(), CommunityError>(
            CommunityError::ASCII,
        ),
        community_name_verdict(community_name) is Ok <==> (forall|i: int|
            0 <= i < community_name.len() ==> community_name[i] <= '\u{7f}') && 1
            <= community_name.len() <= 32,
        (forall|i: int| 0 <= i < community_name.len() ==> community_name[i] <= '\u{7f}') ==> {
            &&& community_name.len() == 0 ==> community_name_verdict(community_name) == Err::<
                (),
                CommunityError,
            >(CommunityError::MinimumLength(0))
            &&& community_name.len() > 32 ==> community_name_verdict(community_name) == Err::<
                (),
                CommunityError,
            >(CommunityError::MaximumLength(community_name.len() as usize))
        },
{
    if exists|i: int| 0 <= i < community_name.len() && community_name[i] > '\u{7f}' {
        let i = choose|i: int| 0 <= i < community_name.len() && community_name[i] > '\u{7f}';
        assert(!('\0' <= community_name[i] <= '\u{7f}'));
        assert(!is_ascii_chars(community_name));
    }
    if forall|i: int| 0 <= i < community_name.len() ==> community_name[i] <= '\u{7f}' {
        assert forall|i: int| 0 <= i < community_name.len() implies '\0' <= #[trigger] community_name[i] <= '\u{7f}' by {
            assert(community_name[i] <= '\u{7f}');
            lemma_char_at_least_nul(community_name[i]);
        }
        assert(is_ascii_chars(community_name));
        is_ascii_chars_encode_utf8(community_name);
    } else {
        assert(!is_ascii_chars(community_name));
    }
}

/// A message body is accepted exactly when its UTF-8 encoding has 1 to 1024 bytes;
/// beyond that it is refused with its byte count, whatever its number of characters. So
/// a body of more than 1024 characters is always refused, and one of 1 to 256 characters
/// (at most four bytes each) always accepted.
pub proof fn law_message_body_rules(message: Seq<char>)
    requires
        encode_utf8(message).len() <= usize::MAX,
    ensures
        message_body_verdict(message) is Ok <==> 1 <= encode_utf8(message).len() <= 1024,
        encode_utf8(message).len() > 1024 ==> message_body_verdict(message) == Err::<
            (),
            MessageError,
        >(MessageError::MaximumLength(encode_utf8(message).len() as usize)),
        message.len() == 0 ==> message_body_verdict(message) == Err::<(), MessageError>(
            MessageError::MinimumLength(0),
        ),
        message.len() > 1024 ==> message_body_verdict(message) is Err,
        1 <= message.len() <= 256 ==> message_body_verdict(message) is Ok,
{
    lemma_utf8_length_bounds(message);
}

} // verus!
