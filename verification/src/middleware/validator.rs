//! Validation of what callers hand to the service.

use vstd::prelude::*;
use vstd::utf8::encode_utf8;
use crate::json::{encoded_len, json_string_text, json_text, string_text};
use crate::metadata::{Metadata, MetadataEntry};
use crate::text::{
    byte_len, chars_of, forbidden_control, has_forbidden_control, is_blank, lemma_leading_blank_unique,
    lemma_trailing_blank_unique, string_from_chars, trimmed, unicode_control, unicode_whitespace,
};
use crate::units::SCALE;

verus! {

/// Longest accepted text, in bytes.
pub const MAX_TEXT_LENGTH: usize = 8192;

/// Largest accepted batch.
pub const MAX_BATCH_SIZE: usize = 100;

/// Longest accepted metadata key, in bytes.
pub const MAX_METADATA_KEY_LENGTH: usize = 256;

/// Largest accepted metadata value, in bytes of its JSON text.
pub const MAX_METADATA_VALUE_SIZE: usize = 16384;

/// Why an input was rejected.
#[derive(Debug, Clone, PartialEq, Eq)]
pub enum ValidationError {
    EmptyInput,
    TextTooLong { length: usize, max_length: usize },
    InvalidCharacters,
    EmptyBatch,
    BatchTooLarge { size: usize, max_size: usize },
    InvalidTokenCount,
    TokenLimitExceeded { count: usize, max: usize },
    InvalidVectorDimension { actual: usize, expected: usize },
    /// The score is given in millionths.
    InvalidRelevanceScore { score: u32 },
    EmptyMetadataKey,
    MetadataKeyTooLong { length: usize, max_length: usize },
    InvalidMetadataKey,
    InvalidMetadataValue,
    MetadataValueTooLarge { size: usize, max_size: usize },
}

/// A character allowed in a metadata key: an ASCII letter, an ASCII digit,
/// `_` or `-`.
pub open spec fn key_char(c: char) -> bool {
    ||| 'a' <= c <= 'z'
    ||| 'A' <= c <= 'Z'
    ||| '0' <= c <= '9'
    ||| c == '_'
    ||| c == '-'
}

/// A character that a metadata string value may not hold: a control
/// character other than line feed, tab and carriage return. NUL is one.
pub open spec fn unsafe_value_char(c: char) -> bool {
    c == '\0' || (unicode_control(c) && c != '\n' && c != '\t' && c != '\r')
}

/// A character that `sanitize_text` keeps.
pub open spec fn kept_char(c: char) -> bool {
    !unicode_control(c) || unicode_whitespace(c)
}

/// What `validate_text` answers for a text.
pub open spec fn text_verdict(s: Seq<char>) -> Result<(), ValidationError> {
    if is_blank(s) {
        Err(ValidationError::EmptyInput)
    } else if encode_utf8(s).len() > MAX_TEXT_LENGTH {
        Err(
            ValidationError::TextTooLong {
                length: encode_utf8(s).len() as usize,
                max_length: MAX_TEXT_LENGTH,
            },
        )
    } else if has_forbidden_control(s) {
        Err(ValidationError::InvalidCharacters)
    } else {
        Ok(())
    }
}

/// What `validate_metadata_key` answers for a key.
pub open spec fn key_verdict(s: Seq<char>) -> Result<(), ValidationError> {
    if s.len() == 0 {
        Err(ValidationError::EmptyMetadataKey)
    } else if encode_utf8(s).len() > MAX_METADATA_KEY_LENGTH {
        Err(
            ValidationError::MetadataKeyTooLong {
                length: encode_utf8(s).len() as usize,
                max_length: MAX_METADATA_KEY_LENGTH,
            },
        )
    } else if exists|i: int| 0 <= i < s.len() && !key_char(#[trigger] s[i]) {
        Err(ValidationError::InvalidMetadataKey)
    } else {
        Ok(())
    }
}

/// What `validate_metadata_value` answers for a value whose JSON text has
/// `encoded` bytes (`None`: it has no JSON text) and which, where it is a
/// JSON string, holds the characters `content`.
pub open spec fn value_verdict(encoded: Option<usize>, content: Option<Seq<char>>) -> Result<
    (),
    ValidationError,
> {
    match encoded {
        None => Err(ValidationError::InvalidMetadataValue),
        Some(size) => if size > MAX_METADATA_VALUE_SIZE {
            Err(
                ValidationError::MetadataValueTooLarge {
                    size,
                    max_size: MAX_METADATA_VALUE_SIZE,
                },
            )
        } else {
            match content {
                Some(s) => if exists|i: int| 0 <= i < s.len() && unsafe_value_char(#[trigger] s[i]) {
                    Err(ValidationError::InvalidMetadataValue)
                } else {
                    Ok(())
                },
                None => Ok(()),
            }
        },
    }
}

/// What `validate_metadata` answers for the entries of a metadata value:
/// the verdict on the first entry whose key or value is rejected, the key
/// being looked at before the value.
pub open spec fn metadata_verdict(entries: Seq<MetadataEntry>) -> Result<(), ValidationError>
    decreases entries.len(),
{
    if entries.len() == 0 {
        Ok(())
    } else if key_verdict(entries[0].key@) is Err {
        key_verdict(entries[0].key@)
    } else if value_verdict(encoded_len(entries[0].value), string_text(entries[0].value)) is Err {
        value_verdict(encoded_len(entries[0].value), string_text(entries[0].value))
    } else {
        metadata_verdict(entries.drop_first())
    }
}

/// Validator of request inputs.
pub struct InputValidator;

impl InputValidator {
    /// Accepts a text that is not blank, has at most `MAX_TEXT_LENGTH` bytes
    /// and holds no control character other than white space.
    pub fn validate_text(text: &str) -> (r: Result<(), ValidationError>)
        ensures
            r == text_verdict(text@),
    {
        let chars = chars_of(text);
        let mut blank = true;
        let mut forbidden = false;
        let mut i: usize = 0;
        while i < chars.len()
            invariant
                i <= chars.len(),
                blank == is_blank(chars@.take(i as int)),
                forbidden == has_forbidden_control(chars@.take(i as int)),
            decreases chars.len() - i,
        {
            let c = chars[i];
            let ghost before = chars@.take(i as int);
            let ghost after = chars@.take(i + 1);
            assert(after =~= before.push(c));
            let space = c.is_whitespace();
            let control = c.is_control();
            proof {
                if blank && space {
                    assert forall|j: int| 0 <= j < after.len() implies unicode_whitespace(
                        #[trigger] after[j],
                    ) by {
                        if j < i {
                            assert(after[j] == before[j]);
                        }
                    }
                } else if !space {
                    assert(!unicode_whitespace(after[i as int]));
                } else {
                    let j = choose|j: int| 0 <= j < before.len() && !unicode_whitespace(before[j]);
                    assert(after[j] == before[j]);
                }
                if forbidden {
                    let j = choose|j: int| 0 <= j < before.len() && forbidden_control(before[j]);
                    assert(after[j] == before[j]);
                } else if control && !space {
                    assert(forbidden_control(after[i as int]));
                } else {
                    assert forall|j: int| 0 <= j < after.len() implies !forbidden_control(
                        #[trigger] after[j],
                    ) by {
                        if j < i {
                            assert(after[j] == before[j]);
                        }
                    }
                }
            }
            blank = blank && space;
            forbidden = forbidden || (control && !space);
            i = i + 1;
        }
        assert(chars@.take(chars.len() as int) =~= chars@);
        if blank {
            return Err(ValidationError::EmptyInput);
        }
        let length = byte_len(text);
        if length > MAX_TEXT_LENGTH {
            return Err(ValidationError::TextTooLong { length, max_length: MAX_TEXT_LENGTH });
        }
        if forbidden {
            return Err(ValidationError::InvalidCharacters);
        }
        Ok(())
    }

    /// Drops every control character that is not white space, then the
    /// white space at both ends.
    pub fn sanitize_text(text: &str) -> (clean: String)
        ensures
            clean@ == trimmed(text@.filter(|c: char| kept_char(c))),
    {
        let chars = chars_of(text);
        let ghost keep = |c: char| kept_char(c);
        let mut kept: Vec<char> = Vec::new();
        let mut i: usize = 0;
        while i < chars.len()
            invariant
                i <= chars.len(),
                keep == (|c: char| kept_char(c)),
                kept@ == chars@.take(i as int).filter(keep),
            decreases chars.len() - i,
        {
            let c = chars[i];
            proof {
                assert(chars@.take(i + 1) =~= chars@.take(i as int).push(c));
                chars@.take(i as int).lemma_filter_push(c, keep);
            }
            if !c.is_control() || c.is_whitespace() {
                kept.push(c);
            }
            i = i + 1;
        }
        assert(chars@.take(chars.len() as int) =~= chars@);
        let mut lo: usize = 0;
        while lo < kept.len() && kept[lo].is_whitespace()
            invariant
                lo <= kept.len(),
                forall|j: int| 0 <= j < lo ==> unicode_whitespace(#[trigger] kept@[j]),
            decreases kept.len() - lo,
        {
            lo = lo + 1;
        }
        let mut hi: usize = kept.len();
        while hi > lo && kept[hi - 1].is_whitespace()
            invariant
                lo <= hi <= kept.len(),
                forall|j: int| hi <= j < kept.len() ==> unicode_whitespace(#[trigger] kept@[j]),
            decreases hi,
        {
            hi = hi - 1;
        }
        let mut middle: Vec<char> = Vec::new();
        let mut k: usize = lo;
        while k < hi
            invariant
                lo <= k <= hi <= kept.len(),
                middle@ == kept@.subrange(lo as int, k as int),
            decreases hi - k,
        {
            middle.push(kept[k]);
            assert(middle@ =~= kept@.subrange(lo as int, k + 1));
            k = k + 1;
        }
        proof {
            lemma_leading_blank_unique(kept@, lo as int);
            let rest = kept@.skip(lo as int);
            assert forall|j: int| rest.len() - (kept.len() - hi) <= j < rest.len() implies unicode_whitespace(
                #[trigger] rest[j],
            ) by {
                assert(rest[j] == kept@[j + lo]);
            }
            if kept.len() - hi < rest.len() {
                assert(rest[rest.len() - (kept.len() - hi) - 1] == kept@[hi - 1]);
            }
            lemma_trailing_blank_unique(rest, kept.len() - hi);
            assert(middle@ =~= trimmed(kept@));
        }
        string_from_chars(&middle)
    }

    /// Accepts a batch of 1 to `MAX_BATCH_SIZE` items.
    pub fn validate_batch_size(size: usize) -> (r: Result<(), ValidationError>)
        ensures
            r == if size == 0 {
                Err::<(), ValidationError>(ValidationError::EmptyBatch)
            } else if size > MAX_BATCH_SIZE {
                Err(ValidationError::BatchTooLarge { size, max_size: MAX_BATCH_SIZE })
            } else {
                Ok(())
            },
    {
        if size == 0 {
            return Err(ValidationError::EmptyBatch);
        }
        if size > MAX_BATCH_SIZE {
            return Err(ValidationError::BatchTooLarge { size, max_size: MAX_BATCH_SIZE });
        }
        Ok(())
    }

    /// Accepts a token count of 1 to `max`.
    pub fn validate_token_count(count: usize, max: usize) -> (r: Result<(), ValidationError>)
        ensures
            r == if count == 0 {
                Err::<(), ValidationError>(ValidationError::InvalidTokenCount)
            } else if count > max {
                Err(ValidationError::TokenLimitExceeded { count, max })
            } else {
                Ok(())
            },
    {
        if count == 0 {
            return Err(ValidationError::InvalidTokenCount);
        }
        if count > max {
            return Err(ValidationError::TokenLimitExceeded { count, max });
        }
        Ok(())
    }

    /// Accepts a vector of the expected dimension.
    pub fn validate_vector_dimension(actual: usize, expected: usize) -> (r: Result<
        (),
        ValidationError,
    >)
        ensures
            r == if actual != expected {
                Err::<(), ValidationError>(
                    ValidationError::InvalidVectorDimension { actual, expected },
                )
            } else {
                Ok(())
            },
    {
        if actual != expected {
            return Err(ValidationError::InvalidVectorDimension { actual, expected });
        }
        Ok(())
    }

    /// Accepts a relevance score, in millionths, of at most one.
    pub fn validate_relevance_score(score: u32) -> (r: Result<(), ValidationError>)
        ensures
            r == if score > SCALE {
                Err::<(), ValidationError>(ValidationError::InvalidRelevanceScore { score })
            } else {
                Ok(())
            },
    {
        if score > SCALE {
            return Err(ValidationError::InvalidRelevanceScore { score });
        }
        Ok(())
    }

    /// Accepts a key of 1 to `MAX_METADATA_KEY_LENGTH` bytes made of ASCII
    /// letters, ASCII digits, `_` and `-`.
    pub fn validate_metadata_key(key: &str) -> (r: Result<(), ValidationError>)
        ensures
            r == key_verdict(key@),
    {
        let chars = chars_of(key);
        if chars.len() == 0 {
            return Err(ValidationError::EmptyMetadataKey);
        }
        let length = byte_len(key);
        if length > MAX_METADATA_KEY_LENGTH {
            return Err(
                ValidationError::MetadataKeyTooLong {
                    length,
                    max_length: MAX_METADATA_KEY_LENGTH,
                },
            );
        }
        let mut i: usize = 0;
        while i < chars.len()
            invariant
                i <= chars.len(),
                chars@ == key@,
                chars@.len() > 0,
                encode_utf8(key@).len() <= MAX_METADATA_KEY_LENGTH,
                forall|j: int| 0 <= j < i ==> key_char(#[trigger] chars@[j]),
            decreases chars.len() - i,
        {
            let c = chars[i];
            let allowed = ('a' <= c && c <= 'z') || ('A' <= c && c <= 'Z') || ('0' <= c && c <= '9')
                || c == '_' || c == '-';
            if !allowed {
                assert(!key_char(chars@[i as int]));
                return Err(ValidationError::InvalidMetadataKey);
            }
            i = i + 1;
        }
        Ok(())
    }

    /// Accepts a value whose JSON text has at most
    /// `MAX_METADATA_VALUE_SIZE` bytes and which, where it is a string, holds
    /// no NUL and no control character other than line feed, tab and
    /// carriage return.
    pub fn validate_metadata_value(value: &serde_json::Value) -> (r: Result<(), ValidationError>)
        ensures
            r == value_verdict(encoded_len(*value), string_text(*value)),
    {
        let size = match json_text(value) {
            Some(text) => byte_len(text.as_str()),
            None => {
                return Err(ValidationError::InvalidMetadataValue);
            },
        };
        if size > MAX_METADATA_VALUE_SIZE {
            return Err(
                ValidationError::MetadataValueTooLarge { size, max_size: MAX_METADATA_VALUE_SIZE },
            );
        }
        match json_string_text(value) {
            Some(content) => Self::check_value_text(content.as_str()),
            None => Ok(()),
        }
    }

    /// Accepts metadata whose keys and values are all accepted.
    pub fn validate_metadata(metadata: &Metadata) -> (r: Result<(), ValidationError>)
        ensures
            r == metadata_verdict(metadata.entries()),
    {
        let ghost entries = metadata.entries();
        let mut i: usize = 0;
        proof {
            assert(entries.skip(0) =~= entries);
        }
        while i < metadata.len()
            invariant
                i <= entries.len(),
                entries == metadata.entries(),
                metadata_verdict(entries) == metadata_verdict(entries.skip(i as int)),
            decreases entries.len() - i,
        {
            let entry = metadata.entry(i);
            proof {
                assert(entries.skip(i as int)[0] == entries[i as int]);
                assert(entries.skip(i as int).drop_first() =~= entries.skip(i + 1));
            }
            let key = Self::validate_metadata_key(entry.key.as_str());
            if key.is_err() {
                return key;
            }
            let value = Self::validate_metadata_value(&entry.value);
            if value.is_err() {
                return value;
            }
            i = i + 1;
        }
        Ok(())
    }

    /// The check of `validate_metadata_value` on the content of a string.
    pub fn check_value_text(content: &str) -> (r: Result<(), ValidationError>)
        ensures
            r == if exists|i: int|
                0 <= i < content@.len() && unsafe_value_char(#[trigger] content@[i]) {
                Err::<(), ValidationError>(ValidationError::InvalidMetadataValue)
            } else {
                Ok(())
            },
    {
        let chars = chars_of(content);
        let mut i: usize = 0;
        while i < chars.len()
            invariant
                i <= chars.len(),
                chars@ == content@,
                forall|j: int| 0 <= j < i ==> !unsafe_value_char(#[trigger] chars@[j]),
            decreases chars.len() - i,
        {
            let c = chars[i];
            if c == '\0' || (c.is_control() && c != '\n' && c != '\t' && c != '\r') {
                assert(unsafe_value_char(chars@[i as int]));
                return Err(ValidationError::InvalidMetadataValue);
            }
            i = i + 1;
        }
        Ok(())
    }
}

} // verus!
