//! The rules a registered name follows.
use vstd::prelude::*;
use vstd::string::*;
use vstd::utf8::{encode_utf8, encode_scalar};
use super::{MAX_NAME_LEN, MIN_NAME_LEN};

verus! {

#[derive(Clone, Copy, Debug, PartialEq, Eq, Structural)]
pub enum ValidationError {
    TooShort,
    TooLong,
    InvalidCharacters,
}

impl ValidationError {
    /// The message the error displays.
    pub fn message(&self) -> (s: String)
        ensures
            s@ == validation_message(*self),
    {
        match self {
            ValidationError::TooShort => String::from_str("Name too short: must be at least 3 characters"),
            ValidationError::TooLong => String::from_str("Name too long: must be at most 32 characters"),
            ValidationError::InvalidCharacters => String::from_str(
                "Name contains invalid characters: only a-z allowed",
            ),
        }
    }
}

/// The message each error displays.
pub open spec fn validation_message(e: ValidationError) -> Seq<char> {
    match e {
        ValidationError::TooShort => "Name too short: must be at least 3 characters"@,
        ValidationError::TooLong => "Name too long: must be at most 32 characters"@,
        ValidationError::InvalidCharacters => "Name contains invalid characters: only a-z allowed"@,
    }
}

/// An ASCII letter, either case.
pub open spec fn is_name_char(c: char) -> bool {
    ('a' <= c && c <= 'z') || ('A' <= c && c <= 'Z')
}

/// The lowercase byte of an ASCII letter.
pub open spec fn lower_byte(c: char) -> u8 {
    if 'A' <= c && c <= 'Z' {
        (c as u32 + 32) as u8
    } else {
        c as u32 as u8
    }
}

/// The 32-byte normalized form of a name made of letters: its lowercase bytes, then zeros.
pub open spec fn normalized_name(chars: Seq<char>) -> Seq<u8> {
    Seq::new(32, |i: int| if i < chars.len() { lower_byte(chars[i]) } else { 0u8 })
}

/// What `validate_name` gives for a name with the given characters: the length checks
/// go by the UTF-8 byte length, then every character must be an ASCII letter.
pub open spec fn name_validation(chars: Seq<char>) -> Result<Seq<u8>, ValidationError> {
    let n = encode_utf8(chars).len();
    if n < MIN_NAME_LEN {
        Err(ValidationError::TooShort)
    } else if n > MAX_NAME_LEN {
        Err(ValidationError::TooLong)
    } else if exists|i: int| 0 <= i < chars.len() && !is_name_char(#[trigger] chars[i]) {
        Err(ValidationError::InvalidCharacters)
    } else {
        Ok(normalized_name(chars))
    }
}

/// A character sequence never encodes to fewer bytes than it has characters.
pub proof fn lemma_utf8_len_at_least_chars(chars: Seq<char>)
    ensures
        encode_utf8(chars).len() >= chars.len(),
    decreases chars.len(),
{
    if chars.len() > 0 {
        lemma_utf8_len_at_least_chars(chars.drop_first());
        assert(encode_scalar(chars[0] as u32).len() >= 1);
    }
}

/// A character in ASCII lowercase, as `char::to_ascii_lowercase` gives it.
pub open spec fn ascii_lower(c: char) -> char {
    if 'A' <= c && c <= 'Z' {
        ((c as u32) + 32) as char
    } else {
        c
    }
}

/// A character in ASCII uppercase, as `char::to_ascii_uppercase` gives it.
pub open spec fn ascii_upper(c: char) -> char {
    if 'a' <= c && c <= 'z' {
        ((c as u32) - 32) as char
    } else {
        c
    }
}

proof fn lemma_case_of_char(c: char)
    ensures
        encode_scalar(ascii_lower(c) as u32).len() == encode_scalar(c as u32).len(),
        encode_scalar(ascii_upper(c) as u32).len() == encode_scalar(c as u32).len(),
        is_name_char(ascii_lower(c)) == is_name_char(c),
        is_name_char(ascii_upper(c)) == is_name_char(c),
        is_name_char(c) ==> lower_byte(ascii_lower(c)) == lower_byte(c),
        is_name_char(c) ==> lower_byte(ascii_upper(c)) == lower_byte(c),
{
}

proof fn lemma_case_encoding_len(chars: Seq<char>)
    ensures
        encode_utf8(chars.map_values(|c: char| ascii_lower(c))).len() == encode_utf8(chars).len(),
        encode_utf8(chars.map_values(|c: char| ascii_upper(c))).len() == encode_utf8(chars).len(),
    decreases chars.len(),
{
    if chars.len() > 0 {
        let lo = chars.map_values(|c: char| ascii_lower(c));
        let up = chars.map_values(|c: char| ascii_upper(c));
        lemma_case_encoding_len(chars.drop_first());
        assert(lo.drop_first() =~= chars.drop_first().map_values(|c: char| ascii_lower(c)));
        assert(up.drop_first() =~= chars.drop_first().map_values(|c: char| ascii_upper(c)));
        lemma_case_of_char(chars[0]);
    }
}

/// The name check ignores case: a name, its ASCII lowercase and its ASCII uppercase
/// give the same result (the same error, or the same normalized form).
pub proof fn name_check_ignores_case(chars: Seq<char>)
    ensures
        name_validation(chars.map_values(|c: char| ascii_lower(c))) == name_validation(chars),
        name_validation(chars.map_values(|c: char| ascii_upper(c))) == name_validation(chars),
{
    let lo = chars.map_values(|c: char| ascii_lower(c));
    let up = chars.map_values(|c: char| ascii_upper(c));
    lemma_case_encoding_len(chars);
    assert forall|i: int| 0 <= i < chars.len() implies is_name_char(#[trigger] lo[i]) == is_name_char(chars[i])
        && is_name_char(up[i]) == is_name_char(chars[i]) by {
        lemma_case_of_char(chars[i]);
    }
    if exists|i: int| 0 <= i < chars.len() && !is_name_char(#[trigger] chars[i]) {
        let i = choose|i: int| 0 <= i < chars.len() && !is_name_char(#[trigger] chars[i]);
        assert(!is_name_char(lo[i]) && !is_name_char(up[i]));
    } else {
        assert forall|i: int| 0 <= i < lo.len() implies is_name_char(#[trigger] lo[i]) by {
            assert(is_name_char(chars[i]));
        }
        assert forall|i: int| 0 <= i < up.len() implies is_name_char(#[trigger] up[i]) by {
            assert(is_name_char(chars[i]));
        }
        assert forall|i: int| 0 <= i < chars.len() implies lower_byte(#[trigger] lo[i]) == lower_byte(chars[i])
            && lower_byte(up[i]) == lower_byte(chars[i]) by {
            assert(is_name_char(chars[i]));
            lemma_case_of_char(chars[i]);
        }
        assert(normalized_name(lo) =~= normalized_name(chars));
        assert(normalized_name(up) =~= normalized_name(chars));
    }
}

/// Checks a name and returns its normalized 32-byte form.
pub fn validate_name(name: &str) -> (r: Result<[u8; 32], ValidationError>)
    ensures
        match r {
            Ok(a) => name_validation(name@) == Ok::<Seq<u8>, ValidationError>(a@),
            Err(e) => name_validation(name@) == Err::<Seq<u8>, ValidationError>(e),
        },
{
    let len = name.as_bytes().len();
    if len < MIN_NAME_LEN {
        return Err(ValidationError::TooShort);
    }
    if len > MAX_NAME_LEN {
        return Err(ValidationError::TooLong);
    }
    proof {
        lemma_utf8_len_at_least_chars(name@);
    }
    let n = name.unicode_len();
    let mut normalized = [0u8; 32];
    let mut i: usize = 0;
    while i < n
        invariant
            n == name@.len(),
            n <= 32,
            MIN_NAME_LEN <= encode_utf8(name@).len() <= MAX_NAME_LEN,
            i <= n,
            normalized@.len() == 32,
            forall|j: int| 0 <= j < i ==> is_name_char(#[trigger] name@[j]),
            forall|j: int| 0 <= j < i ==> normalized@[j] == lower_byte(name@[j]),
            forall|j: int| i <= j < 32 ==> normalized@[j] == 0u8,
        decreases n - i,
    {
        let c = name.get_char(i);
        if 'a' <= c && c <= 'z' {
            normalized[i] = c as u32 as u8;
        } else if 'A' <= c && c <= 'Z' {
            normalized[i] = (c as u32 + 32) as u8;
        } else {
            assert(!is_name_char(name@[i as int]));
            assert(exists|j: int| 0 <= j < name@.len() && !is_name_char(#[trigger] name@[j]));
            return Err(ValidationError::InvalidCharacters);
        }
        i = i + 1;
    }
    assert(normalized@ =~= normalized_name(name@));
    Ok(normalized)
}

} // verus!
