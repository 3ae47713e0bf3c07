//! Names on the command line: their normalized text, the text of a record, and the
//! account a name resolves to.
use vstd::prelude::*;
use vstd::string::*;
use vstd::utf8::{decode_utf8, encode_utf8, valid_utf8};
use crate::keys::Pubkey;
use crate::protocol::state::NameRecord;
use crate::protocol::validation::{is_name_char, lower_byte, name_validation, validation_message};
use crate::protocol::validate_name;
use crate::text::{lossy_text, utf8_lossy};
use super::config::CliError;

verus! {

/// The lowercase form of an ASCII letter (other characters stay as they are).
pub open spec fn lower_char(c: char) -> char {
    if 'A' <= c && c <= 'Z' {
        ((c as u32) + 32) as char
    } else {
        c
    }
}

/// A name in lowercase.
pub open spec fn lowercase(chars: Seq<char>) -> Seq<char> {
    chars.map_values(|c: char| lower_char(c))
}

/// The first `n` bytes of a 32-byte array.
fn prefix(bytes: &[u8; 32], n: usize) -> (r: Vec<u8>)
    requires
        n <= 32,
    ensures
        r@ == bytes@.subrange(0, n as int),
{
    let mut r: Vec<u8> = Vec::new();
    let mut i: usize = 0;
    while i < n
        invariant
            i <= n <= 32,
            bytes@.len() == 32,
            r@ == bytes@.subrange(0, i as int),
        decreases n - i,
    {
        r.push(bytes[i]);
        i = i + 1;
        assert(r@ =~= bytes@.subrange(0, i as int));
    }
    r
}

/// The name as it is registered: validated, then in lowercase; a refused name is an
/// error with the validation's message.
pub fn normalize_name(name: &str) -> (r: Result<String, CliError>)
    ensures
        match name_validation(name@) {
            Ok(_) => r matches Ok(s) && s@ == lowercase(name@),
            Err(e) => r matches Err(err) && err.0@ == validation_message(e),
        },
{
    let normalized = match validate_name(name) {
        Ok(n) => n,
        Err(e) => return Err(CliError(e.message())),
    };
    proof {
        crate::protocol::validation::lemma_utf8_len_at_least_chars(name@);
    }
    let len = name.unicode_len();
    let bytes = prefix(&normalized, len);
    proof {
        let chars = name@;
        let lc = lowercase(chars);
        assert(forall|i: int| 0 <= i < chars.len() ==> is_name_char(#[trigger] chars[i]));
        assert forall|i: int| 0 <= i < lc.len() implies is_name_char(#[trigger] lc[i]) by {
            assert(is_name_char(chars[i]));
        }
        crate::interop::lemma_encode_name(lc);
        assert forall|i: int| 0 <= i < bytes@.len() implies #[trigger] bytes@[i] == encode_utf8(lc)[i] by {
            let c = chars[i];
            assert(is_name_char(c));
            assert(lc[i] == lower_char(c));
            assert(bytes@[i] == lower_byte(c));
        }
        assert(bytes@ =~= encode_utf8(lc));
        vstd::utf8::encode_utf8_valid_utf8(lc);
        vstd::utf8::encode_utf8_decode_utf8(lc);
    }
    Ok(lossy_text(bytes.as_slice()))
}

/// The text of a record's name: its first `len` bytes, read as UTF-8 (invalid
/// sequences become replacement characters).
pub fn decode_name(record: &NameRecord) -> (s: String)
    requires
        record.len <= 32,
    ensures
        s@ == utf8_lossy(record.name@.subrange(0, record.len as int)),
        valid_utf8(record.name@.subrange(0, record.len as int)) ==> s@ == decode_utf8(record.name@.subrange(0, record.len as int)),
{
    let bytes = prefix(&record.name, record.len as usize);
    lossy_text(bytes.as_slice())
}

/// The account a name resolves to for signalling: its record's owner, unless the name
/// is unknown or names the sender.
pub fn name_owner_target(name: &str, record: Option<NameRecord>, sender: &Pubkey) -> (r: Result<Pubkey, CliError>)
    ensures
        match record {
            None => r matches Err(e) && e.0@ == "name '"@ + name@ + "' was not found in the SURF registry"@,
            Some(rec) => if rec.owner@ == sender@ {
                r matches Err(e) && e.0@ == "name '"@ + name@ + "' resolves to your own account; use another user name"@
            } else {
                r matches Ok(k) && k == rec.owner
            },
        },
{
    match record {
        Some(rec) => {
            if rec.owner.same(sender) {
                let mut m = String::from_str("name '");
                m.append(name);
                m.append("' resolves to your own account; use another user name");
                Err(CliError(m))
            } else {
                Ok(rec.owner)
            }
        },
        None => {
            let mut m = String::from_str("name '");
            m.append(name);
            m.append("' was not found in the SURF registry");
            Err(CliError(m))
        },
    }
}

/// The error of signalling oneself: `cannot follow yourself via <name>` (or `unfollow`,
/// and `that account` without a name); nothing when sender and target differ.
pub fn self_signal_error(sender: &Pubkey, target: &Pubkey, name: Option<&str>, follow: bool) -> (r: Option<CliError>)
    ensures
        sender@ != target@ ==> r is None,
        sender@ == target@ ==> (r matches Some(e) && e.0@ == "cannot "@ + (if follow { "follow"@ } else { "unfollow"@ })
            + " yourself via "@ + (match name { Some(n) => n@, None => "that account"@ })),
{
    if !sender.same(target) {
        return None;
    }
    let mut m = String::from_str("cannot ");
    if follow {
        m.append("follow");
    } else {
        m.append("unfollow");
    }
    m.append(" yourself via ");
    match name {
        Some(n) => m.append(n),
        None => m.append("that account"),
    }
    Some(CliError(m))
}

} // verus!
