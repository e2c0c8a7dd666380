//! Fresh correlation identifiers.

use vstd::prelude::*;

verus! {

/// The digits `0` to `9` and `a` to `f`.
pub open spec fn is_lower_hex(c: char) -> bool {
    ('0' <= c && c <= '9') || ('a' <= c && c <= 'f')
}

/// The textual form of a random (version 4) UUID: 36 characters, hyphens
/// after the 8th, 12th, 16th and 20th digit, lower-case hexadecimal digits
/// elsewhere, the version digit `4` and a variant digit of `8` to `b`.
pub open spec fn is_guid(s: Seq<char>) -> bool {
    &&& s.len() == 36
    &&& forall|i: int|
        0 <= i < 36 ==> if i == 8 || i == 13 || i == 18 || i == 23 {
            #[trigger] s[i] == '-'
        } else {
            is_lower_hex(s[i])
        }
    &&& s[14] == '4'
    &&& (s[19] == '8' || s[19] == '9' || s[19] == 'a' || s[19] == 'b')
}

/// Calls `uuid::Uuid::new_v4` and renders the result with its `Display`
/// impl (`to_string`).
///
/// Trusted, not proved: whatever random bits are drawn, the text has the
/// shape that `is_guid` describes. Nothing is claimed about which
/// identifier comes back; two calls may give any two identifiers. The call
/// panics where the operating system cannot supply random bytes.
#[verifier::external_body]
pub(crate) fn fresh_guid() -> (r: String)
    ensures
        is_guid(r@),
{
    uuid::Uuid::new_v4().to_string()
}

fn is_lower_hex_char(c: char) -> (r: bool)
    ensures
        r == is_lower_hex(c),
{
    ('0' <= c && c <= '9') || ('a' <= c && c <= 'f')
}

/// Whether `s` has the shape of a fresh identifier.
pub fn is_guid_str(s: &str) -> (r: bool)
    ensures
        r == is_guid(s@),
{
    let chars = crate::text::chars_of(s);
    if chars.len() != 36 {
        return false;
    }
    let mut i: usize = 0;
    while i < 36
        invariant
            i <= 36,
            chars@.len() == 36,
            chars@ == s@,
            forall|k: int|
                0 <= k < i ==> if k == 8 || k == 13 || k == 18 || k == 23 {
                    #[trigger] chars@[k] == '-'
                } else {
                    is_lower_hex(chars@[k])
                },
        decreases 36 - i,
    {
        let c = chars[i];
        let ok = if i == 8 || i == 13 || i == 18 || i == 23 {
            c == '-'
        } else {
            is_lower_hex_char(c)
        };
        if !ok {
            assert(!(if i == 8 || i == 13 || i == 18 || i == 23 {
                s@[i as int] == '-'
            } else {
                is_lower_hex(s@[i as int])
            }));
            return false;
        }
        i += 1;
    }
    let v = chars[19];
    chars[14] == '4' && (v == '8' || v == '9' || v == 'a' || v == 'b')
}

} // verus!
