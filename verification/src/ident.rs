use vstd::prelude::*;

verus! {

/// Length of an identifier in characters.
pub const IDENTIFIER_LEN: usize = 36;

/// Whether `c` is a decimal digit or one of the letters `a` to `f`.
pub open spec fn is_lower_hex(c: char) -> bool {
    ('0' <= c && c <= '9') || ('a' <= c && c <= 'f')
}

/// Whether position `i` of an identifier holds a hyphen.
pub open spec fn is_hyphen_position(i: int) -> bool {
    i == 8 || i == 13 || i == 18 || i == 23
}

/// The shape of every identifier: five groups of lower-case hexadecimal
/// digits, of 8, 4, 4, 4 and 12 characters, joined by hyphens.
pub open spec fn is_identifier(s: Seq<char>) -> bool {
    &&& s.len() == IDENTIFIER_LEN
    &&& forall|i: int|
        0 <= i < s.len() ==> if is_hyphen_position(i) {
            #[trigger] s[i] == '-'
        } else {
            is_lower_hex(s[i])
        }
}

/// Calls `uuid::Uuid::now_v7` and writes the result out with its `Display`
/// impl. Trusted: the text is the hyphenated lower-case form, 36 characters
/// long. Which identifier comes back depends on the clock and on random
/// bytes, so nothing else is claimed of it. The call panics only where the
/// system clock reads earlier than 1970 or the system has no random bytes.
#[verifier::external_body]
fn uuid_now_v7_text() -> (id: String)
    ensures
        is_identifier(id@),
{
    uuid::Uuid::now_v7().to_string()
}

/// A fresh base name for a stored image: unique among concurrent callers
/// and ordered roughly by creation time.
pub fn next_id() -> (id: String)
    ensures
        is_identifier(id@),
{
    uuid_now_v7_text()
}

/// Decides `is_identifier` at run time.
pub fn check_identifier(s: &str) -> (ok: bool)
    ensures
        ok == is_identifier(s@),
{
    let n: usize = s.unicode_len();
    if n != IDENTIFIER_LEN {
        return false;
    }
    let mut i: usize = 0;
    while i < n
        invariant
            n == s@.len(),
            n == IDENTIFIER_LEN,
            i <= n,
            forall|j: int|
                0 <= j < i ==> if is_hyphen_position(j) {
                    #[trigger] s@[j] == '-'
                } else {
                    is_lower_hex(s@[j])
                },
        decreases n - i,
    {
        let c: char = s.get_char(i);
        let hyphen_here: bool = i == 8 || i == 13 || i == 18 || i == 23;
        let good: bool = if hyphen_here {
            c == '-'
        } else {
            ('0' <= c && c <= '9') || ('a' <= c && c <= 'f')
        };
        if !good {
            assert(!is_identifier(s@)) by {
                if is_identifier(s@) {
                    assert(s@[i as int] == s@[i as int]);
                }
            }
            return false;
        }
        i = i + 1;
    }
    true
}

/// An identifier holds neither a dot nor a slash, so it is one path segment
/// and adds no extension of its own to a file name.
pub proof fn lemma_identifier_is_one_segment(s: Seq<char>)
    requires
        is_identifier(s),
    ensures
        forall|i: int| 0 <= i < s.len() ==> s[i] != '.' && s[i] != '/',
{
    assert forall|i: int| 0 <= i < s.len() implies s[i] != '.' && s[i] != '/' by {
        if is_hyphen_position(i) {
            assert(s[i] == '-');
        } else {
            assert(is_lower_hex(s[i]));
        }
    }
}

} // verus!
