//! Well-formedness of connection URIs.
//!
//! The pool is configured from a single connection URI. This layer does not
//! parse the URI beyond its shape: a URI is well formed when it carries one
//! of the two recognized schemes, `postgres://` or `postgresql://`, followed
//! by a non-empty authority part. Everything after the scheme is the
//! database driver's business.

use vstd::prelude::*;
use vstd::string::StrSliceExecFns;

verus! {

/// A well-formed connection URI: one of the two recognized scheme prefixes,
/// with at least one character after it.
pub open spec fn is_valid_uri(s: Seq<char>) -> bool {
    ||| (s.len() > 11 && s.subrange(0, 11) == "postgres://"@)
    ||| (s.len() > 13 && s.subrange(0, 13) == "postgresql://"@)
}

/// Decides `is_valid_uri` for a URI handed in by the embedding application.
pub fn check_uri(uri: &str) -> (r: bool)
    ensures
        r == is_valid_uri(uri@),
{
    proof {
        reveal_strlit("postgres://");
        reveal_strlit("postgresql://");
    }
    let n: usize = uri.unicode_len();
    let short_ok: bool = n > 11 && uri.get_char(0) == 'p' && uri.get_char(1) == 'o'
        && uri.get_char(2) == 's' && uri.get_char(3) == 't' && uri.get_char(4) == 'g'
        && uri.get_char(5) == 'r' && uri.get_char(6) == 'e' && uri.get_char(7) == 's'
        && uri.get_char(8) == ':' && uri.get_char(9) == '/' && uri.get_char(10) == '/';
    let long_ok: bool = n > 13 && uri.get_char(0) == 'p' && uri.get_char(1) == 'o'
        && uri.get_char(2) == 's' && uri.get_char(3) == 't' && uri.get_char(4) == 'g'
        && uri.get_char(5) == 'r' && uri.get_char(6) == 'e' && uri.get_char(7) == 's'
        && uri.get_char(8) == 'q' && uri.get_char(9) == 'l' && uri.get_char(10) == ':'
        && uri.get_char(11) == '/' && uri.get_char(12) == '/';
    proof {
        if n > 11 {
            assert forall|i: int| 0 <= i < 11 implies uri@.subrange(0, 11)[i] == uri@[i] by {}
            if short_ok {
                assert(uri@.subrange(0, 11) =~= "postgres://"@);
            }
        }
        if n > 13 {
            assert forall|i: int| 0 <= i < 13 implies uri@.subrange(0, 13)[i] == uri@[i] by {}
            if long_ok {
                assert(uri@.subrange(0, 13) =~= "postgresql://"@);
            }
        }
    }
    short_ok || long_ok
}

} // verus!
