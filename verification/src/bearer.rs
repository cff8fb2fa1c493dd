//! The bearer-credential grammar of the `Authorization` header.
//!
//! A well-formed value consists of text bytes only, opens with the
//! case-insensitive scheme `Bearer` followed by a space, and carries the
//! token after any further leading blanks.

use vstd::prelude::*;

use crate::error::AuthError;

verus! {

/// A byte a header value may carry as text: visible ASCII or tab.
pub open spec fn is_header_text_byte(b: u8) -> bool {
    (32 <= b < 127) || b == 9
}

/// ASCII lower-casing of one byte.
pub open spec fn ascii_to_lower(b: u8) -> u8 {
    if 65 <= b <= 90 {
        (b + 32) as u8
    } else {
        b
    }
}

/// The scheme bytes `bearer`: the case-folded form the header must open with.
pub open spec fn bearer_scheme() -> Seq<u8> {
    seq![98u8, 101u8, 97u8, 114u8, 101u8, 114u8]
}

/// Well-formedness of a bearer credential: text bytes throughout, the
/// case-insensitive scheme, and a space between scheme and token.
pub open spec fn is_well_formed_bearer(h: Seq<u8>) -> bool {
    &&& h.len() > 6
    &&& (forall|i: int| 0 <= i < h.len() ==> is_header_text_byte(#[trigger] h[i]))
    &&& (forall|i: int| 0 <= i < 6 ==> ascii_to_lower(#[trigger] h[i]) == bearer_scheme()[i])
    &&& h[6] == 32u8
}

/// The position of the first token byte at or after `i`: blanks between the
/// scheme's space and the token are not part of the token.
pub open spec fn spec_token_start(h: Seq<u8>, i: int) -> int
    recommends
        0 <= i <= h.len(),
    decreases h.len() - i when 0 <= i <= h.len()
{
    if i >= h.len() {
        i
    } else if h[i] == 32u8 || h[i] == 9u8 {
        spec_token_start(h, i + 1)
    } else {
        i
    }
}

/// The token a well-formed bearer header value carries, as bytes; `None`
/// when the value is not a well-formed bearer credential.
pub open spec fn spec_bearer_token(h: Seq<u8>) -> Option<Seq<u8>> {
    if is_well_formed_bearer(h) {
        Some(h.skip(spec_token_start(h, 7)))
    } else {
        None
    }
}

/// The characters of an ASCII byte sequence, one per byte.
pub open spec fn ascii_chars(b: Seq<u8>) -> Seq<char> {
    b.map_values(|x: u8| x as char)
}

/// Relies on `String::from_utf8`: bytes below 128 are valid UTF-8 and
/// decode to exactly one character per byte.
#[verifier::external_body]
fn ascii_bytes_to_string(b: Vec<u8>) -> (r: String)
    requires
        forall|i: int| 0 <= i < b@.len() ==> b@[i] < 128,
    ensures
        r@ == ascii_chars(b@),
{
    String::from_utf8(b).unwrap_or_default()
}

/// ASCII lower-casing of one byte.
fn to_lower_byte(b: u8) -> (r: u8)
    ensures
        r == ascii_to_lower(b),
{
    if 65 <= b && b <= 90 {
        b + 32
    } else {
        b
    }
}

/// Extracts the bearer token from the request's `Authorization` header.
///
/// `header` is the raw header value when the request carried one.  A missing
/// header fails with `MissingAuthToken`; a value that is not a well-formed
/// bearer credential fails with `InvalidAuthToken`; otherwise the result is
/// exactly the token the header carries, ready for the credential-resolution
/// service.
pub fn extract_bearer_token(header: Option<&[u8]>) -> (r: Result<String, AuthError>)
    ensures
        match header {
            None => r == Err::<String, AuthError>(AuthError::MissingAuthToken),
            Some(h) => match spec_bearer_token(h@) {
                None => r == Err::<String, AuthError>(AuthError::InvalidAuthToken),
                Some(t) => r matches Ok(tok) && tok@ == ascii_chars(t),
            },
        },
{
    let h = match header {
        None => {
            return Err(AuthError::MissingAuthToken);
        },
        Some(h) => h,
    };
    if h.len() <= 6 {
        return Err(AuthError::InvalidAuthToken);
    }
    let mut i: usize = 0;
    while i < h.len()
        invariant
            header == Some(h),
            h@.len() > 6,
            i <= h@.len(),
            forall|j: int| 0 <= j < i ==> is_header_text_byte(#[trigger] h@[j]),
        decreases h@.len() - i,
    {
        let b = h[i];
        if !((32 <= b && b < 127) || b == 9) {
            proof {
                assert(!is_header_text_byte(h@[i as int]));
            }
            return Err(AuthError::InvalidAuthToken);
        }
        i += 1;
    }
    let scheme_ok = to_lower_byte(h[0]) == 98 && to_lower_byte(h[1]) == 101 && to_lower_byte(h[2])
        == 97 && to_lower_byte(h[3]) == 114 && to_lower_byte(h[4]) == 101 && to_lower_byte(h[5])
        == 114;
    if !scheme_ok {
        return Err(AuthError::InvalidAuthToken);
    }
    if h[6] != 32 {
        return Err(AuthError::InvalidAuthToken);
    }
    proof {
        assert(forall|k: int| 0 <= k < 6 ==> ascii_to_lower(#[trigger] h@[k]) == bearer_scheme()[k]);
        assert(is_well_formed_bearer(h@));
    }
    let mut s: usize = 7;
    while s < h.len() && (h[s] == 32 || h[s] == 9)
        invariant
            7 <= s <= h@.len(),
            spec_token_start(h@, 7) == spec_token_start(h@, s as int),
        decreases h@.len() - s,
    {
        s += 1;
    }
    proof {
        assert(spec_token_start(h@, s as int) == s as int);
    }
    let mut tok: Vec<u8> = Vec::new();
    let mut j: usize = s;
    while j < h.len()
        invariant
            s <= j <= h@.len(),
            is_well_formed_bearer(h@),
            tok@ == h@.subrange(s as int, j as int),
        decreases h@.len() - j,
    {
        let b = h[j];
        tok.push(b);
        proof {
            assert(h@.subrange(s as int, j as int + 1) =~= h@.subrange(s as int, j as int).push(
                h@[j as int],
            ));
        }
        j += 1;
    }
    proof {
        assert(tok@ =~= h@.skip(s as int));
        assert(forall|k: int| 0 <= k < tok@.len() ==> #[trigger] tok@[k] < 128) by {
            assert(forall|k: int|
                0 <= k < tok@.len() ==> tok@[k] == h@[k + s] && is_header_text_byte(h@[k + s]));
        }
    }
    Ok(ascii_bytes_to_string(tok))
}

} // verus!
