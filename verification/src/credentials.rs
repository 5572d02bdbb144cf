//! Credentials for the local client API, parsed from the lockfile.
//!
//! The lockfile is a single line of five colon-separated fields,
//! `name:pid:port:token:protocol`; only the port and the token are
//! retained. Authorization against the client is HTTP Basic with user
//! `riot` and the token as the password; composing that header is left
//! to the transport.

use vstd::prelude::*;

use crate::text::{spec_all_digits, spec_dec_val, parse_dec_bounded, substr_string};

verus! {

/// The retained credentials: the client's port and token.
#[derive(Clone, Debug, PartialEq)]
pub struct Credentials {
    pub token: String,
    pub port: u16,
}

/// Why a lockfile line was rejected.
#[derive(Clone, Copy, Debug, PartialEq, Eq)]
pub enum CredentialsError {
    /// Fewer than five fields.
    ParseCredentials,
    /// The port field is not a number a port can hold.
    ParseCredentialsPort,
}

/// The position of the first colon.
pub open spec fn spec_first_colon(s: Seq<char>) -> Option<int>
    decreases s.len(),
{
    if s.len() == 0 {
        None
    } else if s[0] == ':' {
        Some(0)
    } else {
        match spec_first_colon(s.drop_first()) {
            Some(i) => Some(i + 1),
            None => None,
        }
    }
}

/// The five fields of a lockfile line; the last keeps any further
/// colons. Nothing when the line has fewer than five fields.
pub open spec fn spec_split_lockfile(s: Seq<char>) -> Option<
    (Seq<char>, Seq<char>, Seq<char>, Seq<char>, Seq<char>),
> {
    match spec_first_colon(s) {
        None => None,
        Some(c1) => {
            let r1 = s.subrange(c1 + 1, s.len() as int);
            match spec_first_colon(r1) {
                None => None,
                Some(c2) => {
                    let r2 = r1.subrange(c2 + 1, r1.len() as int);
                    match spec_first_colon(r2) {
                        None => None,
                        Some(c3) => {
                            let r3 = r2.subrange(c3 + 1, r2.len() as int);
                            match spec_first_colon(r3) {
                                None => None,
                                Some(c4) => Some(
                                    (
                                        s.subrange(0, c1),
                                        r1.subrange(0, c2),
                                        r2.subrange(0, c3),
                                        r3.subrange(0, c4),
                                        r3.subrange(c4 + 1, r3.len() as int),
                                    ),
                                ),
                            }
                        },
                    }
                },
            }
        },
    }
}

/// What parsing a lockfile line must yield: the port and token fields,
/// with the port a digit string a port can hold.
pub open spec fn spec_parse_credentials(s: Seq<char>) -> Result<(int, Seq<char>), CredentialsError> {
    match spec_split_lockfile(s) {
        None => Err(CredentialsError::ParseCredentials),
        Some((_name, _pid, port, token, _protocol)) => {
            if port.len() > 0 && spec_all_digits(port) && 0 <= spec_dec_val(port) <= 65535 {
                Ok((spec_dec_val(port), token))
            } else {
                Err(CredentialsError::ParseCredentialsPort)
            }
        },
    }
}

proof fn lemma_first_colon_skip(s: Seq<char>, i: int)
    requires
        0 <= i <= s.len(),
        forall|j: int| 0 <= j < i ==> s[j] != ':',
    ensures
        spec_first_colon(s) == match spec_first_colon(s.skip(i)) {
            Some(k) => Some(i + k),
            None => None::<int>,
        },
    decreases i,
{
    if i > 0 {
        lemma_first_colon_skip(s.drop_first(), i - 1);
        assert(s.drop_first().skip(i - 1) =~= s.skip(i));
    } else {
        assert(s.skip(0) =~= s);
    }
}

/// Find the first colon of a string.
fn find_colon(s: &str) -> (r: Option<usize>)
    ensures
        match r {
            Some(i) => spec_first_colon(s@) == Some(i as int) && i < s@.len() && s@[i as int]
                == ':',
            None => spec_first_colon(s@) is None,
        },
{
    let n = s.unicode_len();
    let mut i: usize = 0;
    while i < n
        invariant
            n == s@.len(),
            i <= n,
            forall|j: int| 0 <= j < i ==> s@[j] != ':',
        decreases n - i,
    {
        if s.get_char(i) == ':' {
            proof {
                lemma_first_colon_skip(s@, i as int);
                assert(s@.skip(i as int)[0] == s@[i as int]);
            }
            return Some(i);
        }
        i += 1;
    }
    proof {
        lemma_first_colon_skip(s@, s@.len() as int);
        assert(s@.skip(s@.len() as int) =~= Seq::empty());
    }
    None
}

/// Parse a lockfile line into credentials: the third field is the
/// port, the fourth the token; anything else is discarded.
pub fn parse_lockfile(line: &str) -> (r: Result<Credentials, CredentialsError>)
    ensures
        match r {
            Ok(c) => spec_parse_credentials(line@) == Ok::<_, CredentialsError>(
                (c.port as int, c.token@),
            ),
            Err(e) => spec_parse_credentials(line@) == Err::<(int, Seq<char>), _>(e),
        },
{
    let n = line.unicode_len();
    let Some(c1) = find_colon(line) else {
        return Err(CredentialsError::ParseCredentials);
    };
    let r1 = substr_string(line, c1 + 1, n);
    let n1 = r1.unicode_len();
    let Some(c2) = find_colon(r1.as_str()) else {
        return Err(CredentialsError::ParseCredentials);
    };
    let r2 = substr_string(r1.as_str(), c2 + 1, n1);
    let n2 = r2.unicode_len();
    let Some(c3) = find_colon(r2.as_str()) else {
        return Err(CredentialsError::ParseCredentials);
    };
    let r3 = substr_string(r2.as_str(), c3 + 1, n2);
    let Some(c4) = find_colon(r3.as_str()) else {
        return Err(CredentialsError::ParseCredentials);
    };
    let port_field = substr_string(r2.as_str(), 0, c3);
    let token = substr_string(r3.as_str(), 0, c4);
    match parse_dec_bounded(port_field.as_str(), 65535) {
        Some(v) => Ok(Credentials { token, port: v as u16 }),
        None => Err(CredentialsError::ParseCredentialsPort),
    }
}

} // verus!
