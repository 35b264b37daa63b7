//! Credential handling rules: which trading modes exist, how a keychain
//! username is formed, and what key material is acceptable. The keychain
//! itself is an external store; callers read and write it with the values
//! validated here.

use vstd::prelude::*;
use crate::text::{ascii_lowercase, char_is_space, is_space, to_lower, trim_str, trimmed};

verus! {

/// Keychain service name under which credentials are stored.
pub const KEYCHAIN_SERVICE: &'static str = "com.stocksbot.alpaca";

/// Which credentials a keychain holds, per trading mode.
#[derive(Clone, Copy, PartialEq, Eq, Structural, Debug)]
pub struct CredentialStatus {
    /// Both paper-trading entries are present.
    pub paper_available: bool,
    /// Both live-trading entries are present.
    pub live_available: bool,
}

/// A pair of API credentials as stored per mode.
pub struct AlpacaCredentials {
    /// The public API key.
    pub api_key: String,
    /// The secret key.
    pub secret_key: String,
}

/// Credentials of a mode are available when both of its entries are.
pub fn credential_status(
    paper_api: bool,
    paper_secret: bool,
    live_api: bool,
    live_secret: bool,
) -> (st: CredentialStatus)
    ensures
        st.paper_available == (paper_api && paper_secret),
        st.live_available == (live_api && live_secret),
{
    CredentialStatus {
        paper_available: paper_api && paper_secret,
        live_available: live_api && live_secret,
    }
}

/// The keychain username for one mode and field: the two joined by an
/// underscore.
pub fn credential_username(mode: &str, field: &str) -> (r: String)
    ensures
        r@ == mode@ + "_"@ + field@,
{
    let r = String::from_str(mode).concat("_").concat(field);
    r
}

/// A trading mode, trimmed and lower-cased.
pub open spec fn normalized_mode(mode: Seq<char>) -> Seq<char> {
    to_lower(trimmed(mode))
}

/// The only valid trading modes are paper and live.
pub open spec fn mode_is_valid(mode: Seq<char>) -> bool {
    normalized_mode(mode) == "paper"@ || normalized_mode(mode) == "live"@
}

/// Normalize a trading mode: trim and lower-case it, and reject anything but
/// paper or live.
pub fn normalize_mode(mode: &str) -> (r: Result<String, String>)
    ensures
        match r {
            Ok(m) => mode_is_valid(mode@) && m@ == normalized_mode(mode@),
            Err(e) => !mode_is_valid(mode@) && e@ == "mode must be paper or live"@,
        },
{
    let m = ascii_lowercase(trim_str(mode));
    if m == String::from_str("paper") || m == String::from_str("live") {
        Ok(m)
    } else {
        Err(String::from_str("mode must be paper or live"))
    }
}

/// Why a piece of key material is rejected, if it is: after trimming it must
/// be present, neither shorter than eight characters nor longer than five
/// hundred twelve, and free of inner white space. The message names the
/// offending field.
pub open spec fn key_material_error(value: Seq<char>, field: Seq<char>) -> Option<Seq<char>> {
    let t = trimmed(value);
    if t.len() == 0 {
        Some(field + " is required"@)
    } else if t.len() < 8 {
        Some(field + " appears too short"@)
    } else if t.len() > 512 {
        Some(field + " is too long"@)
    } else if exists|i: int| 0 <= i < t.len() && is_space(t[i]) {
        Some(field + " cannot contain whitespace"@)
    } else {
        None
    }
}

/// Validate key material for one credential field: the trimmed value is
/// returned when acceptable, the reason when not.
pub fn validate_key_material(value: &str, field: &str) -> (r: Result<String, String>)
    ensures
        match r {
            Ok(v) => key_material_error(value@, field@) is None && v@ == trimmed(value@),
            Err(e) => key_material_error(value@, field@) == Some(e@),
        },
{
    let t = trim_str(value);
    let n = t.unicode_len();
    if n == 0 {
        return Err(String::from_str(field).concat(" is required"));
    }
    if n < 8 {
        return Err(String::from_str(field).concat(" appears too short"));
    }
    if n > 512 {
        return Err(String::from_str(field).concat(" is too long"));
    }
    let mut i: usize = 0;
    while i < n
        invariant
            n == t@.len(),
            t@ == trimmed(value@),
            8 <= n <= 512,
            i <= n,
            forall|j: int| 0 <= j < i ==> !is_space(t@[j]),
        decreases n - i,
    {
        if char_is_space(t.get_char(i)) {
            proof {
                assert(trimmed(value@)[i as int] == t@[i as int]);
                assert((i as int) < trimmed(value@).len() && is_space(trimmed(value@)[i as int]));
            }
            return Err(String::from_str(field).concat(" cannot contain whitespace"));
        }
        i = i + 1;
    }
    Ok(String::from_str(t))
}

} // verus!
