//! Device classification: the closed set of device categories that can
//! appear in discovery metadata, and their canonical wire-format tokens.

use vstd::prelude::*;

verus! {

/// The kind of peer taking part in discovery and transfer.
#[derive(Clone, Copy, Debug, PartialEq, Eq, Structural)]
pub enum DeviceType {
    Mobile,
    Desktop,
    Web,
    Headless,
    Server,
}

/// The error returned when a wire token matches none of the five
/// recognized device categories.
#[derive(Clone, Copy, Debug, PartialEq, Eq, Structural)]
pub struct DecodeError;

/// The canonical wire-format token of a device category.
pub open spec fn token_chars(d: DeviceType) -> Seq<char> {
    match d {
        DeviceType::Mobile => "mobile"@,
        DeviceType::Desktop => "desktop"@,
        DeviceType::Web => "web"@,
        DeviceType::Headless => "headless"@,
        DeviceType::Server => "server"@,
    }
}

/// The category a wire token stands for, or nothing when it matches none
/// of the five canonical tokens.
pub open spec fn spec_decode(s: Seq<char>) -> Option<DeviceType> {
    if s == token_chars(DeviceType::Mobile) {
        Some(DeviceType::Mobile)
    } else if s == token_chars(DeviceType::Desktop) {
        Some(DeviceType::Desktop)
    } else if s == token_chars(DeviceType::Web) {
        Some(DeviceType::Web)
    } else if s == token_chars(DeviceType::Headless) {
        Some(DeviceType::Headless)
    } else if s == token_chars(DeviceType::Server) {
        Some(DeviceType::Server)
    } else {
        None
    }
}

/// Character-for-character string comparison.
fn str_eq(a: &str, b: &str) -> (r: bool)
    ensures
        r == (a@ == b@),
{
    let alen = a.unicode_len();
    let blen = b.unicode_len();
    if alen != blen {
        return false;
    }
    let mut i: usize = 0;
    while i < alen
        invariant
            i <= alen,
            alen == a@.len(),
            alen == b@.len(),
            forall|j: int| 0 <= j < i ==> a@[j] == b@[j],
        decreases alen - i,
    {
        if a.get_char(i) != b.get_char(i) {
            return false;
        }
        i = i + 1;
    }
    proof {
        assert(a@ =~= b@);
    }
    true
}

impl DeviceType {
    /// Render this category to its canonical wire-format token.
    pub fn encode(&self) -> (s: &'static str)
        ensures
            s@ == token_chars(*self),
    {
        match self {
            DeviceType::Mobile => "mobile",
            DeviceType::Desktop => "desktop",
            DeviceType::Web => "web",
            DeviceType::Headless => "headless",
            DeviceType::Server => "server",
        }
    }

    /// Construct a category from its canonical wire-format token. A token
    /// that matches none of the five fails with `DecodeError` and yields
    /// no value.
    pub fn decode(s: &str) -> (r: Result<DeviceType, DecodeError>)
        ensures
            match r {
                Ok(d) => spec_decode(s@) == Some(d),
                Err(e) => spec_decode(s@) is None && e == DecodeError,
            },
    {
        if str_eq(s, "mobile") {
            Ok(DeviceType::Mobile)
        } else if str_eq(s, "desktop") {
            Ok(DeviceType::Desktop)
        } else if str_eq(s, "web") {
            Ok(DeviceType::Web)
        } else if str_eq(s, "headless") {
            Ok(DeviceType::Headless)
        } else if str_eq(s, "server") {
            Ok(DeviceType::Server)
        } else {
            Err(DecodeError)
        }
    }
}

/// Round trip: every device category's canonical token decodes back to
/// that category and to no other.
pub proof fn lemma_token_round_trip(d: DeviceType)
    ensures
        spec_decode(token_chars(d)) == Some(d),
{
    reveal_strlit("mobile");
    reveal_strlit("desktop");
    reveal_strlit("web");
    reveal_strlit("headless");
    reveal_strlit("server");
    match d {
        DeviceType::Mobile => {
            assert(spec_decode(token_chars(d)) == Some(DeviceType::Mobile));
        },
        DeviceType::Desktop => {
            assert("desktop"@.len() != "mobile"@.len());
            assert(spec_decode(token_chars(d)) == Some(DeviceType::Desktop));
        },
        DeviceType::Web => {
            assert("web"@.len() != "mobile"@.len());
            assert("web"@.len() != "desktop"@.len());
            assert(spec_decode(token_chars(d)) == Some(DeviceType::Web));
        },
        DeviceType::Headless => {
            assert("headless"@.len() != "mobile"@.len());
            assert("headless"@.len() != "desktop"@.len());
            assert("headless"@.len() != "web"@.len());
            assert(spec_decode(token_chars(d)) == Some(DeviceType::Headless));
        },
        DeviceType::Server => {
            assert("server"@[0] != "mobile"@[0]);
            assert("server"@.len() != "desktop"@.len());
            assert("server"@.len() != "web"@.len());
            assert("server"@.len() != "headless"@.len());
            assert(spec_decode(token_chars(d)) == Some(DeviceType::Server));
        },
    }
}

} // verus!
