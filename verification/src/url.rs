//! Endpoint addressing: rendering a logical target (scheme, host, port,
//! API version, path) into the canonical URL string of the discovery and
//! transfer API.

use vstd::prelude::*;

verus! {

/// The transport scheme used to reach a peer's API.
#[derive(Clone, Copy, Debug, PartialEq, Eq, Structural)]
pub enum ProtocolType {
    Http,
    Https,
}

/// The version of the discovery/transfer API being addressed.
#[derive(Clone, Copy, Debug, PartialEq, Eq, Structural)]
pub enum ApiVersion {
    V3,
}

/// The canonical lowercase form of a transport scheme.
pub open spec fn scheme_chars(p: ProtocolType) -> Seq<char> {
    match p {
        ProtocolType::Http => "http"@,
        ProtocolType::Https => "https"@,
    }
}

/// The literal path segment identifying an API version.
pub open spec fn version_tag_chars(v: ApiVersion) -> Seq<char> {
    match v {
        ApiVersion::V3 => "v3"@,
    }
}

impl ProtocolType {
    /// The canonical lowercase scheme string, total over the variants.
    pub fn as_str(&self) -> (s: &'static str)
        ensures
            s@ == scheme_chars(*self),
    {
        match self {
            ProtocolType::Http => "http",
            ProtocolType::Https => "https",
        }
    }
}

impl ApiVersion {
    /// The fixed tag of this API version, total over the variants.
    pub fn tag(&self) -> (s: &'static str)
        ensures
            s@ == version_tag_chars(*self),
    {
        match self {
            ApiVersion::V3 => "v3",
        }
    }
}

/// The character for a single decimal digit.
pub open spec fn digit_char(d: nat) -> char
    recommends
        d < 10,
{
    if d == 0 {
        '0'
    } else if d == 1 {
        '1'
    } else if d == 2 {
        '2'
    } else if d == 3 {
        '3'
    } else if d == 4 {
        '4'
    } else if d == 5 {
        '5'
    } else if d == 6 {
        '6'
    } else if d == 7 {
        '7'
    } else if d == 8 {
        '8'
    } else {
        '9'
    }
}

/// The decimal representation of a number, most significant digit first,
/// with no leading zeros (zero itself is "0").
pub open spec fn decimal_chars(n: nat) -> Seq<char>
    decreases n,
{
    if n < 10 {
        seq![digit_char(n)]
    } else {
        decimal_chars(n / 10) + seq![digit_char(n % 10)]
    }
}

/// A single decimal digit as a string.
fn digit_str(d: u16) -> (s: &'static str)
    requires
        d < 10,
    ensures
        s@ =~= seq![digit_char(d as nat)],
{
    proof {
        reveal_strlit("0");
        reveal_strlit("1");
        reveal_strlit("2");
        reveal_strlit("3");
        reveal_strlit("4");
        reveal_strlit("5");
        reveal_strlit("6");
        reveal_strlit("7");
        reveal_strlit("8");
        reveal_strlit("9");
    }
    match d {
        0 => "0",
        1 => "1",
        2 => "2",
        3 => "3",
        4 => "4",
        5 => "5",
        6 => "6",
        7 => "7",
        8 => "8",
        _ => "9",
    }
}

/// Render a port number in decimal.
fn u16_to_decimal(n: u16) -> (s: String)
    ensures
        s@ == decimal_chars(n as nat),
    decreases n,
{
    if n < 10 {
        String::from_str(digit_str(n))
    } else {
        let mut s = u16_to_decimal(n / 10);
        s.append(digit_str(n % 10));
        proof {
            assert(s@ =~= decimal_chars(n as nat));
        }
        s
    }
}

/// The host as interpolated into the address: a host holding a colon
/// (the textual heuristic for an IPv6 literal) is wrapped in brackets,
/// any other host is used verbatim.
pub open spec fn host_interp_chars(host: Seq<char>) -> Seq<char> {
    if host.contains(':') {
        seq!['['] + host + seq![']']
    } else {
        host
    }
}

/// Whether a host string holds a colon character anywhere.
fn host_contains_colon(host: &str) -> (b: bool)
    ensures
        b == host@.contains(':'),
{
    let len = host.unicode_len();
    let mut i: usize = 0;
    while i < len
        invariant
            i <= len,
            len == host@.len(),
            forall|j: int| 0 <= j < i ==> host@[j] != ':',
        decreases len - i,
    {
        if host.get_char(i) == ':' {
            assert(host@[i as int] == ':');
            return true;
        }
        i = i + 1;
    }
    false
}

/// Produce the host as it stands in the address, bracketing it when it
/// holds a colon.
fn interpolated_host(host: &String) -> (s: String)
    ensures
        s@ == host_interp_chars(host@),
{
    if host_contains_colon(host.as_str()) {
        let mut s = String::from_str("[");
        s.append(host.as_str());
        s.append("]");
        proof {
            reveal_strlit("[");
            reveal_strlit("]");
            assert(s@ =~= host_interp_chars(host@));
        }
        s
    } else {
        host.clone()
    }
}

/// A logical target endpoint of the discovery/transfer API: the fields
/// from which one canonical address string is rendered.
pub struct TargetUrl {
    pub version: ApiVersion,
    pub protocol: ProtocolType,
    pub host: String,
    pub port: u16,
    pub path: &'static str,
}

/// The canonical address string of a target: scheme, host (bracketed when
/// it holds a colon), port, the versioned API prefix, and the path suffix.
pub open spec fn url_chars(u: TargetUrl) -> Seq<char> {
    scheme_chars(u.protocol) + "://"@ + host_interp_chars(u.host@) + ":"@
        + decimal_chars(u.port as nat) + "/api/localsend/"@ + version_tag_chars(u.version)
        + u.path@
}

impl TargetUrl {
    /// Render the canonical address string. Rendering is total and pure:
    /// the result is a function of the field values alone, so repeated
    /// calls on equal values yield equal strings.
    pub fn render(&self) -> (s: String)
        ensures
            s@ == url_chars(*self),
    {
        let mut s = String::from_str(self.protocol.as_str());
        s.append("://");
        let h = interpolated_host(&self.host);
        s.append(h.as_str());
        s.append(":");
        let p = u16_to_decimal(self.port);
        s.append(p.as_str());
        s.append("/api/localsend/");
        s.append(self.version.tag());
        s.append(self.path);
        proof {
            assert(s@ =~= url_chars(*self));
        }
        s
    }
}

/// A host without a colon is interpolated verbatim: the address is
/// exactly `<scheme>://<host>:<port>/api/localsend/v3<path>`.
pub proof fn lemma_url_plain_host(u: TargetUrl)
    requires
        !u.host@.contains(':'),
    ensures
        url_chars(u) == scheme_chars(u.protocol) + "://"@ + u.host@ + ":"@ + decimal_chars(
            u.port as nat,
        ) + "/api/localsend/v3"@ + u.path@,
{
    reveal_strlit("/api/localsend/");
    reveal_strlit("v3");
    reveal_strlit("/api/localsend/v3");
    assert(url_chars(u) =~= scheme_chars(u.protocol) + "://"@ + u.host@ + ":"@ + decimal_chars(
        u.port as nat,
    ) + "/api/localsend/v3"@ + u.path@);
}

/// A host holding at least one colon is bracketed: the address is exactly
/// `<scheme>://[<host>]:<port>/api/localsend/v3<path>`.
pub proof fn lemma_url_bracketed_host(u: TargetUrl)
    requires
        u.host@.contains(':'),
    ensures
        url_chars(u) == scheme_chars(u.protocol) + "://["@ + u.host@ + "]:"@ + decimal_chars(
            u.port as nat,
        ) + "/api/localsend/v3"@ + u.path@,
{
    reveal_strlit("://");
    reveal_strlit("://[");
    reveal_strlit(":");
    reveal_strlit("]:");
    reveal_strlit("/api/localsend/");
    reveal_strlit("v3");
    reveal_strlit("/api/localsend/v3");
    assert(url_chars(u) =~= scheme_chars(u.protocol) + "://["@ + u.host@ + "]:"@ + decimal_chars(
        u.port as nat,
    ) + "/api/localsend/v3"@ + u.path@);
}

} // verus!
