//! Network shield: allowlist screening of URLs and private-address detection.
//!
//! The network side (DNS resolution, the HTTP client) runs outside; it asks
//! `ShieldClient::screen_url` first and, for a host that must be resolved,
//! hands the resolved addresses to `ShieldClient::judge_resolved`.
use vstd::prelude::*;
use crate::text::{copy_str, str_eq};

verus! {

/// An IP address: four octets, or eight 16-bit segments.
#[derive(Debug, Clone, Copy, PartialEq, Eq)]
pub enum IpAddress {
    V4(u8, u8, u8, u8),
    V6(u16, u16, u16, u16, u16, u16, u16, u16),
}

/// `Ipv4Addr::is_loopback`, `is_private`, `is_link_local`, `is_broadcast`,
/// `is_documentation` or `is_unspecified`, by the ranges std documents.
pub open spec fn private_v4(a: u8, b: u8, c: u8, d: u8) -> bool {
    ||| a == 127
    ||| a == 10
    ||| (a == 172 && 16 <= b && b <= 31)
    ||| (a == 192 && b == 168)
    ||| (a == 169 && b == 254)
    ||| (a == 255 && b == 255 && c == 255 && d == 255)
    ||| (a == 192 && b == 0 && c == 2)
    ||| (a == 198 && b == 51 && c == 100)
    ||| (a == 203 && b == 0 && c == 113)
    ||| (a == 0 && b == 0 && c == 0 && d == 0)
}

/// Loopback `::1`, unspecified `::`, unique local `fc00::/7` or link-local `fe80::/10`.
pub open spec fn private_v6(s0: u16, s1: u16, s2: u16, s3: u16, s4: u16, s5: u16, s6: u16, s7: u16) -> bool {
    let zero_prefix = s0 == 0 && s1 == 0 && s2 == 0 && s3 == 0 && s4 == 0 && s5 == 0 && s6 == 0;
    ||| (zero_prefix && s7 == 1)
    ||| (zero_prefix && s7 == 0)
    ||| (s0 & 0xfe00) == 0xfc00
    ||| (s0 & 0xffc0) == 0xfe80
}

/// An IPv4-mapped IPv6 address `::ffff:a.b.c.d` (the prefix `::ffff:0:0/96`).
pub open spec fn v4_mapped(s0: u16, s1: u16, s2: u16, s3: u16, s4: u16, s5: u16) -> bool {
    s0 == 0 && s1 == 0 && s2 == 0 && s3 == 0 && s4 == 0 && s5 == 0xffff
}

/// The address is one the shield refuses to reach. An IPv4-mapped IPv6
/// address is judged as the IPv4 address it carries, so that the mapped form
/// of a private IPv4 address cannot slip past the shield.
pub open spec fn is_private(ip: IpAddress) -> bool {
    match ip {
        IpAddress::V4(a, b, c, d) => private_v4(a, b, c, d),
        IpAddress::V6(s0, s1, s2, s3, s4, s5, s6, s7) => if v4_mapped(s0, s1, s2, s3, s4, s5) {
            private_v4((s6 >> 8) as u8, (s6 & 0xff) as u8, (s7 >> 8) as u8, (s7 & 0xff) as u8)
        } else {
            private_v6(s0, s1, s2, s3, s4, s5, s6, s7)
        },
    }
}

/// What `url::Url::parse` followed by `host_str` gives for a URL string:
/// `None` when parsing fails, else the host if there is one.
pub uninterp spec fn parsed_host(url: Seq<char>) -> Option<Option<Seq<char>>>;

/// The URL parse error of the `url` crate.
#[verifier::external_type_specification]
#[verifier::external_body]
pub struct ExUrlParseError(url::ParseError);

/// Parses `url_str` with `url::Url::parse` and takes `host_str` of the result.
/// Trusted: the outcome is the named `parsed_host` of the string; what the
/// `url` crate accepts and which host it extracts is not stated.
#[verifier::external_body]
fn url_host(url_str: &str) -> (r: Result<Option<String>, url::ParseError>)
    ensures
        r is Ok <==> parsed_host(url_str@) is Some,
        r matches Ok(h) ==> parsed_host(url_str@) == Some(
            match h {
                Some(s) => Some(s@),
                None => None::<Seq<char>>,
            },
        ),
{
    match url::Url::parse(url_str) {
        Ok(u) => Ok(u.host_str().map(|h| h.to_string())),
        Err(e) => Err(e),
    }
}

/// Why the shield refused a URL.
#[derive(Debug, Clone, PartialEq, Eq)]
pub enum NetError {
    /// The URL does not parse.
    InvalidUrl,
    /// The URL has no host.
    NoHost,
    /// The host resolved to a private address.
    PrivateIp(IpAddress),
    /// The host is not on the allowlist.
    NotInAllowlist(String),
}

/// What the shield decides for a URL before any resolution.
#[derive(Debug, Clone, PartialEq, Eq)]
pub enum UrlScreen {
    /// The host is on the allowlist: the request may go out.
    Allowed,
    /// The host must be resolved and judged.
    Resolve(String),
}

/// Guarded HTTP access: only allowlisted hosts are reached.
#[derive(Clone, Debug)]
pub struct ShieldClient {
    allowlist: Vec<String>,
}

/// Builder for `ShieldClient`.
#[derive(Clone, Debug)]
pub struct ShieldClientBuilder {
    allowlist: Vec<String>,
    block_private_ips: bool,
}

/// The views of a list of strings.
pub open spec fn views(v: Seq<String>) -> Seq<Seq<char>> {
    v.map_values(|s: String| s@)
}

impl ShieldClientBuilder {
    /// The hosts added so far, in order.
    pub closed spec fn hosts(&self) -> Seq<Seq<char>> {
        views(self.allowlist@)
    }

    /// The private-address flag.
    pub closed spec fn blocks_private(&self) -> bool {
        self.block_private_ips
    }

    /// Adds `host` to the allowlist.
    pub fn allow_endpoint(self, host: &str) -> (r: Self)
        ensures
            r.hosts() == self.hosts().push(host@),
            r.blocks_private() == self.blocks_private(),
    {
        let mut s = self;
        s.allowlist.push(copy_str(host));
        proof {
            assert(views(s.allowlist@) =~= views(self.allowlist@).push(host@));
        }
        s
    }

    /// Sets whether private addresses are blocked.
    pub fn block_private_ips(self, block: bool) -> (r: Self)
        ensures
            r.hosts() == self.hosts(),
            r.blocks_private() == block,
    {
        let mut s = self;
        s.block_private_ips = block;
        s
    }

    /// The client with the collected allowlist.
    pub fn build(self) -> (r: ShieldClient)
        ensures
            r.allowed_hosts() == self.hosts(),
    {
        ShieldClient { allowlist: self.allowlist }
    }
}

impl ShieldClient {
    /// The allowlisted hosts.
    pub closed spec fn allowed_hosts(&self) -> Seq<Seq<char>> {
        views(self.allowlist@)
    }

    /// A builder with an empty allowlist that does not block private addresses.
    pub fn builder() -> (b: ShieldClientBuilder)
        ensures
            b.hosts() == Seq::<Seq<char>>::empty(),
            !b.blocks_private(),
    {
        let b = ShieldClientBuilder { allowlist: Vec::new(), block_private_ips: false };
        proof {
            assert(views(b.allowlist@) =~= Seq::<Seq<char>>::empty());
        }
        b
    }

    /// Whether `host` is on the allowlist.
    pub fn is_allowed_host(&self, host: &str) -> (r: bool)
        ensures
            r == self.allowed_hosts().contains(host@),
    {
        let mut i: usize = 0;
        while i < self.allowlist.len()
            invariant
                i <= self.allowlist@.len(),
                forall|k: int| 0 <= k < i ==> self.allowlist@[k]@ != host@,
            decreases self.allowlist.len() - i,
        {
            if str_eq(self.allowlist[i].as_str(), host) {
                proof {
                    assert(self.allowed_hosts()[i as int] == host@);
                }
                return true;
            }
            i = i + 1;
        }
        proof {
            if self.allowed_hosts().contains(host@) {
                let k = choose|k: int| 0 <= k < self.allowed_hosts().len() && self.allowed_hosts()[k] == host@;
                assert(self.allowlist@[k]@ == host@);
            }
        }
        false
    }

    /// Screens a URL: it must parse and have a host; an allowlisted host is
    /// admitted at once, any other host must be resolved and judged.
    pub fn screen_url(&self, url_str: &str) -> (r: Result<UrlScreen, NetError>)
        ensures
            parsed_host(url_str@) is None ==> r == Err::<UrlScreen, NetError>(NetError::InvalidUrl),
            parsed_host(url_str@) == Some(None::<Seq<char>>) ==> r == Err::<UrlScreen, NetError>(NetError::NoHost),
            parsed_host(url_str@) matches Some(Some(h)) ==> (
                if self.allowed_hosts().contains(h) {
                    r == Ok::<UrlScreen, NetError>(UrlScreen::Allowed)
                } else {
                    r matches Ok(UrlScreen::Resolve(x)) && x@ == h
                }),
    {
        match url_host(url_str) {
            Err(_) => Err(NetError::InvalidUrl),
            Ok(None) => Err(NetError::NoHost),
            Ok(Some(host)) => {
                if self.is_allowed_host(host.as_str()) {
                    Ok(UrlScreen::Allowed)
                } else {
                    Ok(UrlScreen::Resolve(host))
                }
            },
        }
    }

    /// Judges a host that is not on the allowlist from its resolved
    /// addresses: the first private address is reported; with none, the
    /// host is refused as not allowlisted (default deny).
    pub fn judge_resolved(&self, host: &str, ips: &[IpAddress]) -> (r: NetError)
        ensures
            (exists|i: int| 0 <= i < ips@.len() && is_private(ips@[i])) ==> (r matches NetError::PrivateIp(ip) && is_private(ip) && ips@.contains(ip)
                && exists|i: int| 0 <= i < ips@.len() && ips@[i] == ip
                    && forall|k: int| 0 <= k < i ==> !is_private(ips@[k])),
            (forall|i: int| 0 <= i < ips@.len() ==> !is_private(ips@[i])) ==> (r matches NetError::NotInAllowlist(h) && h@ == host@),
    {
        let mut i: usize = 0;
        while i < ips.len()
            invariant
                i <= ips@.len(),
                forall|k: int| 0 <= k < i ==> !is_private(ips@[k]),
            decreases ips.len() - i,
        {
            if Self::is_private_ip(ips[i]) {
                proof {
                    assert(ips@.contains(ips@[i as int]));
                }
                return NetError::PrivateIp(ips[i]);
            }
            i = i + 1;
        }
        NetError::NotInAllowlist(copy_str(host))
    }

    /// Whether `ip` is loopback, private, link-local, broadcast,
    /// documentation or unspecified (IPv4), or loopback, unspecified, unique
    /// local or link-local (IPv6). An IPv4-mapped IPv6 address
    /// (`::ffff:a.b.c.d`) is judged as its IPv4 address.
    pub fn is_private_ip(ip: IpAddress) -> (r: bool)
        ensures
            r == is_private(ip),
    {
        match ip {
            IpAddress::V4(a, b, c, d) => Self::is_private_v4(a, b, c, d),
            IpAddress::V6(s0, s1, s2, s3, s4, s5, s6, s7) => {
                if s0 == 0 && s1 == 0 && s2 == 0 && s3 == 0 && s4 == 0 && s5 == 0xffff {
                    return Self::is_private_v4(
                        (s6 >> 8) as u8,
                        (s6 & 0xff) as u8,
                        (s7 >> 8) as u8,
                        (s7 & 0xff) as u8,
                    );
                }
                let zero_prefix = s0 == 0 && s1 == 0 && s2 == 0 && s3 == 0 && s4 == 0 && s5 == 0
                    && s6 == 0;
                (zero_prefix && s7 == 1) || (zero_prefix && s7 == 0) || (s0 & 0xfe00) == 0xfc00 || (
                s0 & 0xffc0) == 0xfe80
            },
        }
    }

    fn is_private_v4(a: u8, b: u8, c: u8, d: u8) -> (r: bool)
        ensures
            r == private_v4(a, b, c, d),
    {
        a == 127 || a == 10 || (a == 172 && 16 <= b && b <= 31) || (a == 192 && b == 168) || (a
            == 169 && b == 254) || (a == 255 && b == 255 && c == 255 && d == 255) || (a == 192 && b
            == 0 && c == 2) || (a == 198 && b == 51 && c == 100) || (a == 203 && b == 0 && c == 113)
            || (a == 0 && b == 0 && c == 0 && d == 0)
    }
}

/// The 32-bit value of the IPv4 address `a.b.c.d`.
pub open spec fn v4_bits(a: u8, b: u8, c: u8, d: u8) -> u32 {
    ((a as u32) << 24u32) | ((b as u32) << 16u32) | ((c as u32) << 8u32) | (d as u32)
}

/// `x` lies in the CIDR block `net/len` (`1 <= len <= 32`): the top `len`
/// bits agree.
pub open spec fn in_block(x: u32, net: u32, len: u32) -> bool {
    (x >> ((32 - len) as u32)) == (net >> ((32 - len) as u32))
}

/// The IPv4 blocks std's `Ipv4Addr` documents as private (10/8,
/// 172.16/12, 192.168/16), loopback (127/8), link-local (169.254/16),
/// broadcast (255.255.255.255), documentation (192.0.2/24, 198.51.100/24,
/// 203.0.113/24) and unspecified (0.0.0.0), in CIDR form.
pub open spec fn std_special_v4(x: u32) -> bool {
    ||| in_block(x, 0x0A00_0000, 8)
    ||| in_block(x, 0xAC10_0000, 12)
    ||| in_block(x, 0xC0A8_0000, 16)
    ||| in_block(x, 0x7F00_0000, 8)
    ||| in_block(x, 0xA9FE_0000, 16)
    ||| in_block(x, 0xFFFF_FFFF, 32)
    ||| in_block(x, 0xC000_0200, 24)
    ||| in_block(x, 0xC633_6400, 24)
    ||| in_block(x, 0xCB00_7100, 24)
    ||| in_block(x, 0x0000_0000, 32)
}

/// An IPv4 address is refused exactly when it lies in one of std's special
/// blocks, and an IPv4-mapped IPv6 address `::ffff:a.b.c.d` exactly when its
/// embedded IPv4 address does.
pub proof fn law_private_blocks(a: u8, b: u8, c: u8, d: u8, s6: u16, s7: u16)
    ensures
        is_private(IpAddress::V4(a, b, c, d)) <==> std_special_v4(v4_bits(a, b, c, d)),
        is_private(IpAddress::V6(0, 0, 0, 0, 0, 0xffff, s6, s7)) <==> std_special_v4(
            ((s6 as u32) << 16u32) | (s7 as u32),
        ),
{
    lemma_v4_blocks(a, b, c, d);
    let a2 = (s6 >> 8u16) as u8;
    let b2 = (s6 & 0xffu16) as u8;
    let c2 = (s7 >> 8u16) as u8;
    let d2 = (s7 & 0xffu16) as u8;
    lemma_v4_blocks(a2, b2, c2, d2);
    assert(v4_bits(a2, b2, c2, d2) == ((s6 as u32) << 16u32) | (s7 as u32)) by (bit_vector)
        requires
            a2 == (s6 >> 8u16) as u8,
            b2 == (s6 & 0xffu16) as u8,
            c2 == (s7 >> 8u16) as u8,
            d2 == (s7 & 0xffu16) as u8,
    ;
}

proof fn lemma_v4_blocks(a: u8, b: u8, c: u8, d: u8)
    ensures
        in_block(v4_bits(a, b, c, d), 0x0A00_0000, 8) <==> a == 10,
        in_block(v4_bits(a, b, c, d), 0xAC10_0000, 12) <==> (a == 172 && 16 <= b && b <= 31),
        in_block(v4_bits(a, b, c, d), 0xC0A8_0000, 16) <==> (a == 192 && b == 168),
        in_block(v4_bits(a, b, c, d), 0x7F00_0000, 8) <==> a == 127,
        in_block(v4_bits(a, b, c, d), 0xA9FE_0000, 16) <==> (a == 169 && b == 254),
        in_block(v4_bits(a, b, c, d), 0xFFFF_FFFF, 32) <==> (a == 255 && b == 255 && c == 255 && d == 255),
        in_block(v4_bits(a, b, c, d), 0xC000_0200, 24) <==> (a == 192 && b == 0 && c == 2),
        in_block(v4_bits(a, b, c, d), 0xC633_6400, 24) <==> (a == 198 && b == 51 && c == 100),
        in_block(v4_bits(a, b, c, d), 0xCB00_7100, 24) <==> (a == 203 && b == 0 && c == 113),
        in_block(v4_bits(a, b, c, d), 0x0000_0000, 32) <==> (a == 0 && b == 0 && c == 0 && d == 0),
{
    let x = v4_bits(a, b, c, d);
    assert(x == ((a as u32) << 24u32) | ((b as u32) << 16u32) | ((c as u32) << 8u32) | (d as u32));
    assert((x >> 24u32) == 0x0Au32 <==> a == 10) by (bit_vector)
        requires x == ((a as u32) << 24u32) | ((b as u32) << 16u32) | ((c as u32) << 8u32) | (d as u32);
    assert((x >> 20u32) == 0xAC1u32 <==> (a == 172 && 16 <= b && b <= 31)) by (bit_vector)
        requires x == ((a as u32) << 24u32) | ((b as u32) << 16u32) | ((c as u32) << 8u32) | (d as u32);
    assert((x >> 16u32) == 0xC0A8u32 <==> (a == 192 && b == 168)) by (bit_vector)
        requires x == ((a as u32) << 24u32) | ((b as u32) << 16u32) | ((c as u32) << 8u32) | (d as u32);
    assert((x >> 24u32) == 0x7Fu32 <==> a == 127) by (bit_vector)
        requires x == ((a as u32) << 24u32) | ((b as u32) << 16u32) | ((c as u32) << 8u32) | (d as u32);
    assert((x >> 16u32) == 0xA9FEu32 <==> (a == 169 && b == 254)) by (bit_vector)
        requires x == ((a as u32) << 24u32) | ((b as u32) << 16u32) | ((c as u32) << 8u32) | (d as u32);
    assert(x == 0xFFFF_FFFFu32 <==> (a == 255 && b == 255 && c == 255 && d == 255)) by (bit_vector)
        requires x == ((a as u32) << 24u32) | ((b as u32) << 16u32) | ((c as u32) << 8u32) | (d as u32);
    assert((x >> 8u32) == 0xC00002u32 <==> (a == 192 && b == 0 && c == 2)) by (bit_vector)
        requires x == ((a as u32) << 24u32) | ((b as u32) << 16u32) | ((c as u32) << 8u32) | (d as u32);
    assert((x >> 8u32) == 0xC63364u32 <==> (a == 198 && b == 51 && c == 100)) by (bit_vector)
        requires x == ((a as u32) << 24u32) | ((b as u32) << 16u32) | ((c as u32) << 8u32) | (d as u32);
    assert((x >> 8u32) == 0xCB0071u32 <==> (a == 203 && b == 0 && c == 113)) by (bit_vector)
        requires x == ((a as u32) << 24u32) | ((b as u32) << 16u32) | ((c as u32) << 8u32) | (d as u32);
    assert(x == 0u32 <==> (a == 0 && b == 0 && c == 0 && d == 0)) by (bit_vector)
        requires x == ((a as u32) << 24u32) | ((b as u32) << 16u32) | ((c as u32) << 8u32) | (d as u32);
    assert((0x0A00_0000u32 >> 24u32) == 0x0Au32) by (bit_vector);
    assert((0xAC10_0000u32 >> 20u32) == 0xAC1u32) by (bit_vector);
    assert((0xC0A8_0000u32 >> 16u32) == 0xC0A8u32) by (bit_vector);
    assert((0x7F00_0000u32 >> 24u32) == 0x7Fu32) by (bit_vector);
    assert((0xA9FE_0000u32 >> 16u32) == 0xA9FEu32) by (bit_vector);
    assert((0xC000_0200u32 >> 8u32) == 0xC00002u32) by (bit_vector);
    assert((0xC633_6400u32 >> 8u32) == 0xC63364u32) by (bit_vector);
    assert((0xCB00_7100u32 >> 8u32) == 0xCB0071u32) by (bit_vector);
    assert(forall|y: u32| #[trigger] (y >> 0u32) == y) by (bit_vector);
}

} // verus!
