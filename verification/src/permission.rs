//! The permission hook of a script's fetches: only `http` and `https`, and
//! only addresses that are globally routable.

use vstd::prelude::*;
use vstd::string::StringExecFns;

use crate::text::{copy_str, str_eq};
use crate::uri::{ParsedUrl, ParsedUrlView, UrlHost, UrlHostView};

verus! {

/// An IP address, as its octets.
#[derive(Debug, Clone, Copy, PartialEq, Eq)]
pub enum IpAddress {
    V4([u8; 4]),
    V6([u8; 16]),
}

/// What an `IpAddress` holds.
pub enum IpAddressView {
    V4(Seq<u8>),
    V6(Seq<u8>),
}

impl View for IpAddress {
    type V = IpAddressView;

    open spec fn view(&self) -> IpAddressView {
        match self {
            IpAddress::V4(a) => IpAddressView::V4(a@),
            IpAddress::V6(a) => IpAddressView::V6(a@),
        }
    }
}

/// Whether an IPv4 address is a loopback address: in `127.0.0.0/8`.
pub open spec fn v4_is_loopback(a: Seq<u8>) -> bool {
    a[0] == 127
}

/// Whether an IPv4 address is private: in `10.0.0.0/8`, `172.16.0.0/12` or
/// `192.168.0.0/16`.
pub open spec fn v4_is_private(a: Seq<u8>) -> bool {
    a[0] == 10 || (a[0] == 172 && 16 <= a[1] <= 31) || (a[0] == 192 && a[1] == 168)
}

/// Whether an IPv4 address is link-local: in `169.254.0.0/16`.
pub open spec fn v4_is_link_local(a: Seq<u8>) -> bool {
    a[0] == 169 && a[1] == 254
}

/// Whether an IPv4 address is a multicast address: in `224.0.0.0/4`.
pub open spec fn v4_is_multicast(a: Seq<u8>) -> bool {
    224 <= a[0] <= 239
}

/// Whether an IPv4 address is the broadcast address `255.255.255.255`.
pub open spec fn v4_is_broadcast(a: Seq<u8>) -> bool {
    a[0] == 255 && a[1] == 255 && a[2] == 255 && a[3] == 255
}

/// Whether an IPv4 address counts as globally routable: it is not a
/// loopback, private, link-local, multicast or broadcast address.
pub open spec fn v4_is_global(a: Seq<u8>) -> bool {
    !v4_is_loopback(a) && !v4_is_private(a) && !v4_is_link_local(a) && !v4_is_multicast(a)
        && !v4_is_broadcast(a)
}

/// Whether an IPv6 address is the loopback address `::1`.
pub open spec fn v6_is_loopback(a: Seq<u8>) -> bool {
    a[15] == 1 && forall|i: int| 0 <= i < 15 ==> a[i] == 0
}

/// Whether an IPv6 address is a multicast address: in `ff00::/8`.
pub open spec fn v6_is_multicast(a: Seq<u8>) -> bool {
    a[0] == 0xff
}

/// Whether an IPv6 address counts as globally routable: it is neither the
/// loopback address nor a multicast address.
pub open spec fn v6_is_global(a: Seq<u8>) -> bool {
    !v6_is_loopback(a) && !v6_is_multicast(a)
}

/// Whether an address counts as globally routable.
pub open spec fn ip_is_global(addr: IpAddressView) -> bool {
    match addr {
        IpAddressView::V4(a) => v4_is_global(a),
        IpAddressView::V6(a) => v6_is_global(a),
    }
}

/// Whether an IPv4 address counts as globally routable.
pub fn ipv4_is_global(a: &[u8; 4]) -> (global: bool)
    ensures
        global == v4_is_global(a@),
{
    let loopback = a[0] == 127;
    let private = a[0] == 10 || (a[0] == 172 && 16 <= a[1] && a[1] <= 31) || (a[0] == 192 && a[1]
        == 168);
    let link_local = a[0] == 169 && a[1] == 254;
    let multicast = 224 <= a[0] && a[0] <= 239;
    let broadcast = a[0] == 255 && a[1] == 255 && a[2] == 255 && a[3] == 255;
    !loopback && !private && !link_local && !multicast && !broadcast
}

/// Whether an IPv6 address counts as globally routable.
pub fn ipv6_is_global(a: &[u8; 16]) -> (global: bool)
    ensures
        global == v6_is_global(a@),
{
    let mut zeros = true;
    let mut i: usize = 0;
    while i < 15
        invariant
            i <= 15,
            zeros == forall|j: int| 0 <= j < i ==> a@[j] == 0,
        decreases 15 - i,
    {
        if a[i] != 0 {
            zeros = false;
        }
        i += 1;
    }
    let loopback = zeros && a[15] == 1;
    let multicast = a[0] == 0xff;
    !loopback && !multicast
}

/// Whether an address counts as globally routable.
pub fn is_global(addr: &IpAddress) -> (global: bool)
    ensures
        global == ip_is_global(addr@),
{
    match addr {
        IpAddress::V4(a) => ipv4_is_global(a),
        IpAddress::V6(a) => ipv6_is_global(a),
    }
}

/// The port that is put behind a host name so that it can be resolved.
pub fn add_fake_port(s: &str) -> (with_port: String)
    ensures
        with_port@ == s@ + ":443"@,
{
    let mut s = String::from_str(s);
    s.append(":443");
    s
}

/// Why a fetch is not permitted.
#[derive(Debug)]
pub enum Denial {
    /// The scheme is neither `http` nor `https`.
    SchemeNotAllowed(String),
    /// The URL has no host.
    NoHost,
    /// The host is a literal address that is not globally routable.
    AddressNotAllowed(IpAddress),
    /// The host resolves to an address that is not globally routable.
    ResolvedAddressNotAllowed(String, IpAddress),
    /// The host could not be resolved; the text tells why.
    CouldNotResolve(String, String),
}

/// What the permission hook makes of a URL before any address is resolved.
#[derive(Debug)]
pub enum PermissionStep {
    /// The fetch is not permitted.
    Denied(Denial),
    /// The fetch is permitted; the host is a literal address.
    AllowedDirect(IpAddress),
    /// The host is a name: the fetch is permitted if every address that the
    /// name resolves to is globally routable. The text is the name with a
    /// port, as it is handed to the resolver.
    Resolve(String, String),
}

/// What the permission hook makes of `url`: schemes other than `http` and
/// `https` are refused; a literal address must be globally routable; a name
/// has to be resolved.
pub open spec fn permission_step(url: ParsedUrlView, step: PermissionStep) -> bool {
    if url.scheme != "http"@ && url.scheme != "https"@ {
        step matches PermissionStep::Denied(Denial::SchemeNotAllowed(s)) && s@ == url.scheme
    } else {
        match url.host {
            UrlHostView::Domain(d) => step matches PermissionStep::Resolve(name, target) && name@
                == d && target@ == d + ":443"@,
            UrlHostView::Ipv4(a) => if v4_is_global(a) {
                step matches PermissionStep::AllowedDirect(IpAddress::V4(b)) && b@ == a
            } else {
                step matches PermissionStep::Denied(
                    Denial::AddressNotAllowed(IpAddress::V4(b)),
                ) && b@ == a
            },
            UrlHostView::Ipv6(a) => if v6_is_global(a) {
                step matches PermissionStep::AllowedDirect(IpAddress::V6(b)) && b@ == a
            } else {
                step matches PermissionStep::Denied(
                    Denial::AddressNotAllowed(IpAddress::V6(b)),
                ) && b@ == a
            },
            UrlHostView::Absent => step matches PermissionStep::Denied(Denial::NoHost),
        }
    }
}

/// Decides whether a URL may be fetched, as far as that can be told without
/// resolving a name.
pub fn request_fetch_permission(url: &ParsedUrl) -> (step: PermissionStep)
    ensures
        permission_step(url@, step),
{
    let scheme = url.scheme.as_str();
    if !str_eq(scheme, "http") && !str_eq(scheme, "https") {
        return PermissionStep::Denied(Denial::SchemeNotAllowed(copy_str(scheme)));
    }
    match &url.host {
        UrlHost::Domain(domain) => PermissionStep::Resolve(
            copy_str(domain.as_str()),
            add_fake_port(domain.as_str()),
        ),
        UrlHost::Ipv4(addr) => {
            if !ipv4_is_global(addr) {
                PermissionStep::Denied(Denial::AddressNotAllowed(IpAddress::V4(*addr)))
            } else {
                PermissionStep::AllowedDirect(IpAddress::V4(*addr))
            }
        },
        UrlHost::Ipv6(addr) => {
            if !ipv6_is_global(addr) {
                PermissionStep::Denied(Denial::AddressNotAllowed(IpAddress::V6(*addr)))
            } else {
                PermissionStep::AllowedDirect(IpAddress::V6(*addr))
            }
        },
        UrlHost::Absent => PermissionStep::Denied(Denial::NoHost),
    }
}

/// The literal address that the URL of a step names as its host, whether
/// the fetch is permitted or not: the log of the script is warned whenever
/// a literal address is used.
pub open spec fn literal_address(step: PermissionStep) -> Option<IpAddress> {
    match step {
        PermissionStep::AllowedDirect(addr) => Some(addr),
        PermissionStep::Denied(Denial::AddressNotAllowed(addr)) => Some(addr),
        _ => None,
    }
}

/// The literal address of which the log is warned at a step, if the URL
/// names one.
pub fn direct_address(step: &PermissionStep) -> (addr: Option<IpAddress>)
    ensures
        addr == literal_address(*step),
{
    match step {
        PermissionStep::AllowedDirect(addr) => Some(*addr),
        PermissionStep::Denied(Denial::AddressNotAllowed(addr)) => Some(*addr),
        _ => None,
    }
}

/// The first of the addresses that is not globally routable.
pub open spec fn first_not_global(addrs: Seq<IpAddress>) -> Option<IpAddress> {
    match crate::data::table::first_index(addrs, |a: IpAddress| !ip_is_global(a@)) {
        Some(i) => Some(addrs[i]),
        None => None,
    }
}

/// Decides whether a host may be fetched from that resolved to `addrs`:
/// every address has to be globally routable.
pub fn check_resolved(domain: &str, addrs: &Vec<IpAddress>) -> (res: Result<(), Denial>)
    ensures
        match first_not_global(addrs@) {
            Some(addr) => res matches Err(Denial::ResolvedAddressNotAllowed(d, a)) && d@ == domain@
                && a == addr,
            None => res is Ok,
        },
{
    let mut i: usize = 0;
    while i < addrs.len()
        invariant
            i <= addrs@.len(),
            forall|j: int| 0 <= j < i ==> ip_is_global((#[trigger] addrs@[j])@),
        decreases addrs@.len() - i,
    {
        if !is_global(&addrs[i]) {
            proof {
                crate::data::table::lemma_first_index_is(
                    addrs@,
                    |a: IpAddress| !ip_is_global(a@),
                    i as int,
                );
            }
            return Err(Denial::ResolvedAddressNotAllowed(copy_str(domain), addrs[i]));
        }
        i += 1;
    }
    proof {
        crate::data::table::lemma_first_index_none(addrs@, |a: IpAddress| !ip_is_global(a@));
    }
    Ok(())
}

} // verus!
