//! Request-side address validation: which addresses may be looked up, and
//! how a client address is extracted from proxy headers.

use vstd::prelude::*;
use crate::net::{ip_of_text, parse_ip, IpAddress};
use crate::text::{find_char, find_from, trim_of, trim_str};

verus! {

/// Why an address or header was rejected.
#[derive(Debug, PartialEq)]
pub enum IpValidationError {
    /// A header value that does not parse as an IP address.
    InvalidIpAddress(String),
    /// Neither `X-Forwarded-For` nor `X-Real-IP` was present.
    MissingIpHeaders,
    /// An address outside the publicly routable space.
    NotAllowed(String),
}

/// Whether an IPv4 address is in a private range.
pub open spec fn private_v4(a: u32) -> bool {
    a >> 24 == 10 || (a >> 20 == 0xAC1) || (a >> 16 == 0xC0A8)
}

/// Whether an IPv4 address is in a documentation range.
pub open spec fn documentation_v4(a: u32) -> bool {
    a >> 8 == 0xC00002 || a >> 8 == 0xC63364 || a >> 8 == 0xCB0071
}

/// Whether an IPv6 address is in the documentation prefix 2001:db8::/32.
pub open spec fn documentation_v6(a: u128) -> bool {
    a >> 96 == 0x20010DB8
}

/// The rejection message for an address barred from lookups, or none for
/// a publicly routable address.
pub open spec fn rejection_of(ip: IpAddress) -> Option<Seq<char>> {
    match ip {
        IpAddress::V4(a) => if a == 0 {
            Some("unspecified address (0.0.0.0)"@)
        } else if a >> 24 == 127 {
            Some("loopback address (127.0.0.0/8)"@)
        } else if private_v4(a) {
            Some("private address range"@)
        } else if a >> 16 == 0xA9FE {
            Some("IPv4 link-local address (169.254.0.0/16)"@)
        } else if documentation_v4(a) {
            Some("documentation address (TEST-NET-1/2/3)"@)
        } else {
            None
        },
        IpAddress::V6(a) => if a == 0 {
            Some("unspecified address (::)"@)
        } else if a == 1 {
            Some("loopback address (::1)"@)
        } else if a >> 118 == 0x3FA {
            Some("IPv6 link-local address (fe80::/10)"@)
        } else if documentation_v6(a) {
            Some("documentation address (2001:db8::/32)"@)
        } else {
            None
        },
    }
}

/// Checks if an IPv4 address is in a private range.
pub fn is_private_ipv4(a: u32) -> (r: bool)
    ensures
        r == private_v4(a),
{
    a >> 24 == 10 || (a >> 20 == 0xAC1) || (a >> 16 == 0xC0A8)
}

/// Checks if an IPv4 address is in a documentation range.
pub fn is_documentation_ipv4(a: u32) -> (r: bool)
    ensures
        r == documentation_v4(a),
{
    a >> 8 == 0xC00002 || a >> 8 == 0xC63364 || a >> 8 == 0xCB0071
}

/// Checks if an IPv6 address is in the documentation prefix.
pub fn is_documentation_ipv6(a: u128) -> (r: bool)
    ensures
        r == documentation_v6(a),
{
    a >> 96 == 0x20010DB8
}

/// Validates that the address is allowed for lookups: unspecified,
/// loopback, private, link-local and documentation addresses are rejected
/// with the reason, every other address is allowed.
pub fn validate_ip(ip: IpAddress) -> (r: Result<(), IpValidationError>)
    ensures
        (r is Ok) == (rejection_of(ip) is None),
        r matches Err(e) ==> (e matches IpValidationError::NotAllowed(m) && m@ == rejection_of(
            ip,
        )->Some_0),
{
    match ip {
        IpAddress::V4(a) => {
            if a == 0 {
                Err(IpValidationError::NotAllowed(String::from_str("unspecified address (0.0.0.0)")))
            } else if a >> 24 == 127 {
                Err(
                    IpValidationError::NotAllowed(
                        String::from_str("loopback address (127.0.0.0/8)"),
                    ),
                )
            } else if is_private_ipv4(a) {
                Err(IpValidationError::NotAllowed(String::from_str("private address range")))
            } else if a >> 16 == 0xA9FE {
                Err(
                    IpValidationError::NotAllowed(
                        String::from_str("IPv4 link-local address (169.254.0.0/16)"),
                    ),
                )
            } else if is_documentation_ipv4(a) {
                Err(
                    IpValidationError::NotAllowed(
                        String::from_str("documentation address (TEST-NET-1/2/3)"),
                    ),
                )
            } else {
                Ok(())
            }
        },
        IpAddress::V6(a) => {
            if a == 0 {
                Err(IpValidationError::NotAllowed(String::from_str("unspecified address (::)")))
            } else if a == 1 {
                Err(IpValidationError::NotAllowed(String::from_str("loopback address (::1)")))
            } else if a >> 118 == 0x3FA {
                Err(
                    IpValidationError::NotAllowed(
                        String::from_str("IPv6 link-local address (fe80::/10)"),
                    ),
                )
            } else if is_documentation_ipv6(a) {
                Err(
                    IpValidationError::NotAllowed(
                        String::from_str("documentation address (2001:db8::/32)"),
                    ),
                )
            } else {
                Ok(())
            }
        },
    }
}

/// The first entry of a comma-separated forwarding header, trimmed.
pub open spec fn forwarded_first(s: Seq<char>) -> Seq<char> {
    trim_of(s.take(find_from(s, 0, ',')))
}

/// Extracts the client IP address from the two forwarding headers:
/// the first `X-Forwarded-For` entry where that header is present, the
/// `X-Real-IP` value otherwise, and an error where neither is present or
/// the chosen value does not parse.
pub fn extract_client_ip(forwarded_for: Option<&str>, real_ip: Option<&str>) -> (r: Result<
    IpAddress,
    IpValidationError,
>)
    ensures
        forwarded_for matches Some(s) ==> ((ip_of_text(forwarded_first(s@)) matches Some(ip) ==> r
            == Ok::<IpAddress, IpValidationError>(ip)) && (ip_of_text(forwarded_first(s@)) is None
            ==> (r matches Err(e) && e matches IpValidationError::InvalidIpAddress(m) && m@
            == "Invalid IP in X-Forwarded-For header: "@ + forwarded_first(s@)))),
        forwarded_for is None ==> (real_ip matches Some(s) ==> ((ip_of_text(s@) matches Some(ip)
            ==> r == Ok::<IpAddress, IpValidationError>(ip)) && (ip_of_text(s@) is None ==> (
        r matches Err(e) && e matches IpValidationError::InvalidIpAddress(m) && m@
            == "Invalid IP in X-Real-IP header: "@ + s@)))),
        forwarded_for is None && real_ip is None ==> r == Err::<IpAddress, IpValidationError>(
            IpValidationError::MissingIpHeaders,
        ),
{
    match forwarded_for {
        Some(s) => {
            let comma = find_char(s, 0, ',');
            let first = s.substring_char(0, comma);
            let t = trim_str(first);
            proof {
                assert(t@ == forwarded_first(s@));
            }
            match parse_ip(t) {
                Some(ip) => Ok(ip),
                None => Err(
                    IpValidationError::InvalidIpAddress(
                        String::from_str("Invalid IP in X-Forwarded-For header: ").concat(t),
                    ),
                ),
            }
        },
        None => match real_ip {
            Some(s) => match parse_ip(s) {
                Some(ip) => Ok(ip),
                None => Err(
                    IpValidationError::InvalidIpAddress(
                        String::from_str("Invalid IP in X-Real-IP header: ").concat(s),
                    ),
                ),
            },
            None => Err(IpValidationError::MissingIpHeaders),
        },
    }
}

} // verus!
