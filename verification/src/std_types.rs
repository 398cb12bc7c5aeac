//! Types of the standard library that have signatures and that vstd does not describe.
//!
//! Each declaration only makes the type known to Verus, as an opaque type: nothing about its
//! values is claimed.

use vstd::prelude::*;

verus! {

/// Declares `core::ops::RangeFrom`.
#[verifier::external_type_specification]
#[verifier::external_body]
#[verifier::reject_recursive_types(T)]
pub struct ExRangeFrom<T>(core::ops::RangeFrom<T>);

/// Declares `core::ops::RangeTo`.
#[verifier::external_type_specification]
#[verifier::external_body]
#[verifier::reject_recursive_types(T)]
pub struct ExRangeTo<T>(core::ops::RangeTo<T>);

/// Declares `core::ops::RangeToInclusive`.
#[verifier::external_type_specification]
#[verifier::external_body]
#[verifier::reject_recursive_types(T)]
pub struct ExRangeToInclusive<T>(core::ops::RangeToInclusive<T>);

/// Declares `core::num::Wrapping`.
#[verifier::external_type_specification]
#[verifier::external_body]
#[verifier::reject_recursive_types(T)]
pub struct ExWrapping<T>(core::num::Wrapping<T>);

/// Declares `core::num::Saturating`.
#[verifier::external_type_specification]
#[verifier::external_body]
#[verifier::reject_recursive_types(T)]
pub struct ExSaturating<T>(core::num::Saturating<T>);

/// Declares `core::pin::Pin`.
#[verifier::external_type_specification]
#[verifier::external_body]
#[verifier::reject_recursive_types(Ptr)]
pub struct ExPin<Ptr>(core::pin::Pin<Ptr>);

/// Declares `core::ops::RangeFull`.
#[verifier::external_type_specification]
#[verifier::external_body]
pub struct ExRangeFull(core::ops::RangeFull);

/// Declares `core::net::IpAddr`.
#[verifier::external_type_specification]
#[verifier::external_body]
pub struct ExIpAddr(core::net::IpAddr);

/// Declares `core::net::Ipv4Addr`.
#[verifier::external_type_specification]
#[verifier::external_body]
pub struct ExIpv4Addr(core::net::Ipv4Addr);

/// Declares `core::net::Ipv6Addr`.
#[verifier::external_type_specification]
#[verifier::external_body]
pub struct ExIpv6Addr(core::net::Ipv6Addr);

/// Declares `core::net::SocketAddr`.
#[verifier::external_type_specification]
#[verifier::external_body]
pub struct ExSocketAddr(core::net::SocketAddr);

/// Declares `core::net::SocketAddrV4`.
#[verifier::external_type_specification]
#[verifier::external_body]
pub struct ExSocketAddrV4(core::net::SocketAddrV4);

/// Declares `core::net::SocketAddrV6`.
#[verifier::external_type_specification]
#[verifier::external_body]
pub struct ExSocketAddrV6(core::net::SocketAddrV6);

/// Declares `std::time::Instant`.
#[verifier::external_type_specification]
#[verifier::external_body]
pub struct ExInstant(std::time::Instant);

/// Declares `std::time::SystemTime`.
#[verifier::external_type_specification]
#[verifier::external_body]
pub struct ExSystemTime(std::time::SystemTime);

/// Declares `std::path::Path`.
#[verifier::external_type_specification]
#[verifier::external_body]
pub struct ExPath(std::path::Path);

/// Declares `std::path::PathBuf`.
#[verifier::external_type_specification]
#[verifier::external_body]
pub struct ExPathBuf(std::path::PathBuf);


} // verus!
