//! Permissions on the pages of a guest.
use core::convert::{From, TryFrom};

use vstd::prelude::*;
use vstd::std_specs::convert::{FromSpec, TryFromSpec};

use crate::consts::{
    XENMEM_ACCESS_N, XENMEM_ACCESS_R, XENMEM_ACCESS_RW, XENMEM_ACCESS_RWX, XENMEM_ACCESS_RX,
    XENMEM_ACCESS_W, XENMEM_ACCESS_WX, XENMEM_ACCESS_X,
};

verus! {

/// The permissions that a guest has on a page.
#[derive(Copy, Clone, Debug, PartialEq, Eq, Structural)]
pub enum XenPageAccess {
    NIL,
    R,
    W,
    RW,
    X,
    RX,
    WX,
    RWX,
}

impl XenPageAccess {
    /// The number that stands for these permissions in the hypervisor interface
    /// (`xenmem_access_t`).
    pub open spec fn code(self) -> u32 {
        match self {
            XenPageAccess::NIL => XENMEM_ACCESS_N,
            XenPageAccess::R => XENMEM_ACCESS_R,
            XenPageAccess::W => XENMEM_ACCESS_W,
            XenPageAccess::RW => XENMEM_ACCESS_RW,
            XenPageAccess::X => XENMEM_ACCESS_X,
            XenPageAccess::RX => XENMEM_ACCESS_RX,
            XenPageAccess::WX => XENMEM_ACCESS_WX,
            XenPageAccess::RWX => XENMEM_ACCESS_RWX,
        }
    }
}

/// The permissions whose number is `code`, if there are any.
pub open spec fn access_of(code: u32) -> Option<XenPageAccess> {
    if code == XENMEM_ACCESS_N {
        Some(XenPageAccess::NIL)
    } else if code == XENMEM_ACCESS_R {
        Some(XenPageAccess::R)
    } else if code == XENMEM_ACCESS_W {
        Some(XenPageAccess::W)
    } else if code == XENMEM_ACCESS_RW {
        Some(XenPageAccess::RW)
    } else if code == XENMEM_ACCESS_X {
        Some(XenPageAccess::X)
    } else if code == XENMEM_ACCESS_RX {
        Some(XenPageAccess::RX)
    } else if code == XENMEM_ACCESS_WX {
        Some(XenPageAccess::WX)
    } else if code == XENMEM_ACCESS_RWX {
        Some(XenPageAccess::RWX)
    } else {
        None
    }
}

impl vstd::std_specs::convert::TryFromSpecImpl<u32> for XenPageAccess {
    open spec fn obeys_try_from_spec() -> bool {
        true
    }

    open spec fn try_from_spec(code: u32) -> Result<Self, Self::Error> {
        match access_of(code) {
            Some(access) => Ok(access),
            None => Err("not implemented"),
        }
    }
}

impl TryFrom<u32> for XenPageAccess {
    type Error = &'static str;

    /// The permissions with the number `access`; an error if there are none.
    fn try_from(access: u32) -> (result: Result<Self, Self::Error>) {
        match access {
            XENMEM_ACCESS_N => Ok(XenPageAccess::NIL),
            XENMEM_ACCESS_R => Ok(XenPageAccess::R),
            XENMEM_ACCESS_W => Ok(XenPageAccess::W),
            XENMEM_ACCESS_RW => Ok(XenPageAccess::RW),
            XENMEM_ACCESS_X => Ok(XenPageAccess::X),
            XENMEM_ACCESS_RX => Ok(XenPageAccess::RX),
            XENMEM_ACCESS_WX => Ok(XenPageAccess::WX),
            XENMEM_ACCESS_RWX => Ok(XenPageAccess::RWX),
            _ => Err("not implemented"),
        }
    }
}

impl vstd::std_specs::convert::FromSpecImpl<XenPageAccess> for u32 {
    open spec fn obeys_from_spec() -> bool {
        true
    }

    open spec fn from_spec(access: XenPageAccess) -> u32 {
        access.code()
    }
}

impl From<XenPageAccess> for u32 {
    /// The number that stands for `access`.
    fn from(access: XenPageAccess) -> (code: u32) {
        match access {
            XenPageAccess::NIL => XENMEM_ACCESS_N,
            XenPageAccess::R => XENMEM_ACCESS_R,
            XenPageAccess::W => XENMEM_ACCESS_W,
            XenPageAccess::RW => XENMEM_ACCESS_RW,
            XenPageAccess::X => XENMEM_ACCESS_X,
            XenPageAccess::RX => XENMEM_ACCESS_RX,
            XenPageAccess::WX => XENMEM_ACCESS_WX,
            XenPageAccess::RWX => XENMEM_ACCESS_RWX,
        }
    }
}

/// Permissions survive the way to their number and back.
pub proof fn law_access_round_trip(access: XenPageAccess)
    ensures
        <XenPageAccess as TryFromSpec<u32>>::try_from_spec(
            <u32 as FromSpec<XenPageAccess>>::from_spec(access),
        ) == Ok::<XenPageAccess, &'static str>(access),
{
}

/// A number that names permissions is the number of those permissions, and no other number is
/// taken for them.
pub proof fn law_code_round_trip(code: u32)
    ensures
        <XenPageAccess as TryFromSpec<u32>>::try_from_spec(code) matches Ok(access)
            ==> <u32 as FromSpec<XenPageAccess>>::from_spec(access) == code,
        <XenPageAccess as TryFromSpec<u32>>::try_from_spec(code) is Ok <==> exists|
            access: XenPageAccess,
        | #[trigger] <u32 as FromSpec<XenPageAccess>>::from_spec(access) == code,
{
    if let Some(access) = access_of(code) {
        assert(<u32 as FromSpec<XenPageAccess>>::from_spec(access) == code);
    }
}

} // verus!
