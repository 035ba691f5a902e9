//! CMS/PKCS#7 message rules.
//!
//! Opening, updating and reading messages (`CryptMsgOpenToEncode`,
//! `CryptMsgUpdate`, `CryptMsgGetParam`, ...) are calls into the CSP;
//! this module holds the decisions made on their inputs and replies.
use vstd::prelude::*;
use crate::raw_constants::{CMSG_ENVELOPED, CMSG_SIGNED, CMSG_SIGNED_AND_ENVELOPED};
use crate::raw_types::DWORD;
use crate::types::error::{CpcspError, CpcspResult};

verus! {

/// Whether a message of type `t` carries signatures.
pub open spec fn signed_type(t: DWORD) -> bool {
    t == CMSG_SIGNED || t == CMSG_SIGNED_AND_ENVELOPED
}

/// Whether a message of type `t` is encrypted for recipients.
pub open spec fn enveloped_type(t: DWORD) -> bool {
    t == CMSG_ENVELOPED || t == CMSG_SIGNED_AND_ENVELOPED
}

/// A message type is both signed and enveloped exactly when it is
/// `CMSG_SIGNED_AND_ENVELOPED`.
pub proof fn law_signed_and_enveloped(t: DWORD)
    ensures
        signed_type(t) && enveloped_type(t) <==> t == CMSG_SIGNED_AND_ENVELOPED,
{
}

/// Exactly two message types carry signatures: signed (2) and
/// signed-and-enveloped (4); data (1), enveloped (3), hashed (5) and every
/// other type do not.
pub proof fn law_signed_types(t: DWORD)
    ensures
        signed_type(t) <==> (t == 2 || t == 4),
{
}

/// Exactly two message types are encrypted for recipients: enveloped (3)
/// and signed-and-enveloped (4); data (1), signed (2) and every other type
/// are not.
pub proof fn law_enveloped_types(t: DWORD)
    ensures
        enveloped_type(t) <==> (t == 3 || t == 4),
{
}

/// Whether the type read from a message (`CMSG_TYPE_PARAM`) is signed or
/// signed-and-enveloped; a failed read counts as not signed.
pub fn is_signed(msg_type: CpcspResult<DWORD>) -> (b: bool)
    ensures
        b == (msg_type matches Ok(t) && signed_type(t)),
        b ==> (msg_type matches Ok(t) && (t == 2 || t == 4)),
        (msg_type matches Ok(t) && (t == 2 || t == 4)) ==> b,
{
    match msg_type {
        Ok(t) => t == CMSG_SIGNED || t == CMSG_SIGNED_AND_ENVELOPED,
        Err(_) => false,
    }
}

/// Whether the type read from a message is enveloped or
/// signed-and-enveloped; a failed read counts as not enveloped.
pub fn is_enveloped(msg_type: CpcspResult<DWORD>) -> (b: bool)
    ensures
        b == (msg_type matches Ok(t) && enveloped_type(t)),
        b ==> (msg_type matches Ok(t) && (t == 3 || t == 4)),
        (msg_type matches Ok(t) && (t == 3 || t == 4)) ==> b,
{
    match msg_type {
        Ok(t) => t == CMSG_ENVELOPED || t == CMSG_SIGNED_AND_ENVELOPED,
        Err(_) => false,
    }
}

/// A message needs at least one recipient (or signer): an empty list is
/// `ERROR_INVALID_PARAMETER` (0x57), before any call.
pub fn require_participants(count: usize) -> (r: CpcspResult<()>)
    ensures
        r is Ok <==> count != 0,
        r matches Err(e) ==> e@ == 0x57,
{
    if count == 0 {
        Err(CpcspError::from_raw(0x57))
    } else {
        Ok(())
    }
}

} // verus!
