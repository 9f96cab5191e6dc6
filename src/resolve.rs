use crate::connection::{ConnectionInfo, NativeConnectionInfo};
use vstd::prelude::*;
use vstd::utf8::{decode_utf8, valid_utf8};

verus! {

/// Relies on `std::str::from_utf8`: it accepts exactly the byte strings that
/// are valid UTF-8 and reads them as the characters they encode.
#[verifier::external_body]
fn utf8_str(bytes: &[u8]) -> (r: Option<&str>)
    ensures
        r is Some <==> valid_utf8(bytes@),
        r is Some ==> r->0@ == decode_utf8(bytes@),
{
    std::str::from_utf8(bytes).ok()
}

/// What one call of the resolution callback hands back to the native layer.
#[derive(Clone, Debug)]
pub enum ResolveOutcome {
    /// The cookie or the instance-name pointer was null.
    NullArgument,
    /// The instance name is not valid UTF-8.
    InvalidName,
    /// The resolver does not know the instance.
    Unknown,
    /// The resolver gave an address; the native layer owns this value.
    Resolved(NativeConnectionInfo),
}

/// `r` is what the callback returns when the resolver answered `res`.
pub open spec fn resolved_as(r: ResolveOutcome, res: Option<ConnectionInfo>) -> bool {
    match res {
        None => r is Unknown,
        Some(info) => {
            &&& r is Resolved
            &&& r->Resolved_0.spec_address() == info
            &&& r->Resolved_0.spec_family() == info.spec_family()
            &&& r->Resolved_0.spec_socklen() == info.spec_socklen()
        },
    }
}

impl ResolveOutcome {
    /// The native result: a connection info, or nothing (a null pointer).
    pub fn into_native(self) -> (r: Option<NativeConnectionInfo>)
        ensures
            r is Some <==> self is Resolved,
            r is Some ==> r->0 == self->Resolved_0,
    {
        match self {
            ResolveOutcome::Resolved(n) => Some(n),
            _ => None,
        }
    }
}

/// The outcome for a resolver's answer: `Unknown` where it declined, else the
/// native form of the address it gave.
pub fn outcome_of_resolution(res: Option<ConnectionInfo>) -> (r: ResolveOutcome)
    ensures
        resolved_as(r, res),
{
    match res {
        None => ResolveOutcome::Unknown,
        Some(info) => ResolveOutcome::Resolved(NativeConnectionInfo::from_connection_info(info)),
    }
}

/// The resolution callback: `callback` is the resolver behind the cookie
/// (`None` for a null cookie) and `instance` the bytes of the instance name
/// before its terminating nul (`None` for a null pointer).
pub fn connection_info<F>(callback: Option<&F>, instance: Option<&[u8]>) -> (r: ResolveOutcome)
    where
        F: Fn(&str) -> Option<ConnectionInfo>,
    requires
        callback is Some ==> forall|s: &str| call_requires(*callback->0, (s,)),
    ensures
        (callback is None || instance is None) ==> r is NullArgument,
        (callback is Some && instance is Some && !valid_utf8(instance->0@)) ==> r is InvalidName,
        (callback is Some && instance is Some && valid_utf8(instance->0@)) ==> exists|
            s: &str,
            res: Option<ConnectionInfo>,
        |
            #![trigger call_ensures(*callback->0, (s,), res)]
            s@ == decode_utf8(instance->0@) && call_ensures(*callback->0, (s,), res)
                && resolved_as(r, res),
{
    let (callback, instance) = match (callback, instance) {
        (Some(c), Some(i)) => (c, i),
        _ => return ResolveOutcome::NullArgument,
    };
    let name = match utf8_str(instance) {
        Some(s) => s,
        None => return ResolveOutcome::InvalidName,
    };
    let res = callback(name);
    outcome_of_resolution(res)
}

} // verus!
