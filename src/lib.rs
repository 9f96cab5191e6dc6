//! Verified core of an RPC binder accessor: the connection descriptors handed to
//! the native layer, the decisions of the resolution callback, the reference
//! count that keeps the resolver closure alive across the native boundary, and
//! the exclusive ownership of the native accessor handle.

mod accessor;
mod connection;
mod refcount;
mod resolve;

pub use accessor::{c_name, instance_c_name, valid_instance_name, Accessor, BinderHandle};
pub use connection::{
    ConnectionInfo, NativeConnectionInfo, UnixAddress, VsockAddress, AF_UNIX, AF_VSOCK,
};
pub use refcount::{
    balance, follows_protocol, lemma_create_then_destroy_frees, lemma_freed_exactly_at_last_release,
    lemma_freed_stays_freed, lemma_release_during_call_retains, run, step, CookieRefCount, RefEvent,
    RefOutcome,
};
pub use resolve::{connection_info, outcome_of_resolution, resolved_as, ResolveOutcome};
