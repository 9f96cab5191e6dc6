use vstd::prelude::*;
use vstd::string::{StrSliceExecFns, StringSliceAdditionalSpecFns};

verus! {

/// The bytes of `instance` as a C string: its UTF-8 bytes and a terminating nul.
pub open spec fn c_name(instance: &str) -> Seq<u8> {
    instance.spec_bytes().push(0u8)
}

/// Whether `instance` can be handed to the native layer as a C string
/// without being cut short, that is, holds no nul byte.
pub open spec fn valid_instance_name(instance: &str) -> bool {
    !instance.spec_bytes().contains(0u8)
}

/// The instance name as a nul-terminated C string, or `None` where it holds a
/// nul byte and the native layer would read a shorter name.
pub fn instance_c_name(instance: &str) -> (r: Option<Vec<u8>>)
    ensures
        r is Some <==> valid_instance_name(instance),
        r is Some ==> r->0@ == c_name(instance),
{
    let mut bytes = instance.as_bytes_vec();
    let n = bytes.len();
    let mut i: usize = 0;
    while i < n
        invariant
            n == bytes@.len(),
            bytes@ == instance.spec_bytes(),
            i <= n,
            forall|j: int| 0 <= j < i ==> bytes@[j] != 0u8,
        decreases n - i,
    {
        if bytes[i] == 0u8 {
            assert(instance.spec_bytes()[i as int] == 0u8);
            return None;
        }
        i = i + 1;
    }
    bytes.push(0u8);
    Some(bytes)
}

/// A service handle that the native layer produced for an accessor, identified
/// by the address of the native binder object.
#[derive(Debug, PartialEq, Eq, Structural)]
pub struct BinderHandle {
    raw: usize,
}

impl BinderHandle {
    pub closed spec fn spec_raw(&self) -> usize {
        self.raw
    }

    /// Address of the native binder object; never zero.
    pub fn raw(&self) -> (r: usize)
        ensures
            r == self.spec_raw(),
    {
        self.raw
    }
}

/// Exclusive owner of one native accessor object, identified by its address.
///
/// The value is not `Clone`: the native object is released exactly once, by
/// the one call of `into_raw` on the one owner.
#[derive(Debug)]
pub struct Accessor {
    handle: usize,
}

impl Accessor {
    /// Address of the native accessor object.
    pub closed spec fn spec_handle(&self) -> usize {
        self.handle
    }

    /// The handle is never null.
    pub closed spec fn wf(&self) -> bool {
        self.handle != 0
    }

    /// Creates the native accessor for `instance`: `create` receives the
    /// instance name as a C string and returns the address of the native
    /// object it made, zero where the native layer could not allocate it.
    pub fn new<F>(instance: &str, create: F) -> (r: Option<Accessor>)
        where
            F: FnOnce(&[u8]) -> usize,
        requires
            valid_instance_name(instance),
            forall|name: &[u8]| call_requires(create, (name,)),
        ensures
            exists|name: &[u8], h: usize|
                #![trigger call_ensures(create, (name,), h)]
                {
                    &&& name@ == c_name(instance)
                    &&& call_ensures(create, (name,), h)
                    &&& (r is Some <==> h != 0)
                    &&& r is Some ==> r->0.wf() && r->0.spec_handle() == h
                },
    {
        let name = match instance_c_name(instance) {
            Some(n) => n,
            None => {
                assert(false);
                return None;
            },
        };
        let h = create(name.as_slice());
        if h == 0 {
            None
        } else {
            Some(Accessor { handle: h })
        }
    }

    /// Address of the native accessor object.
    pub fn handle(&self) -> (r: usize)
        ensures
            r == self.spec_handle(),
    {
        self.handle
    }

    /// The service handle of this accessor: `fetch` asks the native layer for
    /// it given the accessor's address, and returns the address of an owned
    /// binder object, or zero where there is none.
    pub fn as_binder<G>(&self, fetch: G) -> (r: Option<BinderHandle>)
        where
            G: FnOnce(usize) -> usize,
        requires
            call_requires(fetch, (self.spec_handle(),)),
        ensures
            exists|raw: usize|
                #![trigger call_ensures(fetch, (self.spec_handle(),), raw)]
                {
                    &&& call_ensures(fetch, (self.spec_handle(),), raw)
                    &&& (r is Some <==> raw != 0)
                    &&& r is Some ==> r->0.spec_raw() == raw
                },
    {
        let raw = fetch(self.handle);
        if raw == 0 {
            None
        } else {
            Some(BinderHandle { raw })
        }
    }

    /// Gives up ownership: the address returned is to be released to the
    /// native layer exactly once.
    pub fn into_raw(self) -> (r: usize)
        ensures
            r == self.spec_handle(),
    {
        self.handle
    }
}

} // verus!
