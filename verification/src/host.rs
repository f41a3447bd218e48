//! A model of the host runtime's buffer machinery.
//!
//! The host keeps a managed heap of buffer objects and a pending-exception
//! flag.  [`Env`] models exactly that state: a sequence of slots, each either
//! allocated by the host itself or adopted from the embedding, plus the flag.
//! Handles, raw byte ranges and finalizer tokens are opaque indices into that
//! heap; every read or write of a raw range carries, as a precondition, the
//! validity that the real boundary leaves to the caller's discipline (the
//! handle still live, the range not resized, the range non-empty when
//! dereferenced).
//!
//! In the embedding, adopted storage is pinned by boxing it before its
//! address is taken; here the heap slot itself is the stable home of the
//! storage, so the identity token a finalizer needs is minted at registration
//! time and can be recovered with [`registered_hint`].

use vstd::prelude::*;

verus! {

/// Outcome of a single boundary call into the host.
#[derive(Clone, Copy, PartialEq, Eq, Structural, Debug)]
pub enum Status {
    /// The call succeeded.
    Success,
    /// An exception is already active inside the host; the call did nothing.
    PendingException,
    /// The call was handed a handle the host does not know.
    InvalidArg,
}

/// An opaque token for a buffer object inside the host's managed heap.
#[derive(Clone, Copy, PartialEq, Eq, Structural, Debug)]
pub struct Handle {
    index: usize,
}

impl Handle {
    /// The identity of the heap slot this handle refers to.
    pub closed spec fn id(self) -> int {
        self.index as int
    }
}

/// A raw byte range handed across the boundary: the model of a
/// `(pointer, length)` pair.
///
/// It carries no access right of its own.  Reads and writes through it are
/// defined only while [`Env::range_live`] holds — the handle it was queried
/// from is still live and the host has not resized the buffer since.
#[derive(Clone, Copy, PartialEq, Eq, Structural, Debug)]
pub struct RawParts {
    /// The handle whose buffer this range points into.
    pub handle: Handle,
    /// The length of the range, in bytes.
    pub len: usize,
}

/// The opaque identity token registered with an adopted buffer.  The host
/// hands it to the finalizer at reclamation time; nothing else may use it.
#[derive(Clone, Copy, PartialEq, Eq, Structural, Debug)]
pub struct FinalizerHint {
    index: usize,
}

impl FinalizerHint {
    /// The identity of the heap slot whose storage this token releases.
    pub closed spec fn id(self) -> int {
        self.index as int
    }
}

/// The mathematical model of one buffer object in the host heap.
pub enum BufModel {
    /// A buffer the host allocated itself and will reclaim itself.
    HostOwned { contents: Seq<u8> },
    /// An adopted, embedding-owned buffer whose storage the finalizer has not
    /// yet released.
    Adopted { contents: Seq<u8> },
    /// An adopted buffer after its finalizer ran: the handle is dead and the
    /// storage has gone back to the embedding-side allocator.
    Released,
}

impl BufModel {
    /// The same buffer object with its bytes replaced by `c`; a released
    /// buffer has no bytes to replace.
    pub open spec fn with_contents(self, c: Seq<u8>) -> BufModel {
        match self {
            BufModel::HostOwned { .. } => BufModel::HostOwned { contents: c },
            BufModel::Adopted { .. } => BufModel::Adopted { contents: c },
            BufModel::Released => BufModel::Released,
        }
    }

    /// The bytes this buffer object currently holds.
    pub open spec fn contents(self) -> Seq<u8> {
        match self {
            BufModel::HostOwned { contents } => contents,
            BufModel::Adopted { contents } => contents,
            BufModel::Released => Seq::empty(),
        }
    }
}

/// One buffer object as the host actually stores it.
enum Slot {
    /// Allocated by the host; reclaimed by the host alone.
    Owned { bytes: Vec<u8> },
    /// Adopted from the embedding; `storage` is the embedding-owned container,
    /// present until the registered finalizer releases it.
    External { storage: Option<Vec<u8>> },
}

impl Slot {
    spec fn model(self) -> BufModel {
        match self {
            Slot::Owned { bytes } => BufModel::HostOwned { contents: bytes@ },
            Slot::External { storage: Some(bytes) } => BufModel::Adopted { contents: bytes@ },
            Slot::External { storage: None } => BufModel::Released,
        }
    }
}

/// The model of the host runtime: its heap of buffer objects and its
/// exception state.  Its view is the heap as a sequence of [`BufModel`]s.
pub struct Env {
    slots: Vec<Slot>,
    pending_exception: bool,
}

impl View for Env {
    type V = Seq<BufModel>;

    closed spec fn view(&self) -> Seq<BufModel> {
        self.slots@.map_values(|s: Slot| s.model())
    }
}

impl Env {
    /// Whether an exception is currently active inside the host.
    pub closed spec fn pending(self) -> bool {
        self.pending_exception
    }

    /// Whether `h` refers to a live buffer object: one the host created and,
    /// for an adopted buffer, whose storage is not yet released.
    pub open spec fn live(self, h: Handle) -> bool {
        &&& 0 <= h.id() < self@.len()
        &&& !(self@[h.id()] is Released)
    }

    /// The bytes of the buffer `h` refers to (meaningful only while
    /// `live(h)`).
    pub open spec fn bytes(self, h: Handle) -> Seq<u8> {
        self@[h.id()].contents()
    }

    /// Whether `h` refers to an adopted buffer, live or already finalized.
    pub open spec fn adopted(self, h: Handle) -> bool {
        &&& 0 <= h.id() < self@.len()
        &&& !(self@[h.id()] is HostOwned)
    }

    /// Whether `t` is the identity token of some adopted buffer.
    pub open spec fn hint_registered(self, t: FinalizerHint) -> bool {
        &&& 0 <= t.id() < self@.len()
        &&& !(self@[t.id()] is HostOwned)
    }

    /// Whether the adopted storage `t` identifies has been released.
    pub open spec fn hint_released(self, t: FinalizerHint) -> bool {
        &&& self.hint_registered(t)
        &&& self@[t.id()] is Released
    }

    /// Whether the raw range `p` may still be read or written: its handle is
    /// live and the host has not resized the buffer since `p` was produced.
    pub open spec fn range_live(self, p: RawParts) -> bool {
        &&& self.live(p.handle)
        &&& self.bytes(p.handle).len() == p.len
    }

    /// A fresh host: an empty heap, no exception active.
    pub fn new() -> (env: Env)
        ensures
            !env.pending(),
            env@ == Seq::<BufModel>::empty(),
    {
        let env = Env { slots: Vec::new(), pending_exception: false };
        proof {
            assert(env@ =~= Seq::<BufModel>::empty());
        }
        env
    }

    /// The host raises an exception.  (In the embedding this happens inside
    /// host code; a test harness stands in for the host here.)
    pub fn raise_exception(&mut self)
        ensures
            final(self).pending(),
            final(self)@ == old(self)@,
    {
        self.pending_exception = true;
    }

    /// The host's own exception machinery resolves the active exception.
    pub fn clear_exception(&mut self)
        ensures
            !final(self).pending(),
            final(self)@ == old(self)@,
    {
        self.pending_exception = false;
    }
}

/// A byte vector of length `len` holding `val` everywhere.
fn filled_bytes(len: usize, val: u8) -> (v: Vec<u8>)
    ensures
        v@.len() == len,
        forall|i: int| 0 <= i < len ==> v@[i] == val,
{
    let mut v: Vec<u8> = Vec::new();
    while v.len() < len
        invariant
            v@.len() <= len,
            forall|i: int| 0 <= i < v@.len() ==> v@[i] == val,
        decreases len - v@.len(),
    {
        v.push(val);
    }
    v
}

/// Boundary call: the host allocates a buffer of `len` bytes in its own heap.
///
/// The bytes of a fresh allocation are deliberately left unstated — the host
/// does not zero them (the model fills them with a junk byte), so a caller
/// who needs known contents must write every byte first.
pub fn create_buffer(env: &mut Env, len: usize) -> (r: (Status, Option<(Handle, RawParts)>))
    ensures
        old(env).pending() ==> ({
            &&& r.0 == Status::PendingException
            &&& r.1 is None
            &&& *final(env) == *old(env)
        }),
        !old(env).pending() ==> ({
            &&& r.0 == Status::Success
            &&& r.1 is Some
            &&& r.1->Some_0.0.id() == old(env)@.len()
            &&& r.1->Some_0.1.handle == r.1->Some_0.0
            &&& r.1->Some_0.1.len == len
            &&& final(env)@.len() == old(env)@.len() + 1
            &&& final(env)@[old(env)@.len() as int] is HostOwned
            &&& final(env).bytes(r.1->Some_0.0).len() == len
            &&& forall|i: int| 0 <= i < old(env)@.len() ==> final(env)@[i] == old(env)@[i]
            &&& !final(env).pending()
        }),
{
    if env.pending_exception {
        (Status::PendingException, None)
    } else {
        let index = env.slots.len();
        let bytes = filled_bytes(len, 0xA5u8);
        let ghost fresh = bytes@;
        env.slots.push(Slot::Owned { bytes });
        proof {
            assert(env@ =~= old(env)@.push(BufModel::HostOwned { contents: fresh }));
        }
        let h = Handle { index };
        (Status::Success, Some((h, RawParts { handle: h, len })))
    }
}

/// Boundary call: the host wraps embedding-owned storage as a buffer object
/// without copying it, and registers it for finalization.
///
/// The heap slot is the stable home of the storage from here on; the token
/// that identifies the storage to the finalizer is minted here and kept by
/// the host (see [`registered_hint`]).
pub fn create_external_buffer(env: &mut Env, data: Vec<u8>) -> (r: (Status, Option<Handle>))
    ensures
        old(env).pending() ==> ({
            &&& r.0 == Status::PendingException
            &&& r.1 is None
            &&& *final(env) == *old(env)
        }),
        !old(env).pending() ==> ({
            &&& r.0 == Status::Success
            &&& r.1 is Some
            &&& r.1->Some_0.id() == old(env)@.len()
            &&& final(env)@ == old(env)@.push(BufModel::Adopted { contents: data@ })
            &&& !final(env).pending()
        }),
{
    if env.pending_exception {
        (Status::PendingException, None)
    } else {
        let index = env.slots.len();
        let ghost adopted = data@;
        env.slots.push(Slot::External { storage: Some(data) });
        proof {
            assert(env@ =~= old(env)@.push(BufModel::Adopted { contents: adopted }));
        }
        (Status::Success, Some(Handle { index }))
    }
}

/// Boundary call: the host reports the current raw range of a buffer.
///
/// The range is valid only at this instant — the host may move or reclaim
/// the buffer between calls, which is why nothing here may be cached.
pub fn get_buffer_info(env: &Env, h: Handle) -> (r: (Status, Option<(RawParts, usize)>))
    ensures
        env.pending() ==> r.0 == Status::PendingException && r.1 is None,
        !env.pending() && !env.live(h) ==> r.0 == Status::InvalidArg && r.1 is None,
        !env.pending() && env.live(h) ==> ({
            &&& r.0 == Status::Success
            &&& r.1 is Some
            &&& r.1->Some_0.0.handle == h
            &&& r.1->Some_0.0.len == env.bytes(h).len()
            &&& r.1->Some_0.1 == env.bytes(h).len()
        }),
{
    if env.pending_exception {
        return (Status::PendingException, None);
    }
    if h.index >= env.slots.len() {
        return (Status::InvalidArg, None);
    }
    let len_opt: Option<usize> = match &env.slots[h.index] {
        Slot::Owned { bytes } => Some(bytes.len()),
        Slot::External { storage: Some(bytes) } => Some(bytes.len()),
        Slot::External { storage: None } => None,
    };
    match len_opt {
        Some(len) => (Status::Success, Some((RawParts { handle: h, len }, len))),
        None => (Status::InvalidArg, None),
    }
}

/// Raw memory read: the bytes behind a live, non-empty raw range.
///
/// The two preconditions are exactly the obligations the real boundary
/// leaves to the caller: the range must still be live, and the pointer of an
/// empty range must never be dereferenced.
pub fn read_range(env: &Env, p: RawParts) -> (r: Vec<u8>)
    requires
        env.range_live(p),
        p.len > 0,
    ensures
        r@ == env.bytes(p.handle),
{
    let src_opt: Option<&Vec<u8>> = match &env.slots[p.handle.index] {
        Slot::Owned { bytes } => Some(bytes),
        Slot::External { storage: Some(bytes) } => Some(bytes),
        Slot::External { storage: None } => None,
    };
    let src = src_opt.unwrap();
    let mut out: Vec<u8> = Vec::new();
    let mut j: usize = 0;
    while j < src.len()
        invariant
            j <= src@.len(),
            out@.len() == j,
            forall|i: int| 0 <= i < j ==> out@[i] == src@[i],
        decreases src@.len() - j,
    {
        out.push(src[j]);
        j += 1;
    }
    proof {
        assert(out@ =~= src@);
    }
    out
}

/// Raw memory write: replace the bytes behind a live raw range with `data`.
///
/// Defined only while the range is live and `data` covers it exactly — the
/// model of writing `p.len` bytes through the raw pointer.
pub fn write_range(env: &mut Env, p: RawParts, data: Vec<u8>)
    requires
        old(env).range_live(p),
        data@.len() == p.len,
    ensures
        final(env)@ == old(env)@.update(
            p.handle.id(),
            old(env)@[p.handle.id()].with_contents(data@),
        ),
        final(env).pending() == old(env).pending(),
{
    let ghost written = data@;
    let slot = &mut env.slots[p.handle.index];
    match slot {
        Slot::Owned { bytes } => {
            *bytes = data;
        }
        Slot::External { storage } => {
            match storage {
                Some(bytes) => {
                    *bytes = data;
                }
                None => {}
            }
        }
    }
    proof {
        assert(env@ =~= old(env)@.update(
            p.handle.id(),
            old(env)@[p.handle.id()].with_contents(written),
        ));
    }
}

/// Raw memory write: set every byte behind a live raw range to `val` — the
/// model of writing a fill byte through the raw pointer.
pub fn write_bytes(env: &mut Env, p: RawParts, val: u8)
    requires
        old(env).range_live(p),
    ensures
        final(env)@ == old(env)@.update(
            p.handle.id(),
            old(env)@[p.handle.id()].with_contents(Seq::new(p.len as nat, |i: int| val)),
        ),
        final(env).pending() == old(env).pending(),
{
    let data = filled_bytes(p.len, val);
    proof {
        assert(data@ =~= Seq::new(p.len as nat, |i: int| val));
    }
    write_range(env, p, data);
}

/// The identity token the host keeps for an adopted buffer; handing it out
/// models the host invoking the registered finalizer with it.
pub fn registered_hint(env: &Env, h: Handle) -> (t: FinalizerHint)
    requires
        env.adopted(h),
    ensures
        t.id() == h.id(),
{
    FinalizerHint { index: h.index }
}

/// Reconstruct the adopted storage a token identifies, removing it from the
/// heap slot — the model of turning the token back into the owning
/// container.  The storage can be taken at most once: a second call finds
/// the slot already released and returns nothing.
pub fn take_adopted_storage(env: &mut Env, t: FinalizerHint) -> (r: Option<Vec<u8>>)
    requires
        old(env).hint_registered(t),
    ensures
        final(env)@ == old(env)@.update(t.id(), BufModel::Released),
        final(env).pending() == old(env).pending(),
        r is Some <==> !old(env).hint_released(t),
        r is Some ==> r->Some_0@ == old(env)@[t.id()].contents(),
        old(env).hint_released(t) ==> final(env)@ == old(env)@,
{
    let slot = &mut env.slots[t.index];
    let r = match slot {
        Slot::Owned { .. } => None,
        Slot::External { storage } => storage.take(),
    };
    proof {
        assert(env@ =~= old(env)@.update(t.id(), BufModel::Released));
        if old(env).hint_released(t) {
            assert(env@ =~= old(env)@);
        }
    }
    r
}

/// Whether the adopted storage a token identifies has already been released.
pub fn hint_is_released(env: &Env, t: FinalizerHint) -> (r: bool)
    requires
        env.hint_registered(t),
    ensures
        r == env.hint_released(t),
{
    match &env.slots[t.index] {
        Slot::Owned { .. } => false,
        Slot::External { storage } => storage.is_none(),
    }
}

} // verus!
