//! The buffer boundary adapter: every buffer-related crossing of the
//! embedding/host seam goes through the functions here.
//!
//! Each operation is a boundary call followed by a status check.  Exactly one
//! status is recoverable — the host already has an exception in flight — and
//! it is surfaced as [`BufferError::PendingHostException`]; every other
//! non-success status would mean the boundary itself is inconsistent, so the
//! operations require the conditions under which it cannot occur and prove
//! the status check can never fail.  Raw ranges are re-queried from the host
//! on every access and never cached across calls.

use vstd::prelude::*;

use crate::host;
use crate::host::BufModel;
use crate::host::Env;
use crate::host::FinalizerHint;
use crate::host::Handle;
use crate::host::RawParts;
use crate::host::Status;

verus! {

/// The one recoverable failure of a boundary call: the host already has an
/// exception in flight, and the operation must report that instead of
/// touching the host again.
#[derive(Clone, Copy, PartialEq, Eq, Structural, Debug)]
pub enum BufferError {
    /// An exception is already pending inside the host; the caller should let
    /// the host's own exception propagation take over.
    PendingHostException,
}

/// Allocate a host-owned buffer of `len` bytes without initializing it, and
/// hand back the raw range so the caller can write every byte itself.
///
/// Until the caller has overwritten the whole range, its contents are
/// unspecified; the handle must not be shown to other code before that.
/// Fails exactly when the host has an exception pending, and then changes
/// nothing.
pub fn uninitialized(env: &mut Env, len: usize) -> (r: Result<(Handle, RawParts), BufferError>)
    ensures
        r is Err <==> old(env).pending(),
        final(env).pending() == old(env).pending(),
        r is Err ==> ({
            &&& r->Err_0 == BufferError::PendingHostException
            &&& final(env)@ == old(env)@
        }),
        r is Ok ==> ({
            let h = r->Ok_0.0;
            let p = r->Ok_0.1;
            &&& h.id() == old(env)@.len()
            &&& p.handle == h
            &&& p.len == len
            &&& final(env)@.len() == old(env)@.len() + 1
            &&& final(env).live(h)
            &&& !final(env).adopted(h)
            &&& final(env).bytes(h).len() == len
            &&& final(env).range_live(p)
            &&& forall|i: int| 0 <= i < old(env)@.len() ==> final(env)@[i] == old(env)@[i]
        }),
{
    let (status, out) = host::create_buffer(env, len);
    if status == Status::PendingException {
        return Err(BufferError::PendingHostException);
    }
    // Any other non-success status would mean the boundary is inconsistent;
    // the host contract rules it out here.
    assert(status == Status::Success);
    let hp = out.unwrap();
    Ok(hp)
}

/// Allocate a host-owned buffer of `len` bytes and zero every byte of it
/// before returning.
///
/// Fails exactly when the host has an exception pending, and then changes
/// nothing.
pub fn new(env: &mut Env, len: usize) -> (r: Result<Handle, BufferError>)
    ensures
        r is Err <==> old(env).pending(),
        final(env).pending() == old(env).pending(),
        r is Err ==> ({
            &&& r->Err_0 == BufferError::PendingHostException
            &&& final(env)@ == old(env)@
        }),
        r is Ok ==> ({
            let h = r->Ok_0;
            &&& h.id() == old(env)@.len()
            &&& final(env)@.len() == old(env)@.len() + 1
            &&& final(env).live(h)
            &&& !final(env).adopted(h)
            &&& final(env).bytes(h) == Seq::new(len as nat, |i: int| 0u8)
            &&& forall|i: int| 0 <= i < old(env)@.len() ==> final(env)@[i] == old(env)@[i]
        }),
{
    match uninitialized(env, len) {
        Err(e) => Err(e),
        Ok((h, p)) => {
            host::write_bytes(env, p, 0u8);
            proof {
                assert(final(env).bytes(h) =~= Seq::new(len as nat, |i: int| 0u8));
            }
            Ok(h)
        }
    }
}

/// Adopt embedding-owned storage as a host-visible buffer without copying.
///
/// The storage moves to a stable home before its range is captured, the host
/// registers the finalizer for it, and from here on the storage belongs to
/// the registered identity token: the host will release it through
/// [`drop_external`] at most once, at a time of its choosing.  Registration
/// is defined to always succeed, so a pending exception — the one condition
/// under which it could not — is excluded up front.
pub fn new_external(env: &mut Env, data: Vec<u8>) -> (r: Handle)
    requires
        !old(env).pending(),
    ensures
        r.id() == old(env)@.len(),
        final(env)@ == old(env)@.push(BufModel::Adopted { contents: data@ }),
        final(env).live(r),
        final(env).adopted(r),
        final(env).bytes(r) == data@,
        !final(env).pending(),
{
    let (status, out) = host::create_external_buffer(env, data);
    // Registration cannot fail: the host contract leaves no non-success
    // status open once no exception is pending.
    assert(status == Status::Success);
    out.unwrap()
}

/// The finalizer registered for every adopted buffer.
///
/// The host invokes it at most once per adoption, at a host-chosen time, on
/// a host-chosen thread, with the identity token as its only input.  It
/// reconstructs the adopted storage from the token and immediately drops it,
/// releasing the memory to the embedding-side allocator.  It keeps no state
/// of its own and never panics: if it were ever re-entered, the storage is
/// already gone and the call changes nothing, so nothing can be released
/// twice.
pub fn drop_external(env: &mut Env, hint: FinalizerHint)
    requires
        old(env).hint_registered(hint),
    ensures
        final(env)@ == old(env)@.update(hint.id(), BufModel::Released),
        final(env).pending() == old(env).pending(),
        final(env).hint_released(hint),
        old(env).hint_released(hint) ==> final(env)@ == old(env)@,
{
    let _storage = host::take_adopted_storage(env, hint);
}

/// Recover the live byte range of a buffer as a view.
///
/// The range is queried from the host at this instant and materialized as a
/// fresh copy of the bytes; an empty buffer yields an empty view without the
/// host-supplied pointer ever being dereferenced.  Writes go back through
/// the raw-range primitives of [`host`].  Defined only for a live handle
/// with no exception pending — any other state is a boundary inconsistency.
pub fn as_mut_slice(env: &Env, buf: Handle) -> (r: Vec<u8>)
    requires
        env.live(buf),
        !env.pending(),
    ensures
        r@ == env.bytes(buf),
{
    let (status, out) = host::get_buffer_info(env, buf);
    // The accessor is defined only for live handles, so the query succeeded.
    assert(status == Status::Success);
    let (parts, len) = out.unwrap();
    if len == 0 {
        // The host may hand back a meaningless pointer for an empty buffer;
        // it must not be dereferenced, so the empty view is built directly.
        let r: Vec<u8> = Vec::new();
        proof {
            assert(env.bytes(buf) =~= Seq::<u8>::empty());
        }
        r
    } else {
        host::read_range(env, parts)
    }
}

/// The current length, in bytes, of the buffer a handle refers to.
///
/// The same host query as [`as_mut_slice`], reduced to the length, so the
/// two always agree at the same instant.  Defined only for a live handle
/// with no exception pending.
pub fn size(env: &Env, buf: Handle) -> (r: usize)
    requires
        env.live(buf),
        !env.pending(),
    ensures
        r == env.bytes(buf).len(),
{
    let (status, out) = host::get_buffer_info(env, buf);
    assert(status == Status::Success);
    let (_parts, len) = out.unwrap();
    len
}

/// The length [`size`] reports and the view [`as_mut_slice`] returns are
/// both pinned to the bytes of the same buffer in the same host state, so
/// the two always agree at the same logical instant.
pub proof fn lemma_size_matches_view(env: Env, h: Handle, reported: usize, view: Seq<u8>)
    requires
        reported == env.bytes(h).len(),
        view == env.bytes(h),
    ensures
        reported == view.len(),
{
}

/// Writing bytes through a live raw range and then reading the buffer back
/// yields exactly those bytes: `before` and `after` are host states related
/// as [`host::write_range`] relates them, and in `after` the buffer holds
/// `written` and is still live.
pub proof fn lemma_write_then_view(before: Env, after: Env, h: Handle, written: Seq<u8>)
    requires
        before.live(h),
        after@ == before@.update(h.id(), before@[h.id()].with_contents(written)),
    ensures
        after.live(h),
        after.bytes(h) == written,
{
}

/// One adoption can release its storage at most once: releasing the same
/// heap slot a second time leaves the heap exactly as the first release
/// left it, so a hypothetical repeat of a finalizer has no further effect.
pub proof fn lemma_release_at_most_once(heap: Seq<BufModel>, k: int)
    requires
        0 <= k < heap.len(),
    ensures
        heap.update(k, BufModel::Released).update(k, BufModel::Released) == heap.update(
            k,
            BufModel::Released,
        ),
{
    assert(heap.update(k, BufModel::Released).update(k, BufModel::Released) =~= heap.update(
        k,
        BufModel::Released,
    ));
}

} // verus!
