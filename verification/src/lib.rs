//! Ownership and borrowing discipline for OS resource identifiers
//! (file descriptors on POSIX-like systems).
//!
//! A file descriptor is a plain integer issued by the kernel; it must be
//! released exactly once, or the resource leaks for the lifetime of the
//! process.  This crate provides the decision core of an ownership model
//! over such identifiers: an owning handle ([`OwnedFd`]) that is solely
//! responsible for releasing its identifier, and a non-owning view
//! ([`FdRef`]) that can observe the identifier but never release it.
//!
//! The two OS primitives involved — duplicate-handle and release — are
//! system calls performed by the embedding application.  This crate states
//! and proves what every outcome of the duplicate call means
//! ([`dup_result`], [`OwnedFd::from_dup_result`]), and keeps the ownership
//! bookkeeping itself free of OS interaction.

use vstd::prelude::*;

verus! {

/// Error from the OS resource layer, carrying the platform error code that
/// was current when the duplicate-handle call failed.
#[derive(Clone, Copy, Debug, PartialEq, Eq, Structural)]
pub struct OsError {
    /// The platform's last-error code.
    pub code: i32,
}

/// Interpret the return value of the OS duplicate-handle call.
///
/// The call reports failure through a negative return value, with the
/// platform error code available separately; a non-negative return value is
/// the freshly issued identifier.  `ret` is the call's return value and
/// `err_code` the error code that accompanied it.
pub fn dup_result(ret: i32, err_code: i32) -> (r: Result<i32, OsError>)
    ensures
        ret >= 0 ==> r == Result::<i32, OsError>::Ok(ret),
        ret < 0 ==> r == Result::<i32, OsError>::Err((OsError { code: err_code })),
{
    if ret < 0 {
        Err(OsError { code: err_code })
    } else {
        Ok(ret)
    }
}

/// The capability to surrender an owned resource identifier.
///
/// This is the collaborator contract for ownership transfer into this
/// crate: a one-shot, consuming operation that yields the identifier the
/// value owned and thereby gives up its own right to release it.
/// [`OwnedFd`] itself implements it, mirroring its relinquish operation.
pub trait IntoRawFd: Sized {
    /// The identifier this value currently owns.
    spec fn owned_id(&self) -> int;

    /// Surrender the owned identifier; the caller becomes responsible for
    /// releasing it.  Consuming `self` ensures the surrendering value can
    /// never release the identifier afterwards.
    fn into_raw_fd(self) -> (r: i32)
        ensures
            r as int == self.owned_id(),
    ;
}

/// An owning handle: holds exactly one resource identifier and is the only
/// value responsible for releasing it.
///
/// Ownership is exclusive and affine: every operation that ends this
/// handle's responsibility (relinquishing via [`IntoRawFd::into_raw_fd`])
/// consumes the handle, so a relinquished handle no longer exists to be
/// destroyed — release can happen at most once, enforced at compile time.
/// The release system call itself is the embedding application's final
/// step for a handle that was never relinquished.
pub struct OwnedFd {
    fd: i32,
}

/// A non-owning view of a resource identifier: it can be observed and used
/// to request a duplicate, but it can never release the identifier.
///
/// A view is only as valid as the guarantee it was derived under: it must
/// not be used past the lifetime of the owning handle (or equivalent
/// external guarantee) that backs it.  It is a thin wrapper holding the
/// identifier by value, so copying it copies no ownership.
#[derive(Clone, Copy)]
pub struct FdRef {
    fd: i32,
}

/// The owning handle an unconditional construction from `fd` yields.
pub closed spec fn owned_from_raw(fd: i32) -> OwnedFd {
    OwnedFd { fd }
}

/// The view a raw identifier wraps into.
pub closed spec fn view_from_raw(fd: i32) -> FdRef {
    FdRef { fd }
}

impl OwnedFd {
    /// The resource identifier this handle owns.
    pub closed spec fn id(&self) -> int {
        self.fd as int
    }

    /// The borrowed view derived from this handle.
    pub closed spec fn spec_borrow(&self) -> FdRef {
        FdRef { fd: self.fd }
    }

    /// Accept unconditional ownership of a raw identifier.
    ///
    /// Caller obligation, not checked here: `fd` is a valid identifier and
    /// no other owner will release it.  No duplication is performed; the
    /// transfer is zero-cost.
    pub fn from_owned_raw(fd: i32) -> (h: OwnedFd)
        ensures
            h == owned_from_raw(fd),
            h.id() == fd as int,
    {
        OwnedFd { fd }
    }

    /// Take over the identifier of any collaborator that can relinquish
    /// ownership.  The source is consumed; no duplication is performed.
    pub fn from<T: IntoRawFd>(source: T) -> (h: OwnedFd)
        ensures
            h.id() == source.owned_id(),
    {
        OwnedFd { fd: source.into_raw_fd() }
    }

    /// Adopt the result of an OS duplicate-handle call, as produced by
    /// [`dup_result`]: a fresh identifier becomes a new, independently
    /// owned handle; a failure is passed through unchanged.
    ///
    /// The adopted handle depends on the outcome alone, so duplication
    /// requested through a borrowed view and through the owning handle
    /// itself are indistinguishable once the OS has answered.
    pub fn from_dup_result(r: Result<i32, OsError>) -> (h: Result<OwnedFd, OsError>)
        ensures
            (r matches Ok(fd) ==> h matches Ok(nh) && nh == owned_from_raw(fd)),
            (r matches Ok(fd) ==> h matches Ok(nh) && nh.id() == fd as int),
            (r matches Err(e) ==> h == Result::<OwnedFd, OsError>::Err(e)),
    {
        match r {
            Ok(fd) => Ok(OwnedFd { fd }),
            Err(e) => Err(e),
        }
    }

    /// Observe the raw identifier without transferring ownership.
    pub fn as_raw_fd(&self) -> (r: i32)
        ensures
            r as int == self.id(),
    {
        self.fd
    }

    /// Derive a borrowed view of this handle's identifier.  The view must
    /// not outlive this handle's ownership of the identifier.
    pub fn borrow(&self) -> (v: FdRef)
        ensures
            v == self.spec_borrow(),
            v.id() == self.id(),
    {
        FdRef { fd: self.fd }
    }
}

impl IntoRawFd for OwnedFd {
    /// An owning handle owns exactly its identifier.
    open spec fn owned_id(&self) -> int {
        self.id()
    }

    /// Relinquish ownership: the caller receives the identifier and becomes
    /// responsible for releasing it.  The handle is consumed, so it will
    /// never release the identifier itself.
    fn into_raw_fd(self) -> (r: i32)
        ensures
            r as int == self.id(),
    {
        self.fd
    }
}

impl FdRef {
    /// The resource identifier this view refers to.
    pub closed spec fn id(&self) -> int {
        self.fd as int
    }

    /// Wrap a raw identifier in a non-owning view.
    ///
    /// Caller obligation, not checked here: `i` is a valid identifier and
    /// stays valid for as long as the view is used.  No ownership is taken.
    pub fn from_unowned_raw(i: i32) -> (v: FdRef)
        ensures
            v == view_from_raw(i),
            v.id() == i as int,
    {
        FdRef { fd: i }
    }

    /// Observe the raw identifier.  No OS interaction takes place.
    pub fn as_raw_fd(&self) -> (r: i32)
        ensures
            r as int == self.id(),
    {
        self.fd
    }
}

/// Law: constructing an owning handle unconditionally from a raw
/// identifier and then observing it returns exactly that identifier, for
/// every representable identifier.
pub proof fn lemma_from_raw_observe(i: i32)
    ensures
        owned_from_raw(i).id() == i as int,
{
}

/// Law: wrapping a raw identifier in a view and observing it returns
/// exactly that identifier, for every representable identifier — the
/// boundary values 0 and the maximum included.
pub proof fn lemma_view_round_trip(i: i32)
    ensures
        view_from_raw(i).id() == i as int,
{
}

/// Law: duplication yields a handle that observes a different identifier
/// than its source, provided the OS answered with an identifier other than
/// the source's — which the duplicate-handle call guarantees, since it
/// issues an identifier that is not currently in use while the source's
/// still is.  That OS-side guarantee itself lives at the system-call
/// boundary, outside this crate.
pub proof fn lemma_dup_observes_distinct(h: OwnedFd, ret: i32)
    requires
        ret as int != h.id(),
    ensures
        owned_from_raw(ret).id() != h.id(),
{
}

/// Law: a view derived from an owning handle observes exactly the
/// handle's identifier.  In particular, a duplicate requested through the
/// view hands the OS the same identifier as one requested through the
/// handle itself; since [`OwnedFd::from_dup_result`] adopts the outcome
/// alone, the two duplication paths are indistinguishable.
pub proof fn lemma_borrow_round_trip(h: OwnedFd)
    ensures
        h.spec_borrow().id() == h.id(),
{
}

} // verus!
