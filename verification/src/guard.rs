//! Ownership wrapper around a raw file descriptor.
//!
//! A live, armed guard owns its descriptor and hands it out for closing
//! exactly once: either through [`DescriptorGuard::release`] on a failure
//! path, or not at all after [`DescriptorGuard::disarm`] has transferred
//! ownership elsewhere (to a standard stream slot). A descriptor value below
//! zero is invalid and is never handed out: closing it must be a no-op.

use vstd::prelude::*;

verus! {

/// A raw OS file descriptor together with a single-use ownership flag.
#[derive(Clone, Copy, PartialEq, Eq, Debug)]
pub struct DescriptorGuard {
    /// The raw descriptor value; negative values are invalid placeholders.
    pub fd: i32,
    /// Whether the guard still owns the descriptor.
    pub armed: bool,
}

impl DescriptorGuard {
    /// The guard still owns a valid descriptor.
    pub open spec fn owns(self) -> bool {
        self.armed && self.fd >= 0
    }

    /// The descriptors this guard would close if destroyed now: one or none.
    pub open spec fn close_list(self) -> Seq<i32> {
        if self.owns() {
            seq![self.fd]
        } else {
            Seq::empty()
        }
    }

    /// What a release yields: the owned descriptor, or nothing.
    pub open spec fn release_fd(self) -> Option<i32> {
        if self.owns() {
            Some(self.fd)
        } else {
            None
        }
    }

    /// Relates a guard before and after one release.
    pub open spec fn released(pre: Self, post: Self, r: Option<i32>) -> bool {
        &&& post.fd == pre.fd
        &&& !post.armed
        &&& r == pre.release_fd()
    }

    /// A fresh guard owning `fd`.
    pub fn acquire(fd: i32) -> (g: Self)
        ensures
            g.fd == fd,
            g.armed,
    {
        DescriptorGuard { fd, armed: true }
    }

    /// A guard that owns nothing.
    pub fn vacant() -> (g: Self)
        ensures
            g.fd == -1,
            !g.armed,
    {
        DescriptorGuard { fd: -1, armed: false }
    }

    /// Read the raw descriptor value without transferring ownership.
    pub fn raw(&self) -> (r: i32)
        ensures
            r == self.fd,
    {
        self.fd
    }

    /// Mark ownership transferred: the guard will close nothing from now on.
    pub fn disarm(&mut self)
        ensures
            final(self).fd == old(self).fd,
            !final(self).armed,
    {
        self.armed = false;
    }

    /// Give up the descriptor for closing. Yields the descriptor exactly when
    /// the guard still owned a valid one, and leaves the guard disarmed, so a
    /// second release — any further destruction path — yields nothing.
    pub fn release(&mut self) -> (r: Option<i32>)
        ensures
            Self::released(*old(self), *final(self), r),
    {
        if self.armed {
            self.armed = false;
            if self.fd >= 0 {
                Some(self.fd)
            } else {
                None
            }
        } else {
            None
        }
    }
}

/// Law: disarming a guard and then destroying it closes no descriptor.
pub proof fn lemma_disarm_then_release_closes_nothing(
    pre: DescriptorGuard,
    post: DescriptorGuard,
    r: Option<i32>,
)
    requires
        !pre.armed,
        DescriptorGuard::released(pre, post, r),
    ensures
        r is None,
        pre.close_list() == Seq::<i32>::empty(),
{
}

/// Law: an armed guard's descriptor is closed exactly once, however many
/// destruction paths run: the first release yields the descriptor, and every
/// later release of the resulting guard yields nothing.
pub proof fn lemma_release_exactly_once(
    g0: DescriptorGuard,
    g1: DescriptorGuard,
    g2: DescriptorGuard,
    r1: Option<i32>,
    r2: Option<i32>,
)
    requires
        g0.owns(),
        DescriptorGuard::released(g0, g1, r1),
        DescriptorGuard::released(g1, g2, r2),
    ensures
        r1 == Some(g0.fd),
        r2 is None,
{
}

/// Law: a release never invents a descriptor: it yields nothing, or exactly
/// the valid descriptor the guard owned.
pub proof fn lemma_release_is_owned(pre: DescriptorGuard, post: DescriptorGuard, r: Option<i32>)
    requires
        DescriptorGuard::released(pre, post, r),
    ensures
        r matches Some(fd) ==> fd == pre.fd && fd >= 0 && pre.armed,
        r is None ==> !pre.owns(),
{
}

} // verus!
