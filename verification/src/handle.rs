//! Opaque handles: what a caller holds between opening a resource and closing
//! it.
//!
//! A handle owns one resource of the underlying driver and nothing else. It
//! comes into being when an operation hands it out and ends when the matching
//! operation takes it back, so a resource is released exactly once. A handle
//! that owns nothing is invalid; only a caller that builds handles by itself
//! can produce one.

use vstd::prelude::*;

verus! {

/// The handle of an open device: it owns the I/O session of the device.
#[derive(Debug)]
pub struct VlfdDevice<S> {
    pub inner: Option<S>,
}

/// The handle of a hotplug registration: it owns the live subscription.
#[derive(Debug)]
pub struct VlfdHotplugRegistration<R> {
    pub inner: Option<R>,
}

impl<S> VlfdDevice<S> {
    /// True when the handle owns a session.
    pub open spec fn is_open(self) -> bool {
        self.inner is Some
    }

    /// The handle that owns `session`.
    pub fn new(session: S) -> (handle: Self)
        ensures
            handle == (VlfdDevice { inner: Some(session) }),
            handle.is_open(),
    {
        VlfdDevice { inner: Some(session) }
    }

    /// A handle that owns no session.
    pub fn vacant() -> (handle: Self)
        ensures
            handle == (VlfdDevice::<S> { inner: None }),
            !handle.is_open(),
    {
        VlfdDevice { inner: None }
    }

    /// Tells whether the handle owns a session.
    pub fn owns_session(&self) -> (r: bool)
        ensures
            r == self.is_open(),
    {
        self.inner.is_some()
    }

    /// Lends the session for one step of the driver. The handle keeps the
    /// session, in whatever state the step leaves it.
    pub fn session_mut(&mut self) -> (session: Option<&mut S>)
        ensures
            session is Some == old(self).is_open(),
            final(self).is_open() == old(self).is_open(),
            (old(self).inner matches Some(before) ==> *session.unwrap() == before),
            old(self).is_open() ==> final(self).inner == Some(*final(session.unwrap())),
    {
        self.inner.as_mut()
    }
}

impl<R> VlfdHotplugRegistration<R> {
    /// True when the handle owns a subscription.
    pub open spec fn is_registered(self) -> bool {
        self.inner is Some
    }

    /// The handle that owns `subscription`.
    pub fn new(subscription: R) -> (handle: Self)
        ensures
            handle == (VlfdHotplugRegistration { inner: Some(subscription) }),
            handle.is_registered(),
    {
        VlfdHotplugRegistration { inner: Some(subscription) }
    }

    /// A handle that owns no subscription.
    pub fn vacant() -> (handle: Self)
        ensures
            handle == (VlfdHotplugRegistration::<R> { inner: None }),
            !handle.is_registered(),
    {
        VlfdHotplugRegistration { inner: None }
    }

    /// Tells whether the handle owns a subscription.
    pub fn owns_subscription(&self) -> (r: bool)
        ensures
            r == self.is_registered(),
    {
        self.inner.is_some()
    }
}

} // verus!
