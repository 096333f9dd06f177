//! Hotplug monitoring: registering a callback, delivering events to it, and
//! unregistering it.
//!
//! A registration is unregistered or registered. Registering needs a
//! callback; without one nothing is set up and no step of the driver is asked
//! for. With one, the caller's options are decoded into a filter, the driver
//! sets up its USB context, and the subscription is made with the filter.
//! Unregistering takes the handle back and tears the subscription down.

use vstd::prelude::*;

use crate::failure::{Failure, StepOutcome, FAILED, SUCCEEDED};
use crate::handle::VlfdHotplugRegistration;
use crate::last_error::{recorded, LastError};
use crate::marshal::{
    decoded_filter, hotplug_event_to_ffi, hotplug_options_from_ffi, HotplugEvent, HotplugFilter,
    VlfdHotplugEvent, VlfdHotplugOptions,
};

verus! {

/// Registering a hotplug callback.
#[derive(Debug)]
pub enum HotplugRegister<R> {
    /// Next: set up the USB context of the driver.
    CreatingContext { filter: HotplugFilter },
    /// Next: subscribe the callback with `filter`.
    Subscribing { filter: HotplugFilter },
    /// Done: the subscription is live and the caller gets the handle.
    Registered(VlfdHotplugRegistration<R>),
    /// Done: the caller gets no handle and no subscription exists.
    Failed,
}

/// What the driver reports while a callback is registered.
#[derive(Debug)]
pub enum HotplugRegisterEvent<R> {
    /// How setting up the USB context went.
    ContextCreated(StepOutcome),
    /// How subscribing went; on success, the live subscription.
    Subscribed(Result<R, String>),
}

impl<R> HotplugRegister<R> {
    /// The state registering starts in.
    pub open spec fn start(options: Option<VlfdHotplugOptions>, has_callback: bool) -> Self {
        if has_callback {
            HotplugRegister::CreatingContext { filter: decoded_filter(options) }
        } else {
            HotplugRegister::Failed
        }
    }

    /// The failure registering starts with, if any.
    pub open spec fn start_failure(has_callback: bool) -> Option<Failure> {
        if has_callback {
            None
        } else {
            Some(Failure::NullCallback)
        }
    }

    /// True once the operation has ended.
    pub open spec fn is_done(self) -> bool {
        self is Registered || self is Failed
    }

    /// True when the state asks the driver for a subscription.
    pub open spec fn asks_for_subscription(self) -> bool {
        self is Subscribing
    }

    /// The state after `event`. An event that does not answer the step the
    /// state asks for changes nothing.
    pub open spec fn after(self, event: HotplugRegisterEvent<R>) -> Self {
        match (self, event) {
            (
                HotplugRegister::CreatingContext { filter },
                HotplugRegisterEvent::ContextCreated(Ok(_)),
            ) => HotplugRegister::Subscribing { filter },
            (
                HotplugRegister::CreatingContext { .. },
                HotplugRegisterEvent::ContextCreated(Err(_)),
            ) => HotplugRegister::Failed,
            (
                HotplugRegister::Subscribing { .. },
                HotplugRegisterEvent::Subscribed(Ok(subscription)),
            ) => HotplugRegister::Registered(VlfdHotplugRegistration { inner: Some(subscription) }),
            (
                HotplugRegister::Subscribing { .. },
                HotplugRegisterEvent::Subscribed(Err(_)),
            ) => HotplugRegister::Failed,
            (state, _) => state,
        }
    }

    /// The failure that `event` makes the state record, if any.
    pub open spec fn failure(self, event: HotplugRegisterEvent<R>) -> Option<Failure> {
        match (self, event) {
            (
                HotplugRegister::CreatingContext { .. },
                HotplugRegisterEvent::ContextCreated(Err(detail)),
            ) => Some(Failure::ContextInit(detail)),
            (
                HotplugRegister::Subscribing { .. },
                HotplugRegisterEvent::Subscribed(Err(detail)),
            ) => Some(Failure::Subscribe(detail)),
            _ => None,
        }
    }

    /// Takes the outcome of the step the state asked for.
    pub fn advance(self, event: HotplugRegisterEvent<R>, slot: &mut LastError) -> (next: Self)
        ensures
            next == self.after(event),
            final(slot).message() == recorded(old(slot).message(), self.failure(event)),
    {
        match self {
            HotplugRegister::CreatingContext { filter } => match event {
                HotplugRegisterEvent::ContextCreated(Ok(_)) => HotplugRegister::Subscribing {
                    filter,
                },
                HotplugRegisterEvent::ContextCreated(Err(detail)) => {
                    slot.record(&Failure::ContextInit(detail));
                    HotplugRegister::Failed
                },
                HotplugRegisterEvent::Subscribed(_) => HotplugRegister::CreatingContext { filter },
            },
            HotplugRegister::Subscribing { filter } => match event {
                HotplugRegisterEvent::Subscribed(Ok(subscription)) => HotplugRegister::Registered(
                    VlfdHotplugRegistration::new(subscription),
                ),
                HotplugRegisterEvent::Subscribed(Err(detail)) => {
                    slot.record(&Failure::Subscribe(detail));
                    HotplugRegister::Failed
                },
                HotplugRegisterEvent::ContextCreated(_) => HotplugRegister::Subscribing { filter },
            },
            HotplugRegister::Registered(handle) => HotplugRegister::Registered(handle),
            HotplugRegister::Failed => HotplugRegister::Failed,
        }
    }

    /// Ends the operation: the handle for the caller, or nothing.
    pub fn into_handle(self) -> (handle: Option<VlfdHotplugRegistration<R>>)
        ensures
            handle == match self {
                HotplugRegister::Registered(registration) => Some(registration),
                _ => None,
            },
    {
        match self {
            HotplugRegister::Registered(registration) => Some(registration),
            _ => None,
        }
    }
}

/// Starts registering a hotplug callback. `options` may be absent, which
/// stands for no filter and no enumeration of present devices. Without a
/// callback the operation fails at once.
pub fn vlfd_hotplug_register<R>(
    options: Option<&VlfdHotplugOptions>,
    has_callback: bool,
    slot: &mut LastError,
) -> (op: HotplugRegister<R>)
    ensures
        op == HotplugRegister::<R>::start(
            match options {
                Some(options) => Some(*options),
                None => None,
            },
            has_callback,
        ),
        final(slot).message() == recorded(
            old(slot).message(),
            HotplugRegister::<R>::start_failure(has_callback),
        ),
{
    if !has_callback {
        slot.record(&Failure::NullCallback);
        return HotplugRegister::Failed;
    }
    HotplugRegister::CreatingContext { filter: hotplug_options_from_ffi(options) }
}

/// The code of unregistering, and the failure it records.
pub open spec fn unregister_result<R>(registration: Option<VlfdHotplugRegistration<R>>) -> (
    i32,
    Option<Failure>,
) {
    match registration {
        None => (FAILED, Some(Failure::NullRegistration)),
        Some(VlfdHotplugRegistration { inner: None }) => (FAILED, Some(Failure::InvalidRegistration)),
        Some(_) => (SUCCEEDED, None),
    }
}

/// Unregisters a hotplug callback. The handle is taken from the caller for
/// good, and the subscription it owns is dropped before this returns.
pub fn vlfd_hotplug_unregister<R>(
    registration: Option<VlfdHotplugRegistration<R>>,
    slot: &mut LastError,
) -> (code: i32)
    ensures
        code == unregister_result(registration).0,
        final(slot).message() == recorded(old(slot).message(), unregister_result(registration).1),
{
    match registration {
        None => {
            slot.record(&Failure::NullRegistration);
            FAILED
        },
        Some(handle) => match handle.inner {
            None => {
                slot.record(&Failure::InvalidRegistration);
                FAILED
            },
            Some(_subscription) => SUCCEEDED,
        },
    }
}

/// Delivers one event to a callback: builds the plain form of the event,
/// calls the callback on it once, and releases the event with its port path
/// when the callback has returned.
pub fn hotplug_trampoline<F>(event: HotplugEvent, callback: F) where
    F: FnOnce(&VlfdHotplugEvent<'_>),

    requires
        forall|plain: VlfdHotplugEvent<'_>|
            plain.encodes(event) ==> call_requires(callback, (&plain,)),
    ensures
        exists|plain: VlfdHotplugEvent<'_>|
            plain.encodes(event) && call_ensures(callback, (&plain,), ()),
{
    let plain = hotplug_event_to_ffi(&event);
    callback(&plain);
}

/// Without a callback, registration fails at once with the message for a
/// missing callback, gives no handle, and never asks the driver for a
/// subscription, whatever is reported to it afterwards.
pub proof fn lemma_register_without_callback<R>(
    options: Option<VlfdHotplugOptions>,
    events: Seq<HotplugRegisterEvent<R>>,
)
    ensures
        HotplugRegister::<R>::start_failure(false) == Some(Failure::NullCallback),
        run_register(HotplugRegister::<R>::start(options, false), events) is Failed,
        forall|n: int|
            0 <= n <= events.len() ==> !(#[trigger] run_register(
                HotplugRegister::<R>::start(options, false),
                events.take(n),
            )).asks_for_subscription(),
{
    let start = HotplugRegister::<R>::start(options, false);
    lemma_failed_is_final(events);
    assert forall|n: int| 0 <= n <= events.len() implies !(#[trigger] run_register(
        start,
        events.take(n),
    )).asks_for_subscription() by {
        lemma_failed_is_final(events.take(n));
    }
}

/// The state after a run of events.
pub open spec fn run_register<R>(
    state: HotplugRegister<R>,
    events: Seq<HotplugRegisterEvent<R>>,
) -> HotplugRegister<R>
    decreases events.len(),
{
    if events.len() == 0 {
        state
    } else {
        run_register(state.after(events[0]), events.drop_first())
    }
}

/// A failed registration stays failed.
pub proof fn lemma_failed_is_final<R>(events: Seq<HotplugRegisterEvent<R>>)
    ensures
        run_register(HotplugRegister::<R>::Failed, events) is Failed,
    decreases events.len(),
{
    if events.len() > 0 {
        lemma_failed_is_final(events.drop_first());
    }
}

/// Registering with the default options goes exactly as registering with no
/// options at all.
pub proof fn lemma_default_options_register_as_none<R>(has_callback: bool)
    ensures
        HotplugRegister::<R>::start(Some(VlfdHotplugOptions::zeroed()), has_callback)
            == HotplugRegister::<R>::start(None, has_callback),
{
}

/// A broken caller contract is found when an operation starts, and the
/// operation then asks for no step of the driver. What a step of the driver
/// reports is never a broken caller contract.
pub proof fn lemma_hotplug_contract_violations_come_first<R>(
    options: Option<VlfdHotplugOptions>,
    has_callback: bool,
    registration: Option<VlfdHotplugRegistration<R>>,
    registering: HotplugRegister<R>,
    event: HotplugRegisterEvent<R>,
)
    ensures
        (HotplugRegister::<R>::start_failure(has_callback) matches Some(failure)
            ==> failure.is_contract_violation() && HotplugRegister::<R>::start(
            options,
            has_callback,
        ) is Failed),
        (unregister_result(registration).1 matches Some(failure)
            ==> failure.is_contract_violation()),
        (registering.failure(event) matches Some(failure) ==> !failure.is_contract_violation()),
{
}

} // verus!
