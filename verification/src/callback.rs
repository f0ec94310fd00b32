//! The event callback bridge: adapts the native layer's asynchronous device
//! notifications to a safe, optionally filtered closure invocation.
//!
//! The native layer reports an event as a record behind a pointer, together
//! with the opaque context that was supplied at registration time. That
//! record is untrusted input: the boundary reads it into plain values
//! first, and the decoding, validation and filtering happen here, in
//! verified code, before the user's handler runs.

use vstd::prelude::*;

verus! {

/// Kind of a device notification, decoded from the native record's integer
/// tag.
#[derive(Clone, Copy, Debug, PartialEq, Eq, Structural)]
pub enum IDeviceEventType {
    Add,
    Remove,
    Paired,
}

/// One decoded device notification: which device, and what happened to it.
/// Constructed only by decoding a raw record at invocation time.
#[derive(Clone, Debug)]
pub struct IDeviceEvent {
    /// Identifier of the device the event concerns.
    pub udid: String,
    /// What happened to the device.
    pub event_type: IDeviceEventType,
}

/// The fields of one native event record, read at the boundary before any
/// decoding: the integer tag, and the device identifier, `None` where the
/// native record carried a null pointer for it.
#[derive(Clone, Debug)]
pub struct RawIDeviceEvent {
    /// The native record's integer event tag.
    pub event_code: i32,
    /// The device identifier, absent when the native record held none.
    pub udid: Option<String>,
}

/// Which event kind each native tag stands for; `None` for a tag outside
/// the set the native layer defines.
pub open spec fn event_type_of_code(code: i32) -> Option<IDeviceEventType> {
    if code == 1 {
        Some(IDeviceEventType::Add)
    } else if code == 2 {
        Some(IDeviceEventType::Remove)
    } else if code == 3 {
        Some(IDeviceEventType::Paired)
    } else {
        None
    }
}

/// A raw record is well-shaped when its tag is one the native layer defines
/// and it carries a device identifier.
pub open spec fn raw_event_valid(raw: RawIDeviceEvent) -> bool {
    &&& event_type_of_code(raw.event_code) is Some
    &&& raw.udid is Some
}

/// The device identifier a well-shaped raw record decodes to.
pub open spec fn decoded_udid(raw: RawIDeviceEvent) -> Seq<char>
    recommends
        raw_event_valid(raw),
{
    (raw.udid->0)@
}

/// The event kind a well-shaped raw record decodes to.
pub open spec fn decoded_type(raw: RawIDeviceEvent) -> IDeviceEventType
    recommends
        raw_event_valid(raw),
{
    event_type_of_code(raw.event_code)->0
}

/// An event carries exactly what a raw record decodes to.
pub open spec fn decodes_to(raw: RawIDeviceEvent, e: IDeviceEvent) -> bool {
    &&& e.udid@ == decoded_udid(raw)
    &&& e.event_type == decoded_type(raw)
}

/// Decodes a raw native record, failing fast on any malformed shape instead
/// of trusting it: a missing identifier or an unknown tag yields `None`.
pub fn decode_event(raw: &RawIDeviceEvent) -> (r: Option<IDeviceEvent>)
    ensures
        r is Some <==> raw_event_valid(*raw),
        r matches Some(e) ==> decodes_to(*raw, e),
{
    let event_type = if raw.event_code == 1 {
        Some(IDeviceEventType::Add)
    } else if raw.event_code == 2 {
        Some(IDeviceEventType::Remove)
    } else if raw.event_code == 3 {
        Some(IDeviceEventType::Paired)
    } else {
        None
    };
    match (event_type, &raw.udid) {
        (Some(t), Some(u)) => Some(IDeviceEvent { udid: u.clone(), event_type: t }),
        _ => None,
    }
}

/// Whether a registration with this filter forwards an event for this
/// device: no filter forwards every event, a filter forwards exactly the
/// events of the device it names.
pub open spec fn passes_filter(filter: Option<String>, udid: Seq<char>) -> bool {
    match filter {
        Option::None => true,
        Option::Some(f) => f@ == udid,
    }
}

/// One callback registration: the user's handler, the user's context value
/// handed to every invocation, and an optional device filter. The native
/// layer refers to a registration by address, so its owner must keep the
/// registration alive, and unregister, before dropping it. The context is a
/// copied value; a caller whose context is larger than a word passes a
/// shared reference as `C`.
pub struct IDeviceEventCallback<F, C> where F: Fn(IDeviceEvent, C), C: Copy {
    /// The user's handler, run for every forwarded event.
    pub function: F,
    /// The user's context value, passed to the handler on each invocation.
    pub data: C,
    /// Forward only this device's events; `None` forwards every event.
    pub udid_filter: Option<String>,
}

impl<F, C> IDeviceEventCallback<F, C> where F: Fn(IDeviceEvent, C), C: Copy {
    /// The handler accepts every event paired with this registration's
    /// context.
    pub open spec fn handler_callable(&self) -> bool {
        forall|e: IDeviceEvent| call_requires(self.function, (e, self.data))
    }

    /// Builds a registration. No side effect beyond the allocation: nothing
    /// is handed to the native layer here.
    pub fn new(function: F, data: C, udid_filter: Option<String>) -> (r: Self)
        requires
            forall|e: IDeviceEvent| call_requires(function, (e, data)),
        ensures
            r == (IDeviceEventCallback { function, data, udid_filter }),
    {
        IDeviceEventCallback { function, data, udid_filter }
    }

    /// Runs the handler on one event, with the stored context. Filtering
    /// has already happened by the time this is reached.
    pub fn call(&mut self, event: IDeviceEvent)
        requires
            old(self).handler_callable(),
        ensures
            *final(self) == *old(self),
            call_ensures(old(self).function, (event, old(self).data), ()),
    {
        (self.function)(event, self.data);
    }
}

/// The single entry point the native layer's dispatch reaches: takes the
/// raw record's fields (`None` where the native layer handed a null
/// record), decodes and filters, and forwards to the handler. Returns the
/// forwarded event, or `None` where the event was dropped: silently for a
/// filter mismatch by design, and as fail-fast boundary validation for a
/// malformed record. The event is forwarded exactly when the record is
/// well-shaped and its device passes the registration's filter.
pub fn idevice_event_callback<F, C>(
    callback: &mut IDeviceEventCallback<F, C>,
    event: Option<&RawIDeviceEvent>,
) -> (r: Option<IDeviceEvent>) where F: Fn(IDeviceEvent, C), C: Copy
    requires
        old(callback).handler_callable(),
    ensures
        *final(callback) == *old(callback),
        r is Some <==> {
            &&& event matches Some(raw) && raw_event_valid(*raw)
            &&& passes_filter(old(callback).udid_filter, decoded_udid(*(event->0)))
        },
        r matches Some(e) ==> decodes_to(*(event->0), e),
        r is Some ==> exists|e: IDeviceEvent|
            decodes_to(*(event->0), e) && call_ensures(
                old(callback).function,
                (e, old(callback).data),
                (),
            ),
{
    let raw = match event {
        Some(raw) => raw,
        None => {
            return None;
        },
    };
    let decoded = match decode_event(raw) {
        Some(e) => e,
        None => {
            return None;
        },
    };
    if let Some(filter_udid) = &callback.udid_filter {
        if !filter_udid.eq(&decoded.udid) {
            return None;
        }
    }
    // A second decode of the same record yields an equal event: one copy
    // goes to the handler, the other is reported back.
    let forwarded = decode_event(raw);
    callback.call(decoded);
    forwarded
}

} // verus!
