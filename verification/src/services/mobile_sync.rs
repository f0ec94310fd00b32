//! The sync service client: the lifecycle of one native session and the
//! protocol operations it exposes.
//!
//! The native layer does the actual wire work; this module holds every
//! decision the wrapper makes around it. Each operation takes what the
//! native call reported — its integer status code and its output values —
//! as plain arguments, and is verified to translate them to a typed result
//! for every possible outcome. The client value itself tracks the one piece
//! of state the wrapper owns: whether the session's native resources have
//! been handed back yet, so that teardown happens at most once and no
//! operation touches a released session.

use vstd::prelude::*;

use crate::error::MobileSyncError;
use crate::error::error_from_code;
use crate::payload::PayloadKind;
use crate::payload::SyncPayload;

verus! {

/// Which synchronization strategy a session negotiates.
#[derive(Clone, Copy, Debug, PartialEq, Eq, Structural)]
pub enum MobileSyncType {
    Fast,
    Slow,
    Reset,
}

/// The integer tag the native layer uses for each strategy.
pub open spec fn sync_type_code(t: MobileSyncType) -> u32 {
    match t {
        MobileSyncType::Fast => 0,
        MobileSyncType::Slow => 1,
        MobileSyncType::Reset => 2,
    }
}

impl From<MobileSyncType> for u32 {
    /// The tag handed to the native layer when a session starts.
    fn from(t: MobileSyncType) -> (r: u32) {
        match t {
            MobileSyncType::Fast => 0,
            MobileSyncType::Slow => 1,
            MobileSyncType::Reset => 2,
        }
    }
}

impl vstd::std_specs::convert::FromSpecImpl<MobileSyncType> for u32 {
    open spec fn obeys_from_spec() -> bool {
        true
    }

    open spec fn from_spec(t: MobileSyncType) -> u32 {
        sync_type_code(t)
    }
}

/// A string the native layer can take as a C string: no interior NUL
/// character, so that marshaling it cannot fail.
pub open spec fn no_interior_nul(s: Seq<char>) -> bool {
    forall|i: int| 0 <= i < s.len() ==> s[i] != '\0'
}

/// What a unit-valued operation returns for each native status code.
pub open spec fn status_outcome(code: i32) -> Result<(), MobileSyncError> {
    if code == 0 {
        Ok(())
    } else {
        Err(error_from_code(code))
    }
}

/// Two opaque synchronization markers, the device-side and the host-side
/// one, used to resume or reset a session. Immutable once constructed.
#[derive(Clone, Debug)]
pub struct MobileSyncAnchor {
    /// The device-side marker.
    pub device_anchor: String,
    /// The host-side marker.
    pub computer_anchor: String,
}

/// An anchor pair holds exactly these two marker strings.
pub open spec fn anchor_pair_of(
    device: Seq<char>,
    computer: Seq<char>,
    a: MobileSyncAnchor,
) -> bool {
    &&& a.device_anchor@ == device
    &&& a.computer_anchor@ == computer
}

impl MobileSyncAnchor {
    /// Both markers can be marshaled as C strings.
    pub open spec fn wf(&self) -> bool {
        &&& no_interior_nul(self.device_anchor@)
        &&& no_interior_nul(self.computer_anchor@)
    }

    /// Builds an anchor pair from the two marker strings, kept exactly as
    /// given.
    pub fn new(device_anchor: &str, computer_anchor: &str) -> (r: Self)
        requires
            no_interior_nul(device_anchor@),
            no_interior_nul(computer_anchor@),
        ensures
            anchor_pair_of(device_anchor@, computer_anchor@, r),
            r.wf(),
    {
        MobileSyncAnchor {
            device_anchor: device_anchor.to_owned(),
            computer_anchor: computer_anchor.to_owned(),
        }
    }

    /// The device-side marker, exactly as the pair was built with.
    pub fn device_anchor(&self) -> (r: &str)
        ensures
            r@ == self.device_anchor@,
    {
        self.device_anchor.as_str()
    }

    /// The host-side marker, exactly as the pair was built with.
    pub fn computer_anchor(&self) -> (r: &str)
        ensures
            r@ == self.computer_anchor@,
    {
        self.computer_anchor.as_str()
    }
}

/// Law: reading the two markers back from an anchor pair built of two
/// strings yields those strings exactly, with no trailing artifact: the
/// pair holds the very sequences it was built from, and the two read
/// operations return those sequences unchanged.
pub proof fn lemma_anchor_round_trip(
    device: Seq<char>,
    computer: Seq<char>,
    a: MobileSyncAnchor,
)
    requires
        anchor_pair_of(device, computer, a),
    ensures
        a.device_anchor@ == device,
        a.computer_anchor@ == computer,
{
}

/// The output values one exchange of changes reports from the native
/// layer: its status code, the records payload, the native integer flag
/// that says whether more changes wait, and the anchor payload. The two
/// payloads are present whenever the call succeeded.
#[derive(Clone, Copy, Debug)]
pub struct ChangesResponse {
    /// The native status code of the exchange.
    pub code: i32,
    /// The records payload; present on success.
    pub payload: Option<SyncPayload>,
    /// Nonzero exactly when the device holds more changes.
    pub has_more_changes: i32,
    /// The anchor payload; present on success.
    pub anchors: Option<SyncPayload>,
}

impl ChangesResponse {
    /// A successful exchange carries both payloads.
    pub open spec fn wf(&self) -> bool {
        self.code == 0 ==> self.payload is Some && self.anchors is Some
    }
}

/// What an exchange of changes yields: on success the records, the "has
/// more changes" flag normalized by a nonzero test, and the anchors; on
/// failure the translated code.
pub open spec fn changes_outcome(resp: ChangesResponse) -> Result<
    (SyncPayload, bool, SyncPayload),
    MobileSyncError,
> {
    if resp.code == 0 {
        Ok((resp.payload->0, resp.has_more_changes != 0, resp.anchors->0))
    } else {
        Err(error_from_code(resp.code))
    }
}

/// What a fetch that first asks the device and then receives the changes
/// yields: the request's failure wins, and no exchange is read after it.
pub open spec fn staged_changes_outcome(
    request_code: i32,
    response: Option<ChangesResponse>,
) -> Result<(SyncPayload, bool, SyncPayload), MobileSyncError> {
    if request_code == 0 {
        changes_outcome(response->0)
    } else {
        Err(error_from_code(request_code))
    }
}

/// What starting a session yields: on failure, the native layer's
/// diagnostic string together with the translated code.
pub open spec fn start_outcome(
    code: i32,
    error_description: Option<String>,
) -> Result<(), (String, MobileSyncError)> {
    if code == 0 {
        Ok(())
    } else {
        Err((error_description->0, error_from_code(code)))
    }
}

/// What constructing a client yields: a fresh, unreleased client holding
/// the native session exactly when the native layer reported success, and
/// the translated code alone — no partial handle — otherwise.
pub open spec fn construction_outcome(code: i32, raw_handle: u64) -> Result<
    MobileSyncClient,
    MobileSyncError,
> {
    if code == 0 {
        Ok(MobileSyncClient { handle: raw_handle, released: false })
    } else {
        Err(error_from_code(code))
    }
}

/// One negotiated sync session. The value owns the native session
/// exclusively: protocol operations are permitted only while the session
/// is unreleased, and `release` hands the native resources back exactly
/// once.
#[derive(Debug)]
pub struct MobileSyncClient {
    /// Identity of the native session this client owns.
    pub handle: u64,
    /// Whether the native session has already been handed back.
    pub released: bool,
}

impl MobileSyncClient {
    /// The session may still be used: its native resources have not been
    /// handed back.
    pub open spec fn valid(&self) -> bool {
        !self.released
    }

    /// How many times this client's native session has been torn down.
    pub open spec fn teardown_count(&self) -> int {
        if self.released {
            1
        } else {
            0
        }
    }

    /// Takes the result of negotiating a session over an existing service
    /// descriptor: the native status code and the session the native layer
    /// opened. Success yields a connected client owning that session;
    /// failure yields the translated code and leaves nothing behind.
    pub fn new(code: i32, raw_handle: u64) -> (r: Result<MobileSyncClient, MobileSyncError>)
        ensures
            r == construction_outcome(code, raw_handle),
    {
        let result = MobileSyncError::from(code);
        if result != MobileSyncError::Success {
            return Err(result);
        }
        Ok(MobileSyncClient { handle: raw_handle, released: false })
    }

    /// Takes the result of asking the device to start the sync service
    /// fresh under a human-readable label. The label must be marshalable
    /// as a C string; the outcome is read as in `new`.
    pub fn start_service(label: &str, code: i32, raw_handle: u64) -> (r: Result<
        MobileSyncClient,
        MobileSyncError,
    >)
        requires
            no_interior_nul(label@),
        ensures
            r == construction_outcome(code, raw_handle),
    {
        let result = MobileSyncError::from(code);
        if result != MobileSyncError::Success {
            return Err(result);
        }
        Ok(MobileSyncClient { handle: raw_handle, released: false })
    }

    /// Takes what one blocking native read reported: on success the
    /// message that arrived, otherwise the translated code.
    pub fn receive(&self, code: i32, message: Option<SyncPayload>) -> (r: Result<
        SyncPayload,
        MobileSyncError,
    >)
        requires
            self.valid(),
            code == 0 ==> message is Some,
        ensures
            code == 0 ==> r == Ok::<SyncPayload, MobileSyncError>(message->0),
            code != 0 ==> r == Err::<SyncPayload, MobileSyncError>(error_from_code(code)),
    {
        let result = MobileSyncError::from(code);
        if result != MobileSyncError::Success {
            return Err(result);
        }
        match message {
            Some(payload) => Ok(payload),
            None => Err(MobileSyncError::UnknownError),
        }
    }

    /// Takes what sending one message reported. The message itself passes
    /// through to the native layer untouched.
    pub fn send(&self, message: SyncPayload, code: i32) -> (r: Result<(), MobileSyncError>)
        requires
            self.valid(),
        ensures
            r == status_outcome(code),
    {
        let _ = message;
        let result = MobileSyncError::from(code);
        if result != MobileSyncError::Success {
            return Err(result);
        }
        Ok(())
    }

    /// Takes what starting the sync of one data class reported. The data
    /// class must be marshalable as a C string; the anchors, the host's
    /// class version and the strategy pass through to the native layer.
    /// On failure the native layer supplies a diagnostic string, and the
    /// error carries both that string and the translated code.
    pub fn start(
        &self,
        data_class: &str,
        anchors: &Vec<MobileSyncAnchor>,
        computer_data_class_version: u64,
        sync_type: MobileSyncType,
        code: i32,
        error_description: Option<String>,
    ) -> (r: Result<(), (String, MobileSyncError)>)
        requires
            self.valid(),
            no_interior_nul(data_class@),
            code != 0 ==> error_description is Some,
        ensures
            r == start_outcome(code, error_description),
    {
        let _ = anchors;
        let _ = computer_data_class_version;
        let _ = sync_type;
        if code == 0 {
            return Ok(());
        }
        let result = MobileSyncError::from(code);
        match error_description {
            Some(description) => Err((description, result)),
            None => Err((String::new(), result)),
        }
    }

    /// Takes what asking the device to cancel the session for the given
    /// human-readable reason reported. The reason must be marshalable as a
    /// C string.
    pub fn cancel(&self, reason: &str, code: i32) -> (r: Result<(), MobileSyncError>)
        requires
            self.valid(),
            no_interior_nul(reason@),
        ensures
            r == status_outcome(code),
    {
        let result = MobileSyncError::from(code);
        if result != MobileSyncError::Success {
            return Err(result);
        }
        Ok(())
    }

    /// Takes what asking the device to finish the session reported.
    pub fn finish(&self, code: i32) -> (r: Result<(), MobileSyncError>)
        requires
            self.valid(),
        ensures
            r == status_outcome(code),
    {
        let result = MobileSyncError::from(code);
        if result != MobileSyncError::Success {
            return Err(result);
        }
        Ok(())
    }

    /// Takes what requesting every record reported, and, when that request
    /// succeeded, the exchange that followed. A failed request ends the
    /// fetch: no exchange is read after it.
    pub fn get_all_records_from_device(
        &self,
        request_code: i32,
        response: Option<ChangesResponse>,
    ) -> (r: Result<(SyncPayload, bool, SyncPayload), MobileSyncError>)
        requires
            self.valid(),
            request_code == 0 ==> (response matches Some(resp) && resp.wf()),
        ensures
            r == staged_changes_outcome(request_code, response),
    {
        let result = MobileSyncError::from(request_code);
        if result != MobileSyncError::Success {
            return Err(result);
        }
        match response {
            Some(resp) => self.receive_changes(resp),
            None => Err(MobileSyncError::UnknownError),
        }
    }

    /// Takes what requesting only the changed records reported, and, when
    /// that request succeeded, the exchange that followed. A failed
    /// request ends the fetch: no exchange is read after it.
    pub fn get_changes_from_device(
        &self,
        request_code: i32,
        response: Option<ChangesResponse>,
    ) -> (r: Result<(SyncPayload, bool, SyncPayload), MobileSyncError>)
        requires
            self.valid(),
            request_code == 0 ==> (response matches Some(resp) && resp.wf()),
        ensures
            r == staged_changes_outcome(request_code, response),
    {
        let result = MobileSyncError::from(request_code);
        if result != MobileSyncError::Success {
            return Err(result);
        }
        match response {
            Some(resp) => self.receive_changes(resp),
            None => Err(MobileSyncError::UnknownError),
        }
    }

    /// Takes what asking the device to clear all its records reported.
    pub fn clear_all_records_on_device(&self, code: i32) -> (r: Result<(), MobileSyncError>)
        requires
            self.valid(),
        ensures
            r == status_outcome(code),
    {
        let result = MobileSyncError::from(code);
        if result != MobileSyncError::Success {
            return Err(result);
        }
        Ok(())
    }

    /// Takes what one exchange of changes reported. On success the native
    /// integer "has more changes" flag is normalized to a boolean by a
    /// nonzero test: zero means no more changes, any nonzero value means
    /// more changes wait.
    pub fn receive_changes(&self, response: ChangesResponse) -> (r: Result<
        (SyncPayload, bool, SyncPayload),
        MobileSyncError,
    >)
        requires
            self.valid(),
            response.wf(),
        ensures
            r == changes_outcome(response),
    {
        let result = MobileSyncError::from(response.code);
        if result != MobileSyncError::Success {
            return Err(result);
        }
        match (response.payload, response.anchors) {
            (Some(payload), Some(anchors)) => Ok((
                payload,
                response.has_more_changes != 0,
                anchors,
            )),
            _ => Err(MobileSyncError::UnknownError),
        }
    }

    /// Takes what acknowledging the received changes reported.
    pub fn acknowledge_changes_from_device(&self, code: i32) -> (r: Result<(), MobileSyncError>)
        requires
            self.valid(),
        ensures
            r == status_outcome(code),
    {
        let result = MobileSyncError::from(code);
        if result != MobileSyncError::Success {
            return Err(result);
        }
        Ok(())
    }

    /// Takes what signaling readiness to send the host's changes reported.
    pub fn ready_to_send_changes_from_computer(&self, code: i32) -> (r: Result<
        (),
        MobileSyncError,
    >)
        requires
            self.valid(),
        ensures
            r == status_outcome(code),
    {
        let result = MobileSyncError::from(code);
        if result != MobileSyncError::Success {
            return Err(result);
        }
        Ok(())
    }

    /// Takes what sending one batch of changes reported. The entities, the
    /// final-batch flag and the optional post-processing actions pass
    /// through to the native layer.
    pub fn send_changes(
        &self,
        entities: SyncPayload,
        is_last: bool,
        actions: Option<SyncPayload>,
        code: i32,
    ) -> (r: Result<(), MobileSyncError>)
        requires
            self.valid(),
        ensures
            r == status_outcome(code),
    {
        let _ = entities;
        let _ = is_last;
        let _ = actions;
        let result = MobileSyncError::from(code);
        if result != MobileSyncError::Success {
            return Err(result);
        }
        Ok(())
    }

    /// Remaps identifiers on the device. Only a sequence-shaped payload is
    /// accepted: any other shape is rejected with `InvalidArg` before the
    /// native layer is invoked — `native_call` is the native invocation,
    /// and it runs only for a sequence payload. Its code is translated as
    /// in every other operation.
    pub fn remap_identifiers<F: FnOnce() -> i32>(
        &self,
        mapping: &SyncPayload,
        native_call: F,
    ) -> (r: Result<(), MobileSyncError>)
        requires
            self.valid(),
            mapping.kind == PayloadKind::Array ==> call_requires(native_call, ()),
        ensures
            mapping.kind != PayloadKind::Array ==> r == Err::<(), MobileSyncError>(
                MobileSyncError::InvalidArg,
            ),
            mapping.kind == PayloadKind::Array ==> exists|code: i32|
                call_ensures(native_call, (), code) && r == status_outcome(code),
    {
        if mapping.kind != PayloadKind::Array {
            return Err(MobileSyncError::InvalidArg);
        }
        let code = native_call();
        let result = MobileSyncError::from(code);
        let r: Result<(), MobileSyncError> = if result != MobileSyncError::Success {
            Err(result)
        } else {
            Ok(())
        };
        proof {
            assert(call_ensures(native_call, (), code) && r == status_outcome(code));
            assert(exists|c: i32| call_ensures(native_call, (), c) && r == status_outcome(c));
        }
        r
    }

    /// Hands the native session back and returns its identity so the owner
    /// can pass it to the native teardown. Permitted exactly once: the
    /// client is no longer valid afterwards, so no operation — this one
    /// included — can touch the session again.
    pub fn release(&mut self) -> (h: u64)
        requires
            old(self).valid(),
        ensures
            h == old(self).handle,
            final(self).handle == old(self).handle,
            final(self).released,
            final(self).teardown_count() == 1,
    {
        self.released = true;
        self.handle
    }
}

/// Law: a construction that fails leaves no resource requiring teardown:
/// for a nonzero status code the outcome is the translated error alone,
/// and no client — nothing with a teardown obligation — exists.
pub proof fn lemma_failed_construction_no_teardown(code: i32, raw_handle: u64)
    requires
        code != 0,
    ensures
        construction_outcome(code, raw_handle) is Err,
{
}

/// Law: over any client's lifetime the native session is torn down at most
/// once: the teardown count is 0 while the client is valid and 1 after
/// release, and `release` itself demands a valid client, so a second
/// teardown of the same session is impossible.
pub proof fn lemma_teardown_at_most_once(c: MobileSyncClient)
    ensures
        0 <= c.teardown_count() <= 1,
        c.valid() <==> c.teardown_count() == 0,
{
}

} // verus!
