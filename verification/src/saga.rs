//! The provisioning saga: one all-or-nothing rollout of an identity onto
//! the backend and every configured device, with compensating deletes and
//! backend failure-finalization when the saga aborts.
//!
//! The saga is a state machine.  Each state names the one network action
//! the transport must perform next; the transport hands back the plain
//! outcome of that action as an event, and the verified `step` function
//! decides everything else: what is recorded, whether the saga aborts,
//! which compensations are owed, and how every contributing error is kept
//! in the terminal message.

use vstd::prelude::*;

use crate::action::{DeviceActionResult, DeviceConnectionResult};
use crate::artifact::{artifact_size_ok, spec_artifact_size_ok, MAX_FACE_IMAGE_BYTES};
use crate::backend::{BackendConfig, BackendDeviceRef, StartProvisioningOutcome};
use crate::devtime::{spec_device_time_text, spec_validity_end, to_device_time, validity_end, DeviceTime};
use crate::employee::{spec_adopted, spec_all_digits, adopt_employee_no};
use crate::registry::DeviceConfig;
use crate::text::{
    spec_join, spec_trim, join_strings, trim_ascii, u64_to_dec, spec_dec,
};

verus! {

/// What the caller asks to enroll.
pub struct EnrollmentRequest {
    pub name: String,
    pub gender: String,
    pub first_name: Option<String>,
    pub last_name: Option<String>,
    pub father_name: Option<String>,
    pub parent_phone: Option<String>,
    pub face_image_base64: String,
    pub target_device_ids: Option<Vec<String>>,
}

/// The recorded outcome of one device's rollout sequence.
pub struct RegisterDeviceResult {
    pub device_id: String,
    pub device_name: String,
    pub connection: DeviceConnectionResult,
    pub user_create: Option<DeviceActionResult>,
    pub face_upload: Option<DeviceActionResult>,
}

/// The aggregated result handed back on a saga that did not abort.
pub struct RegisterResult {
    pub employee_no: String,
    pub provisioning_id: Option<String>,
    pub results: Vec<RegisterDeviceResult>,
}

/// Everything needed to compensate one successful identity-create.
pub struct SuccessfulDeviceEntry {
    pub device_index: usize,
    pub backend_device_id: Option<String>,
    pub device_name: String,
    pub device_host: String,
}

/// Where the saga stands; rollout and rollback states carry the index
/// they are working on.
#[derive(Clone, Copy)]
pub enum SagaPhase {
    BackendStart,
    Connect { device: usize },
    Create { device: usize },
    Upload { device: usize },
    Report { device: usize },
    RollbackDelete { entry: usize },
    RollbackReport { entry: usize },
    Finalize,
    Succeeded,
    Failed,
}

/// The one network action the transport must perform next.
#[derive(Clone, Copy)]
pub enum SagaAction {
    StartBackend,
    TestConnection { device: usize },
    CreateIdentity { device: usize },
    UploadArtifact { device: usize },
    ReportForward { device: usize },
    DeleteIdentity { entry: usize },
    ReportRollback { entry: usize },
    FinalizeFailure,
    Finish,
}

/// The plain outcome of the action the saga asked for.
pub enum SagaEvent {
    BackendStarted(Result<StartProvisioningOutcome, String>),
    ConnectionTested(DeviceConnectionResult),
    IdentityCreated(DeviceActionResult),
    ArtifactUploaded(DeviceActionResult),
    ForwardReported(Result<(), String>),
    RollbackDeleted(DeviceActionResult),
    RollbackReported,
    FailureFinalized(Result<(), String>),
}

/// The saga's state.  The transport reads the public fields to build its
/// requests; only `step` changes them.
pub struct Saga {
    pub devices: Vec<DeviceConfig>,
    pub request: EnrollmentRequest,
    pub full_name: String,
    pub begin_time: String,
    pub end_time: String,
    pub employee_no: String,
    pub idempotency_key: String,
    pub backend: Option<BackendConfig>,
    pub provisioning_id: Option<String>,
    pub device_map: Vec<BackendDeviceRef>,
    pub phase: SagaPhase,
    pub pending_connection: Option<DeviceConnectionResult>,
    pub pending_create: Option<DeviceActionResult>,
    pub pending_delete: Option<DeviceActionResult>,
    pub outcomes: Vec<RegisterDeviceResult>,
    pub successful: Vec<SuccessfulDeviceEntry>,
    pub rollback_errors: Vec<String>,
    pub abort_reason: Option<String>,
    pub final_error: Option<String>,
    pub deletes_issued: Ghost<Seq<int>>,
}

/// A device outcome whose identity-create succeeded.
pub open spec fn spec_create_ok(o: RegisterDeviceResult) -> bool {
    o.user_create matches Some(a) && a.ok
}

/// A device outcome the backend is told succeeded: connection test,
/// identity-create and artifact-upload all succeeded.
pub open spec fn spec_outcome_fully_ok(o: RegisterDeviceResult) -> bool {
    &&& o.connection.ok
    &&& o.user_create matches Some(c) && c.ok
    &&& o.face_upload matches Some(u) && u.ok
}

pub open spec fn spec_create_or_connection_error(o: RegisterDeviceResult) -> Option<Seq<char>> {
    match o.user_create {
        Some(c) => match c.error_msg {
            Some(m) => Some(m@),
            None => o.connection.message.deep_view(),
        },
        None => o.connection.message.deep_view(),
    }
}

/// The message reported for a device that did not fully succeed: the
/// upload's error, else the create's, else the connection's message.
pub open spec fn spec_outcome_error(o: RegisterDeviceResult) -> Option<Seq<char>> {
    match o.face_upload {
        Some(u) => match u.error_msg {
            Some(m) => Some(m@),
            None => spec_create_or_connection_error(o),
        },
        None => spec_create_or_connection_error(o),
    }
}

/// Decide what the forward report tells the backend about one device:
/// the status `OK` with no message when the whole sequence succeeded,
/// else `FAILED` with the first available error message.
pub fn forward_report_status(o: &RegisterDeviceResult) -> (r: (String, Option<String>))
    ensures
        spec_outcome_fully_ok(*o) ==> (r.0@ == "OK"@ && r.1 is None),
        !spec_outcome_fully_ok(*o) ==> (r.0@ == "FAILED"@ && r.1.deep_view()
            == spec_outcome_error(*o)),
{
    let create_ok = match &o.user_create {
        Some(c) => c.ok,
        None => false,
    };
    let upload_ok = match &o.face_upload {
        Some(u) => u.ok,
        None => false,
    };
    if o.connection.ok && create_ok && upload_ok {
        ("OK".to_owned(), None)
    } else {
        let from_upload: Option<String> = match &o.face_upload {
            Some(u) => match &u.error_msg {
                Some(m) => Some(m.clone()),
                None => None,
            },
            None => None,
        };
        let message: Option<String> = match from_upload {
            Some(m) => Some(m),
            None => {
                let from_create: Option<String> = match &o.user_create {
                    Some(c) => match &c.error_msg {
                        Some(m) => Some(m.clone()),
                        None => None,
                    },
                    None => None,
                };
                match from_create {
                    Some(m) => Some(m),
                    None => match &o.connection.message {
                        Some(m) => Some(m.clone()),
                        None => None,
                    },
                }
            },
        };
        ("FAILED".to_owned(), message)
    }
}

/// Some successful-device entry stands for device `j`.
pub open spec fn spec_has_entry(entries: Seq<SuccessfulDeviceEntry>, j: int) -> bool {
    exists|k: int| 0 <= k < entries.len() && entries[k].device_index == j
}

/// The rollback deletes issued so far: one per compensated entry, in
/// entry order.
pub open spec fn spec_delete_prefix(n: int) -> Seq<int> {
    Seq::new(n as nat, |k: int| k)
}

impl Saga {
    /// The per-phase bookkeeping the machine maintains.  Among its
    /// clauses: outcome `j` always belongs to device `j`; an entry in
    /// `successful` exists for exactly the devices whose identity-create
    /// succeeded; and the rollback phases have issued exactly one delete
    /// per compensated entry.
    pub open spec fn wf(self) -> bool {
        &&& self.outcomes@.len() <= self.devices@.len()
        &&& spec_all_digits(self.employee_no@)
        &&& forall|j: int|
            0 <= j < self.outcomes@.len() ==> (#[trigger] self.outcomes@[j]).device_id@
                == self.devices@[j].id@
        &&& forall|k: int|
            0 <= k < self.successful@.len() ==> (#[trigger] self.successful@[k]).device_index
                < self.outcomes@.len()
        &&& forall|k1: int, k2: int|
            0 <= k1 < k2 < self.successful@.len() ==> (#[trigger] self.successful@[k1]).device_index
                < (#[trigger] self.successful@[k2]).device_index
        &&& forall|j: int|
            0 <= j < self.outcomes@.len() ==> (spec_create_ok(#[trigger] self.outcomes@[j])
                <==> spec_has_entry(self.successful@, j))
        &&& (self.abort_reason is Some ==> self.backend is Some)
        &&& match self.phase {
            SagaPhase::BackendStart => {
                &&& self.backend is Some
                &&& self.outcomes@.len() == 0
                &&& self.successful@.len() == 0
                &&& self.abort_reason is None
                &&& self.pending_connection is None
                &&& self.pending_create is None
                &&& self.pending_delete is None
                &&& self.final_error is None
                &&& self.deletes_issued@ =~= spec_delete_prefix(0)
            },
            SagaPhase::Connect { device } => {
                &&& device < self.devices@.len()
                &&& self.outcomes@.len() == device
                &&& self.abort_reason is None
                &&& self.pending_connection is None
                &&& self.pending_create is None
                &&& self.pending_delete is None
                &&& self.final_error is None
                &&& self.deletes_issued@ =~= spec_delete_prefix(0)
            },
            SagaPhase::Create { device } => {
                &&& device < self.devices@.len()
                &&& self.outcomes@.len() == device
                &&& self.abort_reason is None
                &&& self.pending_connection matches Some(c) && c.ok
                &&& self.pending_create is None
                &&& self.pending_delete is None
                &&& self.final_error is None
                &&& self.deletes_issued@ =~= spec_delete_prefix(0)
            },
            SagaPhase::Upload { device } => {
                &&& device < self.devices@.len()
                &&& self.outcomes@.len() == device
                &&& self.abort_reason is None
                &&& self.pending_connection matches Some(c) && c.ok
                &&& self.pending_create matches Some(a) && a.ok
                &&& self.pending_delete is None
                &&& self.final_error is None
                &&& self.deletes_issued@ =~= spec_delete_prefix(0)
            },
            SagaPhase::Report { device } => {
                &&& device < self.devices@.len()
                &&& self.outcomes@.len() == device + 1
                &&& self.abort_reason is None
                &&& self.backend is Some
                &&& self.pending_connection is None
                &&& self.pending_create is None
                &&& self.pending_delete is None
                &&& self.final_error is None
                &&& self.deletes_issued@ =~= spec_delete_prefix(0)
            },
            SagaPhase::RollbackDelete { entry } => {
                &&& entry < self.successful@.len()
                &&& self.abort_reason is Some
                &&& self.pending_delete is None
                &&& self.final_error is None
                &&& self.deletes_issued@ =~= spec_delete_prefix(entry as int + 1)
            },
            SagaPhase::RollbackReport { entry } => {
                &&& entry < self.successful@.len()
                &&& self.abort_reason is Some
                &&& self.pending_delete is Some
                &&& self.final_error is None
                &&& self.deletes_issued@ =~= spec_delete_prefix(entry as int + 1)
            },
            SagaPhase::Finalize => {
                &&& self.abort_reason is Some
                &&& self.pending_delete is None
                &&& self.final_error is None
                &&& self.deletes_issued@ =~= spec_delete_prefix(self.successful@.len() as int)
            },
            SagaPhase::Succeeded => {
                &&& self.abort_reason is None
                &&& self.outcomes@.len() == self.devices@.len()
            },
            SagaPhase::Failed => {
                &&& self.final_error is Some
                &&& (self.abort_reason is Some ==> self.deletes_issued@ =~= spec_delete_prefix(
                    self.successful@.len() as int,
                ))
            },
        }
    }

    /// Which event kind the current phase is waiting for.
    pub open spec fn expects(self, ev: SagaEvent) -> bool {
        match self.phase {
            SagaPhase::BackendStart => ev is BackendStarted,
            SagaPhase::Connect { .. } => ev is ConnectionTested,
            SagaPhase::Create { .. } => ev is IdentityCreated,
            SagaPhase::Upload { .. } => ev is ArtifactUploaded,
            SagaPhase::Report { .. } => ev is ForwardReported,
            SagaPhase::RollbackDelete { .. } => ev is RollbackDeleted,
            SagaPhase::RollbackReport { .. } => ev is RollbackReported,
            SagaPhase::Finalize => ev is FailureFinalized,
            SagaPhase::Succeeded => false,
            SagaPhase::Failed => false,
        }
    }

    /// The action owed in each phase.
    pub open spec fn spec_action_of(self) -> SagaAction {
        match self.phase {
            SagaPhase::BackendStart => SagaAction::StartBackend,
            SagaPhase::Connect { device } => SagaAction::TestConnection { device },
            SagaPhase::Create { device } => SagaAction::CreateIdentity { device },
            SagaPhase::Upload { device } => SagaAction::UploadArtifact { device },
            SagaPhase::Report { device } => SagaAction::ReportForward { device },
            SagaPhase::RollbackDelete { entry } => SagaAction::DeleteIdentity { entry },
            SagaPhase::RollbackReport { entry } => SagaAction::ReportRollback { entry },
            SagaPhase::Finalize => SagaAction::FinalizeFailure,
            SagaPhase::Succeeded => SagaAction::Finish,
            SagaPhase::Failed => SagaAction::Finish,
        }
    }

    /// Tell the transport what to do next.
    pub fn next_action(&self) -> (a: SagaAction)
        ensures
            a == self.spec_action_of(),
    {
        match &self.phase {
            SagaPhase::BackendStart => SagaAction::StartBackend,
            SagaPhase::Connect { device } => SagaAction::TestConnection { device: *device },
            SagaPhase::Create { device } => SagaAction::CreateIdentity { device: *device },
            SagaPhase::Upload { device } => SagaAction::UploadArtifact { device: *device },
            SagaPhase::Report { device } => SagaAction::ReportForward { device: *device },
            SagaPhase::RollbackDelete { entry } => SagaAction::DeleteIdentity { entry: *entry },
            SagaPhase::RollbackReport { entry } => SagaAction::ReportRollback { entry: *entry },
            SagaPhase::Finalize => SagaAction::FinalizeFailure,
            SagaPhase::Succeeded => SagaAction::Finish,
            SagaPhase::Failed => SagaAction::Finish,
        }
    }
}

pub open spec fn spec_opt_or_empty(o: Option<Seq<char>>) -> Seq<char> {
    match o {
        Some(s) => s,
        None => Seq::empty(),
    }
}

/// An optional free-text setting, normalized: absent when missing or
/// blank, otherwise trimmed.
pub open spec fn spec_normalized(o: Option<Seq<char>>) -> Option<Seq<char>> {
    match o {
        None => None,
        Some(s) => if spec_trim(s).len() == 0 {
            None
        } else {
            Some(spec_trim(s))
        },
    }
}

/// Normalize an optional free-text setting.
pub fn normalize_opt(o: Option<String>) -> (r: Option<String>)
    ensures
        r.deep_view() == spec_normalized(o.deep_view()),
{
    match o {
        None => None,
        Some(s) => {
            let t = trim_ascii(s.as_str());
            if t.unicode_len() == 0 {
                None
            } else {
                Some(t)
            }
        },
    }
}

/// The display name written to devices and the backend: last and first
/// name combined, or the plain name when neither is given.
pub open spec fn spec_full_name(
    name: Seq<char>,
    first: Option<Seq<char>>,
    last: Option<Seq<char>>,
) -> Seq<char> {
    let f = spec_trim(spec_opt_or_empty(first));
    let l = spec_trim(spec_opt_or_empty(last));
    let combined = spec_trim(l + " "@ + f);
    if combined.len() == 0 {
        spec_trim(name)
    } else {
        combined
    }
}

/// Combine the name fields into the display name.
pub fn full_name_of(name: &str, first: &Option<String>, last: &Option<String>) -> (r: String)
    ensures
        r@ == spec_full_name(name@, first.deep_view(), last.deep_view()),
{
    let f = match first {
        Some(s) => trim_ascii(s.as_str()),
        None => String::new(),
    };
    let l = match last {
        Some(s) => trim_ascii(s.as_str()),
        None => String::new(),
    };
    let mut joined = String::new();
    joined.append(l.as_str());
    joined.append(" ");
    joined.append(f.as_str());
    let combined = trim_ascii(joined.as_str());
    if combined.unicode_len() == 0 {
        trim_ascii(name)
    } else {
        combined
    }
}

/// The requested target identifiers, trimmed, with blank entries dropped.
pub open spec fn spec_cleaned_ids(ids: Seq<Seq<char>>) -> Seq<Seq<char>>
    decreases ids.len(),
{
    if ids.len() == 0 {
        Seq::empty()
    } else {
        let rest = spec_cleaned_ids(ids.drop_last());
        if spec_trim(ids.last()).len() == 0 {
            rest
        } else {
            rest.push(spec_trim(ids.last()))
        }
    }
}

/// Clean the caller's target-identifier list.
pub fn clean_target_ids(ids: &Vec<String>) -> (r: Vec<String>)
    ensures
        r.deep_view() =~= spec_cleaned_ids(ids.deep_view()),
{
    let mut out: Vec<String> = Vec::new();
    let mut i: usize = 0;
    while i < ids.len()
        invariant
            i <= ids@.len(),
            ids.deep_view().len() == ids@.len(),
            forall|j: int| 0 <= j < ids@.len() ==> ids.deep_view()[j] == #[trigger] ids@[j]@,
            out.deep_view() =~= spec_cleaned_ids(ids.deep_view().subrange(0, i as int)),
        decreases ids@.len() - i,
    {
        let ghost dv = ids.deep_view();
        proof {
            assert(dv.subrange(0, i as int + 1).drop_last() =~= dv.subrange(0, i as int));
            assert(dv.subrange(0, i as int + 1).last() == dv[i as int]);
        }
        let t = trim_ascii(ids[i].as_str());
        if t.unicode_len() != 0 {
            out.push(t);
        }
        i = i + 1;
    }
    proof {
        assert(ids.deep_view().subrange(0, ids@.len() as int) =~= ids.deep_view());
    }
    out
}

pub open spec fn spec_contains_str(ids: Seq<Seq<char>>, s: Seq<char>) -> bool {
    exists|j: int| 0 <= j < ids.len() && ids[j] == s
}

/// Whether the identifier list holds `s`.
pub fn contains_str(ids: &Vec<String>, s: &str) -> (r: bool)
    ensures
        r == spec_contains_str(ids.deep_view(), s@),
{
    let target: String = s.to_owned();
    let mut i: usize = 0;
    while i < ids.len()
        invariant
            i <= ids@.len(),
            target@ == s@,
            ids.deep_view().len() == ids@.len(),
            forall|j: int| 0 <= j < ids@.len() ==> ids.deep_view()[j] == #[trigger] ids@[j]@,
            forall|k: int| 0 <= k < i ==> ids.deep_view()[k] != s@,
        decreases ids@.len() - i,
    {
        if ids[i] == target {
            return true;
        }
        i = i + 1;
    }
    false
}

/// The devices kept by a target filter, in stored order.
pub open spec fn spec_selected(devices: Seq<DeviceConfig>, ids: Seq<Seq<char>>) -> Seq<
    DeviceConfig,
>
    decreases devices.len(),
{
    if devices.len() == 0 {
        Seq::empty()
    } else {
        let rest = spec_selected(devices.drop_last(), ids);
        if spec_contains_str(ids, devices.last().id@) {
            rest.push(devices.last())
        } else {
            rest
        }
    }
}

/// Keep only the devices the caller targeted.
pub fn select_devices(devices: Vec<DeviceConfig>, ids: &Vec<String>) -> (r: Vec<DeviceConfig>)
    ensures
        r@ =~= spec_selected(devices@, ids.deep_view()),
{
    let ghost orig = devices@;
    let mut rest = devices;
    let mut out: Vec<DeviceConfig> = Vec::new();
    let ghost mut j: int = 0;
    while rest.len() > 0
        invariant
            0 <= j <= orig.len(),
            rest@ =~= orig.subrange(j, orig.len() as int),
            out@ =~= spec_selected(orig.subrange(0, j), ids.deep_view()),
        decreases rest@.len(),
    {
        proof {
            assert(orig.subrange(0, j + 1).drop_last() =~= orig.subrange(0, j));
            assert(orig.subrange(0, j + 1).last() == orig[j]);
            assert(rest@[0] == orig[j]);
        }
        let d = rest.remove(0);
        if contains_str(ids, d.id.as_str()) {
            out.push(d);
        }
        proof {
            j = j + 1;
        }
    }
    proof {
        assert(j == orig.len());
        assert(orig.subrange(0, j) =~= orig);
    }
    out
}

/// The rejection text of the artifact size guard.
pub open spec fn spec_size_error() -> Seq<char> {
    "Face image is too large. Max "@ + spec_dec((MAX_FACE_IMAGE_BYTES / 1024) as nat) + " KB."@
}

/// The caller explicitly asked for a backend-only run: a target set was
/// given and it is empty once cleaned.
pub open spec fn spec_db_only(req: EnrollmentRequest) -> bool {
    req.target_device_ids matches Some(ids) && spec_cleaned_ids(ids.deep_view()).len() == 0
}

/// The device list the saga will roll out to.
pub open spec fn spec_chosen_devices(req: EnrollmentRequest, devices: Seq<DeviceConfig>) -> Seq<
    DeviceConfig,
> {
    match req.target_device_ids {
        None => devices,
        Some(ids) => spec_selected(devices, spec_cleaned_ids(ids.deep_view())),
    }
}

impl Saga {
    /// Validate a request and set up the saga.  Rejections, in order: an
    /// encoded artifact over the size guard; no devices configured
    /// (unless the caller explicitly asked for a backend-only run with an
    /// empty target set); a backend URL without the school identifier it
    /// requires.  No network action precedes these checks.
    pub fn new(
        request: EnrollmentRequest,
        devices: Vec<DeviceConfig>,
        backend_url: Option<String>,
        backend_token: Option<String>,
        school_id: Option<String>,
        class_id: Option<String>,
        employee_no: String,
        idempotency_key: String,
        now: &DeviceTime,
    ) -> (r: Result<Saga, String>)
        requires
            spec_all_digits(employee_no@),
            now.wf(),
            now.year + 10 <= i32::MAX,
        ensures
            !spec_artifact_size_ok(request.face_image_base64@.len() as int) ==> (r matches Err(m)
                && m@ == spec_size_error()),
            (spec_artifact_size_ok(request.face_image_base64@.len() as int) && devices@.len() == 0
                && !spec_db_only(request)) ==> (r matches Err(m) && m@
                == "No devices configured"@),
            (spec_artifact_size_ok(request.face_image_base64@.len() as int) && (devices@.len() > 0
                || spec_db_only(request)) && spec_normalized(backend_url.deep_view()) is Some
                && spec_normalized(school_id.deep_view()) is None) ==> (r matches Err(m) && m@
                == "schoolId is required when backendUrl is set"@),
            (spec_artifact_size_ok(request.face_image_base64@.len() as int) && (devices@.len() > 0
                || spec_db_only(request)) && !(spec_normalized(backend_url.deep_view()) is Some
                && spec_normalized(school_id.deep_view()) is None)) ==> (r matches Ok(s) && {
                &&& s.wf()
                &&& s.request == request
                &&& s.employee_no == employee_no
                &&& s.idempotency_key == idempotency_key
                &&& s.full_name@ == spec_full_name(
                    request.name@,
                    request.first_name.deep_view(),
                    request.last_name.deep_view(),
                )
                &&& s.begin_time@ == spec_device_time_text(*now)
                &&& s.end_time@ == spec_device_time_text(spec_validity_end(*now))
                &&& s.devices@ =~= spec_chosen_devices(request, devices@)
                &&& (spec_normalized(backend_url.deep_view()) matches Some(u) ==> (s.backend
                    matches Some(b) && {
                    &&& b.base_url@ == u
                    &&& b.token.deep_view() == spec_normalized(backend_token.deep_view())
                    &&& Some(b.school_id@) == spec_normalized(school_id.deep_view())
                    &&& b.class_id.deep_view() == spec_normalized(class_id.deep_view())
                }))
                &&& (spec_normalized(backend_url.deep_view()) is None ==> s.backend is None)
                &&& s.provisioning_id is None
                &&& s.device_map@.len() == 0
                &&& s.outcomes@.len() == 0
                &&& s.successful@.len() == 0
                &&& s.rollback_errors@.len() == 0
                &&& s.abort_reason is None
                &&& s.final_error is None
                &&& s.phase == (if spec_normalized(backend_url.deep_view()) is Some {
                    SagaPhase::BackendStart
                } else if spec_chosen_devices(request, devices@).len() > 0 {
                    SagaPhase::Connect { device: 0 }
                } else {
                    SagaPhase::Succeeded
                })
            }),
    {
        let encoded_len = request.face_image_base64.unicode_len();
        if !artifact_size_ok(encoded_len) {
            let mut msg = String::new();
            msg.append("Face image is too large. Max ");
            let kb = u64_to_dec((MAX_FACE_IMAGE_BYTES / 1024) as u64);
            msg.append(kb.as_str());
            msg.append(" KB.");
            proof {
                assert(msg@ =~= spec_size_error());
            }
            return Err(msg);
        }
        let cleaned_ids: Option<Vec<String>> = match &request.target_device_ids {
            Some(ids) => Some(clean_target_ids(ids)),
            None => None,
        };
        let db_only = match &cleaned_ids {
            Some(ids) => ids.len() == 0,
            None => false,
        };
        if devices.len() == 0 && !db_only {
            return Err("No devices configured".to_owned());
        }
        let backend_url = normalize_opt(backend_url);
        let backend_token = normalize_opt(backend_token);
        let school_id = normalize_opt(school_id);
        let class_id = normalize_opt(class_id);
        if backend_url.is_some() && school_id.is_none() {
            return Err("schoolId is required when backendUrl is set".to_owned());
        }
        let backend: Option<BackendConfig> = match (backend_url, school_id) {
            (Some(u), Some(sc)) => Some(
                BackendConfig { base_url: u, token: backend_token, school_id: sc, class_id },
            ),
            _ => None,
        };
        let chosen = match &cleaned_ids {
            Some(ids) => select_devices(devices, ids),
            None => devices,
        };
        let full_name = full_name_of(
            request.name.as_str(),
            &request.first_name,
            &request.last_name,
        );
        let begin_time = to_device_time(now);
        let end = validity_end(now);
        let end_time = to_device_time(&end);
        let phase = if backend.is_some() {
            SagaPhase::BackendStart
        } else if chosen.len() > 0 {
            SagaPhase::Connect { device: 0 }
        } else {
            SagaPhase::Succeeded
        };
        Ok(
            Saga {
                devices: chosen,
                request,
                full_name,
                begin_time,
                end_time,
                employee_no,
                idempotency_key,
                backend,
                provisioning_id: None,
                device_map: Vec::new(),
                phase,
                pending_connection: None,
                pending_create: None,
                pending_delete: None,
                outcomes: Vec::new(),
                successful: Vec::new(),
                rollback_errors: Vec::new(),
                abort_reason: None,
                final_error: None,
                deletes_issued: Ghost(Seq::empty()),
            },
        )
    }
}

/// Fields of one recorded device outcome.
pub open spec fn spec_outcome_fields(
    o: RegisterDeviceResult,
    dev: DeviceConfig,
    conn: DeviceConnectionResult,
    create: Option<DeviceActionResult>,
    upload: Option<DeviceActionResult>,
) -> bool {
    &&& o.device_id@ == dev.id@
    &&& o.device_name@ == dev.name@
    &&& o.connection == conn
    &&& o.user_create == create
    &&& o.face_upload == upload
}

/// Where the saga goes once device `d`'s outcome is recorded: report it
/// when a backend is configured, else straight to the next device.
pub open spec fn spec_phase_after_outcome(pre: Saga, d: int) -> SagaPhase {
    if pre.backend is Some {
        SagaPhase::Report { device: d as usize }
    } else {
        spec_phase_next_device(pre, d)
    }
}

/// The next device's connection test, or success once every device has
/// been rolled out.
pub open spec fn spec_phase_next_device(pre: Saga, d: int) -> SagaPhase {
    if d + 1 < pre.devices@.len() {
        SagaPhase::Connect { device: (d + 1) as usize }
    } else {
        SagaPhase::Succeeded
    }
}

pub open spec fn spec_err_or(o: Option<Seq<char>>, fallback: Seq<char>) -> Seq<char> {
    match o {
        Some(m) => m,
        None => fallback,
    }
}

/// The terminal error of an aborted saga: the original cause, then every
/// rollback error, then the finalize failure — never one replacing
/// another.
pub open spec fn spec_final_message(
    message: Seq<char>,
    rollback_errors: Seq<Seq<char>>,
    finalize_err: Option<Seq<char>>,
) -> Seq<char> {
    let base = if rollback_errors.len() == 0 {
        message
    } else {
        message + ". Rollback errors: "@ + spec_join(rollback_errors, "; "@)
    };
    match finalize_err {
        None => base,
        Some(f) => base + ". Finalize failed: "@ + f,
    }
}

/// State the saga never changes while stepping, plus the fields only the
/// backend-start step may change.
pub open spec fn spec_frame(pre: Saga, post: Saga) -> bool {
    &&& post.devices@ == pre.devices@
    &&& post.request == pre.request
    &&& post.full_name == pre.full_name
    &&& post.begin_time == pre.begin_time
    &&& post.end_time == pre.end_time
    &&& post.idempotency_key == pre.idempotency_key
    &&& post.backend == pre.backend
    &&& (!(pre.phase is BackendStart) ==> {
        &&& post.employee_no == pre.employee_no
        &&& post.provisioning_id == pre.provisioning_id
        &&& post.device_map@ == pre.device_map@
    })
}

pub open spec fn spec_step_backend(
    pre: Saga,
    res: Result<StartProvisioningOutcome, String>,
    post: Saga,
) -> bool {
    match res {
        Ok(o) => {
            &&& post.employee_no@ == spec_adopted(pre.employee_no@, o.device_student_id@)
            &&& post.provisioning_id == Some(o.provisioning_id)
            &&& post.device_map@ == o.target_devices@
            &&& post.outcomes@ == pre.outcomes@
            &&& post.successful@ == pre.successful@
            &&& post.rollback_errors@ == pre.rollback_errors@
            &&& post.pending_delete == pre.pending_delete
            &&& post.abort_reason is None
            &&& post.final_error is None
            &&& post.phase == (if pre.devices@.len() > 0 {
                SagaPhase::Connect { device: 0 }
            } else {
                SagaPhase::Succeeded
            })
        },
        Err(e) => {
            &&& post.employee_no == pre.employee_no
            &&& post.outcomes@ == pre.outcomes@
            &&& post.successful@ == pre.successful@
            &&& post.rollback_errors@ == pre.rollback_errors@
            &&& post.pending_delete == pre.pending_delete
            &&& post.phase is Failed
            &&& post.abort_reason matches Some(m) && m@ == "Backend provisioning failed: "@ + e@
            &&& post.final_error matches Some(m2) && m2@ == "Backend provisioning failed: "@
                + e@
        },
    }
}

pub open spec fn spec_step_connect(
    pre: Saga,
    d: int,
    c: DeviceConnectionResult,
    post: Saga,
) -> bool {
    if c.ok {
        &&& post.phase == SagaPhase::Create { device: d as usize }
        &&& post.pending_connection == Some(c)
        &&& post.outcomes@ == pre.outcomes@
        &&& post.successful@ == pre.successful@
        &&& post.rollback_errors@ == pre.rollback_errors@
        &&& post.pending_delete == pre.pending_delete
        &&& post.abort_reason is None
    } else {
        &&& post.outcomes@.len() == pre.outcomes@.len() + 1
        &&& post.outcomes@.drop_last() == pre.outcomes@
        &&& spec_outcome_fields(post.outcomes@.last(), pre.devices@[d], c, None, None)
        &&& post.successful@ == pre.successful@
        &&& post.rollback_errors@ == pre.rollback_errors@
        &&& post.pending_connection is None
        &&& post.pending_delete == pre.pending_delete
        &&& post.phase == spec_phase_after_outcome(pre, d)
        &&& post.abort_reason is None
    }
}

pub open spec fn spec_step_create(pre: Saga, d: int, a: DeviceActionResult, post: Saga) -> bool {
    if a.ok {
        &&& post.phase == SagaPhase::Upload { device: d as usize }
        &&& post.pending_create == Some(a)
        &&& post.pending_connection == pre.pending_connection
        &&& post.outcomes@ == pre.outcomes@
        &&& post.successful@ == pre.successful@
        &&& post.rollback_errors@ == pre.rollback_errors@
        &&& post.pending_delete == pre.pending_delete
        &&& post.abort_reason is None
    } else {
        &&& post.outcomes@.len() == pre.outcomes@.len() + 1
        &&& post.outcomes@.drop_last() == pre.outcomes@
        &&& pre.pending_connection matches Some(conn) && spec_outcome_fields(
            post.outcomes@.last(),
            pre.devices@[d],
            conn,
            Some(a),
            None,
        )
        &&& post.successful@ == pre.successful@
        &&& post.rollback_errors@ == pre.rollback_errors@
        &&& post.pending_connection is None
        &&& post.pending_create is None
        &&& post.pending_delete == pre.pending_delete
        &&& post.phase == spec_phase_after_outcome(pre, d)
        &&& post.abort_reason is None
    }
}

pub open spec fn spec_step_upload(pre: Saga, d: int, u: DeviceActionResult, post: Saga) -> bool {
    &&& post.outcomes@.len() == pre.outcomes@.len() + 1
    &&& post.outcomes@.drop_last() == pre.outcomes@
    &&& pre.pending_connection matches Some(conn) && (pre.pending_create matches Some(cr)
        && spec_outcome_fields(post.outcomes@.last(), pre.devices@[d], conn, Some(cr), Some(u)))
    &&& post.successful@.len() == pre.successful@.len() + 1
    &&& post.successful@.drop_last() == pre.successful@
    &&& {
        let entry = post.successful@.last();
        &&& entry.device_index == d
        &&& entry.device_name@ == pre.devices@[d].name@
        &&& entry.device_host@ == pre.devices@[d].host@
        &&& entry.backend_device_id.deep_view() == crate::backend::spec_backend_id_of(
            pre.device_map@,
            pre.devices@[d].id@,
        )
    }
    &&& post.rollback_errors@ == pre.rollback_errors@
    &&& post.pending_connection is None
    &&& post.pending_create is None
    &&& post.pending_delete == pre.pending_delete
    &&& post.phase == spec_phase_after_outcome(pre, d)
    &&& post.abort_reason is None
}

pub open spec fn spec_step_report(
    pre: Saga,
    d: int,
    res: Result<(), String>,
    post: Saga,
) -> bool {
    match res {
        Ok(_) => {
            &&& post.phase == spec_phase_next_device(pre, d)
            &&& post.outcomes@ == pre.outcomes@
            &&& post.successful@ == pre.successful@
            &&& post.rollback_errors@ == pre.rollback_errors@
            &&& post.pending_delete == pre.pending_delete
            &&& post.abort_reason is None
        },
        Err(e) => {
            &&& post.abort_reason matches Some(m) && m@ == "Backend report failed: "@ + e@
            &&& post.outcomes@ == pre.outcomes@
            &&& post.successful@ == pre.successful@
            &&& post.rollback_errors@ == pre.rollback_errors@
            &&& post.pending_delete == pre.pending_delete
            &&& (pre.successful@.len() > 0 ==> post.phase == SagaPhase::RollbackDelete {
                entry: 0,
            })
            &&& (pre.successful@.len() == 0 ==> post.phase is Finalize)
        },
    }
}

pub open spec fn spec_step_rb_delete(
    pre: Saga,
    e: int,
    a: DeviceActionResult,
    post: Saga,
) -> bool {
    &&& post.phase == SagaPhase::RollbackReport { entry: e as usize }
    &&& post.pending_delete == Some(a)
    &&& post.successful@ == pre.successful@
    &&& post.outcomes@ == pre.outcomes@
    &&& post.abort_reason == pre.abort_reason
    &&& if a.ok {
        post.rollback_errors@ == pre.rollback_errors@
    } else {
        &&& post.rollback_errors@.len() == pre.rollback_errors@.len() + 1
        &&& post.rollback_errors@.drop_last() == pre.rollback_errors@
        &&& post.rollback_errors@.last()@ == pre.successful@[e].device_name@ + ": "@
            + spec_err_or(a.error_msg.deep_view(), "Delete failed"@)
    }
}

pub open spec fn spec_step_rb_report(pre: Saga, e: int, post: Saga) -> bool {
    &&& post.pending_delete is None
    &&& post.rollback_errors@ == pre.rollback_errors@
    &&& post.successful@ == pre.successful@
    &&& post.outcomes@ == pre.outcomes@
    &&& post.abort_reason == pre.abort_reason
    &&& (e + 1 < pre.successful@.len() ==> post.phase == SagaPhase::RollbackDelete {
        entry: (e + 1) as usize,
    })
    &&& (e + 1 >= pre.successful@.len() ==> post.phase is Finalize)
}

pub open spec fn spec_step_finalize(pre: Saga, res: Result<(), String>, post: Saga) -> bool {
    &&& post.phase is Failed
    &&& post.successful@ == pre.successful@
    &&& post.abort_reason == pre.abort_reason
    &&& pre.abort_reason matches Some(msg) && (post.final_error matches Some(m) && m@
        == spec_final_message(
        msg@,
        pre.rollback_errors.deep_view(),
        match res {
            Ok(_) => None,
            Err(e) => Some(e@),
        },
    ))
}

/// The full transition relation of one saga step.
pub open spec fn spec_step(pre: Saga, ev: SagaEvent, post: Saga) -> bool {
    &&& spec_frame(pre, post)
    &&& match (pre.phase, ev) {
        (SagaPhase::BackendStart, SagaEvent::BackendStarted(res)) => spec_step_backend(
            pre,
            res,
            post,
        ),
        (SagaPhase::Connect { device }, SagaEvent::ConnectionTested(c)) => spec_step_connect(
            pre,
            device as int,
            c,
            post,
        ),
        (SagaPhase::Create { device }, SagaEvent::IdentityCreated(a)) => spec_step_create(
            pre,
            device as int,
            a,
            post,
        ),
        (SagaPhase::Upload { device }, SagaEvent::ArtifactUploaded(u)) => spec_step_upload(
            pre,
            device as int,
            u,
            post,
        ),
        (SagaPhase::Report { device }, SagaEvent::ForwardReported(res)) => spec_step_report(
            pre,
            device as int,
            res,
            post,
        ),
        (SagaPhase::RollbackDelete { entry }, SagaEvent::RollbackDeleted(a)) =>
            spec_step_rb_delete(pre, entry as int, a, post),
        (SagaPhase::RollbackReport { entry }, SagaEvent::RollbackReported) =>
            spec_step_rb_report(pre, entry as int, post),
        (SagaPhase::Finalize, SagaEvent::FailureFinalized(res)) => spec_step_finalize(
            pre,
            res,
            post,
        ),
        _ => false,
    }
}

/// Recording one device outcome preserves the bookkeeping invariant:
/// a successful-device entry is appended exactly when the new outcome's
/// identity-create succeeded.
proof fn lemma_wf_outcome_push(
    pre_out: Seq<RegisterDeviceResult>,
    pre_suc: Seq<SuccessfulDeviceEntry>,
    post_out: Seq<RegisterDeviceResult>,
    post_suc: Seq<SuccessfulDeviceEntry>,
)
    requires
        post_out.len() == pre_out.len() + 1,
        post_out.drop_last() == pre_out,
        forall|k: int|
            0 <= k < pre_suc.len() ==> (#[trigger] pre_suc[k]).device_index < pre_out.len(),
        forall|k1: int, k2: int|
            0 <= k1 < k2 < pre_suc.len() ==> (#[trigger] pre_suc[k1]).device_index
                < (#[trigger] pre_suc[k2]).device_index,
        forall|j: int|
            0 <= j < pre_out.len() ==> (spec_create_ok(#[trigger] pre_out[j]) <==> spec_has_entry(
                pre_suc,
                j,
            )),
        spec_create_ok(post_out.last()) ==> {
            &&& post_suc.len() == pre_suc.len() + 1
            &&& post_suc.drop_last() == pre_suc
            &&& post_suc.last().device_index == pre_out.len()
        },
        !spec_create_ok(post_out.last()) ==> post_suc == pre_suc,
    ensures
        forall|k: int|
            0 <= k < post_suc.len() ==> (#[trigger] post_suc[k]).device_index < post_out.len(),
        forall|k1: int, k2: int|
            0 <= k1 < k2 < post_suc.len() ==> (#[trigger] post_suc[k1]).device_index
                < (#[trigger] post_suc[k2]).device_index,
        forall|j: int|
            0 <= j < post_out.len() ==> (spec_create_ok(#[trigger] post_out[j])
                <==> spec_has_entry(post_suc, j)),
{
    let n = post_out.len() as int;
    if spec_create_ok(post_out.last()) {
        assert forall|k: int|
            0 <= k < post_suc.len() implies (#[trigger] post_suc[k]).device_index
            < post_out.len() by {
            if k < post_suc.len() - 1 {
                assert(post_suc[k] == pre_suc[k]);
            }
        }
        assert forall|k1: int, k2: int|
            0 <= k1 < k2 < post_suc.len() implies (#[trigger] post_suc[k1]).device_index
            < (#[trigger] post_suc[k2]).device_index by {
            if k2 < post_suc.len() - 1 {
                assert(post_suc[k1] == pre_suc[k1]);
                assert(post_suc[k2] == pre_suc[k2]);
            } else {
                assert(post_suc[k1] == pre_suc[k1]);
                assert(pre_suc[k1].device_index < pre_out.len());
            }
        }
        assert forall|j: int|
            0 <= j < post_out.len() implies (spec_create_ok(#[trigger] post_out[j])
            <==> spec_has_entry(post_suc, j)) by {
            if j < n - 1 {
                assert(post_out[j] == pre_out[j]);
                if spec_create_ok(pre_out[j]) {
                    let k = choose|k: int|
                        0 <= k < pre_suc.len() && (#[trigger] pre_suc[k]).device_index == j;
                    assert(post_suc[k].device_index == j);
                    assert(spec_has_entry(post_suc, j));
                }
                if spec_has_entry(post_suc, j) {
                    let k = choose|k: int|
                        0 <= k < post_suc.len() && (#[trigger] post_suc[k]).device_index == j;
                    if k == post_suc.len() - 1 {
                        assert(post_suc[k].device_index == n - 1);
                    } else {
                        assert(pre_suc[k].device_index == j);
                        assert(spec_has_entry(pre_suc, j));
                    }
                }
            } else {
                assert(post_suc[post_suc.len() - 1].device_index == j);
                assert(spec_has_entry(post_suc, j));
            }
        }
    } else {
        assert forall|j: int|
            0 <= j < post_out.len() implies (spec_create_ok(#[trigger] post_out[j])
            <==> spec_has_entry(post_suc, j)) by {
            if j < n - 1 {
                assert(post_out[j] == pre_out[j]);
            } else {
                if spec_has_entry(post_suc, j) {
                    let k = choose|k: int|
                        0 <= k < post_suc.len() && (#[trigger] post_suc[k]).device_index == j;
                    assert(pre_suc[k].device_index < pre_out.len());
                }
            }
        }
    }
}

/// Concatenate two pieces of text.
fn concat2(a: &str, b: &str) -> (r: String)
    ensures
        r@ == a@ + b@,
{
    let mut out = String::new();
    out.append(a);
    out.append(b);
    proof {
        assert(out@ =~= a@ + b@);
    }
    out
}

/// One rollback error line: the device's name and what its delete said.
fn rollback_error_line(name: &str, err: &Option<String>) -> (r: String)
    ensures
        r@ == name@ + ": "@ + spec_err_or(err.deep_view(), "Delete failed"@),
{
    let mut out = String::new();
    out.append(name);
    out.append(": ");
    match err {
        Some(m) => out.append(m.as_str()),
        None => out.append("Delete failed"),
    }
    proof {
        assert(out@ =~= name@ + ": "@ + spec_err_or(err.deep_view(), "Delete failed"@));
    }
    out
}

/// Compose the terminal error of an aborted saga.
fn compose_final_error(message: &str, rollback_errors: &Vec<String>, finalize_err: &Option<
    String,
>) -> (r: String)
    ensures
        r@ == spec_final_message(
            message@,
            rollback_errors.deep_view(),
            finalize_err.deep_view(),
        ),
{
    let mut out = String::new();
    out.append(message);
    if rollback_errors.len() > 0 {
        out.append(". Rollback errors: ");
        let joined = join_strings(rollback_errors, "; ");
        out.append(joined.as_str());
    }
    match finalize_err {
        Some(f) => {
            out.append(". Finalize failed: ");
            out.append(f.as_str());
        },
        None => {},
    }
    proof {
        assert(out@ =~= spec_final_message(
            message@,
            rollback_errors.deep_view(),
            finalize_err.deep_view(),
        ));
    }
    out
}

impl Saga {
    /// Feed the outcome of the pending action into the machine.  The
    /// relation between the old and the new state is `spec_step`; the
    /// bookkeeping invariant is preserved.
    pub fn step(&mut self, ev: SagaEvent)
        requires
            old(self).wf(),
            old(self).expects(ev),
        ensures
            final(self).wf(),
            spec_step(*old(self), ev, *final(self)),
    {
        let phase = self.phase;
        match (phase, ev) {
            (SagaPhase::BackendStart, SagaEvent::BackendStarted(res)) => {
                match res {
                    Ok(o) => {
                        let StartProvisioningOutcome {
                            provisioning_id,
                            device_student_id,
                            target_devices,
                        } = o;
                        let adopted = adopt_employee_no(
                            self.employee_no.as_str(),
                            device_student_id.as_str(),
                        );
                        self.employee_no = adopted;
                        self.provisioning_id = Some(provisioning_id);
                        self.device_map = target_devices;
                        if self.devices.len() > 0 {
                            self.phase = SagaPhase::Connect { device: 0 };
                        } else {
                            self.phase = SagaPhase::Succeeded;
                        }
                    },
                    Err(e) => {
                        let msg = concat2("Backend provisioning failed: ", e.as_str());
                        self.abort_reason = Some(msg.clone());
                        self.final_error = Some(msg);
                        self.phase = SagaPhase::Failed;
                    },
                }
            },
            (SagaPhase::Connect { device }, SagaEvent::ConnectionTested(c)) => {
                if c.ok {
                    self.pending_connection = Some(c);
                    self.phase = SagaPhase::Create { device };
                } else {
                    let device_id = self.devices[device].id.clone();
                    let device_name = self.devices[device].name.clone();
                    self.outcomes.push(
                        RegisterDeviceResult {
                            device_id,
                            device_name,
                            connection: c,
                            user_create: None,
                            face_upload: None,
                        },
                    );
                    proof {
                        assert(self.outcomes@.drop_last() =~= old(self).outcomes@);
                        lemma_wf_outcome_push(
                            old(self).outcomes@,
                            old(self).successful@,
                            self.outcomes@,
                            self.successful@,
                        );
                    }
                    let n = self.devices.len();
                    if self.backend.is_some() {
                        self.phase = SagaPhase::Report { device };
                    } else if device + 1 < n {
                        self.phase = SagaPhase::Connect { device: device + 1 };
                    } else {
                        self.phase = SagaPhase::Succeeded;
                    }
                }
            },
            (SagaPhase::Create { device }, SagaEvent::IdentityCreated(a)) => {
                proof {
                    assert(device < old(self).devices@.len());
                }
                if a.ok {
                    self.pending_create = Some(a);
                    self.phase = SagaPhase::Upload { device };
                } else {
                    let device_id = self.devices[device].id.clone();
                    let device_name = self.devices[device].name.clone();
                    let conn = self.pending_connection.take().unwrap();
                    self.outcomes.push(
                        RegisterDeviceResult {
                            device_id,
                            device_name,
                            connection: conn,
                            user_create: Some(a),
                            face_upload: None,
                        },
                    );
                    proof {
                        assert(self.outcomes@.drop_last() =~= old(self).outcomes@);
                        lemma_wf_outcome_push(
                            old(self).outcomes@,
                            old(self).successful@,
                            self.outcomes@,
                            self.successful@,
                        );
                    }
                    let n = self.devices.len();
                    if self.backend.is_some() {
                        self.phase = SagaPhase::Report { device };
                    } else if device + 1 < n {
                        self.phase = SagaPhase::Connect { device: device + 1 };
                    } else {
                        self.phase = SagaPhase::Succeeded;
                    }
                }
            },
            (SagaPhase::Upload { device }, SagaEvent::ArtifactUploaded(u)) => {
                proof {
                    assert(device < old(self).devices@.len());
                }
                let device_id = self.devices[device].id.clone();
                let device_name = self.devices[device].name.clone();
                let device_host = self.devices[device].host.clone();
                let conn = self.pending_connection.take().unwrap();
                let created = self.pending_create.take().unwrap();
                let backend_device_id = crate::backend::lookup_backend_id(
                    &self.device_map,
                    self.devices[device].id.as_str(),
                );
                self.outcomes.push(
                    RegisterDeviceResult {
                        device_id,
                        device_name: device_name.clone(),
                        connection: conn,
                        user_create: Some(created),
                        face_upload: Some(u),
                    },
                );
                let ghost pre_successful = self.successful@;
                self.successful.push(
                    SuccessfulDeviceEntry {
                        device_index: device,
                        backend_device_id,
                        device_name,
                        device_host,
                    },
                );
                proof {
                    assert(self.successful@.drop_last() =~= pre_successful);
                    assert(self.outcomes@.drop_last() =~= old(self).outcomes@);
                    assert(spec_create_ok(self.outcomes@.last()));
                    lemma_wf_outcome_push(
                        old(self).outcomes@,
                        old(self).successful@,
                        self.outcomes@,
                        self.successful@,
                    );
                }
                let n = self.devices.len();
                if self.backend.is_some() {
                    self.phase = SagaPhase::Report { device };
                } else if device + 1 < n {
                    self.phase = SagaPhase::Connect { device: device + 1 };
                } else {
                    self.phase = SagaPhase::Succeeded;
                }
            },
            (SagaPhase::Report { device }, SagaEvent::ForwardReported(res)) => {
                match res {
                    Ok(_) => {
                        let n = self.devices.len();
                        if device + 1 < n {
                            self.phase = SagaPhase::Connect { device: device + 1 };
                        } else {
                            self.phase = SagaPhase::Succeeded;
                        }
                    },
                    Err(e) => {
                        let msg = concat2("Backend report failed: ", e.as_str());
                        self.abort_reason = Some(msg);
                        if self.successful.len() > 0 {
                            self.phase = SagaPhase::RollbackDelete { entry: 0 };
                            self.deletes_issued = Ghost(spec_delete_prefix(1));
                        } else {
                            self.phase = SagaPhase::Finalize;
                        }
                    },
                }
            },
            (SagaPhase::RollbackDelete { entry }, SagaEvent::RollbackDeleted(a)) => {
                if !a.ok {
                    let ghost pre_errors = self.rollback_errors@;
                    let line = rollback_error_line(
                        self.successful[entry].device_name.as_str(),
                        &a.error_msg,
                    );
                    self.rollback_errors.push(line);
                    proof {
                        assert(self.rollback_errors@.drop_last() =~= pre_errors);
                    }
                }
                self.pending_delete = Some(a);
                self.phase = SagaPhase::RollbackReport { entry };
            },
            (SagaPhase::RollbackReport { entry }, SagaEvent::RollbackReported) => {
                self.pending_delete = None;
                let n = self.successful.len();
                if entry + 1 < n {
                    self.phase = SagaPhase::RollbackDelete { entry: entry + 1 };
                    self.deletes_issued = Ghost(spec_delete_prefix(entry as int + 2));
                } else {
                    self.phase = SagaPhase::Finalize;
                    proof {
                        assert(self.deletes_issued@ =~= spec_delete_prefix(
                            self.successful@.len() as int,
                        ));
                    }
                }
            },
            (SagaPhase::Finalize, SagaEvent::FailureFinalized(res)) => {
                let finalize_err: Option<String> = match res {
                    Ok(_) => None,
                    Err(e) => Some(e),
                };
                let message = match &self.abort_reason {
                    Some(m) => m.clone(),
                    None => String::new(),
                };
                let composed = compose_final_error(
                    message.as_str(),
                    &self.rollback_errors,
                    &finalize_err,
                );
                self.final_error = Some(composed);
                self.phase = SagaPhase::Failed;
            },
            _ => {
                proof {
                    assert(false);
                }
            },
        }
    }
}

impl Saga {
    /// Set up a saga for one registration attempt: generate the local
    /// employee number and the per-attempt idempotency key, read the
    /// clock for the validity window, and validate the request exactly as
    /// `new` does.
    pub fn begin(
        request: EnrollmentRequest,
        devices: Vec<DeviceConfig>,
        backend_url: Option<String>,
        backend_token: Option<String>,
        school_id: Option<String>,
        class_id: Option<String>,
    ) -> (r: Result<Saga, String>)
        ensures
            !spec_artifact_size_ok(request.face_image_base64@.len() as int) ==> (r matches Err(m)
                && m@ == spec_size_error()),
            (spec_artifact_size_ok(request.face_image_base64@.len() as int) && devices@.len() == 0
                && !spec_db_only(request)) ==> (r matches Err(m) && m@
                == "No devices configured"@),
            (spec_artifact_size_ok(request.face_image_base64@.len() as int) && (devices@.len() > 0
                || spec_db_only(request)) && spec_normalized(backend_url.deep_view()) is Some
                && spec_normalized(school_id.deep_view()) is None) ==> (r matches Err(m) && m@
                == "schoolId is required when backendUrl is set"@),
            r matches Ok(s) ==> {
                &&& s.wf()
                &&& s.request == request
                &&& s.devices@ =~= spec_chosen_devices(request, devices@)
                &&& s.employee_no@.len() == crate::employee::EMPLOYEE_NO_LEN as int
                &&& spec_all_digits(s.employee_no@)
                &&& s.idempotency_key@.len() == 36
            },
    {
        let employee_no = crate::employee::generate_employee_no();
        let idempotency_key = crate::employee::generate_request_id();
        let now = crate::devtime::now_device_time();
        Saga::new(
            request,
            devices,
            backend_url,
            backend_token,
            school_id,
            class_id,
            employee_no,
            idempotency_key,
            &now,
        )
    }

    /// The rollback reason reported to the backend for each compensated
    /// device: a fixed phrase around the original abort cause.
    pub fn rollback_reason(&self) -> (r: String)
        requires
            self.abort_reason is Some,
        ensures
            self.abort_reason matches Some(m) && r@ == "Rolled back due to failure: "@ + m@,
    {
        let msg = match &self.abort_reason {
            Some(m) => m.as_str(),
            None => "",
        };
        concat2("Rolled back due to failure: ", msg)
    }

    /// The reason handed to failure-finalization: the rollback reason,
    /// extended with every collected rollback error.
    pub fn finalize_reason(&self) -> (r: String)
        requires
            self.abort_reason is Some,
        ensures
            self.abort_reason matches Some(m) && r@ == spec_final_message(
                "Rolled back due to failure: "@ + m@,
                self.rollback_errors.deep_view(),
                None,
            ),
    {
        let base = self.rollback_reason();
        let none: Option<String> = None;
        compose_final_error(base.as_str(), &self.rollback_errors, &none)
    }

    /// The error text reported to the backend for the entry being rolled
    /// back: the rollback reason, extended with the delete's own error
    /// when the compensating delete itself failed.
    pub fn rollback_report_error(&self) -> (r: String)
        requires
            self.abort_reason is Some,
            self.pending_delete is Some,
        ensures
            (self.abort_reason matches Some(m) && (self.pending_delete matches Some(d) && r@
                == (if d.ok {
                "Rolled back due to failure: "@ + m@
            } else {
                "Rolled back due to failure: "@ + m@ + ". Rollback delete failed: "@
                    + spec_err_or(d.error_msg.deep_view(), "Rollback delete failed"@)
            }))),
    {
        let base = self.rollback_reason();
        match &self.pending_delete {
            Some(d) => {
                if d.ok {
                    base
                } else {
                    let mut out = base;
                    out.append(". Rollback delete failed: ");
                    match &d.error_msg {
                        Some(m) => out.append(m.as_str()),
                        None => out.append("Rollback delete failed"),
                    }
                    out
                }
            },
            None => base,
        }
    }

    /// Hand the aggregated result out of a saga that did not abort.
    pub fn into_result(self) -> (r: RegisterResult)
        requires
            self.phase is Succeeded,
        ensures
            r.employee_no == self.employee_no,
            r.provisioning_id == self.provisioning_id,
            r.results == self.outcomes,
    {
        RegisterResult {
            employee_no: self.employee_no,
            provisioning_id: self.provisioning_id,
            results: self.outcomes,
        }
    }
}

/// For every device whose identity-create was recorded as successful, a
/// successful-device entry exists, so a compensating delete is owed to
/// exactly those devices.
pub proof fn lemma_create_ok_has_entry(s: Saga, j: int)
    requires
        s.wf(),
        0 <= j < s.outcomes@.len(),
        spec_create_ok(s.outcomes@[j]),
    ensures
        spec_has_entry(s.successful@, j),
{
}

/// After an aborted saga reaches its terminal state, exactly one rollback
/// delete has been issued for every successful-device entry, in entry
/// order and regardless of the other deletes' outcomes.
pub proof fn lemma_rollback_complete(s: Saga)
    requires
        s.wf(),
        s.phase is Failed,
        s.abort_reason is Some,
    ensures
        s.deletes_issued@ =~= Seq::new(s.successful@.len(), |k: int| k),
{
}

/// The employee number is settled when the backend start is answered
/// (adopting the backend's identity only when purely numeric) and never
/// changes afterwards: every rollback delete uses the same, final number
/// the forward pass wrote to the devices.
pub proof fn lemma_employee_no_stable(pre: Saga, ev: SagaEvent, post: Saga)
    requires
        spec_step(pre, ev, post),
        !(pre.phase is BackendStart),
    ensures
        post.employee_no == pre.employee_no,
{
}

/// A device that never reached a successful identity-create is owed no
/// compensation: no successful-device entry names it.
pub proof fn lemma_no_create_no_entry(s: Saga, j: int)
    requires
        s.wf(),
        0 <= j < s.outcomes@.len(),
        !spec_create_ok(s.outcomes@[j]),
    ensures
        !spec_has_entry(s.successful@, j),
{
}

} // verus!
