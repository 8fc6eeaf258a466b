//! Recreating one stored identity on a single device: delete it and
//! create it again with updated details, optionally reusing the biometric
//! artifact already stored on the device.
//!
//! Like the saga, this is a state machine: the transport performs one
//! network action per phase and hands back the outcome, and the verified
//! `step` decides what follows.  Unlike the saga there is no compensation:
//! the first failure ends the flow with a descriptive error.

use vstd::prelude::*;

use crate::action::{DeviceActionResult, DeviceConnectionResult};
use crate::device::UserInfoEntry;

verus! {

/// Where the recreate flow stands.
#[derive(Clone, Copy)]
pub enum RecreatePhase {
    Connect,
    FetchUser,
    FetchFace,
    Delete,
    Create,
    Upload,
    Done,
    Failed,
}

/// The one network action the transport must perform next.
#[derive(Clone, Copy)]
pub enum RecreateAction {
    TestConnection,
    FetchUser,
    FetchFace,
    DeleteIdentity,
    CreateIdentity,
    UploadArtifact,
    Finish,
}

/// The plain outcome of the action the flow asked for.
pub enum RecreateEvent {
    ConnectionTested(DeviceConnectionResult),
    UserFetched(Option<UserInfoEntry>),
    FaceFetched(Result<Vec<u8>, String>),
    IdentityDeleted(DeviceActionResult),
    IdentityCreated(DeviceActionResult),
    ArtifactUploaded(DeviceActionResult),
}

pub open spec fn spec_msg_or(o: Option<Seq<char>>, fallback: Seq<char>) -> Seq<char> {
    match o {
        Some(m) => m,
        None => fallback,
    }
}

/// State the recreate flow never changes while stepping.
pub open spec fn spec_recreate_frame(pre: RecreateFlow, post: RecreateFlow) -> bool {
    &&& post.old_employee_no == pre.old_employee_no
    &&& post.next_employee_no == pre.next_employee_no
    &&& post.name == pre.name
    &&& post.gender == pre.gender
    &&& post.reuse_existing_face == pre.reuse_existing_face
}

/// The full transition relation of one recreate step.
pub open spec fn spec_recreate_step(pre: RecreateFlow, ev: RecreateEvent, post: RecreateFlow) -> bool {
    &&& spec_recreate_frame(pre, post)
    &&& match (pre.phase, ev) {
        (RecreatePhase::Connect, RecreateEvent::ConnectionTested(c)) => {
            if !c.ok {
                &&& post.phase is Failed
                &&& post.failure matches Some(m) && m@ == spec_msg_or(
                    c.message.deep_view(),
                    "Device offline"@,
                )
            } else if pre.face_data is Some {
                &&& post.phase is Delete
                &&& post.face_data == pre.face_data
                &&& post.failure == pre.failure
            } else if pre.reuse_existing_face {
                &&& post.phase is FetchUser
                &&& post.failure == pre.failure
            } else {
                &&& post.phase is Failed
                &&& post.failure matches Some(m) && m@ == "Face image is required"@
            }
        },
        (RecreatePhase::FetchUser, RecreateEvent::UserFetched(found)) => {
            match found {
                None => {
                    &&& post.phase is Failed
                    &&& post.failure matches Some(m) && m@ == "User not found on device"@
                },
                Some(user) => {
                    match user.face_url {
                        None => {
                            &&& post.phase is Failed
                            &&& post.failure matches Some(m) && m@
                                == "Existing user has no face to reuse"@
                        },
                        Some(url) => {
                            &&& post.phase is FetchFace
                            &&& post.face_url == Some(url)
                            &&& post.failure == pre.failure
                        },
                    }
                },
            }
        },
        (RecreatePhase::FetchFace, RecreateEvent::FaceFetched(res)) => {
            match res {
                Err(e) => {
                    &&& post.phase is Failed
                    &&& post.failure == Some(e)
                },
                Ok(bytes) => {
                    &&& post.phase is Delete
                    &&& post.face_data matches Some(d) && d@
                        == crate::artifact::spec_b64_encode(bytes@)
                    &&& post.failure == pre.failure
                },
            }
        },
        (RecreatePhase::Delete, RecreateEvent::IdentityDeleted(d)) => {
            if !d.ok {
                &&& post.phase is Failed
                &&& post.failure matches Some(m) && m@ == "Delete failed: "@ + spec_msg_or(
                    d.error_msg.deep_view(),
                    Seq::empty(),
                )
            } else {
                &&& post.phase is Create
                &&& post.delete_result == Some(d)
                &&& post.failure == pre.failure
            }
        },
        (RecreatePhase::Create, RecreateEvent::IdentityCreated(c)) => {
            if !c.ok {
                &&& post.phase is Failed
                &&& post.failure matches Some(m) && m@ == "Create failed: "@ + spec_msg_or(
                    c.error_msg.deep_view(),
                    Seq::empty(),
                )
            } else {
                &&& post.phase is Upload
                &&& post.create_result == Some(c)
                &&& post.delete_result == pre.delete_result
                &&& post.failure == pre.failure
            }
        },
        (RecreatePhase::Upload, RecreateEvent::ArtifactUploaded(u)) => {
            &&& post.phase is Done
            &&& post.upload_result == Some(u)
            &&& post.delete_result == pre.delete_result
            &&& post.create_result == pre.create_result
            &&& post.failure == pre.failure
        },
        _ => false,
    }
}

/// The recreate flow's state.
pub struct RecreateFlow {
    pub old_employee_no: String,
    pub next_employee_no: String,
    pub name: String,
    pub gender: String,
    pub reuse_existing_face: bool,
    /// The encoded artifact to upload, once known.
    pub face_data: Option<String>,
    /// Where the device stores the artifact being reused.
    pub face_url: Option<String>,
    pub delete_result: Option<DeviceActionResult>,
    pub create_result: Option<DeviceActionResult>,
    pub upload_result: Option<DeviceActionResult>,
    pub failure: Option<String>,
    pub phase: RecreatePhase,
}

impl RecreateFlow {
    pub open spec fn spec_action_of(self) -> RecreateAction {
        match self.phase {
            RecreatePhase::Connect => RecreateAction::TestConnection,
            RecreatePhase::FetchUser => RecreateAction::FetchUser,
            RecreatePhase::FetchFace => RecreateAction::FetchFace,
            RecreatePhase::Delete => RecreateAction::DeleteIdentity,
            RecreatePhase::Create => RecreateAction::CreateIdentity,
            RecreatePhase::Upload => RecreateAction::UploadArtifact,
            RecreatePhase::Done => RecreateAction::Finish,
            RecreatePhase::Failed => RecreateAction::Finish,
        }
    }

    /// Which event kind the current phase is waiting for.
    pub open spec fn expects(self, ev: RecreateEvent) -> bool {
        match self.phase {
            RecreatePhase::Connect => ev is ConnectionTested,
            RecreatePhase::FetchUser => ev is UserFetched,
            RecreatePhase::FetchFace => ev is FaceFetched,
            RecreatePhase::Delete => ev is IdentityDeleted,
            RecreatePhase::Create => ev is IdentityCreated,
            RecreatePhase::Upload => ev is ArtifactUploaded,
            RecreatePhase::Done => false,
            RecreatePhase::Failed => false,
        }
    }

    /// Set up the flow: the next employee number is freshly generated
    /// when asked for, else the existing one; a caller-supplied artifact
    /// is used as handed in.
    pub fn new(
        old_employee_no: String,
        name: String,
        gender: String,
        new_employee_no: bool,
        generated_employee_no: String,
        reuse_existing_face: bool,
        face_image_base64: Option<String>,
    ) -> (r: RecreateFlow)
        ensures
            r.phase is Connect,
            r.old_employee_no == old_employee_no,
            r.next_employee_no@ == (if new_employee_no {
                generated_employee_no@
            } else {
                old_employee_no@
            }),
            r.name == name,
            r.gender == gender,
            r.reuse_existing_face == reuse_existing_face,
            r.face_data == face_image_base64,
            r.failure is None,
            r.delete_result is None,
            r.create_result is None,
            r.upload_result is None,
    {
        let next_employee_no = if new_employee_no {
            generated_employee_no
        } else {
            old_employee_no.clone()
        };
        RecreateFlow {
            old_employee_no,
            next_employee_no,
            name,
            gender,
            reuse_existing_face,
            face_data: face_image_base64,
            face_url: None,
            delete_result: None,
            create_result: None,
            upload_result: None,
            failure: None,
            phase: RecreatePhase::Connect,
        }
    }

    /// Feed the outcome of the pending action into the flow.
    pub fn step(&mut self, ev: RecreateEvent)
        requires
            old(self).expects(ev),
        ensures
            spec_recreate_step(*old(self), ev, *final(self)),
    {
        let phase = self.phase;
        match (phase, ev) {
            (RecreatePhase::Connect, RecreateEvent::ConnectionTested(c)) => {
                if !c.ok {
                    let msg = match c.message {
                        Some(m) => m,
                        None => "Device offline".to_owned(),
                    };
                    self.failure = Some(msg);
                    self.phase = RecreatePhase::Failed;
                } else if self.face_data.is_some() {
                    self.phase = RecreatePhase::Delete;
                } else if self.reuse_existing_face {
                    self.phase = RecreatePhase::FetchUser;
                } else {
                    self.failure = Some("Face image is required".to_owned());
                    self.phase = RecreatePhase::Failed;
                }
            },
            (RecreatePhase::FetchUser, RecreateEvent::UserFetched(found)) => {
                match found {
                    None => {
                        self.failure = Some("User not found on device".to_owned());
                        self.phase = RecreatePhase::Failed;
                    },
                    Some(user) => {
                        match user.face_url {
                            None => {
                                self.failure = Some(
                                    "Existing user has no face to reuse".to_owned(),
                                );
                                self.phase = RecreatePhase::Failed;
                            },
                            Some(url) => {
                                self.face_url = Some(url);
                                self.phase = RecreatePhase::FetchFace;
                            },
                        }
                    },
                }
            },
            (RecreatePhase::FetchFace, RecreateEvent::FaceFetched(res)) => {
                match res {
                    Err(e) => {
                        self.failure = Some(e);
                        self.phase = RecreatePhase::Failed;
                    },
                    Ok(bytes) => {
                        let encoded = crate::artifact::b64_encode(&bytes);
                        self.face_data = Some(encoded);
                        self.phase = RecreatePhase::Delete;
                    },
                }
            },
            (RecreatePhase::Delete, RecreateEvent::IdentityDeleted(d)) => {
                if !d.ok {
                    let mut msg = String::new();
                    msg.append("Delete failed: ");
                    match &d.error_msg {
                        Some(m) => msg.append(m.as_str()),
                        None => {},
                    }
                    self.failure = Some(msg);
                    self.phase = RecreatePhase::Failed;
                } else {
                    self.delete_result = Some(d);
                    self.phase = RecreatePhase::Create;
                }
            },
            (RecreatePhase::Create, RecreateEvent::IdentityCreated(c)) => {
                if !c.ok {
                    let mut msg = String::new();
                    msg.append("Create failed: ");
                    match &c.error_msg {
                        Some(m) => msg.append(m.as_str()),
                        None => {},
                    }
                    self.failure = Some(msg);
                    self.phase = RecreatePhase::Failed;
                } else {
                    self.create_result = Some(c);
                    self.phase = RecreatePhase::Upload;
                }
            },
            (RecreatePhase::Upload, RecreateEvent::ArtifactUploaded(u)) => {
                self.upload_result = Some(u);
                self.phase = RecreatePhase::Done;
            },
            _ => {
                proof {
                    assert(false);
                }
            },
        }
    }

    /// Tell the transport what to do next.
    pub fn next_action(&self) -> (a: RecreateAction)
        ensures
            a == self.spec_action_of(),
    {
        match self.phase {
            RecreatePhase::Connect => RecreateAction::TestConnection,
            RecreatePhase::FetchUser => RecreateAction::FetchUser,
            RecreatePhase::FetchFace => RecreateAction::FetchFace,
            RecreatePhase::Delete => RecreateAction::DeleteIdentity,
            RecreatePhase::Create => RecreateAction::CreateIdentity,
            RecreatePhase::Upload => RecreateAction::UploadArtifact,
            RecreatePhase::Done => RecreateAction::Finish,
            RecreatePhase::Failed => RecreateAction::Finish,
        }
    }
}

} // verus!
