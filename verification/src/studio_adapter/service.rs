//! The adapter service's own decisions: which requests are admitted before
//! any project work, what it describes itself as, and which project is open.
use vstd::prelude::*;

use crate::stored_project::STORED_PROJECT_SCHEMA_VERSION;
use crate::studio_adapter::path::{path_safety_message, PathSafetyError, ProjectLocation, ProjectLocationView};
use crate::studio_adapter::protocol::{
    AdapterDescription, AdapterRejection, AdapterRejectionView, StudioEntityInspectorContractIdentity,
    MAX_REQUEST_ID_BYTES, MAX_STUDIO_ADAPTER_REQUEST_BYTES, MAX_STUDIO_ADAPTER_RESPONSE_BYTES,
    STUDIO_ADAPTER_PROTOCOL_VERSION, VOXEL_OBJECT_INSPECTOR_CONTRACT_ID,
    VOXEL_OBJECT_INSPECTOR_CONTRACT_VERSION,
};
use crate::text::{decimal, decimal_text, is_blank, join3, text_is_blank, utf8_len};
use crate::weapon_authoring::{
    LOADING_BAY_WEAPON_AUTHORING_CONTRACT_ID, LOADING_BAY_WEAPON_AUTHORING_CONTRACT_VERSION,
};

verus! {

/// A refused request: the request identity when it was admissible, and why.
#[derive(Debug, Clone)]
pub struct StudioAdapterRefusal {
    pub request_id: Option<String>,
    pub error: AdapterRejection,
}

pub open spec fn rejection_view(code: Seq<char>, message: Seq<char>) -> AdapterRejectionView {
    AdapterRejectionView { code, path: None, message }
}

pub open spec fn invalid_request_id() -> AdapterRejectionView {
    rejection_view(
        "protocol.invalidRequestId"@,
        "requestId must be nonblank and within the byte bound"@,
    )
}

pub open spec fn unsupported_version(protocol_version: u32) -> AdapterRejectionView {
    rejection_view(
        "protocol.unsupportedVersion"@,
        "protocol version "@ + decimal(protocol_version as nat) + " is unsupported; expected "@
            + decimal(STUDIO_ADAPTER_PROTOCOL_VERSION as nat),
    )
}

pub open spec fn request_too_large(actual: usize) -> AdapterRejectionView {
    rejection_view(
        "protocol.requestTooLarge"@,
        "request is "@ + decimal(actual as nat) + " bytes, exceeding the "@ + decimal(
            MAX_STUDIO_ADAPTER_REQUEST_BYTES as nat,
        ) + "-byte bound"@,
    )
}

pub open spec fn response_too_large() -> AdapterRejectionView {
    rejection_view(
        "protocol.responseTooLarge"@,
        "response exceeds the "@ + decimal(MAX_STUDIO_ADAPTER_RESPONSE_BYTES as nat)
            + "-byte bound"@,
    )
}

pub open spec fn project_not_open() -> AdapterRejectionView {
    rejection_view("project.notOpen"@, "no external project is open"@)
}

/// The refusal owed to a request's identity, if any: a blank or overlong
/// request identity is refused without echoing it; an unsupported protocol
/// version is refused with it.
pub open spec fn identity_outcome(protocol_version: u32, request_id: Seq<char>) -> Option<
    (Option<Seq<char>>, AdapterRejectionView),
> {
    if is_blank(request_id) || utf8_len(request_id) > MAX_REQUEST_ID_BYTES {
        Some((None, invalid_request_id()))
    } else if protocol_version != STUDIO_ADAPTER_PROTOCOL_VERSION {
        Some((Some(request_id), unsupported_version(protocol_version)))
    } else {
        None
    }
}

pub open spec fn refusal_view(refusal: StudioAdapterRefusal) -> (
    Option<Seq<char>>,
    AdapterRejectionView,
) {
    (
        match refusal.request_id {
            Some(id) => Some(id@),
            None => None,
        },
        refusal.error@,
    )
}

struct OpenProject {
    location: ProjectLocation,
}

/// The Studio adapter: at most one external project is open at a time.
pub struct StudioAdapterService {
    open: Option<OpenProject>,
}

impl StudioAdapterService {
    /// The location of the open project, if one is open.
    pub closed spec fn open_location(&self) -> Option<ProjectLocationView> {
        match self.open {
            Some(open) => Some(open.location@),
            None => None,
        }
    }

    /// A service with no project open.
    pub fn new() -> (service: Self)
        ensures
            service.open_location() is None,
    {
        StudioAdapterService { open: None }
    }

    /// A request is decoded only when it is within the request byte bound.
    pub fn check_request_size(input: &str) -> (result: Result<(), AdapterRejection>)
        ensures
            result is Ok <==> utf8_len(input@) <= MAX_STUDIO_ADAPTER_REQUEST_BYTES,
            result matches Err(error) ==> error@ == request_too_large(utf8_len(input@)),
    {
        let actual = input.len();
        if actual > MAX_STUDIO_ADAPTER_REQUEST_BYTES {
            let mut message = join3("request is ", decimal_text(actual as u64).as_str(), " bytes, exceeding the ");
            message.append(decimal_text(MAX_STUDIO_ADAPTER_REQUEST_BYTES as u64).as_str());
            message.append("-byte bound");
            return Err(AdapterRejection::new("protocol.requestTooLarge", message.as_str()));
        }
        Ok(())
    }

    /// An encoded response is released only when it is within the response
    /// byte bound; otherwise the bounded refusal takes its place.
    pub fn check_response_size(encoded: String) -> (result: Result<String, AdapterRejection>)
        ensures
            utf8_len(encoded@) <= MAX_STUDIO_ADAPTER_RESPONSE_BYTES ==> result == Ok::<
                String,
                AdapterRejection,
            >(encoded),
            utf8_len(encoded@) > MAX_STUDIO_ADAPTER_RESPONSE_BYTES ==> (result matches Err(
                error,
            ) && error@ == response_too_large()),
    {
        if encoded.as_str().len() > MAX_STUDIO_ADAPTER_RESPONSE_BYTES {
            let message = join3(
                "response exceeds the ",
                decimal_text(MAX_STUDIO_ADAPTER_RESPONSE_BYTES as u64).as_str(),
                "-byte bound",
            );
            return Err(AdapterRejection::new("protocol.responseTooLarge", message.as_str()));
        }
        Ok(encoded)
    }

    /// Every request passes these checks before its operation runs.
    pub fn check_request_identity(protocol_version: u32, request_id: &str) -> (result: Result<
        (),
        StudioAdapterRefusal,
    >)
        ensures
            result is Ok <==> identity_outcome(protocol_version, request_id@) is None,
            result matches Err(refusal) ==> identity_outcome(protocol_version, request_id@)
                == Some(refusal_view(refusal)),
    {
        if request_id.len() > MAX_REQUEST_ID_BYTES || text_is_blank(request_id) {
            return Err(
                StudioAdapterRefusal {
                    request_id: None,
                    error: AdapterRejection::new(
                        "protocol.invalidRequestId",
                        "requestId must be nonblank and within the byte bound",
                    ),
                },
            );
        }
        if protocol_version != STUDIO_ADAPTER_PROTOCOL_VERSION {
            let mut message = join3(
                "protocol version ",
                decimal_text(protocol_version as u64).as_str(),
                " is unsupported; expected ",
            );
            message.append(decimal_text(STUDIO_ADAPTER_PROTOCOL_VERSION as u64).as_str());
            return Err(
                StudioAdapterRefusal {
                    request_id: Some(String::from_str(request_id)),
                    error: AdapterRejection::new("protocol.unsupportedVersion", message.as_str()),
                },
            );
        }
        Ok(())
    }

    /// What this adapter describes itself as.
    pub fn describe() -> (description: AdapterDescription)
        ensures
            description.adapter_id@ == "rusty-engine-demo.loading-bay"@,
            description.adapter_version == 2,
            description.protocol_version == STUDIO_ADAPTER_PROTOCOL_VERSION,
            description.project_kind@ == "loadingBayProject"@,
            description.project_schema_version == STORED_PROJECT_SCHEMA_VERSION,
            description.operations@ == seq![
                "describe",
                "openProject",
                "readProject",
                "setEntityTranslation",
                "closeProject",
            ],
            description.entity_inspector_contracts@ == seq![
                StudioEntityInspectorContractIdentity {
                    contract_id: VOXEL_OBJECT_INSPECTOR_CONTRACT_ID,
                    contract_version: VOXEL_OBJECT_INSPECTOR_CONTRACT_VERSION,
                },
                StudioEntityInspectorContractIdentity {
                    contract_id: LOADING_BAY_WEAPON_AUTHORING_CONTRACT_ID,
                    contract_version: LOADING_BAY_WEAPON_AUTHORING_CONTRACT_VERSION,
                },
            ],
    {
        AdapterDescription {
            adapter_id: "rusty-engine-demo.loading-bay",
            adapter_version: 2,
            protocol_version: STUDIO_ADAPTER_PROTOCOL_VERSION,
            project_kind: "loadingBayProject",
            project_schema_version: STORED_PROJECT_SCHEMA_VERSION,
            operations: vec![
                "describe",
                "openProject",
                "readProject",
                "setEntityTranslation",
                "closeProject",
            ],
            entity_inspector_contracts: vec![
                StudioEntityInspectorContractIdentity {
                    contract_id: VOXEL_OBJECT_INSPECTOR_CONTRACT_ID,
                    contract_version: VOXEL_OBJECT_INSPECTOR_CONTRACT_VERSION,
                },
                StudioEntityInspectorContractIdentity {
                    contract_id: LOADING_BAY_WEAPON_AUTHORING_CONTRACT_ID,
                    contract_version: LOADING_BAY_WEAPON_AUTHORING_CONTRACT_VERSION,
                },
            ],
        }
    }

    /// A project path refusal, as the adapter reports it.
    pub fn path_rejection(error: &PathSafetyError) -> (rejection: AdapterRejection)
        ensures
            rejection@ == rejection_view("path.rejected"@, path_safety_message(*error)),
    {
        let message = error.message();
        AdapterRejection::new("path.rejected", message.as_str())
    }

    /// Records `location` as the open project, replacing any open one.
    pub fn record_open(&mut self, location: ProjectLocation)
        ensures
            final(self).open_location() == Some(location@),
    {
        self.open = Some(OpenProject { location });
    }

    /// Closes the open project, if any.
    pub fn close(&mut self)
        ensures
            final(self).open_location() is None,
    {
        self.open = None;
    }

    /// The open project's location; operations on the project are refused
    /// while none is open.
    pub fn require_open(&self) -> (result: Result<&ProjectLocation, AdapterRejection>)
        ensures
            self.open_location() is None <==> result is Err,
            result matches Ok(location) ==> self.open_location() == Some(location@),
            result matches Err(error) ==> error@ == project_not_open(),
    {
        match &self.open {
            Some(open) => Ok(&open.location),
            None => Err(AdapterRejection::new("project.notOpen", "no external project is open")),
        }
    }
}

} // verus!
