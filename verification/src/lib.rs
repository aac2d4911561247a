//! The durable state of Nodescale: what every operation on networks, devices,
//! invitations, provider imports and provider mutations decides, refuses and
//! records.
//!
//! The library does no input or output. A caller loads the records that an
//! operation names, inside one transaction of its database, hands them over as
//! plain values, and stores what comes back. What the rules of other components
//! answer, such as whether a state may follow another, is handed over in the
//! same way. An operation that is refused changes nothing, so the caller rolls
//! back; one that succeeds says exactly what the records are then and which
//! events the audit trail gets.
//!
//! The modules whose names end in `laws` say what that amounts to: what each
//! operation admits, changes and leaves alone, on the fields of what goes in and
//! of what comes out.

pub mod audit;
pub mod authority_laws;
pub mod authorization;
pub mod capabilities;
pub mod cleanup;
pub mod config;
pub mod digest;
pub mod dispatch;
pub mod effects;
pub mod error;
pub mod ids;
pub mod import;
pub mod inventory;
pub mod invitation_laws;
pub mod json;
pub mod laws;
pub mod lifecycle;
pub mod metadata;
pub mod migration;
pub mod migration_laws;
pub mod name_laws;
pub mod names;
pub mod observation;
pub mod operation_laws;
pub mod paging;
pub mod provider_laws;
pub mod reconcile;
pub mod reconcile_laws;
pub mod record_laws;
pub mod records;
pub mod redemption;
pub mod refusal_laws;
pub mod report;
pub mod rowdigest;
pub mod rules;
pub mod snapshot;
pub mod store;
pub mod text;
pub mod text_laws;
pub mod time;

pub use audit::{AuditActor, AuditEvent, AuditLog, StateStore};
pub use authorization::{
    AuthorityRecords, ConfirmedProviderCredentialReference, MutationAuthorization,
    MutationAuthorizationContext, ProviderMutationConfiguration,
};
pub use cleanup::{CleanupAnswers, N4CleanupTarget};
pub use config::{HeadscaleImportConfig, TailscaleImportConfig};
pub use dispatch::{N4CredentialConfirmation, N4CredentialDispatch};
pub use error::{DatabaseFailure, ReconciliationFailure, StateError};
pub use ids::{
    DeviceId, Generation, InvitationId, JoinSessionId, NetworkId, ProviderCredentialId,
    ProviderCredentialReference, ProviderInstanceId, RevocationId, Stored, StoredGeneration,
};
pub use inventory::PROVIDER_OBSERVATION_PAGE_MAX;
pub use lifecycle::{N4InvitationCandidate, N4InvitationContext, N4InvitationView, N4Lifecycle};
pub use metadata::{MetadataObject, MetadataValue, SanitizedMetadata};
pub use migration::SUPPORTED_SCHEMA_VERSION;
pub use names::{
    AdoptionState, CompatibilityStatus, Failpoint, InvitationState, JoinSessionState,
    MembershipState, MutationPolicyMode, N4CleanupIntent, N4CleanupState, N4DispatchFailure,
    N4InvalidationOutcome, ObservationClassification, ProviderError, ProviderKind,
    ProviderMutationCapability, ProviderReconciliationState, RevocationState,
    TlsVerificationPolicy,
};
pub use observation::{NodeIdentity, ProviderNode, ProviderObservation, ServerInspection};
pub use records::{
    Device, DeviceGenerations, Invitation, JoinConstraints, JoinSession, Network, Revocation, Roles,
};
pub use redemption::{N4PresentedMetadata, N4RedemptionReservation};
pub use report::ReconciliationReport;
pub use store::DEVICE_PAGE_MAX;
pub use time::Timestamp;
