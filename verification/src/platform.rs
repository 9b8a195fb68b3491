//! The interface to the external platform, seen from the reconciler's
//! side: the calls it asks the embedder to perform, the responses it
//! expects back, and the step machine that threads them.
//!
//! The reconciler never performs a platform call itself. Each operation
//! returns either `Perform` — an action for the embedder, plus the
//! pending continuation to resume with the response — or `Complete`,
//! carrying the outputs document, if the type produces one.

use vstd::prelude::*;
use crate::doc::{Document, DocumentView};
use crate::resource_types::AssetId;

verus! {

/// One call against the platform, with everything the embedder needs to
/// make it. File paths are handed through as written in the inputs; the
/// embedder resolves them against the project root before uploading.
#[derive(Debug)]
pub enum PlatformAction {
    GetExperience { experience_id: AssetId },
    CreateExperience,
    ConfigureExperience { experience_id: AssetId, configuration: Document },
    SetExperienceActive { experience_id: AssetId, is_active: bool },
    UploadIcon { experience_id: AssetId, file_path: String },
    UploadThumbnail { experience_id: AssetId, file_path: String },
    SetThumbnailOrder { experience_id: AssetId, asset_ids: Vec<AssetId> },
    UploadDeveloperProductIcon { experience_id: AssetId, file_path: String },
    CreateDeveloperProduct {
        experience_id: AssetId,
        name: String,
        price: u32,
        description: String,
        icon_asset_id: Option<AssetId>,
    },
    FindDeveloperProductById { experience_id: AssetId, product_creation_id: AssetId },
    UpdateDeveloperProduct {
        experience_id: AssetId,
        asset_id: AssetId,
        name: String,
        price: u32,
        description: String,
        icon_asset_id: Option<AssetId>,
    },
    CreatePlace { experience_id: AssetId },
    ConfigurePlace { asset_id: AssetId, configuration: Document },
    UploadPlaceFile { asset_id: AssetId, file_path: String },
    GetPlace { asset_id: AssetId },
    RemovePlaceFromExperience { experience_id: AssetId, place_id: AssetId },
    DeleteThumbnail { experience_id: AssetId, image_id: AssetId },
}

/// The model of a `PlatformAction`.
pub ghost enum PlatformActionView {
    GetExperience { experience_id: AssetId },
    CreateExperience,
    ConfigureExperience { experience_id: AssetId, configuration: DocumentView },
    SetExperienceActive { experience_id: AssetId, is_active: bool },
    UploadIcon { experience_id: AssetId, file_path: Seq<char> },
    UploadThumbnail { experience_id: AssetId, file_path: Seq<char> },
    SetThumbnailOrder { experience_id: AssetId, asset_ids: Seq<AssetId> },
    UploadDeveloperProductIcon { experience_id: AssetId, file_path: Seq<char> },
    CreateDeveloperProduct {
        experience_id: AssetId,
        name: Seq<char>,
        price: u32,
        description: Seq<char>,
        icon_asset_id: Option<AssetId>,
    },
    FindDeveloperProductById { experience_id: AssetId, product_creation_id: AssetId },
    UpdateDeveloperProduct {
        experience_id: AssetId,
        asset_id: AssetId,
        name: Seq<char>,
        price: u32,
        description: Seq<char>,
        icon_asset_id: Option<AssetId>,
    },
    CreatePlace { experience_id: AssetId },
    ConfigurePlace { asset_id: AssetId, configuration: DocumentView },
    UploadPlaceFile { asset_id: AssetId, file_path: Seq<char> },
    GetPlace { asset_id: AssetId },
    RemovePlaceFromExperience { experience_id: AssetId, place_id: AssetId },
    DeleteThumbnail { experience_id: AssetId, image_id: AssetId },
}

impl View for PlatformAction {
    type V = PlatformActionView;

    open spec fn view(&self) -> PlatformActionView {
        match self {
            PlatformAction::GetExperience { experience_id } => PlatformActionView::GetExperience {
                experience_id: *experience_id,
            },
            PlatformAction::CreateExperience => PlatformActionView::CreateExperience,
            PlatformAction::ConfigureExperience { experience_id, configuration } => {
                PlatformActionView::ConfigureExperience {
                    experience_id: *experience_id,
                    configuration: configuration@,
                }
            },
            PlatformAction::SetExperienceActive { experience_id, is_active } => {
                PlatformActionView::SetExperienceActive {
                    experience_id: *experience_id,
                    is_active: *is_active,
                }
            },
            PlatformAction::UploadIcon { experience_id, file_path } => {
                PlatformActionView::UploadIcon {
                    experience_id: *experience_id,
                    file_path: file_path@,
                }
            },
            PlatformAction::UploadThumbnail { experience_id, file_path } => {
                PlatformActionView::UploadThumbnail {
                    experience_id: *experience_id,
                    file_path: file_path@,
                }
            },
            PlatformAction::SetThumbnailOrder { experience_id, asset_ids } => {
                PlatformActionView::SetThumbnailOrder {
                    experience_id: *experience_id,
                    asset_ids: asset_ids@,
                }
            },
            PlatformAction::UploadDeveloperProductIcon { experience_id, file_path } => {
                PlatformActionView::UploadDeveloperProductIcon {
                    experience_id: *experience_id,
                    file_path: file_path@,
                }
            },
            PlatformAction::CreateDeveloperProduct {
                experience_id,
                name,
                price,
                description,
                icon_asset_id,
            } => PlatformActionView::CreateDeveloperProduct {
                experience_id: *experience_id,
                name: name@,
                price: *price,
                description: description@,
                icon_asset_id: *icon_asset_id,
            },
            PlatformAction::FindDeveloperProductById { experience_id, product_creation_id } => {
                PlatformActionView::FindDeveloperProductById {
                    experience_id: *experience_id,
                    product_creation_id: *product_creation_id,
                }
            },
            PlatformAction::UpdateDeveloperProduct {
                experience_id,
                asset_id,
                name,
                price,
                description,
                icon_asset_id,
            } => PlatformActionView::UpdateDeveloperProduct {
                experience_id: *experience_id,
                asset_id: *asset_id,
                name: name@,
                price: *price,
                description: description@,
                icon_asset_id: *icon_asset_id,
            },
            PlatformAction::CreatePlace { experience_id } => PlatformActionView::CreatePlace {
                experience_id: *experience_id,
            },
            PlatformAction::ConfigurePlace { asset_id, configuration } => {
                PlatformActionView::ConfigurePlace {
                    asset_id: *asset_id,
                    configuration: configuration@,
                }
            },
            PlatformAction::UploadPlaceFile { asset_id, file_path } => {
                PlatformActionView::UploadPlaceFile {
                    asset_id: *asset_id,
                    file_path: file_path@,
                }
            },
            PlatformAction::GetPlace { asset_id } => PlatformActionView::GetPlace {
                asset_id: *asset_id,
            },
            PlatformAction::RemovePlaceFromExperience { experience_id, place_id } => {
                PlatformActionView::RemovePlaceFromExperience {
                    experience_id: *experience_id,
                    place_id: *place_id,
                }
            },
            PlatformAction::DeleteThumbnail { experience_id, image_id } => {
                PlatformActionView::DeleteThumbnail {
                    experience_id: *experience_id,
                    image_id: *image_id,
                }
            },
        }
    }
}

/// What the platform answered. `Unit` acknowledges a call that returns no
/// data. Every identifier and counter is platform-assigned.
#[derive(Clone, Copy, Debug, PartialEq, Eq, Structural)]
pub enum PlatformResponse {
    Unit,
    ExperienceInfo { root_place_id: AssetId },
    ExperienceCreated { universe_id: AssetId, root_place_id: AssetId },
    ImageUploaded { target_id: AssetId },
    DeveloperProductCreated { id: AssetId, shop_id: AssetId },
    DeveloperProductInfo { product_id: AssetId, developer_product_id: AssetId },
    PlaceCreated { place_id: AssetId },
    PlaceInfo { current_saved_version: u32 },
}

/// The continuation an operation is suspended on while the embedder
/// performs a platform action.
#[derive(Debug)]
pub enum PendingOperation {
    /// Adopting an existing experience: waiting on its info.
    ExperienceAdopt { asset_id: AssetId },
    /// Waiting on a freshly created experience.
    ExperienceCreate,
    /// Waiting on an icon upload.
    IconUpload,
    /// Waiting on a thumbnail upload.
    ThumbnailUpload,
    /// Waiting on a developer product icon upload.
    DeveloperProductIconUpload,
    /// Thumbnail update: the old image is being deleted; the new one is
    /// uploaded next.
    ThumbnailReplace { experience_id: AssetId, file_path: String },
    /// Waiting on product creation; the product is then re-fetched by its
    /// creation id, which resolves the distinct id later updates need.
    DeveloperProductCreate { experience_id: AssetId },
    /// Waiting on the product re-fetch.
    DeveloperProductFetch { creation_id: AssetId, shop_id: AssetId },
    /// Product update: the recorded outputs pass through unchanged.
    DeveloperProductUpdate { outputs: Document },
    /// Waiting on place creation.
    PlaceCreate,
    /// A place file was uploaded; the place is then re-fetched for its
    /// current saved version counter.
    PlaceFileFetch { asset_id: AssetId },
    /// Waiting on the place info that carries the version counter.
    PlaceFileVersion,
    /// Waiting on a bare acknowledgement; the operation then completes
    /// with no outputs.
    Acknowledge,
}

/// The model of a `PendingOperation`.
pub ghost enum PendingOperationView {
    ExperienceAdopt { asset_id: AssetId },
    ExperienceCreate,
    IconUpload,
    ThumbnailUpload,
    DeveloperProductIconUpload,
    ThumbnailReplace { experience_id: AssetId, file_path: Seq<char> },
    DeveloperProductCreate { experience_id: AssetId },
    DeveloperProductFetch { creation_id: AssetId, shop_id: AssetId },
    DeveloperProductUpdate { outputs: DocumentView },
    PlaceCreate,
    PlaceFileFetch { asset_id: AssetId },
    PlaceFileVersion,
    Acknowledge,
}

impl View for PendingOperation {
    type V = PendingOperationView;

    open spec fn view(&self) -> PendingOperationView {
        match self {
            PendingOperation::ExperienceAdopt { asset_id } => {
                PendingOperationView::ExperienceAdopt { asset_id: *asset_id }
            },
            PendingOperation::ExperienceCreate => PendingOperationView::ExperienceCreate,
            PendingOperation::IconUpload => PendingOperationView::IconUpload,
            PendingOperation::ThumbnailUpload => PendingOperationView::ThumbnailUpload,
            PendingOperation::DeveloperProductIconUpload => {
                PendingOperationView::DeveloperProductIconUpload
            },
            PendingOperation::ThumbnailReplace { experience_id, file_path } => {
                PendingOperationView::ThumbnailReplace {
                    experience_id: *experience_id,
                    file_path: file_path@,
                }
            },
            PendingOperation::DeveloperProductCreate { experience_id } => {
                PendingOperationView::DeveloperProductCreate { experience_id: *experience_id }
            },
            PendingOperation::DeveloperProductFetch { creation_id, shop_id } => {
                PendingOperationView::DeveloperProductFetch {
                    creation_id: *creation_id,
                    shop_id: *shop_id,
                }
            },
            PendingOperation::DeveloperProductUpdate { outputs } => {
                PendingOperationView::DeveloperProductUpdate { outputs: outputs@ }
            },
            PendingOperation::PlaceCreate => PendingOperationView::PlaceCreate,
            PendingOperation::PlaceFileFetch { asset_id } => {
                PendingOperationView::PlaceFileFetch { asset_id: *asset_id }
            },
            PendingOperation::PlaceFileVersion => PendingOperationView::PlaceFileVersion,
            PendingOperation::Acknowledge => PendingOperationView::Acknowledge,
        }
    }
}

/// One step of an operation: either an action to perform with the
/// continuation to resume, or completion with the outputs document.
#[derive(Debug)]
pub enum ReconcileStep {
    Perform { action: PlatformAction, pending: PendingOperation },
    Complete { outputs: Option<Document> },
}

/// The model of a `ReconcileStep`.
pub ghost enum ReconcileStepView {
    Perform { action: PlatformActionView, pending: PendingOperationView },
    Complete { outputs: Option<DocumentView> },
}

impl View for ReconcileStep {
    type V = ReconcileStepView;

    open spec fn view(&self) -> ReconcileStepView {
        match self {
            ReconcileStep::Perform { action, pending } => ReconcileStepView::Perform {
                action: action@,
                pending: pending@,
            },
            ReconcileStep::Complete { outputs } => ReconcileStepView::Complete {
                outputs: match outputs {
                    Some(d) => Some(d@),
                    None => None,
                },
            },
        }
    }
}

} // verus!
