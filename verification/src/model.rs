//! The mathematical model of the reconciler: for each resource kind, what
//! create, update and delete decide, stated over document views. The
//! executable operations in `manager` are proved to follow this model
//! step for step.

use vstd::prelude::*;
use crate::doc::DocumentView;
use crate::platform::{PendingOperationView, PlatformActionView, PlatformResponse, ReconcileStepView};
use crate::records::{
    spec_parse_experience_inputs, spec_parse_experience_outputs,
    spec_parse_experience_configuration_inputs, spec_parse_experience_activation_inputs,
    spec_parse_experience_icon_inputs, spec_parse_experience_thumbnail_inputs,
    spec_parse_experience_thumbnail_outputs, spec_parse_experience_developer_product_icon_inputs,
    spec_parse_experience_thumbnail_order_inputs, spec_parse_experience_developer_product_inputs,
    spec_parse_experience_developer_product_outputs, spec_parse_place_inputs,
    spec_parse_place_outputs, spec_parse_place_file_inputs, spec_parse_place_configuration_inputs,
    spec_experience_outputs_doc, spec_asset_outputs_doc,
    spec_experience_developer_product_outputs_doc, spec_place_file_outputs_doc,
    ExperienceOutputsView, ExperienceDeveloperProductOutputsView, PlaceFileOutputsView,
};
use crate::resource_types::ResourceKind;

verus! {

/// The error reported when an inputs document does not parse.
pub open spec fn spec_invalid_inputs_msg() -> Seq<char> {
    "Failed to deserialize inputs: the document does not match the resource type's shape"@
}

/// The error reported when an outputs document does not parse.
pub open spec fn spec_invalid_outputs_msg() -> Seq<char> {
    "Failed to deserialize outputs: the document does not match the resource type's shape"@
}

/// The guidance error for attempting to delete a start place.
pub open spec fn spec_start_place_guidance_msg() -> Seq<char> {
    "Cannot delete the start place of an experience. Try creating a new experience instead."@
}

/// The error reported when the embedder resumes a pending operation with
/// a response of the wrong shape.
pub open spec fn spec_unexpected_response_msg() -> Seq<char> {
    "Unexpected platform response for the pending operation"@
}

/// The sparse configuration overlay that archives an experience: only the
/// archived flag is set; every other field is left to platform defaults.
pub open spec fn spec_archive_configuration() -> DocumentView {
    DocumentView::Record(seq![("isArchived"@, DocumentView::Bool(true))])
}

/// The permanently-deprecated name a deleted developer product is given.
/// The timestamp keeps repeated delete/recreate cycles unique.
pub open spec fn spec_deprecation_name(timestamp: Seq<char>) -> Seq<char> {
    "zzz_DEPRECATED("@ + timestamp + ")"@
}

/// The description a deleted developer product is given: the original
/// name and description are folded in verbatim for auditability.
pub open spec fn spec_deprecation_description(name: Seq<char>, description: Seq<char>) -> Seq<
    char,
> {
    "Name: "@ + name + "\nDescription:\n"@ + description
}

/// What `create` decides for each kind and inputs document.
pub open spec fn spec_create(kind: ResourceKind, inputs: DocumentView) -> Result<
    ReconcileStepView,
    Seq<char>,
> {
    match kind {
        ResourceKind::Experience => match spec_parse_experience_inputs(inputs) {
            Some(i) => match i.asset_id {
                Some(asset_id) => Ok(
                    ReconcileStepView::Perform {
                        action: PlatformActionView::GetExperience { experience_id: asset_id },
                        pending: PendingOperationView::ExperienceAdopt { asset_id },
                    },
                ),
                None => Ok(
                    ReconcileStepView::Perform {
                        action: PlatformActionView::CreateExperience,
                        pending: PendingOperationView::ExperienceCreate,
                    },
                ),
            },
            None => Err(spec_invalid_inputs_msg()),
        },
        ResourceKind::ExperienceConfiguration => match spec_parse_experience_configuration_inputs(
            inputs,
        ) {
            Some(i) => Ok(
                ReconcileStepView::Perform {
                    action: PlatformActionView::ConfigureExperience {
                        experience_id: i.experience_id,
                        configuration: i.configuration,
                    },
                    pending: PendingOperationView::Acknowledge,
                },
            ),
            None => Err(spec_invalid_inputs_msg()),
        },
        ResourceKind::ExperienceActivation => match spec_parse_experience_activation_inputs(
            inputs,
        ) {
            Some(i) => Ok(
                ReconcileStepView::Perform {
                    action: PlatformActionView::SetExperienceActive {
                        experience_id: i.experience_id,
                        is_active: i.is_active,
                    },
                    pending: PendingOperationView::Acknowledge,
                },
            ),
            None => Err(spec_invalid_inputs_msg()),
        },
        ResourceKind::ExperienceIcon => match spec_parse_experience_icon_inputs(inputs) {
            Some(i) => Ok(
                ReconcileStepView::Perform {
                    action: PlatformActionView::UploadIcon {
                        experience_id: i.experience_id,
                        file_path: i.file_path,
                    },
                    pending: PendingOperationView::IconUpload,
                },
            ),
            None => Err(spec_invalid_inputs_msg()),
        },
        ResourceKind::ExperienceThumbnail => match spec_parse_experience_thumbnail_inputs(inputs) {
            Some(i) => Ok(
                ReconcileStepView::Perform {
                    action: PlatformActionView::UploadThumbnail {
                        experience_id: i.experience_id,
                        file_path: i.file_path,
                    },
                    pending: PendingOperationView::ThumbnailUpload,
                },
            ),
            None => Err(spec_invalid_inputs_msg()),
        },
        ResourceKind::ExperienceThumbnailOrder => match spec_parse_experience_thumbnail_order_inputs(
            inputs,
        ) {
            Some(i) => Ok(
                ReconcileStepView::Perform {
                    action: PlatformActionView::SetThumbnailOrder {
                        experience_id: i.experience_id,
                        asset_ids: i.asset_ids,
                    },
                    pending: PendingOperationView::Acknowledge,
                },
            ),
            None => Err(spec_invalid_inputs_msg()),
        },
        ResourceKind::ExperienceDeveloperProduct => match spec_parse_experience_developer_product_inputs(
            inputs,
        ) {
            Some(i) => Ok(
                ReconcileStepView::Perform {
                    action: PlatformActionView::CreateDeveloperProduct {
                        experience_id: i.experience_id,
                        name: i.name,
                        price: i.price,
                        description: i.description,
                        icon_asset_id: i.icon_asset_id,
                    },
                    pending: PendingOperationView::DeveloperProductCreate {
                        experience_id: i.experience_id,
                    },
                },
            ),
            None => Err(spec_invalid_inputs_msg()),
        },
        ResourceKind::ExperienceDeveloperProductIcon => match spec_parse_experience_developer_product_icon_inputs(
            inputs,
        ) {
            Some(i) => Ok(
                ReconcileStepView::Perform {
                    action: PlatformActionView::UploadDeveloperProductIcon {
                        experience_id: i.experience_id,
                        file_path: i.file_path,
                    },
                    pending: PendingOperationView::DeveloperProductIconUpload,
                },
            ),
            None => Err(spec_invalid_inputs_msg()),
        },
        ResourceKind::Place => match spec_parse_place_inputs(inputs) {
            Some(i) => match (i.is_start, i.asset_id) {
                (false, None) => Ok(
                    ReconcileStepView::Perform {
                        action: PlatformActionView::CreatePlace {
                            experience_id: i.experience_id,
                        },
                        pending: PendingOperationView::PlaceCreate,
                    },
                ),
                (true, None) => Ok(
                    ReconcileStepView::Complete {
                        outputs: Some(spec_asset_outputs_doc(i.start_place_id)),
                    },
                ),
                (_, Some(asset_id)) => Ok(
                    ReconcileStepView::Complete {
                        outputs: Some(spec_asset_outputs_doc(asset_id)),
                    },
                ),
            },
            None => Err(spec_invalid_inputs_msg()),
        },
        ResourceKind::PlaceFile => match spec_parse_place_file_inputs(inputs) {
            Some(i) => Ok(
                ReconcileStepView::Perform {
                    action: PlatformActionView::UploadPlaceFile {
                        asset_id: i.asset_id,
                        file_path: i.file_path,
                    },
                    pending: PendingOperationView::PlaceFileFetch { asset_id: i.asset_id },
                },
            ),
            None => Err(spec_invalid_inputs_msg()),
        },
        ResourceKind::PlaceConfiguration => match spec_parse_place_configuration_inputs(inputs) {
            Some(i) => Ok(
                ReconcileStepView::Perform {
                    action: PlatformActionView::ConfigurePlace {
                        asset_id: i.asset_id,
                        configuration: i.configuration,
                    },
                    pending: PendingOperationView::Acknowledge,
                },
            ),
            None => Err(spec_invalid_inputs_msg()),
        },
    }
}

/// What resuming a pending operation with a platform response decides.
pub open spec fn spec_resume(pending: PendingOperationView, response: PlatformResponse) -> Result<
    ReconcileStepView,
    Seq<char>,
> {
    match pending {
        PendingOperationView::ExperienceAdopt { asset_id } => match response {
            PlatformResponse::ExperienceInfo { root_place_id } => Ok(
                ReconcileStepView::Complete {
                    outputs: Some(
                        spec_experience_outputs_doc(
                            ExperienceOutputsView { asset_id, start_place_id: root_place_id },
                        ),
                    ),
                },
            ),
            _ => Err(spec_unexpected_response_msg()),
        },
        PendingOperationView::ExperienceCreate => match response {
            PlatformResponse::ExperienceCreated { universe_id, root_place_id } => Ok(
                ReconcileStepView::Complete {
                    outputs: Some(
                        spec_experience_outputs_doc(
                            ExperienceOutputsView {
                                asset_id: universe_id,
                                start_place_id: root_place_id,
                            },
                        ),
                    ),
                },
            ),
            _ => Err(spec_unexpected_response_msg()),
        },
        PendingOperationView::IconUpload => match response {
            PlatformResponse::ImageUploaded { target_id } => Ok(
                ReconcileStepView::Complete { outputs: Some(spec_asset_outputs_doc(target_id)) },
            ),
            _ => Err(spec_unexpected_response_msg()),
        },
        PendingOperationView::ThumbnailUpload => match response {
            PlatformResponse::ImageUploaded { target_id } => Ok(
                ReconcileStepView::Complete { outputs: Some(spec_asset_outputs_doc(target_id)) },
            ),
            _ => Err(spec_unexpected_response_msg()),
        },
        PendingOperationView::DeveloperProductIconUpload => match response {
            PlatformResponse::ImageUploaded { target_id } => Ok(
                ReconcileStepView::Complete { outputs: Some(spec_asset_outputs_doc(target_id)) },
            ),
            _ => Err(spec_unexpected_response_msg()),
        },
        PendingOperationView::ThumbnailReplace { experience_id, file_path } => match response {
            PlatformResponse::Unit => Ok(
                ReconcileStepView::Perform {
                    action: PlatformActionView::UploadThumbnail { experience_id, file_path },
                    pending: PendingOperationView::ThumbnailUpload,
                },
            ),
            _ => Err(spec_unexpected_response_msg()),
        },
        PendingOperationView::DeveloperProductCreate { experience_id } => match response {
            PlatformResponse::DeveloperProductCreated { id, shop_id } => Ok(
                ReconcileStepView::Perform {
                    action: PlatformActionView::FindDeveloperProductById {
                        experience_id,
                        product_creation_id: id,
                    },
                    pending: PendingOperationView::DeveloperProductFetch {
                        creation_id: id,
                        shop_id,
                    },
                },
            ),
            _ => Err(spec_unexpected_response_msg()),
        },
        PendingOperationView::DeveloperProductFetch { creation_id, shop_id } => match response {
            PlatformResponse::DeveloperProductInfo { product_id, developer_product_id: _ } => Ok(
                ReconcileStepView::Complete {
                    outputs: Some(
                        spec_experience_developer_product_outputs_doc(
                            ExperienceDeveloperProductOutputsView {
                                asset_id: product_id,
                                product_id: creation_id,
                                shop_id,
                            },
                        ),
                    ),
                },
            ),
            _ => Err(spec_unexpected_response_msg()),
        },
        PendingOperationView::DeveloperProductUpdate { outputs } => match response {
            PlatformResponse::Unit => Ok(ReconcileStepView::Complete { outputs: Some(outputs) }),
            _ => Err(spec_unexpected_response_msg()),
        },
        PendingOperationView::PlaceCreate => match response {
            PlatformResponse::PlaceCreated { place_id } => Ok(
                ReconcileStepView::Complete { outputs: Some(spec_asset_outputs_doc(place_id)) },
            ),
            _ => Err(spec_unexpected_response_msg()),
        },
        PendingOperationView::PlaceFileFetch { asset_id } => match response {
            PlatformResponse::Unit => Ok(
                ReconcileStepView::Perform {
                    action: PlatformActionView::GetPlace { asset_id },
                    pending: PendingOperationView::PlaceFileVersion,
                },
            ),
            _ => Err(spec_unexpected_response_msg()),
        },
        PendingOperationView::PlaceFileVersion => match response {
            PlatformResponse::PlaceInfo { current_saved_version } => Ok(
                ReconcileStepView::Complete {
                    outputs: Some(
                        spec_place_file_outputs_doc(
                            PlaceFileOutputsView { version: current_saved_version },
                        ),
                    ),
                },
            ),
            _ => Err(spec_unexpected_response_msg()),
        },
        PendingOperationView::Acknowledge => match response {
            PlatformResponse::Unit => Ok(ReconcileStepView::Complete { outputs: None }),
            _ => Err(spec_unexpected_response_msg()),
        },
    }
}

/// What `update` decides. Most kinds re-run create, whose behavior is
/// adoptive and therefore safe to repeat; a thumbnail is deleted and
/// re-uploaded, since the platform has no in-place call for it; a
/// developer product keeps its identity and goes through the dedicated
/// update call with the previously recorded asset id.
pub open spec fn spec_update(
    kind: ResourceKind,
    inputs: DocumentView,
    outputs: DocumentView,
) -> Result<ReconcileStepView, Seq<char>> {
    match kind {
        ResourceKind::ExperienceThumbnail => match spec_parse_experience_thumbnail_inputs(inputs) {
            Some(i) => match spec_parse_experience_thumbnail_outputs(outputs) {
                Some(o) => Ok(
                    ReconcileStepView::Perform {
                        action: PlatformActionView::DeleteThumbnail {
                            experience_id: i.experience_id,
                            image_id: o.asset_id,
                        },
                        pending: PendingOperationView::ThumbnailReplace {
                            experience_id: i.experience_id,
                            file_path: i.file_path,
                        },
                    },
                ),
                None => Err(spec_invalid_outputs_msg()),
            },
            None => Err(spec_invalid_inputs_msg()),
        },
        ResourceKind::ExperienceDeveloperProduct => {
            match spec_parse_experience_developer_product_inputs(inputs) {
                Some(i) => match spec_parse_experience_developer_product_outputs(outputs) {
                    Some(o) => Ok(
                        ReconcileStepView::Perform {
                            action: PlatformActionView::UpdateDeveloperProduct {
                                experience_id: i.experience_id,
                                asset_id: o.asset_id,
                                name: i.name,
                                price: i.price,
                                description: i.description,
                                icon_asset_id: i.icon_asset_id,
                            },
                            pending: PendingOperationView::DeveloperProductUpdate { outputs },
                        },
                    ),
                    None => Err(spec_invalid_outputs_msg()),
                },
                None => Err(spec_invalid_inputs_msg()),
            }
        },
        _ => spec_create(kind, inputs),
    }
}

/// What `delete` decides. `timestamp` is the wall-clock reading used by
/// the developer product deprecation rename; every other kind ignores it.
pub open spec fn spec_delete(
    kind: ResourceKind,
    inputs: DocumentView,
    outputs: DocumentView,
    timestamp: Seq<char>,
) -> Result<ReconcileStepView, Seq<char>> {
    match kind {
        ResourceKind::Experience => match spec_parse_experience_outputs(outputs) {
            Some(o) => Ok(
                ReconcileStepView::Perform {
                    action: PlatformActionView::ConfigureExperience {
                        experience_id: o.asset_id,
                        configuration: spec_archive_configuration(),
                    },
                    pending: PendingOperationView::Acknowledge,
                },
            ),
            None => Err(spec_invalid_outputs_msg()),
        },
        ResourceKind::ExperienceThumbnail => match spec_parse_experience_thumbnail_inputs(inputs) {
            Some(i) => match spec_parse_experience_thumbnail_outputs(outputs) {
                Some(o) => Ok(
                    ReconcileStepView::Perform {
                        action: PlatformActionView::DeleteThumbnail {
                            experience_id: i.experience_id,
                            image_id: o.asset_id,
                        },
                        pending: PendingOperationView::Acknowledge,
                    },
                ),
                None => Err(spec_invalid_outputs_msg()),
            },
            None => Err(spec_invalid_inputs_msg()),
        },
        ResourceKind::ExperienceDeveloperProduct => {
            match spec_parse_experience_developer_product_inputs(inputs) {
                Some(i) => match spec_parse_experience_developer_product_outputs(outputs) {
                    Some(o) => Ok(
                        ReconcileStepView::Perform {
                            action: PlatformActionView::UpdateDeveloperProduct {
                                experience_id: i.experience_id,
                                asset_id: o.asset_id,
                                name: spec_deprecation_name(timestamp),
                                price: i.price,
                                description: spec_deprecation_description(i.name, i.description),
                                icon_asset_id: i.icon_asset_id,
                            },
                            pending: PendingOperationView::Acknowledge,
                        },
                    ),
                    None => Err(spec_invalid_outputs_msg()),
                },
                None => Err(spec_invalid_inputs_msg()),
            }
        },
        ResourceKind::Place => match spec_parse_place_inputs(inputs) {
            Some(i) => if i.is_start {
                Err(spec_start_place_guidance_msg())
            } else {
                match spec_parse_place_outputs(outputs) {
                    Some(o) => Ok(
                        ReconcileStepView::Perform {
                            action: PlatformActionView::RemovePlaceFromExperience {
                                experience_id: i.experience_id,
                                place_id: o.asset_id,
                            },
                            pending: PendingOperationView::Acknowledge,
                        },
                    ),
                    None => Err(spec_invalid_outputs_msg()),
                }
            },
            None => Err(spec_invalid_inputs_msg()),
        },
        // Everything else has no independent lifecycle to tear down; for
        // the experience icon in particular no platform delete call is
        // known, so the gap is surfaced as a documented no-op.
        _ => Ok(ReconcileStepView::Complete { outputs: None }),
    }
}

} // verus!
