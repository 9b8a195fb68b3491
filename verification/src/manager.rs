//! The executable resource manager: create, update and delete for every
//! declared resource type, each proved to follow the model in `model`.
//!
//! Operations return a `ReconcileStep` rather than performing platform
//! calls: the embedder performs each returned action against the real
//! platform and feeds the response back through `resume` until the step
//! is `Complete`.

use vstd::prelude::*;
use vstd::string::StringExecFns;
use crate::doc::{clone_doc, view_of_fields, Document, DocumentView};
use crate::model::{
    spec_archive_configuration, spec_create, spec_delete, spec_deprecation_description,
    spec_deprecation_name, spec_invalid_inputs_msg, spec_invalid_outputs_msg, spec_resume,
    spec_start_place_guidance_msg, spec_unexpected_response_msg, spec_update,
};
use crate::platform::{
    PendingOperation, PlatformAction, PlatformResponse, ReconcileStep, ReconcileStepView,
};
use crate::records::{
    asset_outputs_to_doc, experience_developer_product_outputs_to_doc, experience_outputs_to_doc,
    parse_experience_activation_inputs, parse_experience_configuration_inputs,
    parse_experience_developer_product_icon_inputs, parse_experience_developer_product_inputs,
    parse_experience_developer_product_outputs, parse_experience_icon_inputs,
    parse_experience_inputs, parse_experience_outputs, parse_experience_thumbnail_inputs,
    parse_experience_thumbnail_order_inputs, parse_experience_thumbnail_outputs,
    parse_place_configuration_inputs, parse_place_file_inputs, parse_place_inputs,
    parse_place_outputs, place_file_outputs_to_doc, ExperienceDeveloperProductOutputs,
    ExperienceOutputs, PlaceFileOutputs,
};
use crate::resource_types::{resource_kind, spec_resource_kind, ResourceKind};

verus! {

/// A step result mapped into the model's terms.
pub open spec fn step_result_view(r: Result<ReconcileStep, String>) -> Result<
    ReconcileStepView,
    Seq<char>,
> {
    match r {
        Ok(s) => Ok(s@),
        Err(m) => Err(m@),
    }
}

fn invalid_inputs_error() -> (r: String)
    ensures
        r@ == spec_invalid_inputs_msg(),
{
    "Failed to deserialize inputs: the document does not match the resource type's shape".to_owned()
}

fn invalid_outputs_error() -> (r: String)
    ensures
        r@ == spec_invalid_outputs_msg(),
{
    "Failed to deserialize outputs: the document does not match the resource type's shape".to_owned()
}

fn start_place_guidance_error() -> (r: String)
    ensures
        r@ == spec_start_place_guidance_msg(),
{
    "Cannot delete the start place of an experience. Try creating a new experience instead.".to_owned()
}

fn unexpected_response_error() -> (r: String)
    ensures
        r@ == spec_unexpected_response_msg(),
{
    "Unexpected platform response for the pending operation".to_owned()
}

/// The sparse configuration overlay that archives an experience.
pub fn archive_configuration() -> (r: Document)
    ensures
        r@ == spec_archive_configuration(),
{
    let mut fields: Vec<(String, Document)> = Vec::new();
    fields.push(("isArchived".to_owned(), Document::Bool(true)));
    proof {
        crate::doc::lemma_view_of_fields(fields@);
        assert(view_of_fields(fields@) =~= seq![("isArchived"@, DocumentView::Bool(true))]);
    }
    Document::Record(fields)
}

/// The deprecation marker name for a deleted developer product.
pub fn deprecation_name(timestamp: &str) -> (r: String)
    ensures
        r@ == spec_deprecation_name(timestamp@),
{
    let mut s: String = "zzz_DEPRECATED(".to_owned();
    s.append(timestamp);
    s.append(")");
    s
}

/// The audit description for a deleted developer product: the original
/// name and description, folded in verbatim.
pub fn deprecation_description(name: &str, description: &str) -> (r: String)
    ensures
        r@ == spec_deprecation_description(name@, description@),
{
    let mut s: String = "Name: ".to_owned();
    s.append(name);
    s.append("\nDescription:\n");
    s.append(description);
    s
}

/// Relies on chrono::Utc::now and chrono's formatting: the current UTC
/// wall-clock time rendered as a date, a time and fractional seconds.
/// Nothing is assumed of the reading: callers state what holds of every
/// timestamp.
#[verifier::external_body]
fn current_utc_timestamp() -> (r: String) {
    chrono::Utc::now().format("%F %T%.f").to_string()
}

/// The resource manager for the platform: stateless across calls apart
/// from the configured project root, against which the embedder resolves
/// the file paths carried in upload actions.
pub struct RobloxResourceManager {
    pub project_path: String,
}

impl RobloxResourceManager {
    pub fn new(project_path: &str) -> (r: Self)
        ensures
            r.project_path@ == project_path@,
    {
        RobloxResourceManager { project_path: project_path.to_owned() }
    }

    /// The configured project root.
    pub fn project_path(&self) -> (r: &str)
        ensures
            r@ == self.project_path@,
    {
        self.project_path.as_str()
    }

    /// Begins creating a resource of the tagged type from its inputs
    /// document. An unrecognized tag is a defect in the caller's type
    /// registry, not runtime data, and is excluded by precondition.
    pub fn create(&self, resource_type: &str, inputs: &Document) -> (r: Result<
        ReconcileStep,
        String,
    >)
        requires
            spec_resource_kind(resource_type@) is Some,
        ensures
            step_result_view(r) == spec_create(
                spec_resource_kind(resource_type@).unwrap(),
                inputs@,
            ),
    {
        let kind = match resource_kind(resource_type) {
            Some(kind) => kind,
            None => {
                return Err(invalid_inputs_error());
            },
        };
        match kind {
            ResourceKind::Experience => match parse_experience_inputs(inputs) {
                Some(i) => match i.asset_id {
                    Some(asset_id) => Ok(
                        ReconcileStep::Perform {
                            action: PlatformAction::GetExperience { experience_id: asset_id },
                            pending: PendingOperation::ExperienceAdopt { asset_id },
                        },
                    ),
                    None => Ok(
                        ReconcileStep::Perform {
                            action: PlatformAction::CreateExperience,
                            pending: PendingOperation::ExperienceCreate,
                        },
                    ),
                },
                None => Err(invalid_inputs_error()),
            },
            ResourceKind::ExperienceConfiguration => {
                match parse_experience_configuration_inputs(inputs) {
                    Some(i) => Ok(
                        ReconcileStep::Perform {
                            action: PlatformAction::ConfigureExperience {
                                experience_id: i.experience_id,
                                configuration: i.configuration,
                            },
                            pending: PendingOperation::Acknowledge,
                        },
                    ),
                    None => Err(invalid_inputs_error()),
                }
            },
            ResourceKind::ExperienceActivation => {
                match parse_experience_activation_inputs(inputs) {
                    Some(i) => Ok(
                        ReconcileStep::Perform {
                            action: PlatformAction::SetExperienceActive {
                                experience_id: i.experience_id,
                                is_active: i.is_active,
                            },
                            pending: PendingOperation::Acknowledge,
                        },
                    ),
                    None => Err(invalid_inputs_error()),
                }
            },
            ResourceKind::ExperienceIcon => match parse_experience_icon_inputs(inputs) {
                Some(i) => Ok(
                    ReconcileStep::Perform {
                        action: PlatformAction::UploadIcon {
                            experience_id: i.experience_id,
                            file_path: i.file_path,
                        },
                        pending: PendingOperation::IconUpload,
                    },
                ),
                None => Err(invalid_inputs_error()),
            },
            ResourceKind::ExperienceThumbnail => match parse_experience_thumbnail_inputs(inputs) {
                Some(i) => Ok(
                    ReconcileStep::Perform {
                        action: PlatformAction::UploadThumbnail {
                            experience_id: i.experience_id,
                            file_path: i.file_path,
                        },
                        pending: PendingOperation::ThumbnailUpload,
                    },
                ),
                None => Err(invalid_inputs_error()),
            },
            ResourceKind::ExperienceThumbnailOrder => {
                match parse_experience_thumbnail_order_inputs(inputs) {
                    Some(i) => Ok(
                        ReconcileStep::Perform {
                            action: PlatformAction::SetThumbnailOrder {
                                experience_id: i.experience_id,
                                asset_ids: i.asset_ids,
                            },
                            pending: PendingOperation::Acknowledge,
                        },
                    ),
                    None => Err(invalid_inputs_error()),
                }
            },
            ResourceKind::ExperienceDeveloperProduct => {
                match parse_experience_developer_product_inputs(inputs) {
                    Some(i) => Ok(
                        ReconcileStep::Perform {
                            action: PlatformAction::CreateDeveloperProduct {
                                experience_id: i.experience_id,
                                name: i.name,
                                price: i.price,
                                description: i.description,
                                icon_asset_id: i.icon_asset_id,
                            },
                            pending: PendingOperation::DeveloperProductCreate {
                                experience_id: i.experience_id,
                            },
                        },
                    ),
                    None => Err(invalid_inputs_error()),
                }
            },
            ResourceKind::ExperienceDeveloperProductIcon => {
                match parse_experience_developer_product_icon_inputs(inputs) {
                    Some(i) => Ok(
                        ReconcileStep::Perform {
                            action: PlatformAction::UploadDeveloperProductIcon {
                                experience_id: i.experience_id,
                                file_path: i.file_path,
                            },
                            pending: PendingOperation::DeveloperProductIconUpload,
                        },
                    ),
                    None => Err(invalid_inputs_error()),
                }
            },
            ResourceKind::Place => match parse_place_inputs(inputs) {
                Some(i) => match (i.is_start, i.asset_id) {
                    (false, None) => Ok(
                        ReconcileStep::Perform {
                            action: PlatformAction::CreatePlace {
                                experience_id: i.experience_id,
                            },
                            pending: PendingOperation::PlaceCreate,
                        },
                    ),
                    (true, None) => Ok(
                        ReconcileStep::Complete {
                            outputs: Some(asset_outputs_to_doc(i.start_place_id)),
                        },
                    ),
                    (_, Some(asset_id)) => Ok(
                        ReconcileStep::Complete { outputs: Some(asset_outputs_to_doc(asset_id)) },
                    ),
                },
                None => Err(invalid_inputs_error()),
            },
            ResourceKind::PlaceFile => match parse_place_file_inputs(inputs) {
                Some(i) => Ok(
                    ReconcileStep::Perform {
                        action: PlatformAction::UploadPlaceFile {
                            asset_id: i.asset_id,
                            file_path: i.file_path,
                        },
                        pending: PendingOperation::PlaceFileFetch { asset_id: i.asset_id },
                    },
                ),
                None => Err(invalid_inputs_error()),
            },
            ResourceKind::PlaceConfiguration => match parse_place_configuration_inputs(inputs) {
                Some(i) => Ok(
                    ReconcileStep::Perform {
                        action: PlatformAction::ConfigurePlace {
                            asset_id: i.asset_id,
                            configuration: i.configuration,
                        },
                        pending: PendingOperation::Acknowledge,
                    },
                ),
                None => Err(invalid_inputs_error()),
            },
        }
    }

    /// Begins updating a resource from its inputs and the outputs
    /// recorded by the run that provisioned it.
    pub fn update(&self, resource_type: &str, inputs: &Document, outputs: &Document) -> (r: Result<
        ReconcileStep,
        String,
    >)
        requires
            spec_resource_kind(resource_type@) is Some,
        ensures
            step_result_view(r) == spec_update(
                spec_resource_kind(resource_type@).unwrap(),
                inputs@,
                outputs@,
            ),
    {
        let kind = match resource_kind(resource_type) {
            Some(kind) => kind,
            None => {
                return Err(invalid_inputs_error());
            },
        };
        match kind {
            ResourceKind::ExperienceThumbnail => match parse_experience_thumbnail_inputs(inputs) {
                Some(i) => match parse_experience_thumbnail_outputs(outputs) {
                    Some(o) => Ok(
                        ReconcileStep::Perform {
                            action: PlatformAction::DeleteThumbnail {
                                experience_id: i.experience_id,
                                image_id: o.asset_id,
                            },
                            pending: PendingOperation::ThumbnailReplace {
                                experience_id: i.experience_id,
                                file_path: i.file_path,
                            },
                        },
                    ),
                    None => Err(invalid_outputs_error()),
                },
                None => Err(invalid_inputs_error()),
            },
            ResourceKind::ExperienceDeveloperProduct => {
                match parse_experience_developer_product_inputs(inputs) {
                    Some(i) => match parse_experience_developer_product_outputs(outputs) {
                        Some(o) => Ok(
                            ReconcileStep::Perform {
                                action: PlatformAction::UpdateDeveloperProduct {
                                    experience_id: i.experience_id,
                                    asset_id: o.asset_id,
                                    name: i.name,
                                    price: i.price,
                                    description: i.description,
                                    icon_asset_id: i.icon_asset_id,
                                },
                                pending: PendingOperation::DeveloperProductUpdate {
                                    outputs: clone_doc(outputs),
                                },
                            },
                        ),
                        None => Err(invalid_outputs_error()),
                    },
                    None => Err(invalid_inputs_error()),
                }
            },
            _ => self.create(resource_type, inputs),
        }
    }

    /// Begins deleting a resource. What deletion means is type-specific:
    /// a real removal, a guarded refusal, a soft archive, a deprecation
    /// rename, or a documented no-op.
    pub fn delete(&self, resource_type: &str, inputs: &Document, outputs: &Document) -> (r: Result<
        ReconcileStep,
        String,
    >)
        requires
            spec_resource_kind(resource_type@) is Some,
        ensures
            exists|ts: Seq<char>|
                step_result_view(r) == #[trigger] spec_delete(
                    spec_resource_kind(resource_type@).unwrap(),
                    inputs@,
                    outputs@,
                    ts,
                ),
    {
        let ghost kind_v = spec_resource_kind(resource_type@).unwrap();
        let kind = match resource_kind(resource_type) {
            Some(kind) => kind,
            None => {
                return Err(invalid_inputs_error());
            },
        };
        match kind {
            ResourceKind::Experience => {
                let res: Result<ReconcileStep, String> = match parse_experience_outputs(outputs) {
                    Some(o) => Ok(
                        ReconcileStep::Perform {
                            action: PlatformAction::ConfigureExperience {
                                experience_id: o.asset_id,
                                configuration: archive_configuration(),
                            },
                            pending: PendingOperation::Acknowledge,
                        },
                    ),
                    None => Err(invalid_outputs_error()),
                };
                proof {
                    assert(step_result_view(res) == spec_delete(
                        kind_v,
                        inputs@,
                        outputs@,
                        Seq::<char>::empty(),
                    ));
                }
                res
            },
            ResourceKind::ExperienceThumbnail => {
                let res: Result<ReconcileStep, String> = match parse_experience_thumbnail_inputs(
                    inputs,
                ) {
                    Some(i) => match parse_experience_thumbnail_outputs(outputs) {
                        Some(o) => Ok(
                            ReconcileStep::Perform {
                                action: PlatformAction::DeleteThumbnail {
                                    experience_id: i.experience_id,
                                    image_id: o.asset_id,
                                },
                                pending: PendingOperation::Acknowledge,
                            },
                        ),
                        None => Err(invalid_outputs_error()),
                    },
                    None => Err(invalid_inputs_error()),
                };
                proof {
                    assert(step_result_view(res) == spec_delete(
                        kind_v,
                        inputs@,
                        outputs@,
                        Seq::<char>::empty(),
                    ));
                }
                res
            },
            ResourceKind::ExperienceDeveloperProduct => {
                match parse_experience_developer_product_inputs(inputs) {
                    Some(i) => match parse_experience_developer_product_outputs(outputs) {
                        Some(o) => {
                            let timestamp = current_utc_timestamp();
                            let name = deprecation_name(timestamp.as_str());
                            let description = deprecation_description(
                                i.name.as_str(),
                                i.description.as_str(),
                            );
                            let res: Result<ReconcileStep, String> = Ok(
                                ReconcileStep::Perform {
                                    action: PlatformAction::UpdateDeveloperProduct {
                                        experience_id: i.experience_id,
                                        asset_id: o.asset_id,
                                        name,
                                        price: i.price,
                                        description,
                                        icon_asset_id: i.icon_asset_id,
                                    },
                                    pending: PendingOperation::Acknowledge,
                                },
                            );
                            proof {
                                assert(step_result_view(res) == spec_delete(
                                    kind_v,
                                    inputs@,
                                    outputs@,
                                    timestamp@,
                                ));
                            }
                            res
                        },
                        None => {
                            let res: Result<ReconcileStep, String> = Err(invalid_outputs_error());
                            proof {
                                assert(step_result_view(res) == spec_delete(
                                    kind_v,
                                    inputs@,
                                    outputs@,
                                    Seq::<char>::empty(),
                                ));
                            }
                            res
                        },
                    },
                    None => {
                        let res: Result<ReconcileStep, String> = Err(invalid_inputs_error());
                        proof {
                            assert(step_result_view(res) == spec_delete(
                                kind_v,
                                inputs@,
                                outputs@,
                                Seq::<char>::empty(),
                            ));
                        }
                        res
                    },
                }
            },
            ResourceKind::Place => {
                let res: Result<ReconcileStep, String> = match parse_place_inputs(inputs) {
                    Some(i) => {
                        if i.is_start {
                            Err(start_place_guidance_error())
                        } else {
                            match parse_place_outputs(outputs) {
                                Some(o) => Ok(
                                    ReconcileStep::Perform {
                                        action: PlatformAction::RemovePlaceFromExperience {
                                            experience_id: i.experience_id,
                                            place_id: o.asset_id,
                                        },
                                        pending: PendingOperation::Acknowledge,
                                    },
                                ),
                                None => Err(invalid_outputs_error()),
                            }
                        }
                    },
                    None => Err(invalid_inputs_error()),
                };
                proof {
                    assert(step_result_view(res) == spec_delete(
                        kind_v,
                        inputs@,
                        outputs@,
                        Seq::<char>::empty(),
                    ));
                }
                res
            },
            _ => {
                let res: Result<ReconcileStep, String> = Ok(
                    ReconcileStep::Complete { outputs: None },
                );
                proof {
                    assert(step_result_view(res) == spec_delete(
                        kind_v,
                        inputs@,
                        outputs@,
                        Seq::<char>::empty(),
                    ));
                }
                res
            },
        }
    }

    /// Resumes the pending operation with the platform's response to the
    /// action last handed out. A response of the wrong shape for the
    /// continuation is a recoverable error.
    pub fn resume(&self, pending: PendingOperation, response: PlatformResponse) -> (r: Result<
        ReconcileStep,
        String,
    >)
        ensures
            step_result_view(r) == spec_resume(pending@, response),
    {
        match pending {
            PendingOperation::ExperienceAdopt { asset_id } => match response {
                PlatformResponse::ExperienceInfo { root_place_id } => Ok(
                    ReconcileStep::Complete {
                        outputs: Some(
                            experience_outputs_to_doc(
                                &ExperienceOutputs { asset_id, start_place_id: root_place_id },
                            ),
                        ),
                    },
                ),
                _ => Err(unexpected_response_error()),
            },
            PendingOperation::ExperienceCreate => match response {
                PlatformResponse::ExperienceCreated { universe_id, root_place_id } => Ok(
                    ReconcileStep::Complete {
                        outputs: Some(
                            experience_outputs_to_doc(
                                &ExperienceOutputs {
                                    asset_id: universe_id,
                                    start_place_id: root_place_id,
                                },
                            ),
                        ),
                    },
                ),
                _ => Err(unexpected_response_error()),
            },
            PendingOperation::IconUpload => match response {
                PlatformResponse::ImageUploaded { target_id } => Ok(
                    ReconcileStep::Complete { outputs: Some(asset_outputs_to_doc(target_id)) },
                ),
                _ => Err(unexpected_response_error()),
            },
            PendingOperation::ThumbnailUpload => match response {
                PlatformResponse::ImageUploaded { target_id } => Ok(
                    ReconcileStep::Complete { outputs: Some(asset_outputs_to_doc(target_id)) },
                ),
                _ => Err(unexpected_response_error()),
            },
            PendingOperation::DeveloperProductIconUpload => match response {
                PlatformResponse::ImageUploaded { target_id } => Ok(
                    ReconcileStep::Complete { outputs: Some(asset_outputs_to_doc(target_id)) },
                ),
                _ => Err(unexpected_response_error()),
            },
            PendingOperation::ThumbnailReplace { experience_id, file_path } => match response {
                PlatformResponse::Unit => Ok(
                    ReconcileStep::Perform {
                        action: PlatformAction::UploadThumbnail { experience_id, file_path },
                        pending: PendingOperation::ThumbnailUpload,
                    },
                ),
                _ => Err(unexpected_response_error()),
            },
            PendingOperation::DeveloperProductCreate { experience_id } => match response {
                PlatformResponse::DeveloperProductCreated { id, shop_id } => Ok(
                    ReconcileStep::Perform {
                        action: PlatformAction::FindDeveloperProductById {
                            experience_id,
                            product_creation_id: id,
                        },
                        pending: PendingOperation::DeveloperProductFetch {
                            creation_id: id,
                            shop_id,
                        },
                    },
                ),
                _ => Err(unexpected_response_error()),
            },
            PendingOperation::DeveloperProductFetch { creation_id, shop_id } => match response {
                PlatformResponse::DeveloperProductInfo { product_id, developer_product_id: _ } => {
                    Ok(
                        ReconcileStep::Complete {
                            outputs: Some(
                                experience_developer_product_outputs_to_doc(
                                    &ExperienceDeveloperProductOutputs {
                                        asset_id: product_id,
                                        product_id: creation_id,
                                        shop_id,
                                    },
                                ),
                            ),
                        },
                    )
                },
                _ => Err(unexpected_response_error()),
            },
            PendingOperation::DeveloperProductUpdate { outputs } => match response {
                PlatformResponse::Unit => Ok(ReconcileStep::Complete { outputs: Some(outputs) }),
                _ => Err(unexpected_response_error()),
            },
            PendingOperation::PlaceCreate => match response {
                PlatformResponse::PlaceCreated { place_id } => Ok(
                    ReconcileStep::Complete { outputs: Some(asset_outputs_to_doc(place_id)) },
                ),
                _ => Err(unexpected_response_error()),
            },
            PendingOperation::PlaceFileFetch { asset_id } => match response {
                PlatformResponse::Unit => Ok(
                    ReconcileStep::Perform {
                        action: PlatformAction::GetPlace { asset_id },
                        pending: PendingOperation::PlaceFileVersion,
                    },
                ),
                _ => Err(unexpected_response_error()),
            },
            PendingOperation::PlaceFileVersion => match response {
                PlatformResponse::PlaceInfo { current_saved_version } => Ok(
                    ReconcileStep::Complete {
                        outputs: Some(
                            place_file_outputs_to_doc(
                                &PlaceFileOutputs { version: current_saved_version },
                            ),
                        ),
                    },
                ),
                _ => Err(unexpected_response_error()),
            },
            PendingOperation::Acknowledge => match response {
                PlatformResponse::Unit => Ok(ReconcileStep::Complete { outputs: None }),
                _ => Err(unexpected_response_error()),
            },
        }
    }
}

} // verus!
