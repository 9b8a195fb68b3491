//! Properties of the reconciler, proved over the model: round-trips of
//! every outputs record through its document, the safety of deleting what
//! was just created, the adoption of existing experiences, and the
//! deprecation rename of developer products.

use vstd::prelude::*;
use crate::doc::{spec_lookup, DocumentView};
use crate::model::{
    spec_archive_configuration, spec_create, spec_delete, spec_deprecation_description,
    spec_deprecation_name, spec_resume, spec_start_place_guidance_msg, spec_update,
};
use crate::platform::{PendingOperationView, PlatformActionView, PlatformResponse, ReconcileStepView};
use crate::records::{
    spec_asset_outputs_doc, spec_experience_developer_product_outputs_doc,
    spec_experience_outputs_doc, spec_parse_experience_developer_product_icon_outputs,
    spec_parse_experience_developer_product_inputs,
    spec_parse_experience_developer_product_outputs, spec_parse_experience_icon_outputs,
    spec_parse_experience_inputs, spec_parse_experience_outputs,
    spec_parse_experience_thumbnail_outputs, spec_parse_place_file_outputs,
    spec_parse_place_inputs, spec_parse_place_outputs, spec_place_file_outputs_doc,
    ExperienceDeveloperProductIconOutputsView, ExperienceDeveloperProductOutputsView,
    ExperienceIconOutputsView, ExperienceOutputsView, ExperienceThumbnailOutputsView,
    PlaceFileOutputsView, PlaceOutputsView,
};
use crate::resource_types::ResourceKind;

verus! {

/// Serializing experience outputs and parsing them back yields the same
/// record.
pub proof fn lemma_experience_outputs_roundtrip(o: ExperienceOutputsView)
    ensures
        spec_parse_experience_outputs(spec_experience_outputs_doc(o)) == Some(o),
{
    broadcast use vstd::string::group_string_axioms;

    reveal_strlit("assetId");
    reveal_strlit("startPlaceId");
    assert("assetId"@.len() == 7);
    assert("startPlaceId"@.len() == 12);
    let fields = seq![
        ("assetId"@, DocumentView::UInt(o.asset_id)),
        ("startPlaceId"@, DocumentView::UInt(o.start_place_id)),
    ];
    let single = seq![("startPlaceId"@, DocumentView::UInt(o.start_place_id))];
    assert(fields.drop_first() =~= single);
    assert(spec_lookup(single, "startPlaceId"@) == Some(
        DocumentView::UInt(o.start_place_id),
    ));
    assert(spec_lookup(fields, "assetId"@) == Some(DocumentView::UInt(o.asset_id)));
    assert(spec_lookup(fields, "startPlaceId"@) == Some(
        DocumentView::UInt(o.start_place_id),
    ));
}

/// The single-identifier outputs document parses back to the identifier
/// it was written from, under every parser that reads that shape.
pub proof fn lemma_asset_outputs_roundtrip(asset_id: u64)
    ensures
        spec_parse_experience_icon_outputs(spec_asset_outputs_doc(asset_id)) == Some(
            ExperienceIconOutputsView { asset_id },
        ),
        spec_parse_experience_thumbnail_outputs(spec_asset_outputs_doc(asset_id)) == Some(
            ExperienceThumbnailOutputsView { asset_id },
        ),
        spec_parse_experience_developer_product_icon_outputs(spec_asset_outputs_doc(asset_id))
            == Some(ExperienceDeveloperProductIconOutputsView { asset_id }),
        spec_parse_place_outputs(spec_asset_outputs_doc(asset_id)) == Some(
            PlaceOutputsView { asset_id },
        ),
{
    let fields = seq![("assetId"@, DocumentView::UInt(asset_id))];
    assert(spec_lookup(fields, "assetId"@) == Some(DocumentView::UInt(asset_id)));
}

/// Serializing developer product outputs and parsing them back yields
/// the same record.
pub proof fn lemma_experience_developer_product_outputs_roundtrip(
    o: ExperienceDeveloperProductOutputsView,
)
    ensures
        spec_parse_experience_developer_product_outputs(
            spec_experience_developer_product_outputs_doc(o),
        ) == Some(o),
{
    broadcast use vstd::string::group_string_axioms;

    reveal_strlit("assetId");
    reveal_strlit("productId");
    reveal_strlit("shopId");
    assert("assetId"@.len() == 7);
    assert("productId"@.len() == 9);
    assert("shopId"@.len() == 6);
    let fields = seq![
        ("assetId"@, DocumentView::UInt(o.asset_id)),
        ("productId"@, DocumentView::UInt(o.product_id)),
        ("shopId"@, DocumentView::UInt(o.shop_id)),
    ];
    let rest = seq![
        ("productId"@, DocumentView::UInt(o.product_id)),
        ("shopId"@, DocumentView::UInt(o.shop_id)),
    ];
    let last = seq![("shopId"@, DocumentView::UInt(o.shop_id))];
    assert(fields.drop_first() =~= rest);
    assert(rest.drop_first() =~= last);
    assert(spec_lookup(last, "shopId"@) == Some(DocumentView::UInt(o.shop_id)));
    assert(spec_lookup(rest, "shopId"@) == Some(DocumentView::UInt(o.shop_id)));
    assert(spec_lookup(rest, "productId"@) == Some(DocumentView::UInt(o.product_id)));
    assert(spec_lookup(fields, "assetId"@) == Some(DocumentView::UInt(o.asset_id)));
    assert(spec_lookup(fields, "productId"@) == Some(DocumentView::UInt(o.product_id)));
    assert(spec_lookup(fields, "shopId"@) == Some(DocumentView::UInt(o.shop_id)));
}

/// Serializing place file outputs and parsing them back yields the same
/// record.
pub proof fn lemma_place_file_outputs_roundtrip(o: PlaceFileOutputsView)
    ensures
        spec_parse_place_file_outputs(spec_place_file_outputs_doc(o)) == Some(o),
{
    let fields = seq![("version"@, DocumentView::UInt(o.version as u64))];
    assert(spec_lookup(fields, "version"@) == Some(DocumentView::UInt(o.version as u64)));
}

/// Deleting a configuration, an activation flag, an icon, a thumbnail
/// order, a product icon, a place file or a place configuration is a
/// no-op for any documents whatsoever: these have no independent
/// lifecycle to tear down (the icon for want of any known platform
/// delete call), so deleting right after creating cannot fail.
pub proof fn lemma_delete_is_no_op(
    kind: ResourceKind,
    inputs: DocumentView,
    outputs: DocumentView,
    ts: Seq<char>,
)
    requires
        kind == ResourceKind::ExperienceConfiguration || kind == ResourceKind::ExperienceActivation
            || kind == ResourceKind::ExperienceIcon || kind
            == ResourceKind::ExperienceThumbnailOrder || kind
            == ResourceKind::ExperienceDeveloperProductIcon || kind == ResourceKind::PlaceFile
            || kind == ResourceKind::PlaceConfiguration,
    ensures
        spec_delete(kind, inputs, outputs, ts) == Ok::<ReconcileStepView, Seq<char>>(
            ReconcileStepView::Complete { outputs: None },
        ),
{
}

/// Creating an experience and deleting it with the outputs the creation
/// run produced never errs: whichever way the creation completed, the
/// outputs document it wrote parses back, and the delete is the archive
/// step, not a failure.
pub proof fn lemma_experience_create_then_delete_accepts(
    inputs: DocumentView,
    pending: PendingOperationView,
    response: PlatformResponse,
    outputs_doc: DocumentView,
    delete_inputs: DocumentView,
    ts: Seq<char>,
)
    requires
        spec_create(ResourceKind::Experience, inputs) matches Ok(s) && s matches
            ReconcileStepView::Perform { pending: p, .. } && p == pending,
        spec_resume(pending, response) matches Ok(s2) && s2 matches ReconcileStepView::Complete {
            outputs: o,
        } && o == Some(outputs_doc),
    ensures
        ({
            &&& spec_delete(ResourceKind::Experience, delete_inputs, outputs_doc, ts) matches Ok(
                s3,
            )
            &&& s3 matches ReconcileStepView::Perform { action, pending: p3 }
            &&& p3 == PendingOperationView::Acknowledge
            &&& action matches PlatformActionView::ConfigureExperience { configuration, .. }
            &&& configuration == spec_archive_configuration()
        }),
{
    match pending {
        PendingOperationView::ExperienceAdopt { asset_id } => match response {
            PlatformResponse::ExperienceInfo { root_place_id } => {
                lemma_experience_outputs_roundtrip(
                    ExperienceOutputsView { asset_id, start_place_id: root_place_id },
                );
            },
            _ => {
                assert(false);
            },
        },
        PendingOperationView::ExperienceCreate => match response {
            PlatformResponse::ExperienceCreated { universe_id, root_place_id } => {
                lemma_experience_outputs_roundtrip(
                    ExperienceOutputsView {
                        asset_id: universe_id,
                        start_place_id: root_place_id,
                    },
                );
            },
            _ => {
                assert(false);
            },
        },
        _ => {
            assert(false);
        },
    }
}

/// Deleting a place whose inputs mark it as the start place always fails
/// with the guidance error, whatever the outputs document holds.
pub proof fn lemma_delete_start_place_refused(
    inputs: DocumentView,
    outputs: DocumentView,
    ts: Seq<char>,
)
    requires
        spec_parse_place_inputs(inputs) matches Some(i) && i.is_start,
    ensures
        spec_delete(ResourceKind::Place, inputs, outputs, ts) == Err::<ReconcileStepView, Seq<char>>(
            spec_start_place_guidance_msg(),
        ),
{
}

/// Creating an experience whose inputs already carry an asset id adopts
/// it: the one platform call is the fetch of that id — never the
/// create-experience call — and the outputs record the fetched root
/// place id as the start place id.
pub proof fn lemma_experience_adopts_existing_asset(
    inputs: DocumentView,
    asset_id: u64,
    root_place_id: u64,
)
    requires
        spec_parse_experience_inputs(inputs) matches Some(i) && i.asset_id == Some(asset_id),
    ensures
        spec_create(ResourceKind::Experience, inputs) == Ok::<ReconcileStepView, Seq<char>>(
            ReconcileStepView::Perform {
                action: PlatformActionView::GetExperience { experience_id: asset_id },
                pending: PendingOperationView::ExperienceAdopt { asset_id },
            },
        ),
        spec_resume(
            PendingOperationView::ExperienceAdopt { asset_id },
            PlatformResponse::ExperienceInfo { root_place_id },
        ) == Ok::<ReconcileStepView, Seq<char>>(
            ReconcileStepView::Complete {
                outputs: Some(
                    spec_experience_outputs_doc(
                        ExperienceOutputsView { asset_id, start_place_id: root_place_id },
                    ),
                ),
            },
        ),
{
}

/// Updating a developer product never creates one: the single action is
/// the dedicated update call, addressed by the asset id recorded in the
/// existing outputs document, and the outputs pass through unchanged.
pub proof fn lemma_product_update_keeps_identity(inputs: DocumentView, outputs: DocumentView)
    requires
        spec_parse_experience_developer_product_inputs(inputs) is Some,
        spec_parse_experience_developer_product_outputs(outputs) is Some,
    ensures
        spec_update(ResourceKind::ExperienceDeveloperProduct, inputs, outputs) == Ok::<ReconcileStepView, Seq<char>>(
            ReconcileStepView::Perform {
                action: PlatformActionView::UpdateDeveloperProduct {
                    experience_id: spec_parse_experience_developer_product_inputs(
                        inputs,
                    ).unwrap().experience_id,
                    asset_id: spec_parse_experience_developer_product_outputs(
                        outputs,
                    ).unwrap().asset_id,
                    name: spec_parse_experience_developer_product_inputs(inputs).unwrap().name,
                    price: spec_parse_experience_developer_product_inputs(inputs).unwrap().price,
                    description: spec_parse_experience_developer_product_inputs(
                        inputs,
                    ).unwrap().description,
                    icon_asset_id: spec_parse_experience_developer_product_inputs(
                        inputs,
                    ).unwrap().icon_asset_id,
                },
                pending: PendingOperationView::DeveloperProductUpdate { outputs },
            },
        ),
{
}

/// Deleting a developer product renames it instead of removing it: the
/// new name is the deprecation marker around the timestamp, the new
/// description folds the original name and description in verbatim, and
/// price and icon are unchanged.
pub proof fn lemma_product_delete_deprecates(
    inputs: DocumentView,
    outputs: DocumentView,
    ts: Seq<char>,
)
    requires
        spec_parse_experience_developer_product_inputs(inputs) is Some,
        spec_parse_experience_developer_product_outputs(outputs) is Some,
    ensures
        spec_delete(ResourceKind::ExperienceDeveloperProduct, inputs, outputs, ts) == Ok::<ReconcileStepView, Seq<char>>(
            ReconcileStepView::Perform {
                action: PlatformActionView::UpdateDeveloperProduct {
                    experience_id: spec_parse_experience_developer_product_inputs(
                        inputs,
                    ).unwrap().experience_id,
                    asset_id: spec_parse_experience_developer_product_outputs(
                        outputs,
                    ).unwrap().asset_id,
                    name: spec_deprecation_name(ts),
                    price: spec_parse_experience_developer_product_inputs(inputs).unwrap().price,
                    description: spec_deprecation_description(
                        spec_parse_experience_developer_product_inputs(inputs).unwrap().name,
                        spec_parse_experience_developer_product_inputs(
                            inputs,
                        ).unwrap().description,
                    ),
                    icon_asset_id: spec_parse_experience_developer_product_inputs(
                        inputs,
                    ).unwrap().icon_asset_id,
                },
                pending: PendingOperationView::Acknowledge,
            },
        ),
{
}

/// The deprecation name begins with the marker and carries the timestamp
/// right after it; the deprecation description carries the original name
/// and description verbatim, at fixed offsets around its labels.
pub proof fn lemma_deprecation_shape(ts: Seq<char>, name: Seq<char>, description: Seq<char>)
    ensures
        spec_deprecation_name(ts).len() == ts.len() + 16,
        spec_deprecation_name(ts).take(15) == "zzz_DEPRECATED("@,
        spec_deprecation_name(ts).subrange(15, 15 + ts.len() as int) == ts,
        spec_deprecation_description(name, description).subrange(6, 6 + name.len() as int)
            == name,
        spec_deprecation_description(name, description).subrange(
            6 + name.len() as int + 14,
            6 + name.len() as int + 14 + description.len() as int,
        ) == description,
{
    reveal_strlit("zzz_DEPRECATED(");
    reveal_strlit(")");
    reveal_strlit("Name: ");
    reveal_strlit("\nDescription:\n");
    assert("zzz_DEPRECATED("@.len() == 15);
    assert(")"@.len() == 1);
    assert("Name: "@.len() == 6);
    assert("\nDescription:\n"@.len() == 14);
    assert(spec_deprecation_name(ts).take(15) =~= "zzz_DEPRECATED("@);
    assert(spec_deprecation_name(ts).subrange(15, 15 + ts.len() as int) =~= ts);
    assert(spec_deprecation_description(name, description).subrange(6, 6 + name.len() as int)
        =~= name);
    assert(spec_deprecation_description(name, description).subrange(
        6 + name.len() as int + 14,
        6 + name.len() as int + 14 + description.len() as int,
    ) =~= description);
}

} // verus!
