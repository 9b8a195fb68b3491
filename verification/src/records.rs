//! The strongly-typed input and output records of each resource type,
//! with the parsers that read them out of an untyped document and the
//! serializers that write outputs back into one.
//!
//! A parse failure is a recoverable shape error, never a panic: each
//! parser returns `None` exactly when the document does not match the
//! type's expected shape.

use vstd::prelude::*;
use crate::doc::{
    Document, DocumentView, view_of_fields, spec_get_u64, spec_get_bool, spec_get_text,
    spec_get_opt_u64, spec_get_u32, spec_get_u32_or_zero, spec_get_u64_list, spec_get, get_u64,
    get_bool, get_text, get_opt_u64, get_u32, get_u32_or_zero, get_u64_list, get_doc,
};
use crate::resource_types::AssetId;

verus! {

/// True exactly when the document is a record (a key/value map).
pub fn is_record(d: &Document) -> (r: bool)
    ensures
        r == (d@ is Record),
{
    match d {
        Document::Record(_) => true,
        _ => false,
    }
}

// ---------------------------------------------------------------------
// Record definitions, one pair per resource type.
// ---------------------------------------------------------------------

pub struct ExperienceInputs {
    pub asset_id: Option<AssetId>,
}

pub ghost struct ExperienceInputsView {
    pub asset_id: Option<AssetId>,
}

impl View for ExperienceInputs {
    type V = ExperienceInputsView;

    open spec fn view(&self) -> ExperienceInputsView {
        ExperienceInputsView { asset_id: self.asset_id }
    }
}

pub struct ExperienceOutputs {
    pub asset_id: AssetId,
    pub start_place_id: AssetId,
}

pub ghost struct ExperienceOutputsView {
    pub asset_id: AssetId,
    pub start_place_id: AssetId,
}

impl View for ExperienceOutputs {
    type V = ExperienceOutputsView;

    open spec fn view(&self) -> ExperienceOutputsView {
        ExperienceOutputsView { asset_id: self.asset_id, start_place_id: self.start_place_id }
    }
}

pub struct ExperienceConfigurationInputs {
    pub experience_id: AssetId,
    pub configuration: Document,
}

pub ghost struct ExperienceConfigurationInputsView {
    pub experience_id: AssetId,
    pub configuration: DocumentView,
}

impl View for ExperienceConfigurationInputs {
    type V = ExperienceConfigurationInputsView;

    open spec fn view(&self) -> ExperienceConfigurationInputsView {
        ExperienceConfigurationInputsView {
            experience_id: self.experience_id,
            configuration: self.configuration@,
        }
    }
}

pub struct ExperienceActivationInputs {
    pub experience_id: AssetId,
    pub is_active: bool,
}

pub ghost struct ExperienceActivationInputsView {
    pub experience_id: AssetId,
    pub is_active: bool,
}

impl View for ExperienceActivationInputs {
    type V = ExperienceActivationInputsView;

    open spec fn view(&self) -> ExperienceActivationInputsView {
        ExperienceActivationInputsView {
            experience_id: self.experience_id,
            is_active: self.is_active,
        }
    }
}

pub struct ExperienceIconInputs {
    pub experience_id: AssetId,
    pub file_path: String,
    pub file_hash: String,
}

pub ghost struct ExperienceIconInputsView {
    pub experience_id: AssetId,
    pub file_path: Seq<char>,
    pub file_hash: Seq<char>,
}

impl View for ExperienceIconInputs {
    type V = ExperienceIconInputsView;

    open spec fn view(&self) -> ExperienceIconInputsView {
        ExperienceIconInputsView {
            experience_id: self.experience_id,
            file_path: self.file_path@,
            file_hash: self.file_hash@,
        }
    }
}

pub struct ExperienceIconOutputs {
    pub asset_id: AssetId,
}

pub ghost struct ExperienceIconOutputsView {
    pub asset_id: AssetId,
}

impl View for ExperienceIconOutputs {
    type V = ExperienceIconOutputsView;

    open spec fn view(&self) -> ExperienceIconOutputsView {
        ExperienceIconOutputsView { asset_id: self.asset_id }
    }
}

pub struct ExperienceThumbnailInputs {
    pub experience_id: AssetId,
    pub file_path: String,
    pub file_hash: String,
}

pub ghost struct ExperienceThumbnailInputsView {
    pub experience_id: AssetId,
    pub file_path: Seq<char>,
    pub file_hash: Seq<char>,
}

impl View for ExperienceThumbnailInputs {
    type V = ExperienceThumbnailInputsView;

    open spec fn view(&self) -> ExperienceThumbnailInputsView {
        ExperienceThumbnailInputsView {
            experience_id: self.experience_id,
            file_path: self.file_path@,
            file_hash: self.file_hash@,
        }
    }
}

pub struct ExperienceThumbnailOutputs {
    pub asset_id: AssetId,
}

pub ghost struct ExperienceThumbnailOutputsView {
    pub asset_id: AssetId,
}

impl View for ExperienceThumbnailOutputs {
    type V = ExperienceThumbnailOutputsView;

    open spec fn view(&self) -> ExperienceThumbnailOutputsView {
        ExperienceThumbnailOutputsView { asset_id: self.asset_id }
    }
}

pub struct ExperienceDeveloperProductIconInputs {
    pub experience_id: AssetId,
    pub file_path: String,
    pub file_hash: String,
}

pub ghost struct ExperienceDeveloperProductIconInputsView {
    pub experience_id: AssetId,
    pub file_path: Seq<char>,
    pub file_hash: Seq<char>,
}

impl View for ExperienceDeveloperProductIconInputs {
    type V = ExperienceDeveloperProductIconInputsView;

    open spec fn view(&self) -> ExperienceDeveloperProductIconInputsView {
        ExperienceDeveloperProductIconInputsView {
            experience_id: self.experience_id,
            file_path: self.file_path@,
            file_hash: self.file_hash@,
        }
    }
}

pub struct ExperienceDeveloperProductIconOutputs {
    pub asset_id: AssetId,
}

pub ghost struct ExperienceDeveloperProductIconOutputsView {
    pub asset_id: AssetId,
}

impl View for ExperienceDeveloperProductIconOutputs {
    type V = ExperienceDeveloperProductIconOutputsView;

    open spec fn view(&self) -> ExperienceDeveloperProductIconOutputsView {
        ExperienceDeveloperProductIconOutputsView { asset_id: self.asset_id }
    }
}

pub struct ExperienceThumbnailOrderInputs {
    pub experience_id: AssetId,
    pub asset_ids: Vec<AssetId>,
}

pub ghost struct ExperienceThumbnailOrderInputsView {
    pub experience_id: AssetId,
    pub asset_ids: Seq<AssetId>,
}

impl View for ExperienceThumbnailOrderInputs {
    type V = ExperienceThumbnailOrderInputsView;

    open spec fn view(&self) -> ExperienceThumbnailOrderInputsView {
        ExperienceThumbnailOrderInputsView {
            experience_id: self.experience_id,
            asset_ids: self.asset_ids@,
        }
    }
}

pub struct ExperienceDeveloperProductInputs {
    pub experience_id: AssetId,
    pub name: String,
    pub price: u32,
    pub description: String,
    pub icon_asset_id: Option<AssetId>,
}

pub ghost struct ExperienceDeveloperProductInputsView {
    pub experience_id: AssetId,
    pub name: Seq<char>,
    pub price: u32,
    pub description: Seq<char>,
    pub icon_asset_id: Option<AssetId>,
}

impl View for ExperienceDeveloperProductInputs {
    type V = ExperienceDeveloperProductInputsView;

    open spec fn view(&self) -> ExperienceDeveloperProductInputsView {
        ExperienceDeveloperProductInputsView {
            experience_id: self.experience_id,
            name: self.name@,
            price: self.price,
            description: self.description@,
            icon_asset_id: self.icon_asset_id,
        }
    }
}

pub struct ExperienceDeveloperProductOutputs {
    pub asset_id: AssetId,
    pub product_id: AssetId,
    pub shop_id: AssetId,
}

pub ghost struct ExperienceDeveloperProductOutputsView {
    pub asset_id: AssetId,
    pub product_id: AssetId,
    pub shop_id: AssetId,
}

impl View for ExperienceDeveloperProductOutputs {
    type V = ExperienceDeveloperProductOutputsView;

    open spec fn view(&self) -> ExperienceDeveloperProductOutputsView {
        ExperienceDeveloperProductOutputsView {
            asset_id: self.asset_id,
            product_id: self.product_id,
            shop_id: self.shop_id,
        }
    }
}

pub struct PlaceInputs {
    pub experience_id: AssetId,
    pub start_place_id: AssetId,
    pub asset_id: Option<AssetId>,
    pub is_start: bool,
}

pub ghost struct PlaceInputsView {
    pub experience_id: AssetId,
    pub start_place_id: AssetId,
    pub asset_id: Option<AssetId>,
    pub is_start: bool,
}

impl View for PlaceInputs {
    type V = PlaceInputsView;

    open spec fn view(&self) -> PlaceInputsView {
        PlaceInputsView {
            experience_id: self.experience_id,
            start_place_id: self.start_place_id,
            asset_id: self.asset_id,
            is_start: self.is_start,
        }
    }
}

pub struct PlaceOutputs {
    pub asset_id: AssetId,
}

pub ghost struct PlaceOutputsView {
    pub asset_id: AssetId,
}

impl View for PlaceOutputs {
    type V = PlaceOutputsView;

    open spec fn view(&self) -> PlaceOutputsView {
        PlaceOutputsView { asset_id: self.asset_id }
    }
}

pub struct PlaceFileInputs {
    pub asset_id: AssetId,
    pub file_path: String,
    pub file_hash: String,
}

pub ghost struct PlaceFileInputsView {
    pub asset_id: AssetId,
    pub file_path: Seq<char>,
    pub file_hash: Seq<char>,
}

impl View for PlaceFileInputs {
    type V = PlaceFileInputsView;

    open spec fn view(&self) -> PlaceFileInputsView {
        PlaceFileInputsView {
            asset_id: self.asset_id,
            file_path: self.file_path@,
            file_hash: self.file_hash@,
        }
    }
}

pub struct PlaceFileOutputs {
    pub version: u32,
}

pub ghost struct PlaceFileOutputsView {
    pub version: u32,
}

impl View for PlaceFileOutputs {
    type V = PlaceFileOutputsView;

    open spec fn view(&self) -> PlaceFileOutputsView {
        PlaceFileOutputsView { version: self.version }
    }
}

pub struct PlaceConfigurationInputs {
    pub asset_id: AssetId,
    pub configuration: Document,
}

pub ghost struct PlaceConfigurationInputsView {
    pub asset_id: AssetId,
    pub configuration: DocumentView,
}

impl View for PlaceConfigurationInputs {
    type V = PlaceConfigurationInputsView;

    open spec fn view(&self) -> PlaceConfigurationInputsView {
        PlaceConfigurationInputsView {
            asset_id: self.asset_id,
            configuration: self.configuration@,
        }
    }
}

// ---------------------------------------------------------------------
// Parsers: what shape each record expects of its document.
// ---------------------------------------------------------------------

pub open spec fn spec_parse_experience_inputs(d: DocumentView) -> Option<ExperienceInputsView> {
    if d is Record {
        match spec_get_opt_u64(d, "assetId"@) {
            Some(asset_id) => Some(ExperienceInputsView { asset_id }),
            None => None,
        }
    } else {
        None
    }
}

pub fn parse_experience_inputs(d: &Document) -> (r: Option<ExperienceInputs>)
    ensures
        match r {
            Some(v) => spec_parse_experience_inputs(d@) == Some(v@),
            None => spec_parse_experience_inputs(d@) is None,
        },
{
    if !is_record(d) {
        return None;
    }
    match get_opt_u64(d, "assetId") {
        Some(asset_id) => Some(ExperienceInputs { asset_id }),
        None => None,
    }
}

pub open spec fn spec_parse_experience_outputs(d: DocumentView) -> Option<ExperienceOutputsView> {
    if d is Record {
        match (spec_get_u64(d, "assetId"@), spec_get_u64(d, "startPlaceId"@)) {
            (Some(asset_id), Some(start_place_id)) => Some(
                ExperienceOutputsView { asset_id, start_place_id },
            ),
            _ => None,
        }
    } else {
        None
    }
}

pub fn parse_experience_outputs(d: &Document) -> (r: Option<ExperienceOutputs>)
    ensures
        match r {
            Some(v) => spec_parse_experience_outputs(d@) == Some(v@),
            None => spec_parse_experience_outputs(d@) is None,
        },
{
    if !is_record(d) {
        return None;
    }
    match (get_u64(d, "assetId"), get_u64(d, "startPlaceId")) {
        (Some(asset_id), Some(start_place_id)) => Some(
            ExperienceOutputs { asset_id, start_place_id },
        ),
        _ => None,
    }
}

pub open spec fn spec_parse_experience_configuration_inputs(d: DocumentView) -> Option<
    ExperienceConfigurationInputsView,
> {
    if d is Record {
        match (spec_get_u64(d, "experienceId"@), spec_get(d, "configuration"@)) {
            (Some(experience_id), Some(configuration)) => Some(
                ExperienceConfigurationInputsView { experience_id, configuration },
            ),
            _ => None,
        }
    } else {
        None
    }
}

pub fn parse_experience_configuration_inputs(d: &Document) -> (r: Option<
    ExperienceConfigurationInputs,
>)
    ensures
        match r {
            Some(v) => spec_parse_experience_configuration_inputs(d@) == Some(v@),
            None => spec_parse_experience_configuration_inputs(d@) is None,
        },
{
    if !is_record(d) {
        return None;
    }
    match (get_u64(d, "experienceId"), get_doc(d, "configuration")) {
        (Some(experience_id), Some(configuration)) => Some(
            ExperienceConfigurationInputs { experience_id, configuration },
        ),
        _ => None,
    }
}

pub open spec fn spec_parse_experience_activation_inputs(d: DocumentView) -> Option<
    ExperienceActivationInputsView,
> {
    if d is Record {
        match (spec_get_u64(d, "experienceId"@), spec_get_bool(d, "isActive"@)) {
            (Some(experience_id), Some(is_active)) => Some(
                ExperienceActivationInputsView { experience_id, is_active },
            ),
            _ => None,
        }
    } else {
        None
    }
}

pub fn parse_experience_activation_inputs(d: &Document) -> (r: Option<ExperienceActivationInputs>)
    ensures
        match r {
            Some(v) => spec_parse_experience_activation_inputs(d@) == Some(v@),
            None => spec_parse_experience_activation_inputs(d@) is None,
        },
{
    if !is_record(d) {
        return None;
    }
    match (get_u64(d, "experienceId"), get_bool(d, "isActive")) {
        (Some(experience_id), Some(is_active)) => Some(
            ExperienceActivationInputs { experience_id, is_active },
        ),
        _ => None,
    }
}

pub open spec fn spec_parse_experience_icon_inputs(d: DocumentView) -> Option<
    ExperienceIconInputsView,
> {
    if d is Record {
        match (
            spec_get_u64(d, "experienceId"@),
            spec_get_text(d, "filePath"@),
            spec_get_text(d, "fileHash"@),
        ) {
            (Some(experience_id), Some(file_path), Some(file_hash)) => Some(
                ExperienceIconInputsView { experience_id, file_path, file_hash },
            ),
            _ => None,
        }
    } else {
        None
    }
}

pub fn parse_experience_icon_inputs(d: &Document) -> (r: Option<ExperienceIconInputs>)
    ensures
        match r {
            Some(v) => spec_parse_experience_icon_inputs(d@) == Some(v@),
            None => spec_parse_experience_icon_inputs(d@) is None,
        },
{
    if !is_record(d) {
        return None;
    }
    match (get_u64(d, "experienceId"), get_text(d, "filePath"), get_text(d, "fileHash")) {
        (Some(experience_id), Some(file_path), Some(file_hash)) => Some(
            ExperienceIconInputs { experience_id, file_path, file_hash },
        ),
        _ => None,
    }
}

pub open spec fn spec_parse_experience_thumbnail_inputs(d: DocumentView) -> Option<
    ExperienceThumbnailInputsView,
> {
    if d is Record {
        match (
            spec_get_u64(d, "experienceId"@),
            spec_get_text(d, "filePath"@),
            spec_get_text(d, "fileHash"@),
        ) {
            (Some(experience_id), Some(file_path), Some(file_hash)) => Some(
                ExperienceThumbnailInputsView { experience_id, file_path, file_hash },
            ),
            _ => None,
        }
    } else {
        None
    }
}

pub fn parse_experience_thumbnail_inputs(d: &Document) -> (r: Option<ExperienceThumbnailInputs>)
    ensures
        match r {
            Some(v) => spec_parse_experience_thumbnail_inputs(d@) == Some(v@),
            None => spec_parse_experience_thumbnail_inputs(d@) is None,
        },
{
    if !is_record(d) {
        return None;
    }
    match (get_u64(d, "experienceId"), get_text(d, "filePath"), get_text(d, "fileHash")) {
        (Some(experience_id), Some(file_path), Some(file_hash)) => Some(
            ExperienceThumbnailInputs { experience_id, file_path, file_hash },
        ),
        _ => None,
    }
}

pub open spec fn spec_parse_experience_thumbnail_outputs(d: DocumentView) -> Option<
    ExperienceThumbnailOutputsView,
> {
    if d is Record {
        match spec_get_u64(d, "assetId"@) {
            Some(asset_id) => Some(ExperienceThumbnailOutputsView { asset_id }),
            None => None,
        }
    } else {
        None
    }
}

pub fn parse_experience_thumbnail_outputs(d: &Document) -> (r: Option<ExperienceThumbnailOutputs>)
    ensures
        match r {
            Some(v) => spec_parse_experience_thumbnail_outputs(d@) == Some(v@),
            None => spec_parse_experience_thumbnail_outputs(d@) is None,
        },
{
    if !is_record(d) {
        return None;
    }
    match get_u64(d, "assetId") {
        Some(asset_id) => Some(ExperienceThumbnailOutputs { asset_id }),
        None => None,
    }
}

pub open spec fn spec_parse_experience_icon_outputs(d: DocumentView) -> Option<
    ExperienceIconOutputsView,
> {
    if d is Record {
        match spec_get_u64(d, "assetId"@) {
            Some(asset_id) => Some(ExperienceIconOutputsView { asset_id }),
            None => None,
        }
    } else {
        None
    }
}

pub fn parse_experience_icon_outputs(d: &Document) -> (r: Option<ExperienceIconOutputs>)
    ensures
        match r {
            Some(v) => spec_parse_experience_icon_outputs(d@) == Some(v@),
            None => spec_parse_experience_icon_outputs(d@) is None,
        },
{
    if !is_record(d) {
        return None;
    }
    match get_u64(d, "assetId") {
        Some(asset_id) => Some(ExperienceIconOutputs { asset_id }),
        None => None,
    }
}

pub open spec fn spec_parse_experience_developer_product_icon_inputs(d: DocumentView) -> Option<
    ExperienceDeveloperProductIconInputsView,
> {
    if d is Record {
        match (
            spec_get_u64(d, "experienceId"@),
            spec_get_text(d, "filePath"@),
            spec_get_text(d, "fileHash"@),
        ) {
            (Some(experience_id), Some(file_path), Some(file_hash)) => Some(
                ExperienceDeveloperProductIconInputsView { experience_id, file_path, file_hash },
            ),
            _ => None,
        }
    } else {
        None
    }
}

pub fn parse_experience_developer_product_icon_inputs(d: &Document) -> (r: Option<
    ExperienceDeveloperProductIconInputs,
>)
    ensures
        match r {
            Some(v) => spec_parse_experience_developer_product_icon_inputs(d@) == Some(v@),
            None => spec_parse_experience_developer_product_icon_inputs(d@) is None,
        },
{
    if !is_record(d) {
        return None;
    }
    match (get_u64(d, "experienceId"), get_text(d, "filePath"), get_text(d, "fileHash")) {
        (Some(experience_id), Some(file_path), Some(file_hash)) => Some(
            ExperienceDeveloperProductIconInputs { experience_id, file_path, file_hash },
        ),
        _ => None,
    }
}

pub open spec fn spec_parse_experience_developer_product_icon_outputs(d: DocumentView) -> Option<
    ExperienceDeveloperProductIconOutputsView,
> {
    if d is Record {
        match spec_get_u64(d, "assetId"@) {
            Some(asset_id) => Some(ExperienceDeveloperProductIconOutputsView { asset_id }),
            None => None,
        }
    } else {
        None
    }
}

pub fn parse_experience_developer_product_icon_outputs(d: &Document) -> (r: Option<
    ExperienceDeveloperProductIconOutputs,
>)
    ensures
        match r {
            Some(v) => spec_parse_experience_developer_product_icon_outputs(d@) == Some(v@),
            None => spec_parse_experience_developer_product_icon_outputs(d@) is None,
        },
{
    if !is_record(d) {
        return None;
    }
    match get_u64(d, "assetId") {
        Some(asset_id) => Some(ExperienceDeveloperProductIconOutputs { asset_id }),
        None => None,
    }
}

pub open spec fn spec_parse_experience_thumbnail_order_inputs(d: DocumentView) -> Option<
    ExperienceThumbnailOrderInputsView,
> {
    if d is Record {
        match (spec_get_u64(d, "experienceId"@), spec_get_u64_list(d, "assetIds"@)) {
            (Some(experience_id), Some(asset_ids)) => Some(
                ExperienceThumbnailOrderInputsView { experience_id, asset_ids },
            ),
            _ => None,
        }
    } else {
        None
    }
}

pub fn parse_experience_thumbnail_order_inputs(d: &Document) -> (r: Option<
    ExperienceThumbnailOrderInputs,
>)
    ensures
        match r {
            Some(v) => spec_parse_experience_thumbnail_order_inputs(d@) == Some(v@),
            None => spec_parse_experience_thumbnail_order_inputs(d@) is None,
        },
{
    if !is_record(d) {
        return None;
    }
    match (get_u64(d, "experienceId"), get_u64_list(d, "assetIds")) {
        (Some(experience_id), Some(asset_ids)) => Some(
            ExperienceThumbnailOrderInputs { experience_id, asset_ids },
        ),
        _ => None,
    }
}

pub open spec fn spec_parse_experience_developer_product_inputs(d: DocumentView) -> Option<
    ExperienceDeveloperProductInputsView,
> {
    if d is Record {
        match (
            spec_get_u64(d, "experienceId"@),
            spec_get_text(d, "name"@),
            spec_get_u32(d, "price"@),
            spec_get_text(d, "description"@),
            spec_get_opt_u64(d, "iconAssetId"@),
        ) {
            (Some(experience_id), Some(name), Some(price), Some(description), Some(icon_asset_id)) => Some(
                ExperienceDeveloperProductInputsView {
                    experience_id,
                    name,
                    price,
                    description,
                    icon_asset_id,
                },
            ),
            _ => None,
        }
    } else {
        None
    }
}

pub fn parse_experience_developer_product_inputs(d: &Document) -> (r: Option<
    ExperienceDeveloperProductInputs,
>)
    ensures
        match r {
            Some(v) => spec_parse_experience_developer_product_inputs(d@) == Some(v@),
            None => spec_parse_experience_developer_product_inputs(d@) is None,
        },
{
    if !is_record(d) {
        return None;
    }
    match (
        get_u64(d, "experienceId"),
        get_text(d, "name"),
        get_u32(d, "price"),
        get_text(d, "description"),
        get_opt_u64(d, "iconAssetId"),
    ) {
        (Some(experience_id), Some(name), Some(price), Some(description), Some(icon_asset_id)) => Some(
            ExperienceDeveloperProductInputs {
                experience_id,
                name,
                price,
                description,
                icon_asset_id,
            },
        ),
        _ => None,
    }
}

pub open spec fn spec_parse_experience_developer_product_outputs(d: DocumentView) -> Option<
    ExperienceDeveloperProductOutputsView,
> {
    if d is Record {
        match (
            spec_get_u64(d, "assetId"@),
            spec_get_u64(d, "productId"@),
            spec_get_u64(d, "shopId"@),
        ) {
            (Some(asset_id), Some(product_id), Some(shop_id)) => Some(
                ExperienceDeveloperProductOutputsView { asset_id, product_id, shop_id },
            ),
            _ => None,
        }
    } else {
        None
    }
}

pub fn parse_experience_developer_product_outputs(d: &Document) -> (r: Option<
    ExperienceDeveloperProductOutputs,
>)
    ensures
        match r {
            Some(v) => spec_parse_experience_developer_product_outputs(d@) == Some(v@),
            None => spec_parse_experience_developer_product_outputs(d@) is None,
        },
{
    if !is_record(d) {
        return None;
    }
    match (get_u64(d, "assetId"), get_u64(d, "productId"), get_u64(d, "shopId")) {
        (Some(asset_id), Some(product_id), Some(shop_id)) => Some(
            ExperienceDeveloperProductOutputs { asset_id, product_id, shop_id },
        ),
        _ => None,
    }
}

pub open spec fn spec_parse_place_inputs(d: DocumentView) -> Option<PlaceInputsView> {
    if d is Record {
        match (
            spec_get_u64(d, "experienceId"@),
            spec_get_u64(d, "startPlaceId"@),
            spec_get_opt_u64(d, "assetId"@),
            spec_get_bool(d, "isStart"@),
        ) {
            (Some(experience_id), Some(start_place_id), Some(asset_id), Some(is_start)) => Some(
                PlaceInputsView { experience_id, start_place_id, asset_id, is_start },
            ),
            _ => None,
        }
    } else {
        None
    }
}

pub fn parse_place_inputs(d: &Document) -> (r: Option<PlaceInputs>)
    ensures
        match r {
            Some(v) => spec_parse_place_inputs(d@) == Some(v@),
            None => spec_parse_place_inputs(d@) is None,
        },
{
    if !is_record(d) {
        return None;
    }
    match (
        get_u64(d, "experienceId"),
        get_u64(d, "startPlaceId"),
        get_opt_u64(d, "assetId"),
        get_bool(d, "isStart"),
    ) {
        (Some(experience_id), Some(start_place_id), Some(asset_id), Some(is_start)) => Some(
            PlaceInputs { experience_id, start_place_id, asset_id, is_start },
        ),
        _ => None,
    }
}

pub open spec fn spec_parse_place_outputs(d: DocumentView) -> Option<PlaceOutputsView> {
    if d is Record {
        match spec_get_u64(d, "assetId"@) {
            Some(asset_id) => Some(PlaceOutputsView { asset_id }),
            None => None,
        }
    } else {
        None
    }
}

pub fn parse_place_outputs(d: &Document) -> (r: Option<PlaceOutputs>)
    ensures
        match r {
            Some(v) => spec_parse_place_outputs(d@) == Some(v@),
            None => spec_parse_place_outputs(d@) is None,
        },
{
    if !is_record(d) {
        return None;
    }
    match get_u64(d, "assetId") {
        Some(asset_id) => Some(PlaceOutputs { asset_id }),
        None => None,
    }
}

pub open spec fn spec_parse_place_file_inputs(d: DocumentView) -> Option<PlaceFileInputsView> {
    if d is Record {
        match (
            spec_get_u64(d, "assetId"@),
            spec_get_text(d, "filePath"@),
            spec_get_text(d, "fileHash"@),
        ) {
            (Some(asset_id), Some(file_path), Some(file_hash)) => Some(
                PlaceFileInputsView { asset_id, file_path, file_hash },
            ),
            _ => None,
        }
    } else {
        None
    }
}

pub fn parse_place_file_inputs(d: &Document) -> (r: Option<PlaceFileInputs>)
    ensures
        match r {
            Some(v) => spec_parse_place_file_inputs(d@) == Some(v@),
            None => spec_parse_place_file_inputs(d@) is None,
        },
{
    if !is_record(d) {
        return None;
    }
    match (get_u64(d, "assetId"), get_text(d, "filePath"), get_text(d, "fileHash")) {
        (Some(asset_id), Some(file_path), Some(file_hash)) => Some(
            PlaceFileInputs { asset_id, file_path, file_hash },
        ),
        _ => None,
    }
}

/// An absent `version` reads as zero: the outputs document of an earlier
/// run may predate the field.
pub open spec fn spec_parse_place_file_outputs(d: DocumentView) -> Option<PlaceFileOutputsView> {
    if d is Record {
        match spec_get_u32_or_zero(d, "version"@) {
            Some(version) => Some(PlaceFileOutputsView { version }),
            None => None,
        }
    } else {
        None
    }
}

pub fn parse_place_file_outputs(d: &Document) -> (r: Option<PlaceFileOutputs>)
    ensures
        match r {
            Some(v) => spec_parse_place_file_outputs(d@) == Some(v@),
            None => spec_parse_place_file_outputs(d@) is None,
        },
{
    if !is_record(d) {
        return None;
    }
    match get_u32_or_zero(d, "version") {
        Some(version) => Some(PlaceFileOutputs { version }),
        None => None,
    }
}

pub open spec fn spec_parse_place_configuration_inputs(d: DocumentView) -> Option<
    PlaceConfigurationInputsView,
> {
    if d is Record {
        match (spec_get_u64(d, "assetId"@), spec_get(d, "configuration"@)) {
            (Some(asset_id), Some(configuration)) => Some(
                PlaceConfigurationInputsView { asset_id, configuration },
            ),
            _ => None,
        }
    } else {
        None
    }
}

pub fn parse_place_configuration_inputs(d: &Document) -> (r: Option<PlaceConfigurationInputs>)
    ensures
        match r {
            Some(v) => spec_parse_place_configuration_inputs(d@) == Some(v@),
            None => spec_parse_place_configuration_inputs(d@) is None,
        },
{
    if !is_record(d) {
        return None;
    }
    match (get_u64(d, "assetId"), get_doc(d, "configuration")) {
        (Some(asset_id), Some(configuration)) => Some(
            PlaceConfigurationInputs { asset_id, configuration },
        ),
        _ => None,
    }
}

// ---------------------------------------------------------------------
// Serializers: outputs records written back into documents.
// ---------------------------------------------------------------------

pub open spec fn spec_u64_record_1(k: Seq<char>, v: u64) -> DocumentView {
    DocumentView::Record(seq![(k, DocumentView::UInt(v))])
}

pub open spec fn spec_u64_record_2(k1: Seq<char>, v1: u64, k2: Seq<char>, v2: u64) -> DocumentView {
    DocumentView::Record(seq![(k1, DocumentView::UInt(v1)), (k2, DocumentView::UInt(v2))])
}

pub open spec fn spec_u64_record_3(
    k1: Seq<char>,
    v1: u64,
    k2: Seq<char>,
    v2: u64,
    k3: Seq<char>,
    v3: u64,
) -> DocumentView {
    DocumentView::Record(
        seq![
            (k1, DocumentView::UInt(v1)),
            (k2, DocumentView::UInt(v2)),
            (k3, DocumentView::UInt(v3)),
        ],
    )
}

fn u64_record_1(k: &str, v: u64) -> (r: Document)
    ensures
        r@ == spec_u64_record_1(k@, v),
{
    let mut fields: Vec<(String, Document)> = Vec::new();
    fields.push((k.to_owned(), Document::UInt(v)));
    proof {
        crate::doc::lemma_view_of_fields(fields@);
        assert(view_of_fields(fields@) =~= seq![(k@, DocumentView::UInt(v))]);
    }
    Document::Record(fields)
}

fn u64_record_2(k1: &str, v1: u64, k2: &str, v2: u64) -> (r: Document)
    ensures
        r@ == spec_u64_record_2(k1@, v1, k2@, v2),
{
    let mut fields: Vec<(String, Document)> = Vec::new();
    fields.push((k1.to_owned(), Document::UInt(v1)));
    fields.push((k2.to_owned(), Document::UInt(v2)));
    proof {
        crate::doc::lemma_view_of_fields(fields@);
        assert(view_of_fields(fields@) =~= seq![
            (k1@, DocumentView::UInt(v1)),
            (k2@, DocumentView::UInt(v2)),
        ]);
    }
    Document::Record(fields)
}

fn u64_record_3(k1: &str, v1: u64, k2: &str, v2: u64, k3: &str, v3: u64) -> (r: Document)
    ensures
        r@ == spec_u64_record_3(k1@, v1, k2@, v2, k3@, v3),
{
    let mut fields: Vec<(String, Document)> = Vec::new();
    fields.push((k1.to_owned(), Document::UInt(v1)));
    fields.push((k2.to_owned(), Document::UInt(v2)));
    fields.push((k3.to_owned(), Document::UInt(v3)));
    proof {
        crate::doc::lemma_view_of_fields(fields@);
        assert(view_of_fields(fields@) =~= seq![
            (k1@, DocumentView::UInt(v1)),
            (k2@, DocumentView::UInt(v2)),
            (k3@, DocumentView::UInt(v3)),
        ]);
    }
    Document::Record(fields)
}

pub open spec fn spec_experience_outputs_doc(o: ExperienceOutputsView) -> DocumentView {
    spec_u64_record_2("assetId"@, o.asset_id, "startPlaceId"@, o.start_place_id)
}

pub fn experience_outputs_to_doc(o: &ExperienceOutputs) -> (r: Document)
    ensures
        r@ == spec_experience_outputs_doc(o@),
{
    u64_record_2("assetId", o.asset_id, "startPlaceId", o.start_place_id)
}

pub open spec fn spec_asset_outputs_doc(asset_id: u64) -> DocumentView {
    spec_u64_record_1("assetId"@, asset_id)
}

/// The shared shape of every outputs record that carries one image or
/// place identifier.
pub fn asset_outputs_to_doc(asset_id: u64) -> (r: Document)
    ensures
        r@ == spec_asset_outputs_doc(asset_id),
{
    u64_record_1("assetId", asset_id)
}

pub open spec fn spec_experience_developer_product_outputs_doc(
    o: ExperienceDeveloperProductOutputsView,
) -> DocumentView {
    spec_u64_record_3("assetId"@, o.asset_id, "productId"@, o.product_id, "shopId"@, o.shop_id)
}

pub fn experience_developer_product_outputs_to_doc(o: &ExperienceDeveloperProductOutputs) -> (r:
    Document)
    ensures
        r@ == spec_experience_developer_product_outputs_doc(o@),
{
    u64_record_3("assetId", o.asset_id, "productId", o.product_id, "shopId", o.shop_id)
}

pub open spec fn spec_place_file_outputs_doc(o: PlaceFileOutputsView) -> DocumentView {
    spec_u64_record_1("version"@, o.version as u64)
}

pub fn place_file_outputs_to_doc(o: &PlaceFileOutputs) -> (r: Document)
    ensures
        r@ == spec_place_file_outputs_doc(o@),
{
    u64_record_1("version", o.version as u64)
}

} // verus!
