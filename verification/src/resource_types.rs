//! The closed set of resource types the reconciler knows, and the string
//! tags under which the orchestrator names them.

use vstd::prelude::*;
use crate::doc::str_eq;

verus! {

/// A platform-assigned 64-bit identifier (experience id, place id,
/// product id, image id).
pub type AssetId = u64;

pub const EXPERIENCE: &'static str = "experience";

pub const EXPERIENCE_CONFIGURATION: &'static str = "experienceConfiguration";

pub const EXPERIENCE_ACTIVATION: &'static str = "experienceActivation";

pub const EXPERIENCE_ICON: &'static str = "experienceIcon";

pub const EXPERIENCE_THUMBNAIL: &'static str = "experienceThumbnail";

pub const EXPERIENCE_THUMBNAIL_ORDER: &'static str = "experienceThumbnailOrder";

pub const EXPERIENCE_DEVELOPER_PRODUCT: &'static str = "experienceDeveloperProduct";

pub const EXPERIENCE_DEVELOPER_PRODUCT_ICON: &'static str = "experienceDeveloperProductIcon";

pub const PLACE: &'static str = "place";

pub const PLACE_FILE: &'static str = "placeFile";

pub const PLACE_CONFIGURATION: &'static str = "placeConfiguration";

pub const SINGLETON_RESOURCE_ID: &'static str = "singleton";

/// One variant per declared resource type. The set is closed: a new kind
/// means a new branch in every operation.
#[derive(Clone, Copy, Debug, PartialEq, Eq, Structural)]
pub enum ResourceKind {
    Experience,
    ExperienceConfiguration,
    ExperienceActivation,
    ExperienceIcon,
    ExperienceThumbnail,
    ExperienceThumbnailOrder,
    ExperienceDeveloperProduct,
    ExperienceDeveloperProductIcon,
    Place,
    PlaceFile,
    PlaceConfiguration,
}

/// The kind a tag names, if it names one.
pub open spec fn spec_resource_kind(tag: Seq<char>) -> Option<ResourceKind> {
    if tag == "experience"@ {
        Some(ResourceKind::Experience)
    } else if tag == "experienceConfiguration"@ {
        Some(ResourceKind::ExperienceConfiguration)
    } else if tag == "experienceActivation"@ {
        Some(ResourceKind::ExperienceActivation)
    } else if tag == "experienceIcon"@ {
        Some(ResourceKind::ExperienceIcon)
    } else if tag == "experienceThumbnail"@ {
        Some(ResourceKind::ExperienceThumbnail)
    } else if tag == "experienceThumbnailOrder"@ {
        Some(ResourceKind::ExperienceThumbnailOrder)
    } else if tag == "experienceDeveloperProduct"@ {
        Some(ResourceKind::ExperienceDeveloperProduct)
    } else if tag == "experienceDeveloperProductIcon"@ {
        Some(ResourceKind::ExperienceDeveloperProductIcon)
    } else if tag == "place"@ {
        Some(ResourceKind::Place)
    } else if tag == "placeFile"@ {
        Some(ResourceKind::PlaceFile)
    } else if tag == "placeConfiguration"@ {
        Some(ResourceKind::PlaceConfiguration)
    } else {
        None
    }
}

/// Resolves a resource type tag to its kind. An unrecognized tag is not a
/// runtime data problem but a defect in the caller's type registry; the
/// dispatcher therefore refuses it here rather than in each operation.
pub fn resource_kind(tag: &str) -> (r: Option<ResourceKind>)
    ensures
        r == spec_resource_kind(tag@),
{
    if str_eq(tag, EXPERIENCE) {
        Some(ResourceKind::Experience)
    } else if str_eq(tag, EXPERIENCE_CONFIGURATION) {
        Some(ResourceKind::ExperienceConfiguration)
    } else if str_eq(tag, EXPERIENCE_ACTIVATION) {
        Some(ResourceKind::ExperienceActivation)
    } else if str_eq(tag, EXPERIENCE_ICON) {
        Some(ResourceKind::ExperienceIcon)
    } else if str_eq(tag, EXPERIENCE_THUMBNAIL) {
        Some(ResourceKind::ExperienceThumbnail)
    } else if str_eq(tag, EXPERIENCE_THUMBNAIL_ORDER) {
        Some(ResourceKind::ExperienceThumbnailOrder)
    } else if str_eq(tag, EXPERIENCE_DEVELOPER_PRODUCT) {
        Some(ResourceKind::ExperienceDeveloperProduct)
    } else if str_eq(tag, EXPERIENCE_DEVELOPER_PRODUCT_ICON) {
        Some(ResourceKind::ExperienceDeveloperProductIcon)
    } else if str_eq(tag, PLACE) {
        Some(ResourceKind::Place)
    } else if str_eq(tag, PLACE_FILE) {
        Some(ResourceKind::PlaceFile)
    } else if str_eq(tag, PLACE_CONFIGURATION) {
        Some(ResourceKind::PlaceConfiguration)
    } else {
        None
    }
}

} // verus!
