use reconciler::doc::Document;
use reconciler::manager::RobloxResourceManager;
use reconciler::platform::{PendingOperation, PlatformAction, PlatformResponse, ReconcileStep};
use reconciler::records::{parse_experience_outputs, parse_place_outputs};
use reconciler::resource_types::{resource_kind, ResourceKind};

fn record(fields: Vec<(&str, Document)>) -> Document {
    Document::Record(fields.into_iter().map(|(k, v)| (k.to_owned(), v)).collect())
}

fn manager() -> RobloxResourceManager {
    RobloxResourceManager::new("projects/demo")
}

fn perform(step: ReconcileStep) -> (PlatformAction, PendingOperation) {
    match step {
        ReconcileStep::Perform { action, pending } => (action, pending),
        ReconcileStep::Complete { .. } => panic!("expected an action, got completion"),
    }
}

fn completed(step: ReconcileStep) -> Option<Document> {
    match step {
        ReconcileStep::Complete { outputs } => outputs,
        ReconcileStep::Perform { .. } => panic!("expected completion, got an action"),
    }
}

#[test]
fn tags_resolve_to_kinds() {
    assert_eq!(resource_kind("experience"), Some(ResourceKind::Experience));
    assert_eq!(resource_kind("placeFile"), Some(ResourceKind::PlaceFile));
    assert_eq!(
        resource_kind("experienceDeveloperProductIcon"),
        Some(ResourceKind::ExperienceDeveloperProductIcon)
    );
    assert_eq!(resource_kind("widget"), None);
}

#[test]
fn experience_with_asset_id_adopts_instead_of_creating() {
    let m = manager();
    let inputs = record(vec![("assetId", Document::UInt(5))]);
    let step = m.create("experience", &inputs).expect("create should start");
    let (action, pending) = perform(step);
    match action {
        PlatformAction::GetExperience { experience_id } => assert_eq!(experience_id, 5),
        _ => panic!("adoption must fetch the experience, not create one"),
    }
    let done = m
        .resume(pending, PlatformResponse::ExperienceInfo { root_place_id: 99 })
        .expect("resume should complete");
    let outputs = completed(done).expect("experience create has outputs");
    let o = parse_experience_outputs(&outputs).expect("outputs should parse");
    assert_eq!(o.asset_id, 5);
    assert_eq!(o.start_place_id, 99);
}

#[test]
fn experience_without_asset_id_creates_one() {
    let m = manager();
    let inputs = record(vec![]);
    let (action, pending) = perform(m.create("experience", &inputs).unwrap());
    assert!(matches!(action, PlatformAction::CreateExperience));
    let done = m
        .resume(
            pending,
            PlatformResponse::ExperienceCreated { universe_id: 11, root_place_id: 12 },
        )
        .unwrap();
    let o = parse_experience_outputs(&completed(done).unwrap()).unwrap();
    assert_eq!(o.asset_id, 11);
    assert_eq!(o.start_place_id, 12);
}

#[test]
fn create_then_delete_experience_accepts_the_written_outputs() {
    let m = manager();
    let inputs = record(vec![]);
    let (_, pending) = perform(m.create("experience", &inputs).unwrap());
    let done = m
        .resume(
            pending,
            PlatformResponse::ExperienceCreated { universe_id: 21, root_place_id: 22 },
        )
        .unwrap();
    let outputs = completed(done).unwrap();
    let (action, pending) = perform(m.delete("experience", &inputs, &outputs).unwrap());
    match action {
        PlatformAction::ConfigureExperience { experience_id, configuration } => {
            assert_eq!(experience_id, 21);
            match configuration {
                Document::Record(fields) => {
                    assert_eq!(fields.len(), 1);
                    assert_eq!(fields[0].0, "isArchived");
                    assert!(matches!(fields[0].1, Document::Bool(true)));
                },
                _ => panic!("archive configuration must be a record"),
            }
        },
        _ => panic!("experience delete must archive via configuration"),
    }
    let done = m.resume(pending, PlatformResponse::Unit).unwrap();
    assert!(completed(done).is_none());
}

#[test]
fn no_op_deletes_accept_anything() {
    let m = manager();
    let junk = Document::Text("whatever".to_owned());
    for tag in [
        "experienceConfiguration",
        "experienceActivation",
        "experienceIcon",
        "experienceThumbnailOrder",
        "experienceDeveloperProductIcon",
        "placeFile",
        "placeConfiguration",
    ] {
        let step = m.delete(tag, &junk, &junk).expect("no-op delete never errs");
        assert!(completed(step).is_none());
    }
}

#[test]
fn delete_start_place_is_refused() {
    let m = manager();
    let inputs = record(vec![
        ("experienceId", Document::UInt(1)),
        ("startPlaceId", Document::UInt(2)),
        ("isStart", Document::Bool(true)),
    ]);
    let junk_outputs = Document::Null;
    let err = m.delete("place", &inputs, &junk_outputs).unwrap_err();
    assert_eq!(
        err,
        "Cannot delete the start place of an experience. Try creating a new experience instead."
    );
}

#[test]
fn delete_non_start_place_removes_it() {
    let m = manager();
    let inputs = record(vec![
        ("experienceId", Document::UInt(1)),
        ("startPlaceId", Document::UInt(2)),
        ("isStart", Document::Bool(false)),
    ]);
    let outputs = record(vec![("assetId", Document::UInt(33))]);
    let (action, _) = perform(m.delete("place", &inputs, &outputs).unwrap());
    match action {
        PlatformAction::RemovePlaceFromExperience { experience_id, place_id } => {
            assert_eq!(experience_id, 1);
            assert_eq!(place_id, 33);
        },
        _ => panic!("place delete must remove the place from the experience"),
    }
}

#[test]
fn create_place_invokes_platform_once_and_records_its_id() {
    let m = manager();
    let inputs = record(vec![
        ("experienceId", Document::UInt(4)),
        ("startPlaceId", Document::UInt(5)),
        ("isStart", Document::Bool(false)),
    ]);
    let (action, pending) = perform(m.create("place", &inputs).unwrap());
    match action {
        PlatformAction::CreatePlace { experience_id } => assert_eq!(experience_id, 4),
        _ => panic!("a fresh non-start place must be created"),
    }
    let done = m.resume(pending, PlatformResponse::PlaceCreated { place_id: 77 }).unwrap();
    let o = parse_place_outputs(&completed(done).unwrap()).unwrap();
    assert_eq!(o.asset_id, 77);
}

#[test]
fn create_start_place_makes_no_platform_call() {
    let m = manager();
    let inputs = record(vec![
        ("experienceId", Document::UInt(4)),
        ("startPlaceId", Document::UInt(5)),
        ("isStart", Document::Bool(true)),
    ]);
    let outputs = completed(m.create("place", &inputs).unwrap()).unwrap();
    let o = parse_place_outputs(&outputs).unwrap();
    assert_eq!(o.asset_id, 5);
}

#[test]
fn create_place_with_known_asset_adopts_it() {
    let m = manager();
    let inputs = record(vec![
        ("experienceId", Document::UInt(4)),
        ("startPlaceId", Document::UInt(5)),
        ("assetId", Document::UInt(66)),
        ("isStart", Document::Bool(false)),
    ]);
    let outputs = completed(m.create("place", &inputs).unwrap()).unwrap();
    assert_eq!(parse_place_outputs(&outputs).unwrap().asset_id, 66);
}

fn product_inputs() -> Document {
    record(vec![
        ("experienceId", Document::UInt(8)),
        ("name", Document::Text("Sword".to_owned())),
        ("price", Document::UInt(150)),
        ("description", Document::Text("Sharp and shiny".to_owned())),
        ("iconAssetId", Document::UInt(42)),
    ])
}

fn product_outputs() -> Document {
    record(vec![
        ("assetId", Document::UInt(900)),
        ("productId", Document::UInt(901)),
        ("shopId", Document::UInt(902)),
    ])
}

#[test]
fn create_developer_product_refetches_for_the_second_id() {
    let m = manager();
    let (action, pending) = perform(m.create("experienceDeveloperProduct", &product_inputs()).unwrap());
    match action {
        PlatformAction::CreateDeveloperProduct { experience_id, name, price, .. } => {
            assert_eq!(experience_id, 8);
            assert_eq!(name, "Sword");
            assert_eq!(price, 150);
        },
        _ => panic!("product create must call the create endpoint first"),
    }
    let step = m
        .resume(pending, PlatformResponse::DeveloperProductCreated { id: 11, shop_id: 22 })
        .unwrap();
    let (action, pending) = perform(step);
    match action {
        PlatformAction::FindDeveloperProductById { experience_id, product_creation_id } => {
            assert_eq!(experience_id, 8);
            assert_eq!(product_creation_id, 11);
        },
        _ => panic!("product create must re-fetch by the creation id"),
    }
    let done = m
        .resume(
            pending,
            PlatformResponse::DeveloperProductInfo { product_id: 33, developer_product_id: 44 },
        )
        .unwrap();
    let outputs = completed(done).unwrap();
    let o = reconciler::records::parse_experience_developer_product_outputs(&outputs).unwrap();
    assert_eq!(o.asset_id, 33);
    assert_eq!(o.product_id, 11);
    assert_eq!(o.shop_id, 22);
}

#[test]
fn update_developer_product_uses_the_recorded_asset_id() {
    let m = manager();
    let outputs = product_outputs();
    let (action, pending) = perform(
        m.update("experienceDeveloperProduct", &product_inputs(), &outputs).unwrap(),
    );
    match action {
        PlatformAction::UpdateDeveloperProduct { experience_id, asset_id, name, price, .. } => {
            assert_eq!(experience_id, 8);
            assert_eq!(asset_id, 900);
            assert_eq!(name, "Sword");
            assert_eq!(price, 150);
        },
        _ => panic!("product update must call the dedicated update endpoint"),
    }
    let done = m.resume(pending, PlatformResponse::Unit).unwrap();
    let passed_through = completed(done).unwrap();
    let o = reconciler::records::parse_experience_developer_product_outputs(&passed_through).unwrap();
    assert_eq!(o.asset_id, 900);
    assert_eq!(o.product_id, 901);
    assert_eq!(o.shop_id, 902);
}

#[test]
fn delete_developer_product_renames_with_deprecation_marker() {
    let m = manager();
    let (action, _) = perform(
        m.delete("experienceDeveloperProduct", &product_inputs(), &product_outputs()).unwrap(),
    );
    match action {
        PlatformAction::UpdateDeveloperProduct {
            experience_id,
            asset_id,
            name,
            price,
            description,
            icon_asset_id,
        } => {
            assert_eq!(experience_id, 8);
            assert_eq!(asset_id, 900);
            assert!(name.starts_with("zzz_DEPRECATED("));
            assert!(name.ends_with(")"));
            assert!(name.len() > "zzz_DEPRECATED()".len());
            assert_eq!(description, "Name: Sword\nDescription:\nSharp and shiny");
            assert_eq!(price, 150);
            assert_eq!(icon_asset_id, Some(42));
        },
        _ => panic!("product delete must rename via the update endpoint"),
    }
}

#[test]
fn update_thumbnail_deletes_then_reuploads() {
    let m = manager();
    let inputs = record(vec![
        ("experienceId", Document::UInt(3)),
        ("filePath", Document::Text("thumb.png".to_owned())),
        ("fileHash", Document::Text("abc123".to_owned())),
    ]);
    let outputs = record(vec![("assetId", Document::UInt(50))]);
    let (action, pending) = perform(m.update("experienceThumbnail", &inputs, &outputs).unwrap());
    match action {
        PlatformAction::DeleteThumbnail { experience_id, image_id } => {
            assert_eq!(experience_id, 3);
            assert_eq!(image_id, 50);
        },
        _ => panic!("thumbnail update must delete the old image first"),
    }
    let step = m.resume(pending, PlatformResponse::Unit).unwrap();
    let (action, pending) = perform(step);
    match action {
        PlatformAction::UploadThumbnail { experience_id, file_path } => {
            assert_eq!(experience_id, 3);
            assert_eq!(file_path, "thumb.png");
        },
        _ => panic!("thumbnail update must re-upload after the delete"),
    }
    let done = m.resume(pending, PlatformResponse::ImageUploaded { target_id: 51 }).unwrap();
    let o = reconciler::records::parse_experience_thumbnail_outputs(&completed(done).unwrap())
        .unwrap();
    assert_eq!(o.asset_id, 51);
}

#[test]
fn place_file_create_uploads_then_reads_the_version() {
    let m = manager();
    let inputs = record(vec![
        ("assetId", Document::UInt(70)),
        ("filePath", Document::Text("place.rbxlx".to_owned())),
        ("fileHash", Document::Text("deadbeef".to_owned())),
    ]);
    let (action, pending) = perform(m.create("placeFile", &inputs).unwrap());
    match action {
        PlatformAction::UploadPlaceFile { asset_id, file_path } => {
            assert_eq!(asset_id, 70);
            assert_eq!(file_path, "place.rbxlx");
        },
        _ => panic!("place file create must upload the file"),
    }
    let step = m.resume(pending, PlatformResponse::Unit).unwrap();
    let (action, pending) = perform(step);
    assert!(matches!(action, PlatformAction::GetPlace { asset_id: 70 }));
    let done = m
        .resume(pending, PlatformResponse::PlaceInfo { current_saved_version: 6 })
        .unwrap();
    let o = reconciler::records::parse_place_file_outputs(&completed(done).unwrap()).unwrap();
    assert_eq!(o.version, 6);
}

#[test]
fn malformed_inputs_report_the_inputs_error() {
    let m = manager();
    let err = m.create("experienceActivation", &Document::Null).unwrap_err();
    assert_eq!(
        err,
        "Failed to deserialize inputs: the document does not match the resource type's shape"
    );
}

#[test]
fn malformed_outputs_report_the_outputs_error() {
    let m = manager();
    let inputs = record(vec![]);
    let bad_outputs = record(vec![("assetId", Document::Bool(true))]);
    let err = m.delete("experience", &inputs, &bad_outputs).unwrap_err();
    assert_eq!(
        err,
        "Failed to deserialize outputs: the document does not match the resource type's shape"
    );
}

#[test]
fn mismatched_response_is_a_recoverable_error() {
    let m = manager();
    let err = m
        .resume(
            PendingOperation::ExperienceCreate,
            PlatformResponse::PlaceCreated { place_id: 1 },
        )
        .unwrap_err();
    assert_eq!(err, "Unexpected platform response for the pending operation");
}

#[test]
fn manager_keeps_the_project_root() {
    let m = manager();
    assert_eq!(m.project_path(), "projects/demo");
}

#[test]
fn create_experience_configuration_pushes_the_overlay() {
    let m = manager();
    let overlay = record(vec![("isFriendsOnly", Document::Bool(true))]);
    let inputs = record(vec![
        ("experienceId", Document::UInt(2)),
        ("configuration", overlay),
    ]);
    let (action, pending) = perform(m.create("experienceConfiguration", &inputs).unwrap());
    match action {
        PlatformAction::ConfigureExperience { experience_id, configuration } => {
            assert_eq!(experience_id, 2);
            match configuration {
                Document::Record(fields) => {
                    assert_eq!(fields[0].0, "isFriendsOnly");
                    assert!(matches!(fields[0].1, Document::Bool(true)));
                },
                _ => panic!("the configuration must pass through unchanged"),
            }
        },
        _ => panic!("configuration create must configure the experience"),
    }
    let done = m.resume(pending, PlatformResponse::Unit).unwrap();
    assert!(completed(done).is_none());
}

#[test]
fn create_experience_activation_sets_the_flag() {
    let m = manager();
    let inputs = record(vec![
        ("experienceId", Document::UInt(9)),
        ("isActive", Document::Bool(false)),
    ]);
    let (action, _) = perform(m.create("experienceActivation", &inputs).unwrap());
    match action {
        PlatformAction::SetExperienceActive { experience_id, is_active } => {
            assert_eq!(experience_id, 9);
            assert!(!is_active);
        },
        _ => panic!("activation create must set the active flag"),
    }
}

#[test]
fn create_icon_uploads_and_records_the_image_id() {
    let m = manager();
    let inputs = record(vec![
        ("experienceId", Document::UInt(6)),
        ("filePath", Document::Text("icon.png".to_owned())),
        ("fileHash", Document::Text("f00d".to_owned())),
    ]);
    let (action, pending) = perform(m.create("experienceIcon", &inputs).unwrap());
    match action {
        PlatformAction::UploadIcon { experience_id, file_path } => {
            assert_eq!(experience_id, 6);
            assert_eq!(file_path, "icon.png");
        },
        _ => panic!("icon create must upload the icon"),
    }
    let done = m.resume(pending, PlatformResponse::ImageUploaded { target_id: 314 }).unwrap();
    let o = reconciler::records::parse_experience_icon_outputs(&completed(done).unwrap()).unwrap();
    assert_eq!(o.asset_id, 314);
}

#[test]
fn create_developer_product_icon_uploads_it() {
    let m = manager();
    let inputs = record(vec![
        ("experienceId", Document::UInt(6)),
        ("filePath", Document::Text("product.png".to_owned())),
        ("fileHash", Document::Text("beef".to_owned())),
    ]);
    let (action, pending) = perform(m.create("experienceDeveloperProductIcon", &inputs).unwrap());
    match action {
        PlatformAction::UploadDeveloperProductIcon { experience_id, file_path } => {
            assert_eq!(experience_id, 6);
            assert_eq!(file_path, "product.png");
        },
        _ => panic!("product icon create must upload the icon"),
    }
    let done = m.resume(pending, PlatformResponse::ImageUploaded { target_id: 271 }).unwrap();
    let o = reconciler::records::parse_experience_developer_product_icon_outputs(
        &completed(done).unwrap(),
    )
    .unwrap();
    assert_eq!(o.asset_id, 271);
}

#[test]
fn create_thumbnail_order_pushes_the_ordering() {
    let m = manager();
    let inputs = record(vec![
        ("experienceId", Document::UInt(6)),
        (
            "assetIds",
            Document::List(vec![Document::UInt(9), Document::UInt(8), Document::UInt(7)]),
        ),
    ]);
    let (action, pending) = perform(m.create("experienceThumbnailOrder", &inputs).unwrap());
    match action {
        PlatformAction::SetThumbnailOrder { experience_id, asset_ids } => {
            assert_eq!(experience_id, 6);
            assert_eq!(asset_ids, vec![9, 8, 7]);
        },
        _ => panic!("thumbnail order create must push the ordered ids"),
    }
    let done = m.resume(pending, PlatformResponse::Unit).unwrap();
    assert!(completed(done).is_none());
}

#[test]
fn delete_thumbnail_calls_the_delete_endpoint() {
    let m = manager();
    let inputs = record(vec![
        ("experienceId", Document::UInt(3)),
        ("filePath", Document::Text("thumb.png".to_owned())),
        ("fileHash", Document::Text("abc".to_owned())),
    ]);
    let outputs = record(vec![("assetId", Document::UInt(50))]);
    let (action, pending) = perform(m.delete("experienceThumbnail", &inputs, &outputs).unwrap());
    match action {
        PlatformAction::DeleteThumbnail { experience_id, image_id } => {
            assert_eq!(experience_id, 3);
            assert_eq!(image_id, 50);
        },
        _ => panic!("thumbnail delete must call the delete endpoint"),
    }
    let done = m.resume(pending, PlatformResponse::Unit).unwrap();
    assert!(completed(done).is_none());
}

#[test]
fn create_place_configuration_pushes_the_overlay() {
    let m = manager();
    let inputs = record(vec![
        ("assetId", Document::UInt(70)),
        ("configuration", record(vec![("maxPlayerCount", Document::UInt(30))])),
    ]);
    let (action, _) = perform(m.create("placeConfiguration", &inputs).unwrap());
    match action {
        PlatformAction::ConfigurePlace { asset_id, .. } => assert_eq!(asset_id, 70),
        _ => panic!("place configuration create must configure the place"),
    }
}
