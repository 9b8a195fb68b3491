use reconciler::doc::Document;
use reconciler::records::{
    asset_outputs_to_doc, experience_developer_product_outputs_to_doc, experience_outputs_to_doc,
    parse_experience_developer_product_icon_outputs, parse_experience_developer_product_inputs,
    parse_experience_developer_product_outputs, parse_experience_icon_outputs,
    parse_experience_inputs, parse_experience_outputs, parse_experience_thumbnail_order_inputs,
    parse_experience_thumbnail_outputs, parse_place_file_outputs, parse_place_inputs,
    parse_place_outputs, place_file_outputs_to_doc, ExperienceDeveloperProductOutputs,
    ExperienceOutputs, PlaceFileOutputs,
};

fn record(fields: Vec<(&str, Document)>) -> Document {
    Document::Record(fields.into_iter().map(|(k, v)| (k.to_owned(), v)).collect())
}

#[test]
fn experience_outputs_roundtrip() {
    let o = ExperienceOutputs { asset_id: 123, start_place_id: 456 };
    let doc = experience_outputs_to_doc(&o);
    let back = parse_experience_outputs(&doc).expect("roundtrip should parse");
    assert_eq!(back.asset_id, 123);
    assert_eq!(back.start_place_id, 456);
}

#[test]
fn asset_outputs_roundtrip() {
    let doc = asset_outputs_to_doc(7777);
    assert_eq!(parse_experience_icon_outputs(&doc).unwrap().asset_id, 7777);
    assert_eq!(parse_experience_thumbnail_outputs(&doc).unwrap().asset_id, 7777);
    assert_eq!(
        parse_experience_developer_product_icon_outputs(&doc).unwrap().asset_id,
        7777
    );
    assert_eq!(parse_place_outputs(&doc).unwrap().asset_id, 7777);
}

#[test]
fn developer_product_outputs_roundtrip() {
    let o = ExperienceDeveloperProductOutputs { asset_id: 1, product_id: 2, shop_id: 3 };
    let doc = experience_developer_product_outputs_to_doc(&o);
    let back = parse_experience_developer_product_outputs(&doc).expect("roundtrip should parse");
    assert_eq!(back.asset_id, 1);
    assert_eq!(back.product_id, 2);
    assert_eq!(back.shop_id, 3);
}

#[test]
fn place_file_outputs_roundtrip() {
    let o = PlaceFileOutputs { version: 42 };
    let doc = place_file_outputs_to_doc(&o);
    let back = parse_place_file_outputs(&doc).expect("roundtrip should parse");
    assert_eq!(back.version, 42);
}

#[test]
fn place_file_outputs_version_defaults_to_zero() {
    let doc = record(vec![]);
    let back = parse_place_file_outputs(&doc).expect("empty record should parse");
    assert_eq!(back.version, 0);
}

#[test]
fn experience_inputs_optional_asset_id() {
    let absent = record(vec![]);
    assert!(parse_experience_inputs(&absent).unwrap().asset_id.is_none());

    let null = record(vec![("assetId", Document::Null)]);
    assert!(parse_experience_inputs(&null).unwrap().asset_id.is_none());

    let present = record(vec![("assetId", Document::UInt(9))]);
    assert_eq!(parse_experience_inputs(&present).unwrap().asset_id, Some(9));

    let wrong = record(vec![("assetId", Document::Text("nine".to_owned()))]);
    assert!(parse_experience_inputs(&wrong).is_none());

    assert!(parse_experience_inputs(&Document::UInt(3)).is_none());
}

#[test]
fn place_inputs_require_every_field() {
    let full = record(vec![
        ("experienceId", Document::UInt(1)),
        ("startPlaceId", Document::UInt(2)),
        ("assetId", Document::Null),
        ("isStart", Document::Bool(false)),
    ]);
    let p = parse_place_inputs(&full).expect("full record should parse");
    assert_eq!(p.experience_id, 1);
    assert_eq!(p.start_place_id, 2);
    assert!(p.asset_id.is_none());
    assert!(!p.is_start);

    let missing = record(vec![
        ("experienceId", Document::UInt(1)),
        ("isStart", Document::Bool(false)),
    ]);
    assert!(parse_place_inputs(&missing).is_none());
}

#[test]
fn thumbnail_order_inputs_read_the_id_list() {
    let doc = record(vec![
        ("experienceId", Document::UInt(5)),
        (
            "assetIds",
            Document::List(vec![Document::UInt(3), Document::UInt(1), Document::UInt(2)]),
        ),
    ]);
    let p = parse_experience_thumbnail_order_inputs(&doc).expect("should parse");
    assert_eq!(p.asset_ids, vec![3, 1, 2]);

    let bad = record(vec![
        ("experienceId", Document::UInt(5)),
        (
            "assetIds",
            Document::List(vec![Document::UInt(3), Document::Text("x".to_owned())]),
        ),
    ]);
    assert!(parse_experience_thumbnail_order_inputs(&bad).is_none());
}

#[test]
fn developer_product_inputs_price_is_32_bit() {
    let base = |price: Document| {
        record(vec![
            ("experienceId", Document::UInt(1)),
            ("name", Document::Text("Sword".to_owned())),
            ("price", price),
            ("description", Document::Text("Sharp".to_owned())),
        ])
    };
    let ok = parse_experience_developer_product_inputs(&base(Document::UInt(4_294_967_295)));
    assert_eq!(ok.unwrap().price, u32::MAX);

    let too_big = parse_experience_developer_product_inputs(&base(Document::UInt(4_294_967_296)));
    assert!(too_big.is_none());
}

#[test]
fn lookup_takes_the_first_binding() {
    let doc = record(vec![
        ("assetId", Document::UInt(10)),
        ("assetId", Document::UInt(20)),
    ]);
    assert_eq!(parse_place_outputs(&doc).unwrap().asset_id, 10);
}
