use ephesus_server::Catalog;
use ephesus_server::LoadError;
use ephesus_server::health;
use ephesus_server::load_catalog;
use ephesus_server::not_found_body;

fn two_coin_doc() -> &'static str {
    r#"[
        {
            "id": "tetradrachm-ephesus",
            "name": "Tetradrachm of Ephesus",
            "description": "Silver tetradrachm with bee obverse",
            "year": "350 BC",
            "mint": "Ephesus",
            "denomination": "Tetradrachm",
            "metal": "Silver",
            "weight_grams": 15.2,
            "diameter_mm": 24.5,
            "model_url": "/api/models/tetradrachm.glb",
            "thumbnail_url": "/thumbs/tetradrachm.png",
            "grade": "VF",
            "catalog_reference": "SNG Cop 242",
            "ruler": null,
            "obverse_description": "Bee with straight wings",
            "reverse_description": "Stag kneeling left",
            "obverse_legend": "E-Phi",
            "reverse_legend": null
        },
        {
            "id": "drachm-miletus",
            "name": "Drachm of Miletus",
            "description": "Silver drachm with lion",
            "model_url": "/api/models/drachm.glb"
        }
    ]"#
}

#[test]
fn health_returns_ok() {
    assert_eq!(health(), "OK");
}

#[test]
fn not_found_body_is_exact() {
    assert_eq!(not_found_body(), "{\"error\":\"Coin not found\"}");
}

#[test]
fn absent_document_loads_empty_catalog() {
    let catalog = load_catalog(None).unwrap();
    assert_eq!(catalog.len(), 0);
    assert_eq!(catalog.list_coins().len(), 0);
    assert_eq!(catalog.coins_json(), "[]");
}

#[test]
fn well_formed_records_load_in_order() {
    let catalog = load_catalog(Some(two_coin_doc())).unwrap();
    assert_eq!(catalog.len(), 2);
    let coins = catalog.list_coins();
    assert_eq!(coins[0].id, "tetradrachm-ephesus");
    assert_eq!(coins[1].id, "drachm-miletus");
    assert_eq!(coins[0].name, "Tetradrachm of Ephesus");
    assert_eq!(coins[0].year.as_deref(), Some("350 BC"));
    assert_eq!(coins[0].weight_grams.as_deref(), Some("15.2"));
    assert_eq!(coins[0].diameter_mm.as_deref(), Some("24.5"));
    assert_eq!(coins[0].ruler, None);
    assert_eq!(coins[0].reverse_legend, None);
    assert_eq!(coins[1].description, "Silver drachm with lion");
    assert_eq!(coins[1].year, None);
    assert_eq!(coins[1].weight_grams, None);
    assert_eq!(coins[1].thumbnail_url, None);
}

#[test]
fn get_coin_finds_present_id() {
    let catalog = load_catalog(Some(two_coin_doc())).unwrap();
    let coin = catalog.get_coin("drachm-miletus").unwrap();
    assert_eq!(coin.name, "Drachm of Miletus");
    assert_eq!(coin.model_url, "/api/models/drachm.glb");
}

#[test]
fn get_coin_misses_absent_id() {
    let catalog = load_catalog(Some(two_coin_doc())).unwrap();
    assert!(catalog.get_coin("stater-lydia").is_none());
    assert!(catalog.get_coin("DRACHM-MILETUS").is_none());
    assert!(catalog.get_coin("").is_none());
}

#[test]
fn get_coin_response_statuses() {
    let catalog = load_catalog(Some(two_coin_doc())).unwrap();
    let (status, body) = catalog.get_coin_response("drachm-miletus");
    assert_eq!(status, 200);
    assert!(body.contains("\"id\":\"drachm-miletus\""));
    let (status, body) = catalog.get_coin_response("nope");
    assert_eq!(status, 404);
    assert_eq!(body, "{\"error\":\"Coin not found\"}");
}

#[test]
fn duplicate_ids_resolve_to_first_record() {
    let doc = r#"[
        {"id": "obol", "name": "First", "description": "a", "model_url": "/a"},
        {"id": "obol", "name": "Second", "description": "b", "model_url": "/b"}
    ]"#;
    let catalog = load_catalog(Some(doc)).unwrap();
    let coin = catalog.get_coin("obol").unwrap();
    assert_eq!(coin.name, "First");
}

#[test]
fn invalid_json_is_a_syntax_error() {
    assert_eq!(load_catalog(Some("{not json")).unwrap_err(), LoadError::Syntax);
    assert_eq!(load_catalog(Some("")).unwrap_err(), LoadError::Syntax);
    assert_eq!(load_catalog(Some("[{\"id\":")).unwrap_err(), LoadError::Syntax);
}

#[test]
fn non_array_document_is_a_schema_error() {
    assert_eq!(load_catalog(Some("{}")).unwrap_err(), LoadError::Schema);
    assert_eq!(load_catalog(Some("\"coins\"")).unwrap_err(), LoadError::Schema);
    assert_eq!(load_catalog(Some("42")).unwrap_err(), LoadError::Schema);
    assert_eq!(load_catalog(Some("null")).unwrap_err(), LoadError::Schema);
}

#[test]
fn non_object_element_is_a_schema_error() {
    assert_eq!(load_catalog(Some("[1]")).unwrap_err(), LoadError::Schema);
    assert_eq!(load_catalog(Some("[[]]")).unwrap_err(), LoadError::Schema);
}

#[test]
fn missing_id_is_rejected() {
    let doc = r#"[{"name": "n", "description": "d", "model_url": "m"}]"#;
    assert_eq!(load_catalog(Some(doc)).unwrap_err(), LoadError::Schema);
}

#[test]
fn missing_name_is_rejected() {
    let doc = r#"[{"id": "i", "description": "d", "model_url": "m"}]"#;
    assert_eq!(load_catalog(Some(doc)).unwrap_err(), LoadError::Schema);
}

#[test]
fn missing_description_is_rejected() {
    let doc = r#"[{"id": "i", "name": "n", "model_url": "m"}]"#;
    assert_eq!(load_catalog(Some(doc)).unwrap_err(), LoadError::Schema);
}

#[test]
fn missing_model_url_is_rejected() {
    let doc = r#"[{"id": "i", "name": "n", "description": "d"}]"#;
    assert_eq!(load_catalog(Some(doc)).unwrap_err(), LoadError::Schema);
}

#[test]
fn null_required_field_is_rejected() {
    let doc = r#"[{"id": null, "name": "n", "description": "d", "model_url": "m"}]"#;
    assert_eq!(load_catalog(Some(doc)).unwrap_err(), LoadError::Schema);
}

#[test]
fn wrong_kind_for_required_field_is_rejected() {
    let doc = r#"[{"id": 42, "name": "n", "description": "d", "model_url": "m"}]"#;
    assert_eq!(load_catalog(Some(doc)).unwrap_err(), LoadError::Schema);
}

#[test]
fn wrong_kind_for_optional_field_is_rejected() {
    let doc = r#"[{"id": "i", "name": "n", "description": "d", "model_url": "m", "year": 350}]"#;
    assert_eq!(load_catalog(Some(doc)).unwrap_err(), LoadError::Schema);
    let doc = r#"[{"id": "i", "name": "n", "description": "d", "model_url": "m", "weight_grams": "heavy"}]"#;
    assert_eq!(load_catalog(Some(doc)).unwrap_err(), LoadError::Schema);
}

#[test]
fn optional_null_reads_as_absent() {
    let doc = r#"[{"id": "i", "name": "n", "description": "d", "model_url": "m", "year": null}]"#;
    let catalog = load_catalog(Some(doc)).unwrap();
    assert_eq!(catalog.list_coins()[0].year, None);
}

#[test]
fn unknown_fields_are_ignored() {
    let doc = r#"[{"id": "i", "name": "n", "description": "d", "model_url": "m",
        "provenance": {"found": [1901, "Austrian excavations"]}, "on_display": true}]"#;
    let catalog = load_catalog(Some(doc)).unwrap();
    assert_eq!(catalog.len(), 1);
    assert_eq!(catalog.list_coins()[0].id, "i");
}

#[test]
fn repeated_reads_answer_identically() {
    let catalog = load_catalog(Some(two_coin_doc())).unwrap();
    let first = catalog.get_coin_response("drachm-miletus");
    let second = catalog.get_coin_response("drachm-miletus");
    assert_eq!(first, second);
    assert_eq!(catalog.coins_json(), catalog.coins_json());
    let a = catalog.list_coins();
    let b = catalog.list_coins();
    assert_eq!(a.len(), b.len());
    for (x, y) in a.iter().zip(b.iter()) {
        assert_eq!(x.id, y.id);
    }
}

#[test]
fn empty_array_document_loads_empty_catalog() {
    let catalog = load_catalog(Some("[]")).unwrap();
    assert_eq!(catalog.len(), 0);
    assert_eq!(catalog.coins_json(), "[]");
}

#[test]
fn catalog_new_keeps_records() {
    let loaded = load_catalog(Some(two_coin_doc())).unwrap();
    let coins = loaded.list_coins();
    let rebuilt = Catalog::new(coins);
    assert_eq!(rebuilt.len(), 2);
    assert_eq!(rebuilt.get_coin("tetradrachm-ephesus").unwrap().mint.as_deref(), Some("Ephesus"));
}
