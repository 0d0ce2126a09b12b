use ephesus_server::Coin;
use ephesus_server::load_catalog;

fn minimal_coin() -> Coin {
    Coin {
        id: String::from("obol-1"),
        name: String::from("Obol"),
        description: String::from("Small silver coin"),
        year: None,
        mint: None,
        denomination: None,
        metal: None,
        weight_grams: None,
        diameter_mm: None,
        model_url: String::from("/api/models/obol.glb"),
        thumbnail_url: None,
        grade: None,
        catalog_reference: None,
        ruler: None,
        obverse_description: None,
        reverse_description: None,
        obverse_legend: None,
        reverse_legend: None,
    }
}

#[test]
fn minimal_coin_renders_exact_json() {
    let expected = "{\"id\":\"obol-1\",\"name\":\"Obol\",\"description\":\"Small silver coin\",\
        \"year\":null,\"mint\":null,\"denomination\":null,\"metal\":null,\
        \"weight_grams\":null,\"diameter_mm\":null,\
        \"model_url\":\"/api/models/obol.glb\",\"thumbnail_url\":null,\"grade\":null,\
        \"catalog_reference\":null,\"ruler\":null,\"obverse_description\":null,\
        \"reverse_description\":null,\"obverse_legend\":null,\"reverse_legend\":null}";
    assert_eq!(minimal_coin().to_json(), expected);
}

#[test]
fn optional_fields_render_between_null_and_value() {
    let mut coin = minimal_coin();
    coin.year = Some(String::from("350 BC"));
    coin.weight_grams = Some(String::from("0.72"));
    let json = coin.to_json();
    assert!(json.contains("\"year\":\"350 BC\""));
    assert!(json.contains("\"weight_grams\":0.72"));
    assert!(json.contains("\"diameter_mm\":null"));
}

#[test]
fn special_characters_are_escaped() {
    let mut coin = minimal_coin();
    coin.name = String::from("Quote \" backslash \\ newline \n tab \t bell \u{7}");
    let json = coin.to_json();
    assert!(json.contains("Quote \\\" backslash \\\\ newline \\n tab \\t bell \\u0007"));
}

#[test]
fn rendered_catalog_reloads_unchanged() {
    let doc = r#"[
        {"id": "a", "name": "Coin \"A\"", "description": "line\nbreak", "model_url": "/a",
         "weight_grams": 15.2, "metal": "Silver"},
        {"id": "b", "name": "B", "description": "d", "model_url": "/b"}
    ]"#;
    let catalog = load_catalog(Some(doc)).unwrap();
    let rendered = catalog.coins_json();
    let reloaded = load_catalog(Some(rendered.as_str())).unwrap();
    assert_eq!(reloaded.len(), 2);
    let before = catalog.list_coins();
    let after = reloaded.list_coins();
    for (x, y) in before.iter().zip(after.iter()) {
        assert_eq!(x.id, y.id);
        assert_eq!(x.name, y.name);
        assert_eq!(x.description, y.description);
        assert_eq!(x.weight_grams, y.weight_grams);
        assert_eq!(x.metal, y.metal);
        assert_eq!(x.model_url, y.model_url);
    }
}

#[test]
fn rendered_catalog_is_json_to_an_independent_parser() {
    let doc = r#"[
        {"id": "a", "name": "Coin \"A\"", "description": "line\nbreak \u0001", "model_url": "/a",
         "weight_grams": 15.2, "diameter_mm": 24, "thumbnail_url": null}
    ]"#;
    let catalog = load_catalog(Some(doc)).unwrap();
    let rendered = catalog.coins_json();
    let value: serde_json::Value = serde_json::from_str(rendered.as_str()).unwrap();
    let records = value.as_array().unwrap();
    assert_eq!(records.len(), 1);
    let record = records[0].as_object().unwrap();
    assert_eq!(record.get("id").unwrap().as_str().unwrap(), "a");
    assert_eq!(record.get("name").unwrap().as_str().unwrap(), "Coin \"A\"");
    assert_eq!(record.get("description").unwrap().as_str().unwrap(), "line\nbreak \u{1}");
    assert_eq!(record.get("weight_grams").unwrap().as_f64().unwrap(), 15.2);
    assert_eq!(record.get("diameter_mm").unwrap().as_f64().unwrap(), 24.0);
    assert!(record.get("thumbnail_url").unwrap().is_null());
    assert!(record.get("year").unwrap().is_null());
}

#[test]
fn number_text_survives_loading_and_rendering() {
    let doc = r#"[{"id": "i", "name": "n", "description": "d", "model_url": "m",
        "weight_grams": 5.25, "diameter_mm": 42}]"#;
    let catalog = load_catalog(Some(doc)).unwrap();
    let coins = catalog.list_coins();
    assert_eq!(coins[0].weight_grams.as_deref(), Some("5.25"));
    assert_eq!(coins[0].diameter_mm.as_deref(), Some("42"));
    let json = catalog.coins_json();
    assert!(json.contains("\"weight_grams\":5.25"));
    assert!(json.contains("\"diameter_mm\":42"));
}

#[test]
fn cloned_coin_equals_original() {
    let mut coin = minimal_coin();
    coin.grade = Some(String::from("VF"));
    let copy = coin.clone();
    assert_eq!(copy.id, coin.id);
    assert_eq!(copy.grade, coin.grade);
    assert_eq!(copy.to_json(), coin.to_json());
}

#[test]
fn non_ascii_text_passes_through_verbatim() {
    let doc = r#"[{"id": "phanes", "name": "Φανης",
        "description": "Stater of Phanes", "model_url": "/p",
        "obverse_legend": "ΦΑΝΕΣ"}]"#;
    let catalog = load_catalog(Some(doc)).unwrap();
    let coins = catalog.list_coins();
    assert_eq!(coins[0].name, "Φανης");
    assert_eq!(coins[0].obverse_legend.as_deref(), Some("ΦΑΝΕΣ"));
    let rendered = catalog.coins_json();
    assert!(rendered.contains("\"name\":\"Φανης\""));
    let reloaded = load_catalog(Some(rendered.as_str())).unwrap();
    assert_eq!(reloaded.list_coins()[0].name, "Φανης");
}
