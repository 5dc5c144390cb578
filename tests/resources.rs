use gemini::{
    fetch_resource, find_member, resource_text, try_fetch_resource, AstronomicalNamesResource,
    DecodeError, Resource, ResourceKey, SchematicResource, ShipResource,
};

fn strings(v: &[&str]) -> Vec<String> {
    v.iter().map(|s| s.to_string()).collect()
}

#[test]
fn astronomical_names_resource_parses() {
    let res = fetch_resource::<AstronomicalNamesResource>().unwrap();
    let expected = AstronomicalNamesResource {
        names: strings(&["Gemini", "Aurora", "Vesper", "Halcyon"]),
        scientific_names: strings(&["HD", "GJ", "HIP"]),
        greek: strings(&["Alpha", "Beta", "Gamma", "Delta"]),
        roman: strings(&["I", "II", "III", "IV", "V"]),
        decorators: strings(&["Major", "Minor", "Prime"]),
    };
    assert_eq!(res, expected);
}

#[test]
fn ship_resource_has_three_records_in_order() {
    let res = fetch_resource::<ShipResource>().unwrap();
    assert_eq!(res.ships.len(), 3);
    assert_eq!(res.ships[0].record, "{\"cargo\":20,\"integrity\":100,\"name\":\"Sparrow\"}");
    assert!(res.ships[1].record.contains("\"Mule\""));
    assert!(res.ships[2].record.contains("\"Lancer\""));
}

#[test]
fn schematic_resource_parses() {
    let res = fetch_resource::<SchematicResource>().unwrap();
    assert_eq!(res.schematics.len(), 2);
    assert!(res.schematics[0].record.contains("\"Alloy\""));
    assert!(res.schematics[1].record.contains("\"Fuel\""));
}

#[test]
fn malformed_text_gives_none() {
    assert!(matches!(
        AstronomicalNamesResource::from_text("{\"names\": ["),
        Err(DecodeError::Syntax(_))
    ));
    assert!(matches!(ShipResource::from_text("not json at all"), Err(DecodeError::Syntax(_))));
    assert!(matches!(SchematicResource::from_text(""), Err(DecodeError::Syntax(_))));
    assert!(matches!(ShipResource::from_text("[1, 2]"), Err(DecodeError::Syntax(_))));
}

#[test]
fn missing_member_gives_none() {
    let text = "{\"names\":[\"A\"],\"greek\":[],\"roman\":[],\"decorators\":[]}";
    assert_eq!(
        AstronomicalNamesResource::from_text(text).unwrap_err(),
        DecodeError::Member("scientific_names".to_string())
    );
    assert_eq!(
        ShipResource::from_text("{\"schematics\":[]}").unwrap_err(),
        DecodeError::Member("ships".to_string())
    );
}

#[test]
fn ill_typed_member_gives_member_error() {
    let text = "{\"names\":[\"A\", 3],\"scientific_names\":[],\"greek\":[],\"roman\":[],\"decorators\":[]}";
    assert_eq!(
        AstronomicalNamesResource::from_text(text).unwrap_err(),
        DecodeError::Member("names".to_string())
    );
    assert_eq!(
        ShipResource::from_text("{\"ships\":{\"name\":\"Sparrow\"}}").unwrap_err(),
        DecodeError::Member("ships".to_string())
    );
}

#[test]
fn unknown_members_are_ignored() {
    let text = "{\"extra\":[\"x\"],\"names\":[\"A\"],\"scientific_names\":[],\"greek\":[\"Alpha\"],\"roman\":[],\"decorators\":[]}";
    let res = AstronomicalNamesResource::from_text(text).unwrap();
    assert_eq!(res.names, strings(&["A"]));
    assert_eq!(res.greek, strings(&["Alpha"]));
    assert!(res.roman.is_empty());
    let ships = ShipResource::from_text("{\"other\":[1,2],\"ships\":[]}").unwrap();
    assert!(ships.ships.is_empty());
}

#[test]
fn unknown_scalar_and_object_members_are_ignored() {
    let text = "{\"version\":3,\"author\":\"x\",\"meta\":{\"a\":null},\"flag\":true,\"names\":[\"A\"],\"scientific_names\":[],\"greek\":[],\"roman\":[\"I\"],\"decorators\":[]}";
    let res = AstronomicalNamesResource::from_text(text).unwrap();
    assert_eq!(res.names, strings(&["A"]));
    assert_eq!(res.roman, strings(&["I"]));
    let ships = ShipResource::from_text("{\"version\":2,\"ships\":[{\"name\":\"Sparrow\"}],\"note\":null}").unwrap();
    assert_eq!(ships.ships.len(), 1);
    assert_eq!(ships.ships[0].record, "{\"name\":\"Sparrow\"}");
    let schematics = SchematicResource::from_text("{\"schematics\":[1,\"two\"],\"meta\":{}}").unwrap();
    assert_eq!(schematics.schematics[0].record, "1");
    assert_eq!(schematics.schematics[1].record, "\"two\"");
}

#[test]
fn embedded_resources_fetch_without_error() {
    assert!(try_fetch_resource::<AstronomicalNamesResource>().is_ok());
    assert_eq!(try_fetch_resource::<ShipResource>().unwrap().ships.len(), 3);
    assert_eq!(try_fetch_resource::<SchematicResource>().unwrap().schematics.len(), 2);
}

#[test]
fn keys_are_distinct_and_resolve() {
    assert_eq!(ResourceKey::AstronomicalNames.name(), "astronomical_names");
    assert_eq!(ResourceKey::Ships.name(), "ships");
    assert_eq!(ResourceKey::Schematics.name(), "schematics");
    assert_eq!(ShipResource::key(), ResourceKey::Ships);
    assert!(resource_text(ResourceKey::Ships).contains("Sparrow"));
    assert!(resource_text(ResourceKey::Schematics).starts_with("{\"schematics\""));
}

#[test]
fn find_member_takes_first_match() {
    let entries = vec![
        ("a".to_string(), None),
        ("b".to_string(), Some(vec![("\"2\"".to_string(), Some("2".to_string()))])),
        ("b".to_string(), Some(vec![])),
    ];
    assert_eq!(
        find_member(&entries, "b"),
        Some(&Some(vec![("\"2\"".to_string(), Some("2".to_string()))]))
    );
    assert_eq!(find_member(&entries, "a"), Some(&None));
    assert_eq!(find_member(&entries, "c"), None);
    assert_eq!(find_member(&Vec::new(), "a"), None);
}
