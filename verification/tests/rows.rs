use osm_points::{build_rows, Entity, Location, PointRecord, ResidualTag, Rows, Type};
use osmpbfreader::Tags;

fn rows_tags(pairs: &[(&str, &str)]) -> Tags {
    let mut tags = Tags::new();
    for (key, value) in pairs {
        tags.insert((*key).into(), (*value).into());
    }
    tags
}

fn tag_row(point_id: i64, key: &str, value: &str) -> ResidualTag {
    ResidualTag { point_id, key: key.to_string(), value: value.to_string() }
}

#[test]
fn rows_of_a_restaurant() {
    let entity = Entity::Point {
        id: 42,
        tags: rows_tags(&[
            ("amenity", "restaurant"),
            ("name", "Joe's"),
            ("created_by", "mapper1"),
            ("cuisine", "italian"),
        ]),
        lat: 48.1,
        lon: 11.6,
    };
    assert_eq!(
        build_rows(&entity),
        Some(Rows {
            point: PointRecord {
                id: 42,
                location: Location { x: 11.6, y: 48.1, srid: None },
                category: Type::Amenity,
                subtype: "restaurant".to_string(),
                name: Some("Joe's".to_string()),
                email: None,
                phone: None,
                website: None,
                opening_hours: None,
                operator: None,
            },
            tags: vec![tag_row(42, "cuisine", "italian")],
        })
    );
}

#[test]
fn location_has_longitude_as_x_and_latitude_as_y() {
    let entity = Entity::Point { id: 1, tags: rows_tags(&[("shop", "kiosk")]), lat: -33.9, lon: 151.2 };
    let rows = build_rows(&entity).unwrap();
    assert_eq!(rows.point.location, Location { x: 151.2, y: -33.9, srid: None });
}

#[test]
fn coordinates_are_handed_on_as_they_are() {
    let entity =
        Entity::Point { id: 1, tags: rows_tags(&[("shop", "kiosk")]), lat: 481000000i32, lon: -1i32 };
    let rows = build_rows(&entity).unwrap();
    assert_eq!(rows.point.location, Location { x: -1, y: 481000000, srid: None });
}

#[test]
fn cafe_with_a_bakery_is_one_amenity_row() {
    let entity = Entity::Point {
        id: 9,
        tags: rows_tags(&[("amenity", "cafe"), ("shop", "bakery")]),
        lat: 1.5,
        lon: 2.5,
    };
    let rows = build_rows(&entity).unwrap();
    assert_eq!(rows.point.category, Type::Amenity);
    assert_eq!(rows.point.subtype, "cafe");
    assert_eq!(rows.tags, Vec::<ResidualTag>::new());
}

#[test]
fn shop_value_is_dropped_when_amenity_wins() {
    let entity = Entity::Point {
        id: 9,
        tags: rows_tags(&[("amenity", "cafe"), ("shop", "bakery"), ("smoking", "no")]),
        lat: 1.5,
        lon: 2.5,
    };
    let rows = build_rows(&entity).unwrap();
    assert_eq!(rows.tags, vec![tag_row(9, "smoking", "no")]);
    assert!(rows.tags.iter().all(|tag| tag.key != "shop" && tag.value != "bakery"));
    assert_ne!(rows.point.subtype, "bakery");
}

#[test]
fn shop_row_has_all_known_fields() {
    let entity = Entity::Point {
        id: -3,
        tags: rows_tags(&[
            ("shop", "books"),
            ("name", "Pages"),
            ("email", "hi@pages.example"),
            ("phone", "555"),
            ("website", "https://pages.example"),
            ("opening_hours", "Mo-Sa 10-18"),
            ("operator", "Pages Ltd"),
            ("source", "survey"),
        ]),
        lat: 0.5,
        lon: -0.5,
    };
    assert_eq!(
        build_rows(&entity),
        Some(Rows {
            point: PointRecord {
                id: -3,
                location: Location { x: -0.5, y: 0.5, srid: None },
                category: Type::Shop,
                subtype: "books".to_string(),
                name: Some("Pages".to_string()),
                email: Some("hi@pages.example".to_string()),
                phone: Some("555".to_string()),
                website: Some("https://pages.example".to_string()),
                opening_hours: Some("Mo-Sa 10-18".to_string()),
                operator: Some("Pages Ltd".to_string()),
            },
            tags: vec![],
        })
    );
}

#[test]
fn every_tag_row_carries_the_point_id() {
    let entity = Entity::Point {
        id: 1234567890123,
        tags: rows_tags(&[
            ("amenity", "fuel"),
            ("brand", "X"),
            ("fuel:diesel", "yes"),
            ("operator", "X AG"),
            ("payment:cash", "yes"),
        ]),
        lat: 10.0,
        lon: 20.0,
    };
    let rows = build_rows(&entity).unwrap();
    assert_eq!(rows.point.id, 1234567890123);
    assert_eq!(rows.tags.len(), 3);
    assert!(rows.tags.iter().all(|tag| tag.point_id == 1234567890123));
    let mut keys: Vec<&str> = rows.tags.iter().map(|tag| tag.key.as_str()).collect();
    keys.sort();
    assert_eq!(keys, vec!["brand", "fuel:diesel", "payment:cash"]);
}

#[test]
fn point_without_trigger_keys_has_no_rows() {
    let entity =
        Entity::Point { id: 5, tags: rows_tags(&[("name", "Bench"), ("backrest", "yes")]), lat: 1.0, lon: 1.0 };
    assert_eq!(build_rows(&entity), None);
}

#[test]
fn way_and_relation_have_no_rows() {
    let way: Entity<f64> = Entity::Way { id: 5, tags: rows_tags(&[("shop", "yes"), ("cuisine", "x")]) };
    let relation: Entity<f64> =
        Entity::Relation { id: 5, tags: rows_tags(&[("amenity", "school"), ("name", "x")]) };
    assert_eq!(build_rows(&way), None);
    assert_eq!(build_rows(&relation), None);
}
