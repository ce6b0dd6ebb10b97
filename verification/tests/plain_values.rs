use osm_points::{
    make_rows, residual_pairs, tag_rows, types_from, KnownFields, Location, Partition,
    PointRecord, ResidualTag, Rows, Type, Types,
};

fn text(s: &str) -> Option<String> {
    Some(s.to_string())
}

fn pairs(list: &[(&str, &str)]) -> Vec<(String, String)> {
    list.iter().map(|(k, v)| (k.to_string(), v.to_string())).collect()
}

#[test]
fn amenity_alone_gives_an_amenity() {
    assert_eq!(types_from(text("cafe"), None), Some(Types(Type::Amenity, "cafe".to_string())));
}

#[test]
fn shop_alone_gives_a_shop() {
    assert_eq!(types_from(None, text("bakery")), Some(Types(Type::Shop, "bakery".to_string())));
}

#[test]
fn amenity_wins_over_shop() {
    assert_eq!(
        types_from(text("cafe"), text("bakery")),
        Some(Types(Type::Amenity, "cafe".to_string()))
    );
}

#[test]
fn neither_gives_nothing() {
    assert_eq!(types_from(None, None), None);
}

#[test]
fn residual_pairs_keep_their_order() {
    let kept = residual_pairs(pairs(&[
        ("zoo", "1"),
        ("name", "x"),
        ("alpha", "2"),
        ("shop", "y"),
        ("middle", "3"),
        ("source", "z"),
    ]));
    assert_eq!(kept, pairs(&[("zoo", "1"), ("alpha", "2"), ("middle", "3")]));
}

#[test]
fn residual_pairs_of_nothing() {
    assert_eq!(residual_pairs(Vec::new()), Vec::<(String, String)>::new());
}

#[test]
fn residual_pairs_drop_every_reserved_key() {
    let kept = residual_pairs(pairs(&[
        ("amenity", "a"),
        ("shop", "b"),
        ("created_by", "c"),
        ("name", "d"),
        ("source", "e"),
        ("email", "f"),
        ("phone", "g"),
        ("website", "h"),
        ("opening_hours", "i"),
        ("operator", "j"),
    ]));
    assert!(kept.is_empty());
}

#[test]
fn tag_rows_carry_the_point_id() {
    assert_eq!(
        tag_rows(42, pairs(&[("cuisine", "italian"), ("smoking", "no")])),
        vec![
            ResidualTag { point_id: 42, key: "cuisine".to_string(), value: "italian".to_string() },
            ResidualTag { point_id: 42, key: "smoking".to_string(), value: "no".to_string() },
        ]
    );
    assert_eq!(tag_rows(42, Vec::new()), Vec::<ResidualTag>::new());
}

#[test]
fn rows_are_put_together_from_their_parts() {
    let parts = Partition {
        known: KnownFields {
            name: text("Joe's"),
            email: None,
            phone: text("555"),
            website: None,
            opening_hours: None,
            operator: None,
        },
        residual: pairs(&[("cuisine", "italian")]),
    };
    let rows = make_rows(42, 48.1, 11.6, Types(Type::Amenity, "restaurant".to_string()), parts);
    assert_eq!(
        rows,
        Rows {
            point: PointRecord {
                id: 42,
                location: Location { x: 11.6, y: 48.1, srid: None },
                category: Type::Amenity,
                subtype: "restaurant".to_string(),
                name: text("Joe's"),
                email: None,
                phone: text("555"),
                website: None,
                opening_hours: None,
                operator: None,
            },
            tags: vec![ResidualTag {
                point_id: 42,
                key: "cuisine".to_string(),
                value: "italian".to_string()
            }],
        }
    );
}
