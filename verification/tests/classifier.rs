use osm_points::{get_object_id, get_types, Entity, Kind, Type, Types};
use osmpbfreader::Tags;

fn classifier_tags(pairs: &[(&str, &str)]) -> Tags {
    let mut tags = Tags::new();
    for (key, value) in pairs {
        tags.insert((*key).into(), (*value).into());
    }
    tags
}

fn classifier_point(pairs: &[(&str, &str)]) -> Entity<f64> {
    Entity::Point { id: 1, tags: classifier_tags(pairs), lat: 0.0, lon: 0.0 }
}

#[test]
fn amenity_point_is_an_amenity() {
    let entity = classifier_point(&[("amenity", "restaurant")]);
    assert_eq!(get_types(&entity), Some(Types(Type::Amenity, "restaurant".to_string())));
}

#[test]
fn shop_point_is_a_shop() {
    let entity = classifier_point(&[("shop", "bakery")]);
    assert_eq!(get_types(&entity), Some(Types(Type::Shop, "bakery".to_string())));
}

#[test]
fn amenity_is_checked_before_shop() {
    let entity = classifier_point(&[("shop", "bakery"), ("amenity", "cafe")]);
    assert_eq!(get_types(&entity), Some(Types(Type::Amenity, "cafe".to_string())));
}

#[test]
fn point_without_trigger_keys_is_not_eligible() {
    let entity = classifier_point(&[("name", "Nowhere"), ("highway", "bus_stop")]);
    assert_eq!(get_types(&entity), None);
}

#[test]
fn point_without_attributes_is_not_eligible() {
    let entity = classifier_point(&[]);
    assert_eq!(get_types(&entity), None);
}

#[test]
fn trigger_key_must_match_exactly() {
    let entity = classifier_point(&[("Amenity", "cafe"), ("shops", "bakery"), ("amenity:old", "pub")]);
    assert_eq!(get_types(&entity), None);
}

#[test]
fn empty_subtype_is_kept() {
    let entity = classifier_point(&[("amenity", "")]);
    assert_eq!(get_types(&entity), Some(Types(Type::Amenity, String::new())));
}

#[test]
fn way_is_never_eligible() {
    let entity: Entity<f64> =
        Entity::Way { id: 7, tags: classifier_tags(&[("amenity", "cafe"), ("shop", "bakery")]) };
    assert_eq!(get_types(&entity), None);
}

#[test]
fn relation_is_never_eligible() {
    let entity: Entity<f64> =
        Entity::Relation { id: 7, tags: classifier_tags(&[("amenity", "cafe"), ("shop", "bakery")]) };
    assert_eq!(get_types(&entity), None);
}

#[test]
fn classifying_twice_gives_the_same_answer() {
    let entity = classifier_point(&[("shop", "kiosk"), ("name", "Corner")]);
    let first = get_types(&entity);
    let second = get_types(&entity);
    assert_eq!(first, Some(Types(Type::Shop, "kiosk".to_string())));
    assert_eq!(first, second);

    let rejected = classifier_point(&[("name", "Corner")]);
    assert_eq!(get_types(&rejected), get_types(&rejected));
}

#[test]
fn kind_of_each_variant() {
    let point = classifier_point(&[]);
    let way: Entity<f64> = Entity::Way { id: 2, tags: Tags::new() };
    let relation: Entity<f64> = Entity::Relation { id: 3, tags: Tags::new() };
    assert_eq!(point.get_kind(), Kind::Point);
    assert_eq!(way.get_kind(), Kind::Way);
    assert_eq!(relation.get_kind(), Kind::Relation);
}

#[test]
fn object_id_of_each_kind() {
    let point: Entity<f64> = Entity::Point { id: 42, tags: Tags::new(), lat: 1.0, lon: 2.0 };
    let way: Entity<f64> = Entity::Way { id: -5, tags: Tags::new() };
    let relation: Entity<f64> = Entity::Relation { id: i64::MAX, tags: Tags::new() };
    assert_eq!(get_object_id(&point), 42);
    assert_eq!(get_object_id(&way), -5);
    assert_eq!(get_object_id(&relation), i64::MAX);
}

#[test]
fn tags_of_each_kind() {
    let tags = classifier_tags(&[("shop", "yes")]);
    let point: Entity<f64> = Entity::Point { id: 1, tags: tags.clone(), lat: 1.0, lon: 2.0 };
    let way: Entity<f64> = Entity::Way { id: 1, tags: tags.clone() };
    let relation: Entity<f64> = Entity::Relation { id: 1, tags: tags.clone() };
    assert_eq!(point.get_tags(), &tags);
    assert_eq!(way.get_tags(), &tags);
    assert_eq!(relation.get_tags(), &tags);
}
