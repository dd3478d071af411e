use graph_repo::decoder::{decode_movie, decode_person};
use graph_repo::entities::{Biography, Influences, Movie, Person, StorableEntity};
use graph_repo::value::{GraphValue, ListItem, Node, Properties};

fn text(s: &str) -> GraphValue {
    GraphValue::String(s.to_string())
}

fn person_node(properties: Properties) -> Node {
    Node { id: 1, labels: vec!["Person".to_string()], properties }
}

fn john() -> Properties {
    let mut properties = Properties::new();
    properties.insert("uid".to_string(), text("123"));
    properties.insert("title".to_string(), text("John Doe"));
    properties.insert("permalink".to_string(), text("john-doe"));
    properties
}

fn john_root() -> StorableEntity {
    StorableEntity {
        uid: "123".to_string(),
        title: "John Doe".to_string(),
        permalink: "john-doe".to_string(),
    }
}

fn item(value: GraphValue, shown: &str) -> ListItem {
    ListItem { value, text: shown.to_string() }
}

#[test]
fn test_root_data() {
    let mut properties = Properties::new();
    properties.insert("uid".to_string(), GraphValue::String("123".to_string()));
    properties.insert("title".to_string(), GraphValue::String("John Doe".to_string()));
    properties.insert("permalink".to_string(), GraphValue::String("john-doe".to_string()));
    let node = Node { id: 1, labels: vec!["Person".to_string()], properties };
    let person = decode_person(&node).unwrap();
    assert_eq!(person.root.uid, "123");
    assert_eq!(person.root.title, "John Doe");
    assert_eq!(person.root.permalink, "john-doe");
}

#[test]
fn test_with_biography() {
    let mut bio_map = Properties::new();
    bio_map.insert("full_name".to_string(), GraphValue::String("Johnathan Doe".to_string()));
    bio_map.insert("birth_date".to_string(), GraphValue::String("1990-01-01".to_string()));

    let mut properties = Properties::new();
    properties.insert("uid".to_string(), GraphValue::String("123".to_string()));
    properties.insert("title".to_string(), GraphValue::String("John Doe".to_string()));
    properties.insert("permalink".to_string(), GraphValue::String("john-doe".to_string()));
    properties.insert("biography".to_string(), GraphValue::Mapping(bio_map));

    let node = Node { id: 1, labels: vec!["Person".to_string()], properties };
    let person = decode_person(&node).unwrap();
    assert_eq!(person.biography.as_ref().unwrap().full_name.as_ref().unwrap(), "Johnathan Doe");
    assert_eq!(person.biography.as_ref().unwrap().birth_date.as_ref().unwrap(), "1990-01-01");
}

#[test]
fn test_missing_biography() {
    let mut properties = Properties::new();
    properties.insert("uid".to_string(), GraphValue::String("123".to_string()));
    properties.insert("title".to_string(), GraphValue::String("John Doe".to_string()));
    properties.insert("permalink".to_string(), GraphValue::String("john-doe".to_string()));
    let node = Node { id: 1, labels: vec!["Person".to_string()], properties };
    let person = decode_person(&node).unwrap();
    let bio = person.biography;
    match bio {
        Some(value) => {
            assert!(value.full_name.is_none());
            assert!(value.birth_date.is_none());
        }
        None => (),
    }
}

#[test]
fn test_bad_data() {
    let mut properties = Properties::new();
    properties.insert("uid".to_string(), GraphValue::String("123".to_string()));
    properties.insert("title".to_string(), GraphValue::String("John Doe".to_string()));
    let node = Node { id: 1, labels: vec!["Person".to_string()], properties };
    let person = decode_person(&node);
    assert!(person.is_none());
}

#[test]
fn node_with_the_three_fields_gives_a_bare_person() {
    let person = decode_person(&person_node(john()));
    assert_eq!(person, Some(Person { root: john_root(), biography: None, influences: None }));
}

#[test]
fn node_with_biography_map_gives_both_fields() {
    let mut bio = Properties::new();
    bio.insert("full_name".to_string(), text("Johnathan Doe"));
    bio.insert("birth_date".to_string(), text("1990-01-01"));
    let mut properties = john();
    properties.insert("biography".to_string(), GraphValue::Mapping(bio));
    let person = decode_person(&person_node(properties)).unwrap();
    assert_eq!(
        person.biography,
        Some(Biography {
            full_name: Some("Johnathan Doe".to_string()),
            birth_date: Some("1990-01-01".to_string()),
        })
    );
    assert_eq!(person.root, john_root());
    assert_eq!(person.influences, None);
}

#[test]
fn required_fields_lose_the_quotes_at_their_ends() {
    let mut properties = Properties::new();
    properties.insert("uid".to_string(), text("'123'"));
    properties.insert("title".to_string(), text("\"John 'Johnny' Doe\""));
    properties.insert("permalink".to_string(), text("john-doe'"));
    let person = decode_person(&person_node(properties)).unwrap();
    assert_eq!(person.root.uid, "123");
    assert_eq!(person.root.title, "John 'Johnny' Doe");
    assert_eq!(person.root.permalink, "john-doe");
}

#[test]
fn each_missing_required_field_rejects_the_node() {
    for missing in ["uid", "title", "permalink"] {
        let mut properties = Properties::new();
        for key in ["uid", "title", "permalink"] {
            if key != missing {
                properties.insert(key.to_string(), text("x"));
            }
        }
        assert_eq!(decode_person(&person_node(properties)), None);
    }
}

#[test]
fn required_field_empty_after_stripping_rejects_the_node() {
    for empty in ["", "''", "\"\"", "'\""] {
        let mut properties = john();
        properties.insert("title".to_string(), text(empty));
        assert_eq!(decode_person(&person_node(properties)), None);
    }
}

#[test]
fn required_field_of_another_kind_rejects_the_node() {
    let others = vec![
        GraphValue::Null,
        GraphValue::Bool(true),
        GraphValue::Int(123),
        GraphValue::Float(0x3ff8_0000_0000_0000),
        GraphValue::List(vec![item(text("123"), "'123'")]),
        GraphValue::Mapping(john()),
    ];
    for other in others {
        let mut properties = john();
        properties.insert("uid".to_string(), other);
        assert_eq!(decode_person(&person_node(properties)), None);
    }
}

#[test]
fn biography_of_another_kind_is_left_out() {
    let others = vec![
        GraphValue::Null,
        GraphValue::Int(7),
        text("born 1990"),
        GraphValue::List(Vec::new()),
        GraphValue::Node(person_node(john())),
    ];
    for other in others {
        let mut properties = john();
        properties.insert("biography".to_string(), other);
        let person = decode_person(&person_node(properties)).unwrap();
        assert_eq!(person.biography, None);
        assert_eq!(person.root, john_root());
    }
}

#[test]
fn biography_fields_are_filled_one_by_one() {
    let mut bio = Properties::new();
    bio.insert("full_name".to_string(), text("Johnathan Doe"));
    bio.insert("birth_date".to_string(), GraphValue::Int(1990));
    let mut properties = john();
    properties.insert("biography".to_string(), GraphValue::Mapping(bio));
    let person = decode_person(&person_node(properties)).unwrap();
    assert_eq!(
        person.biography,
        Some(Biography { full_name: Some("Johnathan Doe".to_string()), birth_date: None })
    );
}

#[test]
fn empty_biography_map_gives_a_biography_without_fields() {
    let mut properties = john();
    properties.insert("biography".to_string(), GraphValue::Mapping(Properties::new()));
    let person = decode_person(&person_node(properties)).unwrap();
    assert_eq!(person.biography, Some(Biography { full_name: None, birth_date: None }));
}

#[test]
fn biography_text_is_copied_as_it_stands() {
    let mut bio = Properties::new();
    bio.insert("full_name".to_string(), text("'Johnny'"));
    bio.insert("birth_date".to_string(), text(""));
    let mut properties = john();
    properties.insert("biography".to_string(), GraphValue::Mapping(bio));
    let person = decode_person(&person_node(properties)).unwrap();
    assert_eq!(
        person.biography,
        Some(Biography { full_name: Some("'Johnny'".to_string()), birth_date: Some(String::new()) })
    );
}

#[test]
fn influences_take_the_string_form_of_each_item() {
    let mut influences = Properties::new();
    influences.insert(
        "persons".to_string(),
        GraphValue::List(vec![item(text("Ada"), "'Ada'"), item(GraphValue::Int(7), "7")]),
    );
    influences.insert(
        "work_of_arts".to_string(),
        GraphValue::List(vec![item(GraphValue::Null, "NULL")]),
    );
    let mut properties = john();
    properties.insert("influences".to_string(), GraphValue::Mapping(influences));
    let person = decode_person(&person_node(properties)).unwrap();
    assert_eq!(
        person.influences,
        Some(Influences {
            persons: Some(vec!["'Ada'".to_string(), "7".to_string()]),
            work_of_arts: Some(vec!["NULL".to_string()]),
        })
    );
    assert_eq!(person.biography, None);
}

#[test]
fn influences_lists_are_filled_one_by_one() {
    let mut influences = Properties::new();
    influences.insert("persons".to_string(), text("Ada"));
    influences.insert("work_of_arts".to_string(), GraphValue::List(Vec::new()));
    let mut properties = john();
    properties.insert("influences".to_string(), GraphValue::Mapping(influences));
    let person = decode_person(&person_node(properties)).unwrap();
    assert_eq!(
        person.influences,
        Some(Influences { persons: None, work_of_arts: Some(Vec::new()) })
    );
}

#[test]
fn influences_of_another_kind_are_left_out() {
    let mut properties = john();
    properties.insert("influences".to_string(), GraphValue::List(vec![item(text("Ada"), "'Ada'")]));
    let person = decode_person(&person_node(properties)).unwrap();
    assert_eq!(person.influences, None);
}

#[test]
fn decoding_twice_gives_equal_persons() {
    let mut bio = Properties::new();
    bio.insert("full_name".to_string(), text("Johnathan Doe"));
    let mut properties = john();
    properties.insert("biography".to_string(), GraphValue::Mapping(bio));
    let node = person_node(properties);
    let first = decode_person(&node);
    let second = decode_person(&node);
    assert!(first.is_some());
    assert_eq!(first, second);
}

#[test]
fn movie_has_the_three_fields() {
    let node = Node { id: 9, labels: vec!["Movie".to_string()], properties: john() };
    assert_eq!(decode_movie(&node), Some(Movie { root: john_root() }));
}

#[test]
fn movie_without_title_is_rejected() {
    let mut properties = Properties::new();
    properties.insert("uid".to_string(), text("m1"));
    properties.insert("permalink".to_string(), text("m-1"));
    let node = Node { id: 9, labels: vec!["Movie".to_string()], properties };
    assert_eq!(decode_movie(&node), None);
}
