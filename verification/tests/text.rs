use iceberg_datafusion::metadata_table::MetadataTableType;
use iceberg_datafusion::string_map::StringMap;
use iceberg_datafusion::text::{glue, join, relate, same_text, split_once, Relation};

#[test]
fn texts_are_compared_as_str_compares() {
    let samples = ["", "a", "aa", "ab", "b", "\u{e9}", "\u{10000}", "\u{ffff}", "Z"];
    for a in samples {
        for b in samples {
            let expected = match a.cmp(b) {
                std::cmp::Ordering::Less => Relation::Before,
                std::cmp::Ordering::Equal => Relation::Same,
                std::cmp::Ordering::Greater => Relation::After,
            };
            assert!(relate(a, b) == expected);
            assert_eq!(same_text(a, b), a == b);
        }
    }
}

#[test]
fn texts_split_at_the_first_separator() {
    for text in ["t$snapshots", "$x", "x$", "$", "a$b$c", "plain", "", "\u{e9}$\u{10000}"] {
        assert_eq!(split_once(text, '$'), text.split_once('$'));
    }
}

#[test]
fn texts_are_joined_and_glued() {
    let parts = vec!["a".to_string(), "b".to_string(), "".to_string()];
    assert_eq!(join(&parts, ", "), "a, b, ");
    assert_eq!(join(&vec![], ", "), "");
    assert_eq!(glue("x", "", "z"), "xz");
}

#[test]
fn maps_hold_what_was_last_inserted() {
    let mut map: StringMap<u32> = StringMap::new();
    assert!(map.is_empty());
    for (key, value) in [("m", 1), ("c", 2), ("x", 3), ("c", 4), ("a", 5)] {
        map.insert(key.to_string(), value);
    }
    assert_eq!(map.keys(), ["a", "c", "m", "x"]);
    assert_eq!(map.get("c"), Some(&4));
    assert_eq!(map.get("b"), None);
    assert!(map.contains_key("x"));
    assert!(!map.contains_key("y"));
    let copy = map.clone();
    assert_eq!(map.remove("c"), Some(4));
    assert_eq!(map.remove("c"), None);
    assert_eq!(map.keys(), ["a", "m", "x"]);
    assert_eq!(copy.keys(), ["a", "c", "m", "x"]);
    assert!(!map.is_empty());
}

#[test]
fn metadata_tables_go_by_their_names() {
    for table in MetadataTableType::all_types() {
        assert_eq!(MetadataTableType::try_from(table.as_str()), Ok(table));
    }
    assert_eq!(
        MetadataTableType::try_from("Snapshots"),
        Err("invalid metadata table type: Snapshots".to_string())
    );
    let names: Vec<&str> = MetadataTableType::all_types()
        .iter()
        .map(|table| table.as_str())
        .collect();
    assert_eq!(names, ["snapshots", "manifests"]);
}
