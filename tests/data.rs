use portfolio::color::Rgb;
use portfolio::data::{channel, color_triple, lookup, Data, DataError, TomlItem};
use portfolio::thumbnail::Thumbnail;

const ONE_SKILL: &str = r#"
[[skills]]
name = "Rust"
rgb = [222, 165, 132]
text_rgb = [0, 0, 0]

[[project_highlights]]
slug = "site"
title = "Site"
description = "A site."
tags = ["Rust"]
external_link = "https://example.org/site"
highlight_imgs = []
thumbnail_path = "/assets/site.png"
"#;

#[test]
fn bundled_data_loads() {
    let data = Data::new().expect("the bundled data set is well-formed");
    assert_eq!(data.skills().len(), 5);
    assert_eq!(data.skills()[0].name, "Rust");
    assert_eq!(data.project_highlights().len(), 2);
    for p in data.project_highlights() {
        assert_eq!(p.thumbnail, Thumbnail::NotRequested);
        assert!(!p.slug.is_empty());
    }
}

#[test]
fn small_document_is_read_in_full() {
    let data = Data::from_toml(ONE_SKILL).unwrap();
    let skill = &data.skills()[0];
    assert_eq!(skill.name, "Rust");
    assert_eq!(skill.rgb, [222, 165, 132]);
    assert_eq!(skill.color(), Rgb { r: 222, g: 165, b: 132 });
    assert_eq!(skill.text_color(), Rgb { r: 0, g: 0, b: 0 });
    let p = &data.project_highlights()[0];
    assert_eq!(p.slug, "site");
    assert_eq!(p.tags, vec!["Rust".to_string()]);
    assert!(p.highlight_imgs.is_empty());
    assert_eq!(p.thumbnail_uri("https://example.org"), "https://example.org/assets/site.png");
    assert_eq!(p.thumbnail_uri(""), "/assets/site.png");
}

#[test]
fn missing_required_field_aborts_loading() {
    let text = ONE_SKILL.replace("text_rgb = [0, 0, 0]\n", "");
    assert_eq!(Data::from_toml(&text).err(), Some(DataError::MissingField));
    let text = ONE_SKILL.replace("thumbnail_path = \"/assets/site.png\"\n", "");
    assert_eq!(Data::from_toml(&text).err(), Some(DataError::MissingField));
    assert_eq!(Data::from_toml("").err(), Some(DataError::MissingField));
}

#[test]
fn malformed_text_is_a_syntax_error() {
    assert_eq!(Data::from_toml("[[skills]\nname = ").err(), Some(DataError::Syntax));
    assert_eq!(Data::from_toml("name = \"a\"\nname = \"b\"").err(), Some(DataError::Syntax));
}

#[test]
fn wrong_kind_of_value_is_rejected() {
    let text = ONE_SKILL.replace("name = \"Rust\"", "name = 7");
    assert_eq!(Data::from_toml(&text).err(), Some(DataError::WrongType));
    let text = ONE_SKILL.replace("tags = [\"Rust\"]", "tags = [1]");
    assert_eq!(Data::from_toml(&text).err(), Some(DataError::WrongType));
    assert_eq!(Data::from_toml("skills = 3").err(), Some(DataError::WrongType));
}

#[test]
fn bad_colours_are_rejected() {
    let text = ONE_SKILL.replace("[222, 165, 132]", "[222, 165, 256]");
    assert_eq!(Data::from_toml(&text).err(), Some(DataError::BadColor));
    let text = ONE_SKILL.replace("[222, 165, 132]", "[222, 165]");
    assert_eq!(Data::from_toml(&text).err(), Some(DataError::BadColor));
    let text = ONE_SKILL.replace("[222, 165, 132]", "[-1, 165, 132]");
    assert_eq!(Data::from_toml(&text).err(), Some(DataError::BadColor));
    let text = ONE_SKILL.replace("[222, 165, 132]", "[\"a\", 165, 132]");
    assert_eq!(Data::from_toml(&text).err(), Some(DataError::BadColor));
}

#[test]
fn channel_range() {
    assert_eq!(channel(0), Some(0));
    assert_eq!(channel(255), Some(255));
    assert_eq!(channel(256), None);
    assert_eq!(channel(-1), None);
    assert_eq!(channel(i64::MIN), None);
}

#[test]
fn colour_triple_from_integers() {
    assert_eq!(color_triple(&vec![Some(1), Some(2), Some(255)]), Ok([1, 2, 255]));
    assert_eq!(color_triple(&vec![Some(1), None, Some(3)]), Err(DataError::BadColor));
    assert_eq!(color_triple(&vec![Some(1), Some(2), Some(256)]), Err(DataError::BadColor));
    assert_eq!(color_triple(&vec![Some(1), Some(2)]), Err(DataError::BadColor));
    assert_eq!(color_triple(&vec![Some(0); 4]), Err(DataError::BadColor));
    assert_eq!(color_triple(&vec![]), Err(DataError::BadColor));
}

fn text(s: &str) -> TomlItem {
    TomlItem::Str(s.to_string())
}

fn ints(v: &[i64]) -> TomlItem {
    TomlItem::Array(v.iter().map(|n| TomlItem::Int(*n)).collect())
}

fn skill_table(name: TomlItem, rgb: TomlItem) -> TomlItem {
    TomlItem::Table(vec![
        ("name".to_string(), name),
        ("rgb".to_string(), rgb),
        ("text_rgb".to_string(), ints(&[1, 2, 3])),
    ])
}

fn document(skills: Vec<TomlItem>, projects: Option<Vec<TomlItem>>) -> TomlItem {
    let mut entries = vec![("skills".to_string(), TomlItem::Array(skills))];
    if let Some(p) = projects {
        entries.push(("project_highlights".to_string(), TomlItem::Array(p)));
    }
    TomlItem::Table(entries)
}

#[test]
fn document_is_read_in_order() {
    let doc = document(
        vec![skill_table(text("Rust"), ints(&[9, 8, 7])), skill_table(text("Go"), ints(&[0, 0, 255]))],
        Some(vec![]),
    );
    let data = Data::from_document(&doc).unwrap();
    assert_eq!(data.skills().len(), 2);
    assert_eq!(data.skills()[0].name, "Rust");
    assert_eq!(data.skills()[0].rgb, [9, 8, 7]);
    assert_eq!(data.skills()[0].text_rgb, [1, 2, 3]);
    assert_eq!(data.skills()[1].name, "Go");
    assert_eq!(data.skills()[1].rgb, [0, 0, 255]);
    assert!(data.project_highlights().is_empty());
}

#[test]
fn first_problem_in_reading_order_is_reported() {
    // the first skill's name is checked before its colour
    let doc = document(vec![skill_table(TomlItem::Int(3), ints(&[300, 0, 0]))], Some(vec![]));
    assert_eq!(Data::from_document(&doc).err(), Some(DataError::WrongType));
    // a bad skill is reported before the missing project array
    let doc = document(vec![skill_table(text("a"), ints(&[300, 0, 0]))], None);
    assert_eq!(Data::from_document(&doc).err(), Some(DataError::BadColor));
    // with sound skills, the missing project array is the problem
    let doc = document(vec![skill_table(text("a"), ints(&[3, 0, 0]))], None);
    assert_eq!(Data::from_document(&doc).err(), Some(DataError::MissingField));
    // one bad skill after a good one: no partial data set
    let doc = document(vec![skill_table(text("a"), ints(&[3, 0, 0])), skill_table(text("b"), TomlItem::Other)], Some(vec![]));
    assert_eq!(Data::from_document(&doc).err(), Some(DataError::WrongType));
    assert_eq!(Data::from_document(&TomlItem::Other).err(), Some(DataError::WrongType));
}

#[test]
fn lookup_finds_keys() {
    let entries = vec![("a".to_string(), TomlItem::Int(1)), ("b".to_string(), TomlItem::Int(2))];
    assert!(matches!(lookup(&entries, "b"), Some(TomlItem::Int(2))));
    assert!(matches!(lookup(&entries, "a"), Some(TomlItem::Int(1))));
    assert!(lookup(&entries, "c").is_none());
    assert!(lookup(&Vec::new(), "a").is_none());
}

#[test]
fn loading_twice_gives_the_same_skills() {
    let a = Data::new().unwrap();
    let b = Data::new().unwrap();
    assert_eq!(a.skills().len(), b.skills().len());
    for (x, y) in a.skills().iter().zip(b.skills()) {
        assert_eq!(x.name, y.name);
        assert_eq!(x.rgb, y.rgb);
        assert_eq!(x.text_rgb, y.text_rgb);
    }
    assert_eq!(a.skills()[1].name, "WebAssembly");
    assert_eq!(a.skills()[1].rgb, [101, 79, 240]);
    assert_eq!(a.project_highlights()[1].highlight_imgs.len(), 2);
}
