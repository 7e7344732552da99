use raytracer::aspect::{aspect_ratio_fields, AspectFields, Span};

fn fields(text: &str) -> Option<(&str, &str)> {
    let found = aspect_ratio_fields(text)?;
    Some((&text[found.width.start..found.width.end], &text[found.height.start..found.height.end]))
}

#[test]
fn width_and_height_are_parted_by_the_colon() {
    assert_eq!(fields("16:9"), Some(("16", "9")));
    assert_eq!(fields("1.85:1"), Some(("1.85", "1")));
    assert_eq!(
        aspect_ratio_fields("16:9"),
        Some(AspectFields { width: Span { start: 0, end: 2 }, height: Span { start: 3, end: 4 } })
    );
}

#[test]
fn text_without_colon_has_no_height() {
    assert_eq!(fields("16"), None);
    assert_eq!(fields(""), None);
    assert_eq!(fields("16/9"), None);
}

#[test]
fn fields_may_be_empty() {
    assert_eq!(fields(":"), Some(("", "")));
    assert_eq!(fields("16:"), Some(("16", "")));
    assert_eq!(fields(":9"), Some(("", "9")));
}

#[test]
fn what_follows_a_second_colon_is_ignored() {
    assert_eq!(fields("4:3:2"), Some(("4", "3")));
    assert_eq!(fields("4::2"), Some(("4", "")));
}

#[test]
fn fields_are_cut_at_character_boundaries() {
    assert_eq!(fields("ü16:9é"), Some(("ü16", "9é")));
    assert_eq!(fields("１６:９"), Some(("１６", "９")));
}
