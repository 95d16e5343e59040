use geometry::color::Color;

#[test]
fn unit_variants_are_distinct() {
    let c = Color::Red;
    assert!(matches!(c, Color::Red));
    assert!(!matches!(c, Color::Green));
    assert!(!matches!(c, Color::Blue));
}

#[test]
fn rgb_variant_keeps_its_components() {
    let c = Color::Rgb(10, 20, 30);
    match c {
        Color::Rgb(r, g, b) => {
            assert_eq!(r, 10);
            assert_eq!(g, 20);
            assert_eq!(b, 30);
        }
        _ => panic!("expected an RGB triple"),
    }
}

#[test]
fn named_variant_keeps_its_name() {
    let c = Color::Named { name: String::from("teal") };
    match c {
        Color::Named { name } => assert_eq!(name, "teal"),
        _ => panic!("expected a named color"),
    }
}
