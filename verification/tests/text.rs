use pipeworkmc::data::colour::{Argb, Rgb};
use pipeworkmc::data::ser_value::SerValue;
use pipeworkmc::data::text::formatted::TextFormatted;
use pipeworkmc::data::text::ser::text_to_value;
use pipeworkmc::data::text::{Text, TextComponent, TextContent};

#[test]
fn literal_prints_with_resets_and_colour() {
    let t = Text::literal("hi");
    assert_eq!(t.to_string(), "\x1b[0m\x1b[38;2;255;255;255mhi\x1b[0m");
}

#[test]
fn empty_text_prints_nothing() {
    let t = Text { components: Vec::new() };
    assert_eq!(t.to_string(), "");
}

#[test]
fn styles_print_in_order() {
    let t = Text::literal("x").red().bold().underline().shadow(Argb::new(255, 1, 2, 3));
    assert_eq!(
        t.to_string(),
        "\x1b[0m\x1b[38;2;255;85;85m\x1b[1m\x1b[4m\x1b[48;2;1;2;3mx\x1b[0m"
    );
}

#[test]
fn translation_prints_its_key() {
    let t = Text::translate_or("chat.type.text", "<%s> %s");
    assert_eq!(t.to_string(), "\x1b[0m\x1b[38;2;255;255;255mchat.type.text\x1b[0m");
    assert_eq!(TextContent::Keybind { id: "key.jump".to_owned() }.to_string(), "key.jump");
}

#[test]
fn adding_texts_concatenates_components() {
    let t = Text::literal("a").add(Text::literal("b").green());
    assert_eq!(t.components.len(), 2);
    assert_eq!(t.components[1].style.colour, Rgb::green());
    assert_eq!(t.components[0].style.colour, Rgb::white());
    let mut u = Text::literal("c");
    u.add_assign(Text::keybind("key.use"));
    assert_eq!(u.components.len(), 2);
}

#[test]
fn formatting_keeps_content() {
    let t = Text::literal("a").add(Text::literal("b")).italic().colour(Rgb::new(1, 2, 3));
    for c in &t.components {
        assert!(c.style.italic);
        assert_eq!(c.style.colour, Rgb::new(1, 2, 3));
    }
    assert!(matches!(&t.components[1].content, TextContent::Literal { text } if text == "b"));
    let r = t.reset();
    assert!(!r.components[0].style.italic);
    assert_eq!(r.components[0].style.colour, Rgb::white());
}

#[test]
fn negative_setters_set_the_flag() {
    let t = Text::literal("a").no_italic().no_underline().no_strike().no_obfuscate().no_bold();
    assert!(t.components[0].style.italic);
    assert!(t.components[0].style.underline);
    assert!(t.components[0].style.strike);
    assert!(t.components[0].style.obfuscate);
    assert!(!t.components[0].style.bold);
}

#[test]
fn component_serialises_wrapped_in_extra() {
    let v = text_to_value(&Text::literal("hi"));
    let items = match v {
        SerValue::List(Some(1), items) => items,
        _ => panic!("expected a list of one"),
    };
    let entries = match &items[0] {
        SerValue::Dict(e) => e,
        _ => panic!("expected a map"),
    };
    assert_eq!(entries.len(), 3);
    assert!(matches!(&entries[0].key, SerValue::Str(k) if k == "type"));
    assert!(matches!(&entries[1].value, SerValue::Str(v) if v.is_empty()));
    let extra = match &entries[2].value {
        SerValue::List(Some(1), e) => e,
        _ => panic!("expected extra"),
    };
    let inner = match &extra[0] {
        SerValue::Dict(e) => e,
        _ => panic!("expected a map"),
    };
    assert!(matches!(&inner[1].value, SerValue::Str(v) if v == "hi"));
    assert!(matches!(&inner[2].key, SerValue::Str(k) if k == "color"));
    assert!(matches!(&inner[2].value, SerValue::Str(v) if v == "#ffffff"));
}

#[test]
fn component_from_content_has_empty_style() {
    let c = TextComponent::from(TextContent::Literal { text: "z".to_owned() });
    assert_eq!(c.style.colour, Rgb::white());
    assert!(c.style.tooltip.is_none());
}
