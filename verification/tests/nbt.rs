use pipeworkmc::data::ident::Ident;
use pipeworkmc::data::nbt::to_network;
use pipeworkmc::data::registry_entry::cat_variant::CatVariantRegistryEntry;
use pipeworkmc::data::registry_entry::chat_type::{ChatTypeDecoParam, ChatTypeDecoration, ChatTypeRegistryEntry};
use pipeworkmc::data::registry_entry::damage_type::{DamageTypeEffects, DamageTypeScaling};
use pipeworkmc::data::registry_entry::wolf_variant::{WolfVariantAssets, WolfVariantRegistryEntry};
use pipeworkmc::data::registry_entry::RegistryEntryType;
use pipeworkmc::data::ser_value::{Field, SerValue};
use pipeworkmc::data::text::TextStyle;

#[test]
fn string_is_tagged_and_length_prefixed() {
    let mut out = Vec::new();
    assert!(to_network(&mut out, &SerValue::Str("hi".to_owned())));
    assert_eq!(out, vec![8, 0, 2, b'h', b'i']);
}

#[test]
fn nul_is_written_in_two_bytes() {
    let mut out = Vec::new();
    assert!(to_network(&mut out, &SerValue::Str("a\0".to_owned())));
    assert_eq!(out, vec![8, 0, 3, b'a', 0xC0, 0x80]);
}

#[test]
fn numbers_are_big_endian() {
    let mut out = Vec::new();
    assert!(to_network(&mut out, &SerValue::I16(-2)));
    assert_eq!(out, vec![2, 0xFF, 0xFE]);
    let mut out = Vec::new();
    assert!(to_network(&mut out, &SerValue::Bool(true)));
    assert_eq!(out, vec![1, 1]);
}

#[test]
fn lists_announce_element_tag_and_length() {
    let mut out = Vec::new();
    let v = SerValue::List(Some(2), vec![SerValue::I32(1), SerValue::I32(2)]);
    assert!(to_network(&mut out, &v));
    assert_eq!(out, vec![9, 3, 0, 0, 0, 2, 0, 0, 0, 1, 0, 0, 0, 2]);
    let mut out = Vec::new();
    assert!(to_network(&mut out, &SerValue::List(Some(0), Vec::new())));
    assert_eq!(out, vec![9, 0, 0, 0, 0, 0]);
}

#[test]
fn structs_are_compounds() {
    let mut out = Vec::new();
    let v = SerValue::Struct(vec![Field { name: "a".to_owned(), value: SerValue::U32(1) }]);
    assert!(to_network(&mut out, &v));
    assert_eq!(out, vec![10, 3, 0, 1, b'a', 0, 0, 0, 1, 0]);
}

#[test]
fn options_and_units_are_refused() {
    let mut out = vec![7];
    assert!(!to_network(&mut out, &SerValue::Nothing));
    assert!(!to_network(&mut out, &SerValue::Something(Box::new(SerValue::U8(1)))));
    assert!(!to_network(&mut out, &SerValue::Unit));
    assert!(!to_network(&mut out, &SerValue::List(None, Vec::new())));
    assert_eq!(out, vec![7]);
}

#[test]
fn cat_variant_entry_bytes() {
    let e = CatVariantRegistryEntry { texture_asset: Ident::new("x:y") };
    assert_eq!(CatVariantRegistryEntry::registry_id().as_str(), "minecraft:cat_variant");
    let mut out = Vec::new();
    assert!(e.to_network_nbt(&mut out));
    let mut expected = vec![10, 8, 0, 8];
    expected.extend_from_slice(b"asset_id");
    expected.extend_from_slice(&[0, 3, b'x', b':', b'y', 0]);
    assert_eq!(out, expected);
}

#[test]
fn absent_entry_writes_nothing() {
    let e: Option<CatVariantRegistryEntry> = None;
    let mut out = Vec::new();
    assert!(!e.to_network_nbt(&mut out));
    assert!(out.is_empty());
    let e = Some(CatVariantRegistryEntry { texture_asset: Ident::new("x:y") });
    assert!(e.to_network_nbt(&mut out));
    assert_eq!(out.len(), 18);
}

#[test]
fn chat_type_lists_parameters() {
    let deco = ChatTypeDecoration {
        translation_key: "chat.type.text".to_owned(),
        style: None,
        parameters: vec![ChatTypeDecoParam::Sender, ChatTypeDecoParam::Content],
    };
    match deco.to_value() {
        SerValue::Struct(fields) => {
            assert_eq!(fields.len(), 2);
            assert_eq!(fields[1].name, "parameters");
            match &fields[1].value {
                SerValue::List(Some(2), items) => {
                    assert!(matches!(&items[0], SerValue::UnitVariant(n) if n == "sender"));
                    assert!(matches!(&items[1], SerValue::UnitVariant(n) if n == "content"));
                },
                _ => panic!("expected a list"),
            }
        },
        _ => panic!("expected a struct"),
    }
    let styled = ChatTypeDecoration {
        translation_key: "k".to_owned(),
        style: Some(TextStyle::empty()),
        parameters: Vec::new(),
    };
    match styled.to_value() {
        SerValue::Struct(fields) => {
            assert_eq!(fields.len(), 3);
            assert_eq!(fields[1].name, "style");
            assert!(matches!(&fields[1].value, SerValue::Something(_)));
        },
        _ => panic!("expected a struct"),
    }
    let entry = ChatTypeRegistryEntry {
        chat: deco,
        narration: ChatTypeDecoration { translation_key: "n".to_owned(), style: None, parameters: Vec::new() },
    };
    let mut out = Vec::new();
    assert!(entry.to_network_nbt(&mut out));
    assert_eq!(out[0], 10);
}

#[test]
fn wolf_variant_lists_biomes() {
    let e = WolfVariantRegistryEntry {
        assets: WolfVariantAssets { wild: Ident::new("a"), tame: Ident::new("b"), angry: Ident::new("c") },
        biomes: vec![Ident::new("minecraft:taiga")],
    };
    match e.to_value() {
        SerValue::Struct(fields) => {
            assert_eq!(fields[0].name, "assets");
            assert!(matches!(&fields[1].value, SerValue::List(Some(1), _)));
        },
        _ => panic!("expected a struct"),
    }
}

#[test]
fn unit_variants_use_wire_names() {
    assert!(matches!(DamageTypeScaling::WhenByEnemy.to_value(), SerValue::UnitVariant(n) if n == "when_caused_by_living_non_player"));
    assert!(DamageTypeEffects::default().is_default());
    assert!(!DamageTypeEffects::Poking.is_default());
}

#[test]
fn supplementary_characters_become_surrogate_pairs() {
    let mut out = Vec::new();
    assert!(to_network(&mut out, &SerValue::Str("\u{1F600}".to_owned())));
    assert_eq!(out, vec![8, 0, 6, 0xED, 0xA0, 0xBD, 0xED, 0xB8, 0x80]);
}

#[test]
fn unsupported_entry_writes_nothing() {
    let styled = ChatTypeDecoration {
        translation_key: "k".to_owned(),
        style: Some(TextStyle::empty()),
        parameters: Vec::new(),
    };
    let entry = ChatTypeRegistryEntry {
        chat: styled,
        narration: ChatTypeDecoration { translation_key: "n".to_owned(), style: None, parameters: Vec::new() },
    };
    let mut out = vec![1];
    assert!(!entry.to_network_nbt(&mut out));
    assert_eq!(out, vec![1]);
}
