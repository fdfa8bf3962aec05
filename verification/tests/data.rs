use pipeworkmc::data::box_cow::BoxCow;
use pipeworkmc::data::block_pos::{BlockPos, DimBlockPos};
use pipeworkmc::data::channel_data::{ChannelData, ChannelDataDecodeError};
use pipeworkmc::data::character::{CharacterId, NextCharacterId};
use pipeworkmc::data::codec::StringDecodeError;
use pipeworkmc::data::colour::{Argb, Rgb};
use pipeworkmc::data::game_mode::GameMode;
use pipeworkmc::data::ident::Ident;
use pipeworkmc::data::itemstack::ItemStack;
use pipeworkmc::data::light_level::LightLevel;
use pipeworkmc::data::multiple16::{Multiple16I32, Multiple16U32};
use pipeworkmc::data::profile::{
    accept_property, bounded_username, profile_field, profile_uuid, AccountProfile, AccountProperty, ProfileDeserError,
    ProfileField, ProfileFields,
};
use pipeworkmc::data::ser_value::SerValue;

#[test]
fn rgb_packs_into_u32() {
    assert_eq!(Rgb::new(0x12, 0x34, 0x56).to_u32(), 0x123456);
    assert_eq!(Rgb::splat(0xAB).to_u32(), 0xABABAB);
    assert_eq!(Rgb::grey(), Rgb::new(170, 170, 170));
    assert_eq!(Rgb::white().to_u32(), 0xFFFFFF);
}

#[test]
fn argb_packs_and_drops_alpha() {
    let c = Rgb::new(1, 2, 3).with_alpha(0x80);
    assert_eq!(c, Argb::new(0x80, 1, 2, 3));
    assert_eq!(c.to_u32(), 0x80010203);
    assert_eq!(c.without_alpha(), Rgb::new(1, 2, 3));
    assert_eq!(Rgb::new(9, 8, 7).opaque().to_u32(), 0xFF090807);
    assert_eq!(Argb::transparent().to_u32(), 0);
}

#[test]
fn block_pos_packs_fields() {
    let p = BlockPos { x: 1, y: 2, z: 3 };
    assert_eq!(p.to_packed(), (1u64 << 38) | (3u64 << 12) | 2);
    let n = BlockPos { x: -1, y: -1, z: -1 };
    assert_eq!(n.to_packed(), u64::MAX);
    let mut out = Vec::new();
    p.encode(&mut out);
    assert_eq!(out.len(), p.encode_len());
    assert_eq!(out, ((1u64 << 38) | (3u64 << 12) | 2).to_be_bytes().to_vec());
    assert_eq!(BlockPos::zero().to_packed(), 0);
}

#[test]
fn dim_block_pos_encodes_dimension_then_position() {
    let d = DimBlockPos { dim: Ident::new("minecraft:overworld"), pos: BlockPos { x: 0, y: 64, z: 0 } };
    let mut out = Vec::new();
    d.encode(&mut out);
    assert_eq!(out.len(), d.encode_len());
    assert_eq!(out[0], 19);
    assert_eq!(&out[1..20], b"minecraft:overworld");
    assert_eq!(&out[20..], &64u64.to_be_bytes());
}

#[test]
fn brand_channel_round_trips() {
    let m = ChannelData::Brand { brand: "vanilla".to_owned() };
    let mut out = Vec::new();
    m.encode(&mut out);
    assert_eq!(out.len(), m.encode_len());
    assert_eq!(out[0], 15);
    assert_eq!(&out[1..16], b"minecraft:brand");
    assert_eq!(out[16], 7);
    out.push(0xEE);
    match ChannelData::decode(&out, 0) {
        Ok((ChannelData::Brand { brand }, n)) => {
            assert_eq!(brand, "vanilla");
            assert_eq!(n, 24);
        },
        _ => panic!("expected a brand"),
    }
}

#[test]
fn custom_channel_takes_the_rest() {
    let m = ChannelData::Custom { channel: Ident::new("a:b"), data: vec![1, 2, 3] };
    let mut out = Vec::new();
    m.encode(&mut out);
    assert_eq!(out, vec![3, b'a', b':', b'b', 1, 2, 3]);
    match ChannelData::decode(&out, 0) {
        Ok((ChannelData::Custom { channel, data }, n)) => {
            assert_eq!(channel.as_str(), "a:b");
            assert_eq!(data, vec![1, 2, 3]);
            assert_eq!(n, 7);
        },
        _ => panic!("expected a custom message"),
    }
}

#[test]
fn channel_decode_errors() {
    assert!(matches!(ChannelData::decode(&[], 0), Err(ChannelDataDecodeError::Channel(StringDecodeError::BadLength))));
    let mut out = vec![15];
    out.extend_from_slice(b"minecraft:brand");
    out.push(5);
    out.push(b'x');
    assert!(matches!(ChannelData::decode(&out, 0), Err(ChannelDataDecodeError::Brand(StringDecodeError::Incomplete))));
}

#[test]
fn character_ids_count_up() {
    let mut next = NextCharacterId::new();
    assert_eq!(next.next(), CharacterId::new(0));
    assert_eq!(next.next(), CharacterId::new(1));
    assert_eq!(CharacterId::from(7u32).as_u32(), 7);
}

#[test]
fn light_levels_stop_at_fifteen() {
    assert_eq!(LightLevel::new(15).map(|l| l.as_u8()), Some(15));
    assert!(LightLevel::new(16).is_none());
    assert!(matches!(LightLevel::new(7).unwrap().to_value(), SerValue::U32(7)));
}

#[test]
fn multiples_of_sixteen() {
    assert_eq!(Multiple16I32::new(-64).map(|m| m.get()), Some(-64));
    assert!(Multiple16I32::new(-63).is_none());
    assert_eq!(Multiple16U32::new(384).map(|m| m.get()), Some(384));
    assert!(Multiple16U32::new(385).is_none());
}

#[test]
fn game_mode_numbers() {
    assert_eq!(GameMode::default(), GameMode::Adventure);
    assert_eq!(GameMode::Survival.to_u8(), 0);
    assert_eq!(GameMode::Spectator.to_u8(), 3);
    assert_eq!(GameMode::from_u8(1), Some(GameMode::Creative));
    assert_eq!(GameMode::from_u8(4), None);
}

#[test]
fn item_stack_serialises_as_map() {
    let s = ItemStack { id: Ident::new("minecraft:stone"), count: 3 };
    match s.to_value() {
        SerValue::Dict(entries) => {
            assert_eq!(entries.len(), 2);
            assert!(matches!(&entries[0].key, SerValue::Str(k) if k == "id"));
            assert!(matches!(&entries[0].value, SerValue::Str(v) if v == "minecraft:stone"));
            assert!(matches!(&entries[1].key, SerValue::Str(k) if k == "count"));
            assert!(matches!(&entries[1].value, SerValue::U32(3)));
        },
        _ => panic!("expected a map"),
    }
}

#[test]
fn profile_encodes_with_and_without_skin() {
    let p = AccountProfile { uuid: 1, username: "Steve".to_owned(), skin: None };
    let mut out = Vec::new();
    p.encode(&mut out);
    let mut expected = 1u128.to_be_bytes().to_vec();
    expected.push(5);
    expected.extend_from_slice(b"Steve");
    expected.push(0);
    assert_eq!(out, expected);

    let p = AccountProfile {
        uuid: 2,
        username: "A".to_owned(),
        skin: Some(AccountProperty { value: "v".to_owned(), sig: None }),
    };
    let mut out = Vec::new();
    p.encode(&mut out);
    let mut expected = 2u128.to_be_bytes().to_vec();
    expected.extend_from_slice(&[1, b'A', 1, 8]);
    expected.extend_from_slice(b"textures");
    expected.extend_from_slice(&[1, b'v', 0]);
    assert_eq!(out, expected);
}

#[test]
fn profile_fields_are_checked() {
    assert_eq!(profile_field("id"), Some(ProfileField::Id));
    assert_eq!(profile_field("name"), Some(ProfileField::Name));
    assert_eq!(profile_field("properties"), Some(ProfileField::Properties));
    assert_eq!(profile_field("legacy"), None);

    let mut f = ProfileFields::new();
    assert_eq!(f.begin_field(ProfileField::Id), Ok(()));
    f.uuid = Some(5);
    assert_eq!(f.begin_field(ProfileField::Id), Err(ProfileDeserError::DuplicateField(ProfileField::Id)));
    match ProfileFields::new().finish() {
        Err(e) => assert_eq!(e, ProfileDeserError::MissingField(ProfileField::Id)),
        Ok(_) => panic!("a profile without an id"),
    }
    match f.finish() {
        Err(e) => assert_eq!(e, ProfileDeserError::MissingField(ProfileField::Name)),
        Ok(_) => panic!("a profile without a name"),
    }
    let mut f = ProfileFields::new();
    f.uuid = Some(9);
    f.username = Some("Alex".to_owned());
    let p = f.finish().ok().unwrap();
    assert_eq!(p.uuid, 9);
    assert_eq!(p.username, "Alex");
    assert!(p.skin.is_none());
}

#[test]
fn second_skin_is_a_duplicate() {
    let mut skin = None;
    assert_eq!(accept_property(&mut skin, AccountProperty { value: "a".to_owned(), sig: None }), Ok(()));
    assert_eq!(
        accept_property(&mut skin, AccountProperty { value: "b".to_owned(), sig: None }),
        Err(ProfileDeserError::DuplicateField(ProfileField::Textures))
    );
    assert_eq!(skin.unwrap().value, "a");
}

#[test]
fn box_cow_clones_on_demand() {
    let v = 5u32;
    let mut c = BoxCow::Borrowed(&v);
    assert_eq!(*c.get(), 5);
    *c.to_mut() = 6;
    assert!(matches!(&c, BoxCow::Owned(b) if **b == 6));
    assert_eq!(v, 5);
    assert_eq!(*BoxCow::Borrowed(&v).into_owned(), 5);
    assert_eq!(*BoxCow::Owned(Box::new(9u32)).into_owned(), 9);
}

#[test]
fn decode_errors_describe_themselves() {
    assert_eq!(ChannelDataDecodeError::Channel(StringDecodeError::BadLength).to_string(), "channel bad length");
    assert_eq!(ChannelDataDecodeError::Brand(StringDecodeError::InvalidUtf8).to_string(), "brand invalid utf-8");
}

#[test]
fn usernames_hold_at_most_sixteen_characters() {
    assert_eq!(bounded_username("abcdefghijklmnop".to_owned()).ok().unwrap(), "abcdefghijklmnop");
    assert_eq!(bounded_username("ééééééééééééééé".to_owned()).ok().unwrap().chars().count(), 15);
    assert!(matches!(bounded_username("abcdefghijklmnopq".to_owned()), Err(ProfileDeserError::UsernameTooLong)));
    let mut f = ProfileFields::new();
    f.uuid = Some(1);
    f.username = Some("abcdefghijklmnopq".to_owned());
    assert!(matches!(f.finish(), Err(ProfileDeserError::UsernameTooLong)));
}

#[test]
fn light_level_get_is_itself() {
    let l = LightLevel::new(9).unwrap();
    assert_eq!(l.get(), l);
    assert!(LightLevel::new(3).unwrap() < LightLevel::new(4).unwrap());
}

#[test]
fn profile_uuids_are_read_from_text() {
    assert_eq!(
        profile_uuid("069a79f4-44e9-4726-a5be-fca90e38aaf5"),
        Ok(0x069a79f444e94726a5befca90e38aaf5)
    );
    assert_eq!(profile_uuid("069a79f444e94726a5befca90e38aaf5"), Ok(0x069a79f444e94726a5befca90e38aaf5));
    assert_eq!(profile_uuid("not a uuid"), Err(ProfileDeserError::InvalidUuid));
}
