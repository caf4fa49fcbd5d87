use mc_codec::data::entity::mob::horse;
use mc_codec::data::entity::McUuid;
use mc_codec::data::entity::mob::rabbit::RabbitType;
use mc_codec::data::entity::mob::tropical_fish::{Pattern, Variant};
use mc_codec::data::entity::mob::{armadillo::ArmadilloState, frog, wolf, Color, I8Bool};
use mc_codec::data::player::{GameType, Profile, ProfileInner};
use mc_codec::data::entity::mob::villager::Level;
use mc_codec::data::{CoordinateKind, Identifier, Selector};
use mc_codec::error::DecodeError;
use mc_codec::OneOf;

#[test]
fn identifier_without_namespace() {
    let id = Identifier::from_str("stone").unwrap();
    assert_eq!(id.namespace, "minecraft");
    assert_eq!(id.path, "stone");
}

#[test]
fn identifier_with_namespace() {
    let id = Identifier::from_str("mymod:thing").unwrap();
    assert_eq!(id.namespace, "mymod");
    assert_eq!(id.path, "thing");
}

#[test]
fn identifier_two_colons_rejected() {
    let err = Identifier::from_str("a:b:c").unwrap_err();
    assert_eq!(err, DecodeError::InvalidIdentifierGrammar);
}

#[test]
fn identifier_serialized_form() {
    let id = Identifier::from_str("mymod:thing").unwrap();
    assert_eq!(id.to_text(), "mymod:thing");
    let plain = Identifier::from_str("stone").unwrap();
    assert_eq!(plain.to_text(), "minecraft:stone");
}

#[test]
fn selector_round_trip() {
    for text in ["@p", "@r", "@a", "@e", "@s", "@n"] {
        let sel = Selector::from_str(text).unwrap();
        assert_eq!(sel.to_text(), text);
    }
    assert!(matches!(
        Selector::from_str("@x").unwrap_err(),
        DecodeError::InvalidEnumText("Selector", _)
    ));
}

#[test]
fn coordinate_kind_prefixes() {
    assert_eq!(CoordinateKind::Absolute.prefix(), "");
    assert_eq!(CoordinateKind::Relative.prefix(), "~");
    assert_eq!(CoordinateKind::Local.prefix(), "^");
}

#[test]
fn dye_color_ordinals() {
    assert!(matches!(Color::try_from(0), Ok(Color::White)));
    assert!(matches!(Color::try_from(15), Ok(Color::Black)));
    assert_eq!(Color::Red.to_i8(), 14);
    assert_eq!(
        Color::try_from(16).unwrap_err(),
        DecodeError::InvalidEnumOrdinal("Color", 16)
    );
    assert_eq!(
        Color::try_from(-1).unwrap_err(),
        DecodeError::InvalidEnumOrdinal("Color", -1)
    );
}

#[test]
fn i8_bool_wire() {
    assert_eq!(I8Bool { value: true }.to_i8(), 1);
    assert_eq!(I8Bool { value: false }.to_i8(), 0);
    assert!(I8Bool::from_i8(-3).value);
    assert!(!I8Bool::from_i8(0).value);
}

#[test]
fn horse_colors_pack() {
    let pair = horse::HorseColors {
        color: horse::Color::Brown,
        markings: horse::Markings::White,
    };
    assert_eq!(pair.to_i32(), 3 | (1 << 8));
    let back = horse::HorseColors::try_from(3 | (1 << 8)).unwrap();
    assert!(matches!(back.color, horse::Color::Brown));
    assert!(matches!(back.markings, horse::Markings::White));
}

#[test]
fn horse_colors_validate_each_byte() {
    // Low byte out of the color domain: the color error surfaces first.
    assert_eq!(
        horse::HorseColors::try_from(7).unwrap_err(),
        DecodeError::InvalidEnumOrdinal("Color", 7)
    );
    // Valid color, markings byte out of domain.
    assert_eq!(
        horse::HorseColors::try_from(2 | (5 << 8)).unwrap_err(),
        DecodeError::InvalidEnumOrdinal("Markings", 5)
    );
}

#[test]
fn fish_pattern_ordinal_versus_packed() {
    // Reading takes the plain ordinal; writing emits the packed size and
    // shape bytes. The two are intentionally different integers.
    assert!(matches!(Pattern::from_i16(2), Ok(Some(Pattern::Stripey))));
    assert_eq!(Pattern::Stripey.to_i16(), 1 | (1 << 8));
    assert_eq!(Pattern::Kob.to_i16(), 0);
    assert_eq!(Pattern::Spotty.to_i16(), 5 << 8);
    assert!(matches!(Pattern::from_i16(12), Ok(None)));
    assert_eq!(
        Pattern::from_i16(-1).unwrap_err(),
        DecodeError::InvalidEnumOrdinal("Pattern", -1)
    );
}

#[test]
fn fish_variant_packs_colors() {
    let packed = 5 | (14 << 16) | (2 << 24);
    let v = Variant::try_from(packed).unwrap();
    assert!(matches!(v.pattern, Some(Pattern::Snooper)));
    assert!(matches!(v.base_color, Color::Red));
    assert!(matches!(v.pattern_color, Color::Magenta));
    assert_eq!(
        v.to_i32(),
        Pattern::Snooper.to_i16() as i32 | (14 << 16) | (2 << 24)
    );
}

#[test]
fn fish_variant_rejects_bad_color() {
    let packed = 1 | (99 << 16);
    assert_eq!(
        Variant::try_from(packed).unwrap_err(),
        DecodeError::InvalidEnumOrdinal("Color", 99)
    );
}

#[test]
fn rabbit_type_wire() {
    assert!(matches!(RabbitType::try_from(Some(99)), Ok(RabbitType::Evil)));
    assert!(matches!(RabbitType::try_from(None), Ok(RabbitType::Toast)));
    assert_eq!(RabbitType::try_from(Some(6)).unwrap_err(),
        DecodeError::InvalidEnumOrdinal("RabbitType", 6));
    assert_eq!(RabbitType::Toast.to_wire(), None);
    assert_eq!(RabbitType::Salt.to_wire(), Some(5));
}

#[test]
fn armadillo_state_falls_back_to_idle() {
    assert!(matches!(ArmadilloState::from_str("scared"), ArmadilloState::Scared));
    assert!(matches!(ArmadilloState::from_str("unrolling"), ArmadilloState::Unrolling));
    assert!(matches!(ArmadilloState::from_str("idle"), ArmadilloState::Idle));
    assert!(matches!(ArmadilloState::from_str("anything"), ArmadilloState::Idle));
}

#[test]
fn frog_variant_identifier() {
    let id = frog::Variant::Warm.to_identifier();
    assert_eq!(id.to_text(), "minecraft:warm");
    assert!(matches!(frog::Variant::try_from(id), Ok(frog::Variant::Warm)));
    let bad = Identifier::from_str("hot").unwrap();
    assert!(matches!(
        frog::Variant::try_from(bad).unwrap_err(),
        DecodeError::InvalidEnumText("Variant", path) if path == "hot"
    ));
}

#[test]
fn wolf_variant_identifier() {
    let id = wolf::Variant::Woods.to_identifier();
    assert_eq!(id.to_text(), "minecraft:woods");
    assert!(matches!(wolf::Variant::try_from(id), Ok(wolf::Variant::Woods)));
    // Only the path is inspected, as in the persisted format.
    let odd = Identifier::from_str("mymod:rusty").unwrap();
    assert!(matches!(wolf::Variant::try_from(odd), Ok(wolf::Variant::Rusty)));
}

#[test]
fn game_type_ordinals() {
    assert!(matches!(GameType::try_from(3), Ok(GameType::Spectator)));
    assert_eq!(GameType::Creative.to_i32(), 1);
    assert_eq!(
        GameType::try_from(4).unwrap_err(),
        DecodeError::InvalidEnumOrdinal("GameType", 4)
    );
}

#[test]
fn villager_level_starts_at_one() {
    assert!(matches!(Level::try_from(1), Ok(Level::Novice)));
    assert!(matches!(Level::try_from(5), Ok(Level::Master)));
    assert_eq!(
        Level::try_from(0).unwrap_err(),
        DecodeError::InvalidEnumOrdinal("Level", 0)
    );
}

#[test]
fn profile_from_bare_name() {
    let p = Profile::from_one_of(OneOf::Right("alex".to_string()));
    assert_eq!(p.0.name.as_deref(), Some("alex"));
    assert!(p.0.id.is_none());
    assert!(p.0.properties.is_empty());
    let full = ProfileInner {
        name: None,
        id: None,
        texture: None,
        cape: None,
        model: None,
        properties: vec![],
    };
    let q = Profile::from_one_of(OneOf::Left(full));
    assert!(q.0.name.is_none());
}

#[test]
fn uuid_sections_round_trip() {
    let bytes: [u8; 16] = [
        0, 0, 0, 1, 0xff, 0xff, 0xff, 0xff, 0x12, 0x34, 0x56, 0x78, 0x80, 0, 0, 0,
    ];
    let id = McUuid::from_bytes(&bytes);
    assert_eq!(id.sections, [1, -1, 0x12345678, i32::MIN]);
    assert_eq!(id.to_bytes(), bytes);
}
