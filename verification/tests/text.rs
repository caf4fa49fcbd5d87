use mc_codec::data::Identifier;
use mc_codec::error::DecodeError;
use mc_codec::text_component::{parse_hex_u32, unpack_argb, DialogKind, TextComponentColor};

#[test]
fn argb_channel_bytes() {
    // alpha 255, red 0, green 0, blue 255
    assert_eq!(unpack_argb(0xff0000ff), (255, 0, 0, 255));
    assert_eq!(unpack_argb(0x01020304), (1, 2, 3, 4));
    assert_eq!(unpack_argb(0), (0, 0, 0, 0));
}

#[test]
fn hex_parsing_exact_values() {
    assert_eq!(parse_hex_u32("ff"), Some(255));
    assert_eq!(parse_hex_u32("+1A2b"), Some(0x1a2b));
    assert_eq!(parse_hex_u32("00000000ff"), Some(255));
    assert_eq!(parse_hex_u32("ffffffff"), Some(u32::MAX));
    assert_eq!(parse_hex_u32(""), None);
    assert_eq!(parse_hex_u32("+"), None);
    assert_eq!(parse_hex_u32("fg"), None);
    // One digit past the 32-bit range.
    assert_eq!(parse_hex_u32("100000000"), None);
}

#[test]
fn named_colors_accepted() {
    for name in [
        "black",
        "dark_blue",
        "dark_green",
        "dark_aqua",
        "dark_red",
        "dark_purple",
        "gold",
        "gray",
        "dark_gray",
        "blue",
        "green",
        "aqua",
        "red",
        "light_purple",
        "yellow",
        "white",
    ] {
        let c = TextComponentColor::from_str(name).unwrap();
        assert_eq!(c.0, name);
    }
}

#[test]
fn custom_color_text() {
    assert!(TextComponentColor::from_str("#<1ec49a>").is_ok());
    assert!(TextComponentColor::from_str("#<+ff>").is_ok());
    assert!(TextComponentColor::from_str("#<>").is_err());
    assert!(TextComponentColor::from_str("#<zz>").is_err());
    assert!(TextComponentColor::from_str("#<ff").is_err());
    assert!(TextComponentColor::from_str("#<fffffffff>").is_err());
    assert!(matches!(
        TextComponentColor::from_str("crimson").unwrap_err(),
        DecodeError::InvalidEnumText("TextComponentColor", text) if text == "crimson"
    ));
}

#[test]
fn dialog_kind_identifier() {
    let id = DialogKind::MultiAction.to_identifier();
    assert_eq!(id.to_text(), "minecraft:multi_action");
    assert!(matches!(DialogKind::try_from(id), Ok(DialogKind::MultiAction)));
    let wrong_namespace = Identifier::from_str("mymod:notice").unwrap();
    assert!(matches!(
        DialogKind::try_from(wrong_namespace).unwrap_err(),
        DecodeError::InvalidEnumText("DialogKind", ns) if ns == "mymod"
    ));
    let wrong_path = Identifier::from_str("warning").unwrap();
    assert!(matches!(
        DialogKind::try_from(wrong_path).unwrap_err(),
        DecodeError::InvalidEnumText("DialogKind", path) if path == "warning"
    ));
}
