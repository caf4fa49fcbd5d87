//! Text-component pieces that carry algorithmic content: event actions,
//! dialog kinds, the packed shadow color, and the color-name grammar.

use vstd::prelude::*;

use crate::data::Identifier;
use crate::error::DecodeError;
use crate::str_eq;

verus! {

/// Where an inline data query reads from.
#[derive(Clone, Copy, Debug, PartialEq, Eq, Structural)]
pub enum NbtSource {
    Block,
    Entity,
    Storage,
}

/// A scoreboard reference inside a text component.
#[derive(Clone, Debug)]
pub struct Score {
    pub name: String,
    pub objective: String,
}

/// What clicking a text component does.
#[derive(Clone, Debug)]
pub struct ClickEvent {
    pub action: ClickEventAction,
    pub value: String,
}

/// The kinds of click actions a text component supports.
#[derive(Clone, Copy, Debug, PartialEq, Eq, Structural)]
pub enum ClickEventAction {
    OpenUrl,
    OpenFile,
    RunCommand,
    SuggestCommand,
    ChangePage,
    CopyToClipboard,
}

/// The kinds of dialog a text component can open, carried as an identifier
/// in the default namespace.
#[derive(Clone, Copy, Debug, PartialEq, Eq, Structural)]
pub enum DialogKind {
    Notice,
    Confirmation,
    MultiAction,
    ServerLinks,
    DialogList,
}

impl DialogKind {
    /// The identifier path naming this kind.
    pub open spec fn path_name(self) -> Seq<char> {
        match self {
            DialogKind::Notice => "notice"@,
            DialogKind::Confirmation => "confirmation"@,
            DialogKind::MultiAction => "multi_action"@,
            DialogKind::ServerLinks => "server_links"@,
            DialogKind::DialogList => "dialog_list"@,
        }
    }

    /// The identifier form: the default namespace and this kind's name.
    pub fn to_identifier(self) -> (r: Identifier)
        ensures
            r.namespace@ == "minecraft"@,
            r.path@ == self.path_name(),
    {
        let path = match self {
            DialogKind::Notice => String::from_str("notice"),
            DialogKind::Confirmation => String::from_str("confirmation"),
            DialogKind::MultiAction => String::from_str("multi_action"),
            DialogKind::ServerLinks => String::from_str("server_links"),
            DialogKind::DialogList => String::from_str("dialog_list"),
        };
        Identifier { namespace: String::from_str("minecraft"), path }
    }

    /// Decode an identifier: the namespace must be the default one, and the
    /// path must be one of the known names. The error carries whichever
    /// part was rejected.
    pub fn try_from(value: Identifier) -> (r: Result<DialogKind, DecodeError>)
        ensures
            match r {
                Ok(v) => value.namespace@ == "minecraft"@ && v.path_name() == value.path@,
                Err(e) => if value.namespace@ != "minecraft"@ {
                    e matches DecodeError::InvalidEnumText(label, text) && label@ == "DialogKind"@
                        && text@ == value.namespace@
                } else {
                    (value.path@ != "notice"@ && value.path@ != "confirmation"@ && value.path@
                        != "multi_action"@ && value.path@ != "server_links"@ && value.path@
                        != "dialog_list"@) && (e matches DecodeError::InvalidEnumText(label, text)
                        && label@ == "DialogKind"@ && text@ == value.path@)
                },
            },
    {
        if !str_eq(value.namespace.as_str(), "minecraft") {
            return Err(DecodeError::InvalidEnumText("DialogKind", value.namespace));
        }
        if str_eq(value.path.as_str(), "notice") {
            Ok(DialogKind::Notice)
        } else if str_eq(value.path.as_str(), "confirmation") {
            Ok(DialogKind::Confirmation)
        } else if str_eq(value.path.as_str(), "multi_action") {
            Ok(DialogKind::MultiAction)
        } else if str_eq(value.path.as_str(), "server_links") {
            Ok(DialogKind::ServerLinks)
        } else if str_eq(value.path.as_str(), "dialog_list") {
            Ok(DialogKind::DialogList)
        } else {
            Err(DecodeError::InvalidEnumText("DialogKind", value.path))
        }
    }
}

/// Split a packed 32-bit color into its channel bytes: alpha in bits 24 to
/// 31, then red, green, and blue down to the low byte. Normalizing the
/// bytes to unit-interval floats is the caller's concern.
pub fn unpack_argb(value: u32) -> (r: (u8, u8, u8, u8))
    ensures
        r.0 == value / 0x100_0000,
        r.1 == (value / 0x1_0000) % 256,
        r.2 == (value / 0x100) % 256,
        r.3 == value % 256,
{
    let a = (value / 0x100_0000) as u8;
    let red = ((value / 0x1_0000) % 256) as u8;
    let g = ((value / 0x100) % 256) as u8;
    let b = (value % 256) as u8;
    (a, red, g, b)
}

/// Whether `c` is a hexadecimal digit.
pub open spec fn is_hex_digit(c: char) -> bool {
    ('0' as u32 <= c as u32 <= '9' as u32) || ('a' as u32 <= c as u32 <= 'f' as u32) || (
    'A' as u32 <= c as u32 <= 'F' as u32)
}

/// The value of a hexadecimal digit (meaningful only on digits).
pub open spec fn hex_digit_value(c: char) -> int {
    if '0' as u32 <= c as u32 <= '9' as u32 {
        c as u32 - '0' as u32
    } else if 'a' as u32 <= c as u32 <= 'f' as u32 {
        c as u32 - 'a' as u32 + 10
    } else {
        c as u32 - 'A' as u32 + 10
    }
}

/// Whether every character of `s` is a hexadecimal digit.
pub open spec fn all_hex_digits(s: Seq<char>) -> bool {
    forall|i: int| 0 <= i < s.len() ==> is_hex_digit(#[trigger] s[i])
}

/// The number written by a sequence of hexadecimal digits, most significant
/// first.
pub open spec fn hex_value(s: Seq<char>) -> int
    decreases s.len(),
{
    if s.len() == 0 {
        0
    } else {
        16 * hex_value(s.drop_last()) + hex_digit_value(s.last())
    }
}

/// The digit run of hexadecimal text: everything after an optional leading
/// plus sign.
pub open spec fn hex_digits_of(s: Seq<char>) -> Seq<char> {
    if s.len() > 0 && s[0] == '+' {
        s.drop_first()
    } else {
        s
    }
}

/// Whether `s` is hexadecimal text for a 32-bit unsigned integer: an
/// optional leading plus sign, then at least one digit, writing a value
/// below `2^32`.
pub open spec fn is_hex_u32_text(s: Seq<char>) -> bool {
    &&& hex_digits_of(s).len() >= 1
    &&& all_hex_digits(hex_digits_of(s))
    &&& hex_value(hex_digits_of(s)) < 0x1_0000_0000
}

/// A digit run writes a nonnegative number.
proof fn lemma_hex_value_nonneg(s: Seq<char>)
    requires
        all_hex_digits(s),
    ensures
        hex_value(s) >= 0,
    decreases s.len(),
{
    if s.len() > 0 {
        assert(all_hex_digits(s.drop_last())) by {
            assert(forall|i: int|
                0 <= i < s.len() - 1 ==> #[trigger] s.drop_last()[i] == s[i]);
        }
        lemma_hex_value_nonneg(s.drop_last());
    }
}

/// Appending digits never shrinks the number a digit run writes.
proof fn lemma_hex_value_prefix(s: Seq<char>, i: int)
    requires
        all_hex_digits(s),
        0 <= i <= s.len(),
    ensures
        hex_value(s) >= hex_value(s.subrange(0, i)),
    decreases s.len() - i,
{
    if i == s.len() {
        assert(s.subrange(0, i) =~= s);
    } else {
        let shorter = s.subrange(0, i);
        let longer = s.subrange(0, i + 1);
        assert(longer.drop_last() =~= shorter);
        assert(all_hex_digits(shorter)) by {
            assert(forall|j: int| 0 <= j < i ==> #[trigger] shorter[j] == s[j]);
        }
        lemma_hex_value_nonneg(shorter);
        assert(hex_value(longer) >= hex_value(shorter));
        lemma_hex_value_prefix(s, i + 1);
    }
}

/// The value of one hexadecimal digit character, or nothing when `c` is
/// not a digit.
fn hex_digit(c: char) -> (r: Option<u8>)
    ensures
        match r {
            Some(d) => is_hex_digit(c) && d == hex_digit_value(c) && d < 16,
            None => !is_hex_digit(c),
        },
{
    let u = c as u32;
    if u >= 48 && u <= 57 {
        proof {
            assert('0' as u32 == 48 && '9' as u32 == 57 && 'a' as u32 == 97 && 'f' as u32 == 102
                && 'A' as u32 == 65 && 'F' as u32 == 70);
        }
        Some((u - 48) as u8)
    } else if u >= 97 && u <= 102 {
        Some((u - 97 + 10) as u8)
    } else if u >= 65 && u <= 70 {
        Some((u - 65 + 10) as u8)
    } else {
        proof {
            assert('0' as u32 == 48 && '9' as u32 == 57 && 'a' as u32 == 97 && 'f' as u32 == 102
                && 'A' as u32 == 65 && 'F' as u32 == 70);
        }
        None
    }
}

/// Parse hexadecimal text as a 32-bit unsigned integer, accepting an
/// optional leading plus sign, as the color grammar does; text writing a
/// value `2^32` or larger is rejected.
pub fn parse_hex_u32(s: &str) -> (r: Option<u32>)
    ensures
        match r {
            Some(v) => is_hex_u32_text(s@) && v == hex_value(hex_digits_of(s@)),
            None => !is_hex_u32_text(s@),
        },
{
    let len = s.unicode_len();
    let start: usize = if len > 0 && s.get_char(0) == '+' {
        1
    } else {
        0
    };
    let ghost digits = hex_digits_of(s@);
    proof {
        assert(digits.len() == len - start);
        assert(forall|k: int| 0 <= k < digits.len() ==> #[trigger] digits[k] == s@[start + k]);
    }
    if start == len {
        return None;
    }
    let mut acc: u64 = 0;
    let mut i: usize = start;
    while i < len
        invariant
            start <= i <= len,
            len == s@.len(),
            start <= 1,
            digits == hex_digits_of(s@),
            digits.len() == len - start,
            forall|k: int| 0 <= k < digits.len() ==> #[trigger] digits[k] == s@[start + k],
            all_hex_digits(digits.subrange(0, i - start)),
            acc == hex_value(digits.subrange(0, i - start)),
            acc <= 0xffff_ffff,
        decreases len - i,
    {
        let ghost done = digits.subrange(0, i - start);
        let c = s.get_char(i);
        let d = match hex_digit(c) {
            Some(d) => d,
            None => {
                proof {
                    assert(digits[i - start] == c);
                    assert(!all_hex_digits(digits));
                }
                return None;
            },
        };
        proof {
            assert(digits.subrange(0, i + 1 - start).drop_last() =~= done);
            assert(digits.subrange(0, i + 1 - start).last() == c);
        }
        acc = acc * 16 + (d as u64);
        if acc > 0xffff_ffff {
            proof {
                if all_hex_digits(digits) {
                    lemma_hex_value_prefix(digits, i + 1 - start);
                }
            }
            return None;
        }
        i = i + 1;
    }
    proof {
        assert(digits.subrange(0, len - start) =~= digits);
    }
    Some(acc as u32)
}

/// Whether `s` is one of the sixteen named colors.
pub open spec fn is_named_color(s: Seq<char>) -> bool {
    ||| s == "black"@
    ||| s == "dark_blue"@
    ||| s == "dark_green"@
    ||| s == "dark_aqua"@
    ||| s == "dark_red"@
    ||| s == "dark_purple"@
    ||| s == "gold"@
    ||| s == "gray"@
    ||| s == "dark_gray"@
    ||| s == "blue"@
    ||| s == "green"@
    ||| s == "aqua"@
    ||| s == "red"@
    ||| s == "light_purple"@
    ||| s == "yellow"@
    ||| s == "white"@
}

/// Whether `s` is custom-color text: a number sign and an angle bracket,
/// hexadecimal text for a 32-bit value, and a closing angle bracket.
pub open spec fn is_hex_color(s: Seq<char>) -> bool {
    &&& s.len() >= 3
    &&& s[0] == '#'
    &&& s[1] == '<'
    &&& s.last() == '>'
    &&& is_hex_u32_text(s.subrange(2, s.len() - 1))
}

/// A text-component color: either one of the sixteen names or custom-color
/// text, kept in its textual form.
#[derive(Clone, Debug)]
pub struct TextComponentColor(pub String);

impl TextComponentColor {
    /// Parse color text; exactly the sixteen names and well-formed
    /// custom-color text are accepted, and kept verbatim.
    pub fn from_str(s: &str) -> (r: Result<TextComponentColor, DecodeError>)
        ensures
            match r {
                Ok(c) => (is_named_color(s@) || is_hex_color(s@)) && c.0@ == s@,
                Err(e) => !is_named_color(s@) && !is_hex_color(s@) && (
                e matches DecodeError::InvalidEnumText(label, text) && label@
                    == "TextComponentColor"@ && text@ == s@),
            },
    {
        if str_eq(s, "black") || str_eq(s, "dark_blue") || str_eq(s, "dark_green") || str_eq(
            s,
            "dark_aqua",
        ) || str_eq(s, "dark_red") || str_eq(s, "dark_purple") || str_eq(s, "gold") || str_eq(
            s,
            "gray",
        ) || str_eq(s, "dark_gray") || str_eq(s, "blue") || str_eq(s, "green") || str_eq(s, "aqua")
            || str_eq(s, "red") || str_eq(s, "light_purple") || str_eq(s, "yellow") || str_eq(
            s,
            "white",
        ) {
            return Ok(TextComponentColor(s.to_owned()));
        }
        let len = s.unicode_len();
        if len >= 3 && s.get_char(0) == '#' && s.get_char(1) == '<' && s.get_char(len - 1) == '>' {
            let middle = s.substring_char(2, len - 1);
            if parse_hex_u32(middle).is_some() {
                return Ok(TextComponentColor(s.to_owned()));
            }
        }
        Err(DecodeError::InvalidEnumText("TextComponentColor", s.to_owned()))
    }
}

} // verus!
