//! Display-entity record shapes (the float-valued transform lives with
//! the callers that own the float math).

use vstd::prelude::*;

verus! {

/// How the lines of a text display are aligned.
#[derive(Clone, Copy, Debug, PartialEq, Eq, Structural, Default)]
pub enum TextAlignment {
    #[default]
    Center,
    Left,
    Right,
}

/// The model transform context an item display uses.
#[derive(Clone, Copy, Debug, PartialEq, Eq, Structural, Default)]
pub enum ItemDisplay {
    #[default]
    NoContext,
    ThirdpersonLefthand,
    ThirdpersonRighthand,
    FirstpersonLefthand,
    FirstpersonRighthand,
    Head,
    Gui,
    Ground,
    Fixed,
}

/// How a display billboard pivots toward the viewer.
#[derive(Clone, Copy, Debug, PartialEq, Eq, Structural, Default)]
pub enum Pivot {
    #[default]
    Fixed,
    Vertical,
    Horizontal,
    Center,
}

/// Fixed light levels overriding the natural ones.
#[derive(Clone, Copy, Debug, PartialEq, Eq, Structural)]
pub struct Brightness {
    pub block: i32,
    pub sky: i32,
}

/// The default line width of a text display.
pub fn default_line_width() -> (r: i32)
    ensures
        r == 200,
{
    200
}

/// The default glow color override, meaning "use the team color".
pub fn default_glow_color_override() -> (r: i32)
    ensures
        r == -1,
{
    -1
}

} // verus!
