//! The appearance of a text box.
use vstd::prelude::*;

verus! {

#[verifier::external_type_specification]
#[verifier::external_body]
pub struct ExBackground(iced_graphics::core::Background);

#[verifier::external_type_specification]
#[verifier::external_body]
pub struct ExBorder(iced_graphics::core::Border);

#[verifier::external_type_specification]
#[verifier::external_body]
pub struct ExColor(iced_graphics::core::Color);

/// The appearance of a text box.
#[derive(Debug, Clone, Copy, PartialEq)]
pub struct Style {
    /// The background of the box.
    pub background: iced_graphics::core::Background,
    /// The border of the box.
    pub border: iced_graphics::core::Border,
    /// The color of the box's icon.
    pub icon: iced_graphics::core::Color,
    /// The color of the box's placeholder.
    pub placeholder: iced_graphics::core::Color,
    /// The color of the text, if the style sets one.
    pub value: Option<iced_graphics::core::Color>,
    /// The color of the selection.
    pub selection: iced_graphics::core::Color,
}

} // verus!
