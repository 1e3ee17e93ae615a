//! The background box of a text box.
use vstd::prelude::*;

verus! {

#[verifier::external_type_specification]
#[verifier::external_body]
pub struct ExLimits(iced_graphics::core::layout::Limits);

#[verifier::external_type_specification]
#[verifier::external_body]
pub struct ExLength(iced_graphics::core::Length);

#[verifier::external_type_specification]
#[verifier::external_body]
pub struct ExNode(iced_graphics::core::layout::Node);

#[verifier::external_type_specification]
#[verifier::external_body]
#[verifier::reject_recursive_types(T)]
pub struct ExSize<T>(iced_graphics::core::Size<T>);

/// The size that limits give to a requested width and height, for a box
/// with no content of its own.
pub uninterp spec fn resolved_box(
    limits: iced_graphics::core::layout::Limits,
    width: iced_graphics::core::Length,
    height: iced_graphics::core::Length,
) -> iced_graphics::core::Size;

/// A layout node of the given size, without children.
pub uninterp spec fn leaf_of(size: iced_graphics::core::Size) -> iced_graphics::core::layout::Node;

/// Relies on iced's `layout::Limits::resolve`: the size that the limits
/// give to the requested width and height of a box with no content of its
/// own.
#[verifier::external_body]
fn resolve_empty(
    limits: &iced_graphics::core::layout::Limits,
    width: iced_graphics::core::Length,
    height: iced_graphics::core::Length,
) -> (r: iced_graphics::core::Size)
    ensures
        r == resolved_box(*limits, width, height),
{
    limits.resolve(width, height, iced_graphics::core::Size::ZERO)
}

/// Relies on iced's `layout::Node::new`: a node of the given size without
/// children.
#[verifier::external_body]
fn leaf_node(size: iced_graphics::core::Size) -> (r: iced_graphics::core::layout::Node)
    ensures
        r == leaf_of(size),
{
    iced_graphics::core::layout::Node::new(size)
}

/// The background box: all the space that the limits give to the requested
/// width and height, whatever the text.
pub fn layout_background(
    limits: &iced_graphics::core::layout::Limits,
    width: iced_graphics::core::Length,
    height: iced_graphics::core::Length,
) -> (r: iced_graphics::core::layout::Node)
    ensures
        r == leaf_of(resolved_box(*limits, width, height)),
{
    leaf_node(resolve_empty(limits, width, height))
}

} // verus!
