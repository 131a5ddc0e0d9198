//! Kinds that the interface tells apart, and the style classes of its
//! widgets.
use vstd::prelude::*;

verus! {

/// What is saved to disk.
#[derive(Clone, Debug, PartialEq, Eq, PartialOrd, Ord, Hash)]
pub enum SaveKind {
    Config,
    Cache,
}

/// The kinds of dialog.
#[derive(Clone, Copy, Debug, PartialEq, Eq)]
pub enum ModalVariant {
    Info,
    Confirm,
    Editor,
}

/// The tabs of a grid's settings dialog.
#[derive(Debug, Default, Clone, Copy, PartialEq, Eq)]
pub enum GridTab {
    #[default]
    Sources,
    Layout,
}

/// The kinds of media that players show.
#[derive(Debug, Clone, Copy, PartialEq, Eq, Hash)]
pub enum Category {
    Other,
    Image,
    Audio,
    Video,
}

/// The style class of drop-down menus.
#[derive(Clone, Copy, Debug, Default)]
pub struct Menu;

/// The style class of sliders.
#[derive(Clone, Copy, Debug, Default)]
pub struct Slider;

/// The style class of vector images.
#[derive(Clone, Copy, Debug, Default)]
pub struct Svg;

/// The style class of rules.
#[derive(Clone, Copy, Debug, Default)]
pub struct Rule;

} // verus!
