//! One element of a widget: a text, where it stands in the widget, and how
//! it is set off.

use vstd::prelude::*;

verus! {

/// How an element is set off from the rest.
#[derive(Clone, Copy, Debug, PartialEq, Eq)]
pub enum RenderStyle {
    Default,
    Bold,
    Underline,
    Inverse,
}

/// One element of a widget. The position counts from the widget's own.
#[derive(Clone, Debug)]
pub struct RenderInfo {
    pub pos_x: u16,
    pub pos_y: u16,
    pub content: String,
    pub style: RenderStyle,
}

/// What a `RenderInfo` holds.
pub struct RenderInfoView {
    pub pos_x: u16,
    pub pos_y: u16,
    pub content: Seq<char>,
    pub style: RenderStyle,
}

impl View for RenderInfo {
    type V = RenderInfoView;

    open spec fn view(&self) -> RenderInfoView {
        RenderInfoView { pos_x: self.pos_x, pos_y: self.pos_y, content: self.content@, style: self.style }
    }
}

/// What each of the elements holds.
pub open spec fn render_views(elements: Seq<RenderInfo>) -> Seq<RenderInfoView> {
    elements.map_values(|e: RenderInfo| e@)
}

} // verus!
