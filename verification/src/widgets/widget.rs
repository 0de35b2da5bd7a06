//! What every widget can say of itself: where it stands, and which elements
//! it is made of.

use vstd::prelude::*;
use crate::widgets::render_info::{render_views, RenderInfo, RenderInfoView};

verus! {

pub trait Widget {
    /// Where the widget stands in the frame.
    spec fn position(&self) -> (u16, u16);

    /// The elements of the widget, in the order in which they are drawn.
    spec fn elements(&self) -> Seq<RenderInfoView>;

    /// Where the widget stands in the frame.
    fn get_widget_position(&self) -> (position: (u16, u16))
        ensures
            position == self.position(),
    ;

    /// The elements of the widget, in the order in which they are drawn.
    fn draw(&self) -> (elements: Vec<RenderInfo>)
        ensures
            render_views(elements@) == self.elements(),
    ;
}

} // verus!
