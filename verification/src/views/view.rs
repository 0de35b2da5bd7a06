//! What every view can do: hand out its widgets.

use vstd::prelude::*;
use crate::widgets::label::Label;

verus! {

pub trait WidgetView {
    /// The widgets of the view, in the order in which they are drawn.
    spec fn widgets(&self) -> Seq<Label>;

    /// The widgets of the view, in the order in which they are drawn.
    fn render(&self) -> (widgets: &Vec<Label>)
        ensures
            widgets@ == self.widgets(),
    ;
}

} // verus!
