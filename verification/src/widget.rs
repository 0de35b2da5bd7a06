//! What every widget can do: draw itself at a place, or as the footer.

use vstd::prelude::*;
use crate::terminal_context::{input_footer, DrawCommandView, TerminalContext};

verus! {

pub trait Widget {
    /// What the widget draws at a place.
    spec fn drawing(&self, pos_x: u16, pos_y: u16) -> Seq<DrawCommandView>;

    /// The text in the input line when the widget is the footer.
    spec fn footer_text(&self) -> Seq<char>;

    /// Draws the widget at a position, which has to lie in the frame.
    fn display(&self, context: &mut TerminalContext, pos_x: u16, pos_y: u16)
        requires
            old(context).well_formed(),
            pos_x <= old(context).width(),
            pos_y <= old(context).height(),
        ensures
            final(context).drew_all(old(context), self.drawing(pos_x, pos_y)),
    ;

    /// Draws the widget as the footer of the frame: an input line with the
    /// widget's text under a heading.
    fn display_as_footer(&self, context: &mut TerminalContext, heading: &String)
        requires
            old(context).well_formed(),
        ensures
            final(context).drew_all(
                old(context),
                input_footer(heading@, self.footer_text(), old(context).width(), old(context).height()),
            ),
    ;
}

} // verus!
