//! What every controller can do: make the view of its data.

use vstd::prelude::*;
use crate::views::test_view::TestView;

verus! {

pub trait Controller {
    /// The view that the controller makes.
    spec fn rendered(&self, view: TestView) -> bool;

    /// The view of the controller's data.
    fn render(&self) -> (view: TestView)
        ensures
            self.rendered(view),
    ;
}

} // verus!
