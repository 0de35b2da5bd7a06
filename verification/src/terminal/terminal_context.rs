//! A surface on which views are rendered: each element of each widget gets
//! its place on the terminal.

use vstd::prelude::*;
use crate::views::view::WidgetView;
use crate::widgets::render_info::{RenderInfo, RenderInfoView, RenderStyle};
use crate::widgets::widget::Widget;

verus! {

/// An element with its place on the terminal.
#[derive(Clone, Debug)]
pub struct PlacedElement {
    pub x: u32,
    pub y: u32,
    pub content: String,
    pub style: RenderStyle,
}

/// What a `PlacedElement` holds.
pub struct PlacedElementView {
    pub x: u32,
    pub y: u32,
    pub content: Seq<char>,
    pub style: RenderStyle,
}

impl View for PlacedElement {
    type V = PlacedElementView;

    open spec fn view(&self) -> PlacedElementView {
        PlacedElementView { x: self.x, y: self.y, content: self.content@, style: self.style }
    }
}

/// An element of a widget, placed: the origin of the surface, the position
/// of the widget and the position of the element in it add up.
pub open spec fn placed(origin: (u16, u16), widget_pos: (u16, u16), element: RenderInfoView) -> PlacedElementView {
    PlacedElementView {
        x: (origin.0 + widget_pos.0 + element.pos_x) as u32,
        y: (origin.1 + widget_pos.1 + element.pos_y) as u32,
        content: element.content,
        style: element.style,
    }
}

/// The elements of a widget, placed.
pub open spec fn placed_elements(origin: (u16, u16), widget_pos: (u16, u16), elements: Seq<RenderInfoView>) -> Seq<
    PlacedElementView,
> {
    elements.map_values(|e: RenderInfoView| placed(origin, widget_pos, e))
}

/// The elements of widgets, placed, one widget after the other.
pub open spec fn placed_widgets<W: Widget>(origin: (u16, u16), widgets: Seq<W>) -> Seq<PlacedElementView>
    decreases widgets.len(),
{
    if widgets.len() == 0 {
        Seq::empty()
    } else {
        placed_widgets(origin, widgets.drop_last()) + placed_elements(
            origin,
            widgets.last().position(),
            widgets.last().elements(),
        )
    }
}

pub struct TerminalContext {
    origin_x: u16,
    origin_y: u16,
    width: u16,
    height: u16,
    drawn: Vec<PlacedElement>,
}

impl TerminalContext {
    /// The place of the surface's upper left corner on the terminal.
    pub closed spec fn origin(&self) -> (u16, u16) {
        (self.origin_x, self.origin_y)
    }

    /// The width and the height of the surface.
    pub closed spec fn size(&self) -> (u16, u16) {
        (self.width, self.height)
    }

    /// What stands on the surface, in the order in which it was drawn.
    pub closed spec fn drawn(&self) -> Seq<PlacedElementView> {
        self.drawn@.map_values(|e: PlacedElement| e@)
    }

    /// An empty surface of this place and size.
    pub fn new(x: u16, y: u16, w: u16, h: u16) -> (context: TerminalContext)
        ensures
            context.origin() == (x, y),
            context.size() == (w, h),
            context.drawn() == Seq::<PlacedElementView>::empty(),
    {
        let mut context = TerminalContext { origin_x: x, origin_y: y, width: w, height: h, drawn: Vec::new() };
        context.clear();
        context
    }

    /// Renders a view: the surface is emptied, and then holds every element
    /// of every widget of the view at its place, widget after widget.
    pub fn render_view<V: WidgetView>(&mut self, view: &V)
        ensures
            final(self).origin() == old(self).origin(),
            final(self).size() == old(self).size(),
            final(self).drawn() == placed_widgets(old(self).origin(), view.widgets()),
    {
        self.clear();
        let widgets = view.render();
        let mut i: usize = 0;
        while i < widgets.len()
            invariant
                i <= widgets.len(),
                widgets@ == view.widgets(),
                self.origin() == old(self).origin(),
                self.size() == old(self).size(),
                self.drawn() == placed_widgets(old(self).origin(), widgets@.take(i as int)),
            decreases widgets.len() - i,
        {
            let widget = &widgets[i];
            let widget_pos = widget.get_widget_position();
            let elements = widget.draw();
            let ghost before = self.drawn();
            let mut j: usize = 0;
            while j < elements.len()
                invariant
                    j <= elements.len(),
                    widget_pos == widget.position(),
                    crate::widgets::render_info::render_views(elements@) == widget.elements(),
                    self.origin() == old(self).origin(),
                    self.size() == old(self).size(),
                    self.drawn() == before + placed_elements(
                        old(self).origin(),
                        widget_pos,
                        widget.elements().take(j as int),
                    ),
                decreases elements.len() - j,
            {
                self.draw_widget_element(widget_pos, &elements[j]);
                proof {
                    let all = widget.elements();
                    assert(all[j as int] == elements@[j as int]@);
                    assert(all.take(j + 1) =~= all.take(j as int).push(all[j as int]));
                    assert(placed_elements(old(self).origin(), widget_pos, all.take(j + 1)) =~= placed_elements(
                        old(self).origin(),
                        widget_pos,
                        all.take(j as int),
                    ).push(placed(old(self).origin(), widget_pos, all[j as int])));
                }
                j += 1;
            }
            proof {
                assert(widget.elements().take(elements.len() as int) =~= widget.elements());
                assert(widgets@.take(i + 1).drop_last() =~= widgets@.take(i as int));
                assert(widgets@.take(i + 1).last() == widgets@[i as int]);
            }
            i += 1;
        }
        assert(widgets@.take(widgets.len() as int) =~= widgets@);
    }

    fn clear(&mut self)
        ensures
            final(self).origin() == old(self).origin(),
            final(self).size() == old(self).size(),
            final(self).drawn() == Seq::<PlacedElementView>::empty(),
    {
        self.drawn.clear();
        assert(self.drawn() =~= Seq::<PlacedElementView>::empty());
    }

    /// Draws one element of a widget at its place.
    fn draw_widget_element(&mut self, widget_pos: (u16, u16), element: &RenderInfo)
        ensures
            final(self).origin() == old(self).origin(),
            final(self).size() == old(self).size(),
            final(self).drawn() == old(self).drawn().push(placed(old(self).origin(), widget_pos, element@)),
    {
        let element_x = self.origin_x as u32 + widget_pos.0 as u32 + element.pos_x as u32;
        let element_y = self.origin_y as u32 + widget_pos.1 as u32 + element.pos_y as u32;
        let ghost before = self.drawn();
        self.drawn.push(PlacedElement { x: element_x, y: element_y, content: element.content.clone(), style: element.style });
        assert(self.drawn() =~= before.push(placed(old(self).origin(), widget_pos, element@)));
    }

    /// Takes what stands on the surface, which is empty afterwards.
    pub fn take_drawn(&mut self) -> (elements: Vec<PlacedElement>)
        ensures
            elements@.map_values(|e: PlacedElement| e@) == old(self).drawn(),
            final(self).drawn() == Seq::<PlacedElementView>::empty(),
            final(self).origin() == old(self).origin(),
            final(self).size() == old(self).size(),
    {
        let mut elements: Vec<PlacedElement> = Vec::new();
        std::mem::swap(&mut elements, &mut self.drawn);
        assert(self.drawn() =~= Seq::<PlacedElementView>::empty());
        elements
    }
}

} // verus!
