//! A text with an optional heading above it.

use vstd::prelude::*;
use crate::widgets::render_info::{render_views, RenderInfo, RenderInfoView, RenderStyle};
use crate::widgets::widget::Widget;

verus! {

pub struct Label {
    content: String,
    heading: Option<String>,
    style: RenderStyle,
    pos_x: u16,
    pos_y: u16,
}

impl Label {
    /// The text of the label.
    pub closed spec fn content(&self) -> Seq<char> {
        self.content@
    }

    /// The heading of the label, if it has one.
    pub closed spec fn heading(&self) -> Option<Seq<char>> {
        match self.heading {
            Some(h) => Some(h@),
            None => None,
        }
    }

    /// The style of the text.
    pub closed spec fn style(&self) -> RenderStyle {
        self.style
    }

    /// Where the label stands.
    pub closed spec fn place(&self) -> (u16, u16) {
        (self.pos_x, self.pos_y)
    }

    /// A label at a position, without a heading, in the default style.
    pub fn new(position: (u16, u16), content: &String) -> (label: Label)
        ensures
            label.place() == position,
            label.content() == content@,
            label.heading() is None,
            label.style() == RenderStyle::Default,
    {
        Label { pos_x: position.0, pos_y: position.1, content: content.clone(), heading: None, style: RenderStyle::Default }
    }

    /// Gives the label a heading.
    pub fn set_heading(&mut self, heading: String)
        ensures
            final(self).heading() == Some(heading@),
            final(self).content() == old(self).content(),
            final(self).style() == old(self).style(),
            final(self).place() == old(self).place(),
    {
        self.heading = Some(heading)
    }

    /// Sets the style of the text.
    pub fn set_style(&mut self, style: RenderStyle)
        ensures
            final(self).style() == style,
            final(self).content() == old(self).content(),
            final(self).heading() == old(self).heading(),
            final(self).place() == old(self).place(),
    {
        self.style = style;
    }
}

impl Widget for Label {
    open spec fn position(&self) -> (u16, u16) {
        self.place()
    }

    /// The heading, where there is one, in bold in the first row, and the text
    /// in its style in the row below; without a heading the text stands in
    /// the first row. Both start in the first column.
    open spec fn elements(&self) -> Seq<RenderInfoView> {
        match self.heading() {
            Some(heading) => seq![
                RenderInfoView { pos_x: 1, pos_y: 1, content: heading, style: RenderStyle::Bold },
                RenderInfoView { pos_x: 1, pos_y: 2, content: self.content(), style: self.style() },
            ],
            None => seq![RenderInfoView { pos_x: 1, pos_y: 1, content: self.content(), style: self.style() }],
        }
    }

    fn get_widget_position(&self) -> (position: (u16, u16)) {
        (self.pos_x, self.pos_y)
    }

    fn draw(&self) -> (elements: Vec<RenderInfo>) {
        let mut render_infos: Vec<RenderInfo> = Vec::new();
        let mut content_y = 1u16;
        if let Some(heading) = &self.heading {
            let heading_info = RenderInfo { pos_x: 1, pos_y: 1, content: heading.clone(), style: RenderStyle::Bold };
            content_y += 1;
            render_infos.push(heading_info);
        }
        let content_info = RenderInfo { pos_x: 1, pos_y: content_y, content: self.content.clone(), style: self.style };
        render_infos.push(content_info);
        assert(render_views(render_infos@) =~= self.elements());
        render_infos
    }
}

} // verus!
