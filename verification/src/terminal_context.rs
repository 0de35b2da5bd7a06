//! The display surface and the input source of the screens, as plain values:
//! a frame of things to draw, which the screens fill and the program puts
//! on the real terminal, and a queue of key presses, which the program
//! fills and the engine empties.

use vstd::prelude::*;
use crate::input_handler::KeyCode;
use crate::text::{append_chars, chars_of, slice_chars, string_of};

verus! {

/// How a text is set off from the rest.
#[derive(Clone, Copy, Debug, PartialEq, Eq)]
pub enum StyleAttribute {
    Underline,
    Bold,
    InverseColor,
}

/// Whether the text of an input line is shown, and which.
#[derive(Clone, Debug)]
pub enum Visibility {
    Hidden,
    Visible(String),
}

/// The text of an input line as it is shown: the text itself where it is
/// visible, the row of symbols that stands in for it where it is hidden.
pub open spec fn shown_text(input_buffer: Visibility, hidden_string: Seq<char>) -> Seq<char> {
    match input_buffer {
        Visibility::Hidden => hidden_string,
        Visibility::Visible(text) => text@,
    }
}

/// One thing to draw. Positions count from the upper left corner of the
/// frame.
#[derive(Clone, Debug)]
pub enum DrawCommand {
    /// Empties the screen.
    Clear,
    /// The border around the frame.
    Border,
    /// A horizontal line of `width` cells from (`x`, `y`).
    Line { x: u16, y: u16, width: u16 },
    /// A text from (`x`, `y`), in a style or plain. The cursor is hidden.
    Text { x: u16, y: u16, content: String, style: Option<StyleAttribute> },
    /// The cursor, shown at (`x`, `y`).
    Cursor { x: u16, y: u16 },
    /// Leaves the screen as the program found it.
    Restore,
}

/// What a `DrawCommand` holds.
pub enum DrawCommandView {
    Clear,
    Border,
    Line { x: u16, y: u16, width: u16 },
    Text { x: u16, y: u16, content: Seq<char>, style: Option<StyleAttribute> },
    Cursor { x: u16, y: u16 },
    Restore,
}

impl View for DrawCommand {
    type V = DrawCommandView;

    open spec fn view(&self) -> DrawCommandView {
        match self {
            DrawCommand::Clear => DrawCommandView::Clear,
            DrawCommand::Border => DrawCommandView::Border,
            DrawCommand::Line { x, y, width } => DrawCommandView::Line { x: *x, y: *y, width: *width },
            DrawCommand::Text { x, y, content, style } => DrawCommandView::Text {
                x: *x,
                y: *y,
                content: content@,
                style: *style,
            },
            DrawCommand::Cursor { x, y } => DrawCommandView::Cursor { x: *x, y: *y },
            DrawCommand::Restore => DrawCommandView::Restore,
        }
    }
}

/// The least width of a frame.
pub const MIN_WIDTH: u16 = 45;

/// The least height of a frame.
pub const MIN_HEIGHT: u16 = 15;

/// The texts of a footer in one line, a bar between each two, cut to `room`
/// characters.
pub open spec fn footer_line(content: Seq<Seq<char>>, room: int) -> Seq<char> {
    let whole = joined(content);
    if whole.len() > room && room >= 0 {
        whole.take(room)
    } else {
        whole
    }
}

/// Texts one behind the other, a bar between each two.
pub open spec fn joined(content: Seq<Seq<char>>) -> Seq<char>
    decreases content.len(),
{
    if content.len() == 0 {
        Seq::empty()
    } else if content.len() == 1 {
        content[0]
    } else {
        joined(content.drop_last()) + seq!['|'] + content.last()
    }
}

/// A plain text at a place.
pub open spec fn text_at(x: u16, y: u16, content: Seq<char>) -> DrawCommandView {
    DrawCommandView::Text { x, y, content, style: None }
}

/// A text in a style at a place.
pub open spec fn styled_at(x: u16, y: u16, content: Seq<char>, attribute: StyleAttribute) -> DrawCommandView {
    DrawCommandView::Text { x, y, content, style: Some(attribute) }
}

/// The number of bytes of a text.
pub open spec fn byte_len(text: Seq<char>) -> nat {
    vstd::utf8::encode_utf8(text).len()
}

/// The column of the cursor behind a text of `len` bytes: the width of the
/// frame where the text is longer.
pub open spec fn cursor_behind(width: u16, len: nat) -> u16 {
    if len <= width {
        len as u16
    } else {
        width
    }
}

/// The footer that names the keys, in a frame of this size: a line, and under
/// it the texts in one row, a bar between each two, cut to the width.
pub open spec fn control_footer(content: Seq<Seq<char>>, width: u16, height: u16) -> Seq<DrawCommandView> {
    seq![
        DrawCommandView::Line { x: 0, y: (height - 2) as u16, width: (width - 1) as u16 },
        text_at(0, (height - 1) as u16, footer_line(content, width - 1)),
    ]
}

/// The footer of an input line, in a frame of this size: a line, the heading
/// under it, and under that the text typed so far, with the cursor behind
/// it.
pub open spec fn input_footer(heading: Seq<char>, typed: Seq<char>, width: u16, height: u16) -> Seq<DrawCommandView> {
    seq![
        DrawCommandView::Line { x: 0, y: (height - 3) as u16, width: (width - 1) as u16 },
        text_at(0, (height - 2) as u16, heading),
        text_at(0, (height - 1) as u16, typed),
        DrawCommandView::Cursor { x: cursor_behind(width, byte_len(typed)), y: (height - 1) as u16 },
    ]
}

/// The footer of a question, in a frame of this size: a line, the question
/// under it, and under that the keys that answer it.
pub open spec fn request_footer(heading: Seq<char>, options: Seq<char>, width: u16, height: u16) -> Seq<
    DrawCommandView,
> {
    seq![
        DrawCommandView::Line { x: 0, y: (height - 3) as u16, width: (width - 1) as u16 },
        text_at(0, (height - 2) as u16, heading),
        text_at(0, (height - 1) as u16, options),
    ]
}

/// The column at which a text of `len` bytes starts when it is centred in
/// `width` cells: 0 where it does not fit.
pub open spec fn centered(width: u16, len: nat) -> u16 {
    if len >= width {
        0
    } else {
        ((width - len) / 2) as u16
    }
}

/// The number of bytes of a text.
pub fn text_len(text: &str) -> (len: usize)
    ensures
        len == byte_len(text@),
{
    text.as_bytes().len()
}

/// The column at which a text of `len` bytes starts when it is centred in
/// `width` cells: 0 where it does not fit.
pub fn center(width: u16, len: usize) -> (x: u16)
    ensures
        x == centered(width, len as nat),
        x <= width,
{
    if len >= width as usize {
        0
    } else {
        (width - len as u16) / 2
    }
}

/// The frame and the pending key presses.
pub struct TerminalContext {
    origin_x: u16,
    origin_y: u16,
    width: u16,
    height: u16,
    commands: Vec<DrawCommand>,
    keys: Vec<KeyCode>,
}

impl TerminalContext {
    /// The column of the frame's upper left corner on the terminal.
    pub closed spec fn origin_x(&self) -> u16 {
        self.origin_x
    }

    /// The row of the frame's upper left corner on the terminal.
    pub closed spec fn origin_y(&self) -> u16 {
        self.origin_y
    }

    /// The width of the frame.
    pub closed spec fn width(&self) -> u16 {
        self.width
    }

    /// The height of the frame.
    pub closed spec fn height(&self) -> u16 {
        self.height
    }

    /// What has been drawn, in the order in which it was drawn.
    pub closed spec fn frame(&self) -> Seq<DrawCommandView> {
        self.commands@.map_values(|c: DrawCommand| c@)
    }

    /// The key presses that wait to be read, oldest first.
    pub closed spec fn pending_keys(&self) -> Seq<KeyCode> {
        self.keys@
    }

    /// Whether the frame has room for every screen.
    pub open spec fn well_formed(&self) -> bool {
        self.width() >= MIN_WIDTH && self.height() >= MIN_HEIGHT
    }

    /// Whether `self` has the place and size of `before`, and all that was
    /// drawn on `before` is still there, in place.
    pub open spec fn frame_extends(&self, before: &TerminalContext) -> bool {
        &&& self.width() == before.width()
        &&& self.height() == before.height()
        &&& self.origin_x() == before.origin_x()
        &&& self.origin_y() == before.origin_y()
        &&& before.frame().len() <= self.frame().len()
        &&& forall|i: int| 0 <= i < before.frame().len() ==> self.frame()[i] == before.frame()[i]
    }

    /// Whether `self` is `before` with more drawn on it: the same place and
    /// size, the same pending keys, and all that was drawn before still
    /// there, in place.
    pub open spec fn drawn_over(&self, before: &TerminalContext) -> bool {
        &&& self.frame_extends(before)
        &&& self.pending_keys() == before.pending_keys()
    }

    /// Whether `self` is `before` with exactly `commands` drawn on it, in
    /// their order.
    pub open spec fn drew_all(&self, before: &TerminalContext, commands: Seq<DrawCommandView>) -> bool {
        &&& self.drawn_over(before)
        &&& self.frame() == before.frame() + commands
    }

    /// Whether what has been drawn ends with `commands`.
    pub open spec fn ends_with(&self, commands: Seq<DrawCommandView>) -> bool {
        &&& commands.len() <= self.frame().len()
        &&& self.frame().skip(self.frame().len() - commands.len()) == commands
    }

    /// Whether `self` is `before` with exactly `command` drawn on it.
    pub open spec fn drew(&self, before: &TerminalContext, command: DrawCommandView) -> bool {
        &&& self.drawn_over(before)
        &&& self.frame() == before.frame().push(command)
    }

    /// A context for a frame of this place and size. The screen is cleared.
    pub fn new(origin_x: u16, origin_y: u16, width: u16, height: u16) -> (context: Self)
        requires
            width >= MIN_WIDTH,
            height >= MIN_HEIGHT,
        ensures
            context.well_formed(),
            context.origin_x() == origin_x,
            context.origin_y() == origin_y,
            context.width() == width,
            context.height() == height,
            context.frame() == seq![DrawCommandView::Clear],
            context.pending_keys() == Seq::<KeyCode>::empty(),
    {
        let mut context = Self { origin_x, origin_y, width, height, commands: Vec::new(), keys: Vec::new() };
        context.clear_screen();
        assert(context.frame() =~= seq![DrawCommandView::Clear]);
        context
    }

    fn draw(&mut self, command: DrawCommand)
        ensures
            final(self).drew(old(self), command@),
    {
        let ghost before = self.frame();
        self.commands.push(command);
        assert(self.frame() =~= before.push(command@));
    }

    /// Clears the screen and leaves it as the program found it.
    pub fn destroy(&mut self)
        ensures
            final(self).drawn_over(old(self)),
            final(self).frame() == old(self).frame().push(DrawCommandView::Clear).push(DrawCommandView::Restore),
    {
        self.clear_screen();
        self.draw(DrawCommand::Restore);
    }

    /// Draws the border around the frame.
    pub fn draw_border(&mut self)
        ensures
            final(self).drew(old(self), DrawCommandView::Border),
    {
        self.draw(DrawCommand::Border);
    }

    /// Draws a horizontal line.
    pub fn print_line(&mut self, x: u16, y: u16, width: u16)
        ensures
            final(self).drew(old(self), DrawCommandView::Line { x, y, width }),
    {
        self.draw(DrawCommand::Line { x, y, width });
    }

    /// Draws the footer that names the keys: a line, and under it the texts
    /// in one row, a bar between each two, cut to the width of the frame.
    pub fn draw_control_footer(&mut self, content: Vec<&String>)
        requires
            old(self).well_formed(),
        ensures
            final(self).drew_all(
                old(self),
                control_footer(content@.map_values(|s: &String| s@), old(self).width(), old(self).height()),
            ),
    {
        let divider_y = self.height - 2;
        let content_y = self.height - 1;
        self.print_line(0, divider_y, self.width - 1);
        let ghost texts = content@.map_values(|s: &String| s@);
        let mut content_string: Vec<char> = Vec::new();
        let mut idx: usize = 0;
        while idx < content.len()
            invariant
                idx <= content.len(),
                texts == content@.map_values(|s: &String| s@),
                content_string@ == joined(texts.take(idx as int)),
            decreases content.len() - idx,
        {
            proof {
                let before = texts.take(idx as int);
                let after = texts.take(idx + 1);
                assert(after.drop_last() =~= before);
                assert(after.last() == content@[idx as int]@);
                if idx == 0 {
                    assert(joined(before) =~= Seq::<char>::empty());
                    assert(after[0] == content@[0]@);
                }
            }
            if idx > 0 {
                content_string.push('|');
            }
            let part = chars_of(content[idx].as_str());
            append_chars(&mut content_string, &part);
            idx += 1;
        }
        assert(texts.take(content.len() as int) =~= texts);
        let room = (self.width - 1) as usize;
        if content_string.len() > room {
            content_string = slice_chars(&content_string, 0, room);
        }
        self.draw(DrawCommand::Text { x: 0, y: content_y, content: string_of(&content_string), style: None });
        assert(self.frame() =~= old(self).frame() + control_footer(texts, old(self).width(), old(self).height()));
    }

    /// Draws the footer of an input line: a line, the heading under it, and
    /// under that the text typed so far, or the row of symbols that stands in
    /// for it, with the cursor behind it.
    pub fn draw_input_footer(&mut self, heading: &String, input_buffer: Visibility, hidden_string: &str)
        requires
            old(self).well_formed(),
        ensures
            final(self).drew_all(
                old(self),
                input_footer(
                    heading@,
                    shown_text(input_buffer, hidden_string@),
                    old(self).width(),
                    old(self).height(),
                ),
            ),
    {
        let divider_y = self.height - 3;
        let heading_y = self.height - 2;
        let input_buffer_y = self.height - 1;
        let input_buffer = match input_buffer {
            Visibility::Hidden => hidden_string.to_owned(),
            Visibility::Visible(text) => text,
        };
        let typed = text_len(input_buffer.as_str());
        let cursor_x = if typed <= self.width as usize {
            typed as u16
        } else {
            self.width
        };
        self.print_line(0, divider_y, self.width - 1);
        self.draw(DrawCommand::Text { x: 0, y: heading_y, content: heading.clone(), style: None });
        self.draw(DrawCommand::Text { x: 0, y: input_buffer_y, content: input_buffer, style: None });
        self.move_cursor_to_position(cursor_x, input_buffer_y);
        assert(self.frame() =~= old(self).frame() + input_footer(
            heading@,
            input_buffer@,
            old(self).width(),
            old(self).height(),
        ));
    }

    /// Draws the footer of a question: a line, the question under it, and
    /// under that the keys that answer it.
    pub fn draw_request_footer(&mut self, heading: &String, options: &String)
        requires
            old(self).well_formed(),
        ensures
            final(self).drew_all(old(self), request_footer(heading@, options@, old(self).width(), old(self).height())),
    {
        let divider_y = self.height - 3;
        let heading_y = self.height - 2;
        let options_y = self.height - 1;
        self.print_line(0, divider_y, self.width - 1);
        self.draw(DrawCommand::Text { x: 0, y: heading_y, content: heading.clone(), style: None });
        self.draw(DrawCommand::Text { x: 0, y: options_y, content: options.clone(), style: None });
        assert(self.frame() =~= old(self).frame() + request_footer(
            heading@,
            options@,
            old(self).width(),
            old(self).height(),
        ));
    }

    /// The width of the frame.
    pub fn get_width(&self) -> (width: u16)
        ensures
            width == self.width(),
    {
        self.width
    }

    /// The height of the frame.
    pub fn get_height(&self) -> (height: u16)
        ensures
            height == self.height(),
    {
        self.height
    }

    /// Empties the screen.
    pub fn clear_screen(&mut self)
        ensures
            final(self).drew(old(self), DrawCommandView::Clear),
    {
        self.draw(DrawCommand::Clear);
    }

    /// Draws a text. The position has to lie in the frame.
    pub fn print_at_position(&mut self, x: u16, y: u16, content: &str)
        requires
            x <= old(self).width(),
            y <= old(self).height(),
        ensures
            final(self).drew(old(self), text_at(x, y, content@)),
    {
        self.draw(DrawCommand::Text { x, y, content: content.to_owned(), style: None });
    }

    /// Draws a text in a style. The position has to lie in the frame.
    pub fn print_styled_at_position(&mut self, x: u16, y: u16, content: &str, attribute: StyleAttribute)
        requires
            x <= old(self).width(),
            y <= old(self).height(),
        ensures
            final(self).drew(old(self), styled_at(x, y, content@, attribute)),
    {
        self.draw(DrawCommand::Text { x, y, content: content.to_owned(), style: Some(attribute) });
    }

    /// Draws the stand-in of a password, unless the password is empty. The
    /// position has to lie in the frame.
    pub fn print_hidden_password_at_position(&mut self, pos_x: u16, pos_y: u16, pwd_len: usize, hidden_string: &str)
        requires
            pos_x <= old(self).width(),
            pos_y <= old(self).height(),
        ensures
            pwd_len == 0 ==> *final(self) == *old(self),
            pwd_len > 0 ==> final(self).drew(old(self), text_at(pos_x, pos_y, hidden_string@)),
    {
        if pwd_len == 0 {
            return ;
        }
        self.print_at_position(pos_x, pos_y, hidden_string)
    }

    /// Shows the cursor at a position.
    pub fn move_cursor_to_position(&mut self, x: u16, y: u16)
        ensures
            final(self).drew(old(self), DrawCommandView::Cursor { x, y }),
    {
        self.draw(DrawCommand::Cursor { x, y });
    }

    /// Puts a key press behind those that wait to be read.
    pub fn push_input(&mut self, key_code: KeyCode)
        ensures
            final(self).pending_keys() == old(self).pending_keys().push(key_code),
            final(self).frame() == old(self).frame(),
            final(self).width() == old(self).width(),
            final(self).height() == old(self).height(),
            final(self).origin_x() == old(self).origin_x(),
            final(self).origin_y() == old(self).origin_y(),
    {
        self.keys.push(key_code);
    }

    /// The oldest key press that waits, if any; it waits no longer.
    pub fn read_input(&mut self) -> (key_code: Option<KeyCode>)
        ensures
            final(self).frame() == old(self).frame(),
            final(self).width() == old(self).width(),
            final(self).height() == old(self).height(),
            final(self).origin_x() == old(self).origin_x(),
            final(self).origin_y() == old(self).origin_y(),
            old(self).pending_keys().len() == 0 ==> key_code is None && final(self).pending_keys() == old(self).pending_keys(),
            old(self).pending_keys().len() > 0 ==> key_code == Some(old(self).pending_keys()[0]) && final(self).pending_keys() == old(self).pending_keys().skip(1),
    {
        if self.keys.len() == 0 {
            return None;
        }
        let key_code = self.keys.remove(0);
        assert(self.keys@ =~= old(self).keys@.skip(1));
        Some(key_code)
    }

    /// What has been drawn, in the order in which it was drawn.
    pub fn get_frame(&self) -> (commands: &Vec<DrawCommand>)
        ensures
            commands@.map_values(|c: DrawCommand| c@) == self.frame(),
    {
        &self.commands
    }

    /// The place of the frame's upper left corner on the terminal.
    pub fn get_origin(&self) -> (origin: (u16, u16))
        ensures
            origin == (self.origin_x(), self.origin_y()),
    {
        (self.origin_x, self.origin_y)
    }

    /// Takes what has been drawn out of the context, which starts a new
    /// frame.
    pub fn take_frame(&mut self) -> (commands: Vec<DrawCommand>)
        ensures
            commands@.map_values(|c: DrawCommand| c@) == old(self).frame(),
            final(self).frame() == Seq::<DrawCommandView>::empty(),
            final(self).pending_keys() == old(self).pending_keys(),
            final(self).width() == old(self).width(),
            final(self).height() == old(self).height(),
            final(self).origin_x() == old(self).origin_x(),
            final(self).origin_y() == old(self).origin_y(),
    {
        let mut commands: Vec<DrawCommand> = Vec::new();
        std::mem::swap(&mut commands, &mut self.commands);
        assert(self.frame() =~= Seq::<DrawCommandView>::empty());
        commands
    }
}

} // verus!
