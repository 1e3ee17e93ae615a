//! The text content of a text box: a text buffer with a cursor, read back
//! line by line.
use vstd::prelude::*;

use iced_graphics::text::Editor;

verus! {

#[verifier::external_type_specification]
#[verifier::external_body]
pub struct ExEditor(Editor);

#[verifier::external_type_specification]
pub struct ExAction(iced_graphics::core::text::editor::Action);

#[verifier::external_type_specification]
pub struct ExEdit(iced_graphics::core::text::editor::Edit);

/// How a line ends.
#[derive(Debug, Clone, Copy, PartialEq, Eq, Structural)]
pub enum LineEnding {
    /// `\n`
    Lf,
    /// `\r\n`
    CrLf,
    /// `\r`
    Cr,
    /// `\n\r`
    LfCr,
    /// No ending: the last line of a text.
    Unterminated,
}

/// The characters that a line ending stands for.
pub open spec fn ending_chars(e: LineEnding) -> Seq<char> {
    match e {
        LineEnding::Lf => seq!['\n'],
        LineEnding::CrLf => seq!['\r', '\n'],
        LineEnding::Cr => seq!['\r'],
        LineEnding::LfCr => seq!['\n', '\r'],
        LineEnding::Unterminated => seq![],
    }
}

impl LineEnding {
    /// The characters that the line ending stands for.
    pub fn as_str(self) -> (r: &'static str)
        ensures
            r@ == ending_chars(self),
    {
        proof {
            reveal_strlit("\n");
            reveal_strlit("\r\n");
            reveal_strlit("\r");
            reveal_strlit("\n\r");
            reveal_strlit("");
        }
        match self {
            LineEnding::Lf => "\n",
            LineEnding::CrLf => "\r\n",
            LineEnding::Cr => "\r",
            LineEnding::LfCr => "\n\r",
            LineEnding::Unterminated => "",
        }
    }
}

impl Default for LineEnding {
    /// `\n`, the ending that joins lines which have none of their own.
    fn default() -> (r: LineEnding)
        ensures
            r == LineEnding::Lf,
    {
        LineEnding::Lf
    }
}

/// A line of text and how it ends.
#[derive(Debug, Clone, PartialEq, Eq)]
pub struct Line {
    pub text: String,
    pub ending: LineEnding,
}

impl View for Line {
    type V = (Seq<char>, LineEnding);

    open spec fn view(&self) -> (Seq<char>, LineEnding) {
        (self.text@, self.ending)
    }
}

/// The characters written after a line that is followed by another: its own
/// ending, or `\n` where it has none.
pub open spec fn separator(e: LineEnding) -> Seq<char> {
    if e == LineEnding::Unterminated {
        ending_chars(LineEnding::Lf)
    } else {
        ending_chars(e)
    }
}

/// Each line followed by its separator.
pub open spec fn terminated(lines: Seq<(Seq<char>, LineEnding)>) -> Seq<char>
    decreases lines.len(),
{
    if lines.len() == 0 {
        seq![]
    } else {
        terminated(lines.drop_last()) + lines.last().0 + separator(lines.last().1)
    }
}

/// The text that a sequence of lines spells: every line but the last
/// followed by its separator.
pub open spec fn join_lines(lines: Seq<(Seq<char>, LineEnding)>) -> Seq<char> {
    if lines.len() == 0 {
        seq![]
    } else {
        terminated(lines.drop_last()) + lines.last().0
    }
}

/// Whether a character breaks a line.
pub open spec fn is_break(c: char) -> bool {
    c == '\r' || c == '\n'
}

/// The ending at the start of `rest`, which starts with a line break: a
/// two-character ending where `\r\n` or `\n\r` stands, else the one
/// character.
pub open spec fn ending_at(rest: Seq<char>) -> LineEnding {
    if rest.len() >= 2 && rest[0] == '\r' && rest[1] == '\n' {
        LineEnding::CrLf
    } else if rest.len() >= 2 && rest[0] == '\n' && rest[1] == '\r' {
        LineEnding::LfCr
    } else if rest[0] == '\n' {
        LineEnding::Lf
    } else {
        LineEnding::Cr
    }
}

/// The lines of `rest`, the first of which continues `current`: each ends
/// at the next line break, and text after the last break forms a line with
/// no ending.
pub open spec fn split_from(current: Seq<char>, rest: Seq<char>) -> Seq<(Seq<char>, LineEnding)>
    decreases rest.len(),
{
    if rest.len() == 0 {
        if current.len() > 0 {
            seq![(current, LineEnding::Unterminated)]
        } else {
            seq![]
        }
    } else if is_break(rest[0]) {
        let e = ending_at(rest);
        seq![(current, e)] + split_from(seq![], rest.skip(ending_chars(e).len() as int))
    } else {
        split_from(current.push(rest[0]), rest.drop_first())
    }
}

/// A sequence of lines closed by a line without an ending, as a text buffer
/// holds them.
pub open spec fn closed_lines(lines: Seq<(Seq<char>, LineEnding)>) -> Seq<(Seq<char>, LineEnding)> {
    if lines.len() > 0 && lines.last().1 == LineEnding::Unterminated {
        lines
    } else {
        lines.push((seq![], LineEnding::Unterminated))
    }
}

/// The lines a text buffer holds once it is loaded with `text`.
pub open spec fn buffer_lines(text: Seq<char>) -> Seq<(Seq<char>, LineEnding)> {
    closed_lines(split_from(seq![], text))
}

/// The lines that an editor holds, each with its ending.
pub uninterp spec fn editor_lines(e: Editor) -> Seq<(Seq<char>, LineEnding)>;

/// An edit of an editor's text, with pasted text as characters.
pub ghost enum EditView {
    Insert(char),
    Paste(Seq<char>),
    Enter,
    Indent,
    Unindent,
    Backspace,
    Delete,
}

/// The view of an edit.
pub open spec fn edit_view(edit: iced_graphics::core::text::editor::Edit) -> EditView {
    match edit {
        iced_graphics::core::text::editor::Edit::Insert(c) => EditView::Insert(c),
        iced_graphics::core::text::editor::Edit::Paste(text) => EditView::Paste(text@),
        iced_graphics::core::text::editor::Edit::Enter => EditView::Enter,
        iced_graphics::core::text::editor::Edit::Indent => EditView::Indent,
        iced_graphics::core::text::editor::Edit::Unindent => EditView::Unindent,
        iced_graphics::core::text::editor::Edit::Backspace => EditView::Backspace,
        iced_graphics::core::text::editor::Edit::Delete => EditView::Delete,
    }
}

/// The lines that an editor holds after it applies an edit at its cursor
/// and selection.
pub uninterp spec fn edited_lines(e: Editor, edit: EditView) -> Seq<(Seq<char>, LineEnding)>;

/// The lines that an editor holds after it performs an action: an edit
/// changes them, and every other action (a motion, a selection, a click, a
/// drag, a scroll) leaves them as they are.
pub open spec fn lines_after(e: Editor, action: iced_graphics::core::text::editor::Action) -> Seq<
    (Seq<char>, LineEnding),
> {
    match action {
        iced_graphics::core::text::editor::Action::Edit(edit) => edited_lines(e, edit_view(edit)),
        _ => editor_lines(e),
    }
}

/// The text that an editor has selected, if any.
pub uninterp spec fn editor_selection(e: Editor) -> Option<Seq<char>>;

/// The line and column of an editor's cursor.
pub uninterp spec fn editor_cursor(e: Editor) -> (usize, usize);

/// Relies on iced_graphics' `Editor::with_text`, which loads the text into a
/// cosmic-text buffer with `Buffer::set_text`: one line per `LineIter` item,
/// then an empty line without an ending unless the last line has none.
#[verifier::external_body]
fn editor_with_text(text: &str) -> (r: Editor)
    ensures
        editor_lines(r) == buffer_lines(text@),
{
    <Editor as iced_graphics::core::text::Editor>::with_text(text)
}

/// Relies on iced_graphics' `Editor::line_count`: the number of lines of the
/// buffer.
#[verifier::external_body]
fn editor_line_count(e: &Editor) -> (r: usize)
    ensures
        r == editor_lines(*e).len(),
{
    <Editor as iced_graphics::core::text::Editor>::line_count(e)
}

/// Relies on iced_graphics' `Editor::line`: the buffer's line at `index`,
/// with its ending, if there is one.
#[verifier::external_body]
fn editor_line(e: &Editor, index: usize) -> (r: Option<Line>)
    ensures
        r is Some <==> index < editor_lines(*e).len(),
        r is Some ==> r->0@ == editor_lines(*e)[index as int],
{
    match <Editor as iced_graphics::core::text::Editor>::line(e, index) {
        Some(line) => Some(Line {
            text: line.text.into_owned(),
            ending: match line.ending {
                iced_graphics::core::text::editor::LineEnding::Lf => LineEnding::Lf,
                iced_graphics::core::text::editor::LineEnding::CrLf => LineEnding::CrLf,
                iced_graphics::core::text::editor::LineEnding::Cr => LineEnding::Cr,
                iced_graphics::core::text::editor::LineEnding::LfCr => LineEnding::LfCr,
                iced_graphics::core::text::editor::LineEnding::None => LineEnding::Unterminated,
            },
        }),
        None => None,
    }
}

/// Relies on iced_graphics' `Editor::copy`: the selected text, if any.
#[verifier::external_body]
fn editor_copy(e: &Editor) -> (r: Option<String>)
    ensures
        r is Some <==> editor_selection(*e) is Some,
        r is Some ==> r->0@ == editor_selection(*e)->0,
{
    <Editor as iced_graphics::core::text::Editor>::copy(e)
}

/// Relies on iced_graphics' `Editor::cursor`: the line and column of the
/// cursor's position.
#[verifier::external_body]
fn editor_cursor_position(e: &Editor) -> (r: (usize, usize))
    ensures
        r == editor_cursor(*e),
{
    let cursor = <Editor as iced_graphics::core::text::Editor>::cursor(e);
    (cursor.position.line, cursor.position.column)
}

/// Relies on iced_graphics' `Editor::perform`: only an edit changes the
/// buffer's text, applied by cosmic-text at the cursor and selection; the
/// other actions move the cursor, the selection or the view.
#[verifier::external_body]
fn editor_perform(e: &mut Editor, action: iced_graphics::core::text::editor::Action)
    ensures
        match action {
            iced_graphics::core::text::editor::Action::Edit(edit) => editor_lines(*final(e))
                == edited_lines(*old(e), edit_view(edit)),
            _ => editor_lines(*final(e)) == editor_lines(*old(e)),
        },
{
    <Editor as iced_graphics::core::text::Editor>::perform(e, action)
}


/// A line put in front of others is followed by its separator.
proof fn lemma_terminated_prepend(x: (Seq<char>, LineEnding), rest: Seq<(Seq<char>, LineEnding)>)
    ensures
        terminated(seq![x] + rest) == x.0 + separator(x.1) + terminated(rest),
    decreases rest.len(),
{
    if rest.len() == 0 {
        let whole = seq![x] + rest;
        assert(whole =~= seq![x]);
        assert(whole.drop_last() =~= Seq::<(Seq<char>, LineEnding)>::empty());
        assert(terminated(whole.drop_last()) == Seq::<char>::empty());
        assert(terminated(whole) =~= x.0 + separator(x.1) + terminated(rest));
    } else {
        let whole = seq![x] + rest;
        lemma_terminated_prepend(x, rest.drop_last());
        assert(whole.drop_last() =~= seq![x] + rest.drop_last());
        assert(whole.last() == rest.last());
        assert(terminated(whole) == terminated(whole.drop_last()) + whole.last().0 + separator(
            whole.last().1,
        ));
        assert(terminated(rest) == terminated(rest.drop_last()) + rest.last().0 + separator(
            rest.last().1,
        ));
        assert(terminated(whole) =~= x.0 + separator(x.1) + terminated(rest));
    }
}

/// Joining a line in front of at least one other puts its separator between.
proof fn lemma_join_prepend(x: (Seq<char>, LineEnding), rest: Seq<(Seq<char>, LineEnding)>)
    requires
        rest.len() > 0,
    ensures
        join_lines(seq![x] + rest) == x.0 + separator(x.1) + join_lines(rest),
{
    lemma_terminated_prepend(x, rest.drop_last());
    assert((seq![x] + rest).drop_last() =~= seq![x] + rest.drop_last());
    assert(join_lines(seq![x] + rest) =~= x.0 + separator(x.1) + join_lines(rest));
}

/// The closed lines of `rest`, continuing `current`, spell `current + rest`.
proof fn lemma_split_join(current: Seq<char>, rest: Seq<char>)
    ensures
        join_lines(closed_lines(split_from(current, rest))) == current + rest,
    decreases rest.len(),
{
    if rest.len() == 0 {
        assert(current + rest =~= current);
        if current.len() == 0 {
            assert(closed_lines(split_from(current, rest)) =~= seq![
                (seq![], LineEnding::Unterminated),
            ]);
            assert(join_lines(seq![(seq![], LineEnding::Unterminated)]) =~= seq![]);
        } else {
            assert(join_lines(seq![(current, LineEnding::Unterminated)]) =~= current);
        }
    } else if is_break(rest[0]) {
        let e = ending_at(rest);
        let k = ending_chars(e).len() as int;
        let tail = split_from(seq![], rest.skip(k));
        lemma_split_join(seq![], rest.skip(k));
        let lines = seq![(current, e)] + tail;
        assert(split_from(current, rest) == lines);
        assert(closed_lines(lines) =~= seq![(current, e)] + closed_lines(tail));
        lemma_join_prepend((current, e), closed_lines(tail));
        assert(rest.take(k) =~= ending_chars(e));
        assert(seq![] + rest.skip(k) =~= rest.skip(k));
        assert(rest =~= rest.take(k) + rest.skip(k));
        assert(current + rest =~= current + separator(e) + rest.skip(k));
    } else {
        lemma_split_join(current.push(rest[0]), rest.drop_first());
        assert(current.push(rest[0]) + rest.drop_first() =~= current + rest);
    }
}

/// Loading a text into a content and reading it back gives the same text,
/// whatever line endings it mixes: every line the buffer holds carries the
/// ending that the text had there, and only the last has none.
pub proof fn text_round_trip(text: Seq<char>)
    ensures
        join_lines(buffer_lines(text)) == text,
{
    lemma_split_join(seq![], text);
    assert(seq![] + text =~= text);
}

/// A line without an ending that is followed by another line is read back
/// with `\n` after it.
pub proof fn unterminated_line_normalized(
    line: Seq<char>,
    rest: Seq<(Seq<char>, LineEnding)>,
)
    requires
        rest.len() > 0,
    ensures
        join_lines(seq![(line, LineEnding::Unterminated)] + rest) == line + seq!['\n']
            + join_lines(rest),
{
    lemma_join_prepend((line, LineEnding::Unterminated), rest);
}


/// The text of a text box, as a text buffer with a cursor.
#[derive(Debug)]
pub struct Content {
    editor: Editor,
    is_dirty: bool,
}

impl Content {
    /// The lines of the content, each with its ending.
    pub closed spec fn lines_view(&self) -> Seq<(Seq<char>, LineEnding)> {
        editor_lines(self.editor)
    }

    /// Whether the content changed since it was made, as far as it knows.
    pub closed spec fn dirty(&self) -> bool {
        self.is_dirty
    }

    /// The text that the content has selected, if any.
    pub closed spec fn selection_view(&self) -> Option<Seq<char>> {
        editor_selection(self.editor)
    }

    /// The line and column of the content's cursor.
    pub closed spec fn cursor_view(&self) -> (usize, usize) {
        editor_cursor(self.editor)
    }

    /// The editor that holds the content.
    pub closed spec fn editor_view(&self) -> Editor {
        self.editor
    }

    /// An empty content.
    pub fn new() -> (r: Content)
        ensures
            r.lines_view() == buffer_lines(seq![]),
            r.dirty(),
    {
        proof {
            reveal_strlit("");
        }
        Content::with_text("")
    }

    /// A content that holds `text`.
    pub fn with_text(text: &str) -> (r: Content)
        ensures
            r.lines_view() == buffer_lines(text@),
            r.dirty(),
    {
        Content { editor: editor_with_text(text), is_dirty: true }
    }

    /// Applies an action of the editor to the content, and marks it changed:
    /// an edit changes the lines at the cursor and selection, and any other
    /// action leaves them as they are.
    pub fn perform(&mut self, action: iced_graphics::core::text::editor::Action)
        ensures
            final(self).dirty(),
            final(self).lines_view() == lines_after(old(self).editor_view(), action),
    {
        editor_perform(&mut self.editor, action);
        self.is_dirty = true;
    }

    /// Whether the content changed since it was made, as far as it knows.
    pub fn is_dirty(&self) -> (r: bool)
        ensures
            r == self.dirty(),
    {
        self.is_dirty
    }

    /// The number of lines.
    pub fn line_count(&self) -> (r: usize)
        ensures
            r == self.lines_view().len(),
    {
        editor_line_count(&self.editor)
    }

    /// The line at `index`, if there is one.
    pub fn line(&self, index: usize) -> (r: Option<Line>)
        ensures
            r is Some <==> index < self.lines_view().len(),
            r is Some ==> r->0@ == self.lines_view()[index as int],
    {
        editor_line(&self.editor, index)
    }

    /// All the lines, in order.
    pub fn lines(&self) -> (r: Vec<Line>)
        ensures
            r@.len() == self.lines_view().len(),
            forall|i: int| 0 <= i < r@.len() ==> #[trigger] r@[i]@ == self.lines_view()[i],
    {
        let count = self.line_count();
        let mut r: Vec<Line> = Vec::new();
        let mut i: usize = 0;
        while i < count
            invariant
                count == self.lines_view().len(),
                i == r@.len(),
                i <= count,
                forall|k: int| 0 <= k < r@.len() ==> #[trigger] r@[k]@ == self.lines_view()[k],
            decreases count - i,
        {
            match self.line(i) {
                Some(line) => {
                    r.push(line);
                },
                None => {
                    return r;
                },
            }
            i = i + 1;
        }
        r
    }

    /// The whole text: every line but the last followed by its ending, or by
    /// `\n` where it has none.
    pub fn text(&self) -> (r: String)
        ensures
            r@ == join_lines(self.lines_view()),
    {
        let ghost lines = self.lines_view();
        let count = self.line_count();
        let mut contents = String::new();
        let mut i: usize = 0;
        while i < count
            invariant
                count == lines.len(),
                lines == self.lines_view(),
                i <= count,
                i < count ==> contents@ == terminated(lines.take(i as int)),
                i == count ==> contents@ == join_lines(lines),
            decreases count - i,
        {
            let line = match self.line(i) {
                Some(line) => line,
                None => {
                    return contents;
                },
            };
            assert(lines.take(i + 1).drop_last() =~= lines.take(i as int));
            contents.append(line.text.as_str());
            if i + 1 < count {
                let ending = if line.ending == LineEnding::Unterminated {
                    LineEnding::default()
                } else {
                    line.ending
                };
                contents.append(ending.as_str());
            } else {
                assert(lines.drop_last() =~= lines.take(i as int));
            }
            i = i + 1;
        }
        proof {
            if count == 0 {
                assert(contents@ =~= join_lines(lines));
            }
        }
        contents
    }

    /// How the first line ends, if there is one.
    pub fn line_ending(&self) -> (r: Option<LineEnding>)
        ensures
            r is Some <==> self.lines_view().len() > 0,
            r is Some ==> r->0 == self.lines_view()[0].1,
    {
        match self.line(0) {
            Some(line) => Some(line.ending),
            None => None,
        }
    }

    /// The selected text, if any.
    pub fn selection(&self) -> (r: Option<String>)
        ensures
            r is Some <==> self.selection_view() is Some,
            r is Some ==> r->0@ == self.selection_view()->0,
    {
        editor_copy(&self.editor)
    }

    /// The line and column of the cursor.
    pub fn cursor_position(&self) -> (r: (usize, usize))
        ensures
            r == self.cursor_view(),
    {
        editor_cursor_position(&self.editor)
    }

    /// The editor that holds the content, to lay it out and draw it.
    pub fn editor(&self) -> (r: &Editor)
        ensures
            *r == self.editor_view(),
    {
        &self.editor
    }

    /// The editor that holds the content, to lay it out, highlight and
    /// scroll it in place.
    pub fn editor_mut(&mut self) -> (r: &mut Editor)
        ensures
            *r == old(self).editor_view(),
            final(self).editor_view() == *final(r),
            final(self).dirty() == old(self).dirty(),
    {
        &mut self.editor
    }
}

impl Default for Content {
    /// An empty content.
    fn default() -> (r: Content)
        ensures
            r.lines_view() == buffer_lines(seq![]),
            r.dirty(),
    {
        Content::new()
    }
}

} // verus!
