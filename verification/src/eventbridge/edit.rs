//! The buffers that hold a schedule while it is edited: two texts, each with a
//! cursor. A cursor is a byte offset; every operation is stated on the number
//! of characters in front of it.

use vstd::prelude::*;
use vstd::string::*;
use vstd::utf8::*;

use crate::offsets;
use crate::offsets::{offset_of, pos_of};
use crate::text;
use crate::text::{byte_len, chars_of, string_of};

verus! {

/// Which of the two texts the keys go to.
#[derive(Clone, Copy, Debug, PartialEq, Eq, Structural)]
pub enum EditFocus {
    Expression,
    Input,
}

impl Default for EditFocus {
    fn default() -> (r: Self)
        ensures
            r == EditFocus::Expression,
    {
        EditFocus::Expression
    }
}

/// The schedule expression and the target input that are being edited, each
/// with its cursor.
pub struct Edit {
    pub focus: EditFocus,
    pub expression: String,
    pub expression_cursor: usize,
    pub input: String,
    pub input_cursor: usize,
}

impl Default for Edit {
    fn default() -> (r: Self)
        ensures
            r.wf(),
            r.focus == EditFocus::Expression,
            r.expression@ == Seq::<char>::empty(),
            r.expression_cursor == 0,
            r.input@ == Seq::<char>::empty(),
            r.input_cursor == 0,
    {
        proof {
            assert(Seq::<char>::empty().take(0) =~= Seq::<char>::empty());
            assert(encode_utf8(Seq::<char>::empty()) =~= Seq::<u8>::empty());
            assert(offsets::stands_at(Seq::<char>::empty(), 0, 0));
        }
        Edit {
            focus: EditFocus::default(),
            expression: String::new(),
            expression_cursor: 0,
            input: String::new(),
            input_cursor: 0,
        }
    }
}

/// Where the line begins in which position `p` lies.
pub open spec fn line_start(text: Seq<char>, p: int) -> int {
    p - text::after_last(text.take(p), '\n').len()
}

/// Where the line ends in which position `p` lies.
pub open spec fn line_end(text: Seq<char>, p: int) -> int {
    p + text::until(text.skip(p), '\n').len()
}

pub open spec fn smaller(a: int, b: int) -> int {
    if a <= b {
        a
    } else {
        b
    }
}

/// The position one line up: in the same column, or at the end of the line
/// where it is too short; the beginning of the text from its first line.
pub open spec fn above(text: Seq<char>, p: int) -> int {
    let start = line_start(text, p);
    if start == 0 {
        0
    } else {
        let prev = line_start(text, start - 1);
        prev + smaller(p - start, start - 1 - prev)
    }
}

/// The position one line down: in the same column, or at the end of the line
/// where it is too short; the end of the text from its last line.
pub open spec fn below(text: Seq<char>, p: int) -> int {
    let end = line_end(text, p);
    if end == text.len() {
        text.len() as int
    } else {
        let next = end + 1;
        next + smaller(p - line_start(text, p), line_end(text, next) - next)
    }
}

proof fn lemma_after_last_len(s: Seq<char>, c: char)
    ensures
        text::after_last(s, c).len() <= s.len(),
        text::after_last(s, c).len() < s.len() ==> s[s.len() - text::after_last(s, c).len() - 1] == c,
        forall|k: int| s.len() - text::after_last(s, c).len() <= k < s.len() ==> s[k] != c,
    decreases s.len(),
{
    if s.len() > 0 && s.last() != c {
        lemma_after_last_len(s.drop_last(), c);
        let n = text::after_last(s.drop_last(), c).len();
        assert forall|k: int| s.len() - text::after_last(s, c).len() <= k < s.len() implies s[k] != c by {
            if k < s.len() - 1 {
                assert(s.drop_last()[k] != c);
            }
        }
    }
}

proof fn lemma_until_len(s: Seq<char>, c: char)
    ensures
        text::until(s, c).len() <= s.len(),
        text::until(s, c).len() < s.len() ==> s[text::until(s, c).len() as int] == c,
        forall|k: int| 0 <= k < text::until(s, c).len() ==> s[k] != c,
    decreases s.len(),
{
    if s.len() > 0 && s[0] != c {
        lemma_until_len(s.drop_first(), c);
        assert forall|k: int| 0 <= k < text::until(s, c).len() implies s[k] != c by {
            if k > 0 {
                assert(s.drop_first()[k - 1] != c);
            }
        }
    }
}

fn start_of_line(v: &Vec<char>, p: usize) -> (r: usize)
    requires
        p <= v.len(),
    ensures
        r == line_start(v@, p as int),
        r <= p,
        r > 0 ==> v@[r - 1] == '\n',
{
    let ghost head = v@.take(p as int);
    let mut i: usize = p;
    while i > 0 && v[i - 1] != '\n'
        invariant
            i <= p <= v.len(),
            head == v@.take(p as int),
            forall|k: int| i <= k < p ==> head[k] != '\n',
        decreases i,
    {
        i = i - 1;
    }
    proof {
        text::lemma_after_last_at(head, '\n', i as int);
    }
    i
}

fn end_of_line(v: &Vec<char>, p: usize) -> (r: usize)
    requires
        p <= v.len(),
    ensures
        r == line_end(v@, p as int),
        p <= r <= v.len(),
        r < v.len() ==> v@[r as int] == '\n',
{
    let ghost tail = v@.skip(p as int);
    let mut i: usize = p;
    while i < v.len() && v[i] != '\n'
        invariant
            p <= i <= v.len(),
            tail == v@.skip(p as int),
            forall|k: int| 0 <= k < i - p ==> tail[k] != '\n',
        decreases v.len() - i,
    {
        i = i + 1;
    }
    proof {
        text::lemma_until_at(tail, '\n', i - p);
    }
    i
}

/// A text and the number of characters in front of its cursor.
pub struct Field {
    pub text: Seq<char>,
    pub pos: int,
}

/// What is being edited: two fields, one of which has the focus.
pub struct EditV {
    pub focus: EditFocus,
    pub expression: Field,
    pub input: Field,
}

impl EditV {
    /// Both cursors stand in their texts.
    pub open spec fn valid(self) -> bool {
        &&& 0 <= self.expression.pos <= self.expression.text.len()
        &&& 0 <= self.input.pos <= self.input.text.len()
    }

    /// The field that has the focus.
    pub open spec fn current(self) -> Field {
        match self.focus {
            EditFocus::Expression => self.expression,
            EditFocus::Input => self.input,
        }
    }

    /// The same with another field in the place of the one that has the focus.
    pub open spec fn with_current(self, f: Field) -> EditV {
        match self.focus {
            EditFocus::Expression => EditV { expression: f, ..self },
            EditFocus::Input => EditV { input: f, ..self },
        }
    }

    /// The same with the cursor at another position.
    pub open spec fn at(self, p: int) -> EditV {
        self.with_current(Field { text: self.current().text, pos: p })
    }

    pub open spec fn left(self) -> EditV {
        if self.current().pos == 0 {
            self
        } else {
            self.at(self.current().pos - 1)
        }
    }

    pub open spec fn right(self) -> EditV {
        if self.current().pos >= self.current().text.len() {
            self
        } else {
            self.at(self.current().pos + 1)
        }
    }

    pub open spec fn home(self) -> EditV {
        match self.focus {
            EditFocus::Expression => self.at(0),
            EditFocus::Input => self.at(line_start(self.input.text, self.input.pos)),
        }
    }

    pub open spec fn end(self) -> EditV {
        match self.focus {
            EditFocus::Expression => self.at(self.expression.text.len() as int),
            EditFocus::Input => self.at(line_end(self.input.text, self.input.pos)),
        }
    }

    pub open spec fn up(self) -> EditV {
        match self.focus {
            EditFocus::Expression => self,
            EditFocus::Input => self.at(above(self.input.text, self.input.pos)),
        }
    }

    pub open spec fn down(self) -> EditV {
        match self.focus {
            EditFocus::Expression => self,
            EditFocus::Input => self.at(below(self.input.text, self.input.pos)),
        }
    }

    pub open spec fn inserted(self, c: char) -> EditV {
        let f = self.current();
        self.with_current(Field { text: f.text.insert(f.pos, c), pos: f.pos + 1 })
    }

    pub open spec fn new_line(self) -> EditV {
        match self.focus {
            EditFocus::Expression => self,
            EditFocus::Input => self.inserted('\n'),
        }
    }

    pub open spec fn backspaced(self) -> EditV {
        let f = self.current();
        if f.pos == 0 {
            self
        } else {
            self.with_current(Field { text: f.text.remove(f.pos - 1), pos: f.pos - 1 })
        }
    }

    pub open spec fn deleted(self) -> EditV {
        let f = self.current();
        if f.pos >= f.text.len() {
            self
        } else {
            self.with_current(Field { text: f.text.remove(f.pos), pos: f.pos })
        }
    }

    /// The same with the focus on the other field.
    pub open spec fn switched(self) -> EditV {
        EditV {
            focus: match self.focus {
                EditFocus::Expression => EditFocus::Input,
                EditFocus::Input => EditFocus::Expression,
            },
            ..self
        }
    }
}

impl View for Edit {
    type V = EditV;

    open spec fn view(&self) -> EditV {
        EditV {
            focus: self.focus,
            expression: Field {
                text: self.expression@,
                pos: offsets::char_pos(self.expression@, self.expression_cursor as int),
            },
            input: Field { text: self.input@, pos: offsets::char_pos(self.input@, self.input_cursor as int) },
        }
    }
}

impl Edit {
    /// Both cursors stand between characters.
    pub open spec fn wf(self) -> bool {
        &&& offsets::on_boundary(self.expression@, self.expression_cursor as int)
        &&& offsets::on_boundary(self.input@, self.input_cursor as int)
    }

    /// Buffers with the cursors at the ends, and the focus on the expression.
    pub fn of(expression: String, input: String) -> (r: Edit)
        ensures
            r.wf(),
            r@ == (EditV {
                focus: EditFocus::Expression,
                expression: Field { text: expression@, pos: expression@.len() as int },
                input: Field { text: input@, pos: input@.len() as int },
            }),
    {
        let e: usize = byte_len(expression.as_str());
        let i: usize = byte_len(input.as_str());
        proof {
            assert(expression@.take(expression@.len() as int) =~= expression@);
            assert(input@.take(input@.len() as int) =~= input@);
            offsets::lemma_char_pos(expression@, e as int, expression@.len() as int);
            offsets::lemma_char_pos(input@, i as int, input@.len() as int);
        }
        Edit { focus: EditFocus::Expression, expression, expression_cursor: e, input, input_cursor: i }
    }

    /// The text and the cursor that have the focus.
    pub fn focused(&self) -> (r: (&str, usize))
        ensures
            r.0@ == self@.current().text,
            r.1 == (match self.focus {
                EditFocus::Expression => self.expression_cursor,
                EditFocus::Input => self.input_cursor,
            }),
    {
        match self.focus {
            EditFocus::Expression => (self.expression.as_str(), self.expression_cursor),
            EditFocus::Input => (self.input.as_str(), self.input_cursor),
        }
    }

    /// The text that has the focus, to be changed.
    pub fn text_mut(&mut self) -> (r: &mut String)
        ensures
            *r == (match old(self).focus {
                EditFocus::Expression => old(self).expression,
                EditFocus::Input => old(self).input,
            }),
            *final(self) == (match old(self).focus {
                EditFocus::Expression => (Edit { expression: *final(r), ..*old(self) }),
                EditFocus::Input => (Edit { input: *final(r), ..*old(self) }),
            }),
    {
        match self.focus {
            EditFocus::Expression => &mut self.expression,
            EditFocus::Input => &mut self.input,
        }
    }

    /// The cursor that has the focus, to be changed.
    pub fn cursor_mut(&mut self) -> (r: &mut usize)
        ensures
            *r == (match old(self).focus {
                EditFocus::Expression => old(self).expression_cursor,
                EditFocus::Input => old(self).input_cursor,
            }),
            *final(self) == (match old(self).focus {
                EditFocus::Expression => (Edit { expression_cursor: *final(r), ..*old(self) }),
                EditFocus::Input => (Edit { input_cursor: *final(r), ..*old(self) }),
            }),
    {
        match self.focus {
            EditFocus::Expression => &mut self.expression_cursor,
            EditFocus::Input => &mut self.input_cursor,
        }
    }

    /// Puts the cursor that has the focus behind the first `p` characters.
    fn go_to(&mut self, p: usize)
        requires
            old(self).wf(),
            p <= old(self)@.current().text.len(),
        ensures
            final(self).wf(),
            final(self)@ == old(self)@.at(p as int),
    {
        let off: usize = offset_of(self.focused().0, p);
        proof {
            offsets::lemma_char_pos(self@.current().text, off as int, p as int);
        }
        let c = self.cursor_mut();
        *c = off;
    }

    /// Replaces the text that has the focus and puts its cursor behind the
    /// first `p` characters.
    fn set(&mut self, text: String, p: usize)
        requires
            old(self).wf(),
            p <= text@.len(),
        ensures
            final(self).wf(),
            final(self)@ == old(self)@.with_current(Field { text: text@, pos: p as int }),
    {
        let off: usize = offset_of(text.as_str(), p);
        proof {
            offsets::lemma_char_pos(text@, off as int, p as int);
        }
        let t = self.text_mut();
        *t = text;
        let c = self.cursor_mut();
        *c = off;
    }

    /// The characters of the text that has the focus, and how many of them
    /// stand in front of its cursor.
    fn read(&self) -> (r: (Vec<char>, usize))
        requires
            self.wf(),
        ensures
            r.0@ == self@.current().text,
            r.1 == self@.current().pos,
            r.1 <= r.0.len(),
    {
        let (text, cursor) = self.focused();
        let v = chars_of(text);
        let p = pos_of(&v, cursor);
        (v, p)
    }

    /// How many characters stand in front of the cursor that has the focus.
    pub fn pos_in_focus(&self) -> (r: usize)
        requires
            self.wf(),
        ensures
            r == self@.current().pos,
            r <= self@.current().text.len(),
    {
        self.read().1
    }

    /// One character to the left.
    pub fn move_left(&mut self)
        requires
            old(self).wf(),
        ensures
            final(self).wf(),
            final(self)@ == old(self)@.left(),
    {
        let (_v, p) = self.read();
        if p > 0 {
            self.go_to(p - 1);
        }
    }

    /// One character to the right.
    pub fn move_right(&mut self)
        requires
            old(self).wf(),
        ensures
            final(self).wf(),
            final(self)@ == old(self)@.right(),
    {
        let (v, p) = self.read();
        if p < v.len() {
            self.go_to(p + 1);
        }
    }

    /// To the beginning of the expression, or of the input's current line.
    pub fn move_home(&mut self)
        requires
            old(self).wf(),
        ensures
            final(self).wf(),
            final(self)@ == old(self)@.home(),
    {
        let (v, p) = self.read();
        match self.focus {
            EditFocus::Expression => self.go_to(0),
            EditFocus::Input => {
                let s = start_of_line(&v, p);
                self.go_to(s);
            },
        }
    }

    /// To the end of the expression, or of the input's current line.
    pub fn move_end(&mut self)
        requires
            old(self).wf(),
        ensures
            final(self).wf(),
            final(self)@ == old(self)@.end(),
    {
        let (v, p) = self.read();
        match self.focus {
            EditFocus::Expression => self.go_to(v.len()),
            EditFocus::Input => {
                let e = end_of_line(&v, p);
                self.go_to(e);
            },
        }
    }

    /// One line up in the input, in the same column where the line is long
    /// enough. The expression has one line only.
    pub fn move_up(&mut self)
        requires
            old(self).wf(),
        ensures
            final(self).wf(),
            final(self)@ == old(self)@.up(),
    {
        match self.focus {
            EditFocus::Expression => {},
            EditFocus::Input => {
                let (v, p) = self.read();
                let start = start_of_line(&v, p);
                if start == 0 {
                    self.go_to(0);
                } else {
                    let prev = start_of_line(&v, start - 1);
                    let col: usize = p - start;
                    let len: usize = start - 1 - prev;
                    self.go_to(prev + if col <= len { col } else { len });
                }
            },
        }
    }

    /// One line down in the input, in the same column where the line is long
    /// enough. The expression has one line only.
    pub fn move_down(&mut self)
        requires
            old(self).wf(),
        ensures
            final(self).wf(),
            final(self)@ == old(self)@.down(),
    {
        match self.focus {
            EditFocus::Expression => {},
            EditFocus::Input => {
                let (v, p) = self.read();
                let end = end_of_line(&v, p);
                if end == v.len() {
                    self.go_to(v.len());
                } else {
                    let next: usize = end + 1;
                    let start = start_of_line(&v, p);
                    let col: usize = p - start;
                    let len: usize = end_of_line(&v, next) - next;
                    self.go_to(next + if col <= len { col } else { len });
                }
            },
        }
    }

    /// The column of the cursor that has the focus, counted in characters.
    pub fn visual_col(&self) -> (r: usize)
        requires
            self.wf(),
        ensures
            r == self@.current().pos - line_start(self@.current().text, self@.current().pos),
    {
        let (v, p) = self.read();
        p - start_of_line(&v, p)
    }

    /// Puts a character in front of the cursor.
    pub fn insert_char(&mut self, c: char)
        requires
            old(self).wf(),
        ensures
            final(self).wf(),
            final(self)@ == old(self)@.inserted(c),
    {
        let (v, p) = self.read();
        let mut t = string_of(&v, 0, p);
        t.push(c);
        let rest = string_of(&v, p, v.len());
        t.append(rest.as_str());
        assert(t@ =~= v@.insert(p as int, c));
        // The characters of a text can be counted by a `usize`.
        let n: usize = chars_of(t.as_str()).len();
        assert(p < n);
        self.set(t, p + 1);
    }

    /// Puts a line feed in front of the cursor of the input; the expression
    /// has one line only.
    pub fn insert_newline(&mut self)
        requires
            old(self).wf(),
        ensures
            final(self).wf(),
            final(self)@ == old(self)@.new_line(),
    {
        match self.focus {
            EditFocus::Expression => {},
            EditFocus::Input => self.insert_char('\n'),
        }
    }

    /// Takes the character in front of the cursor away.
    pub fn backspace(&mut self)
        requires
            old(self).wf(),
        ensures
            final(self).wf(),
            final(self)@ == old(self)@.backspaced(),
    {
        let (v, p) = self.read();
        if p > 0 {
            let mut t = string_of(&v, 0, p - 1);
            let rest = string_of(&v, p, v.len());
            t.append(rest.as_str());
            assert(t@ =~= v@.remove(p - 1));
            self.set(t, p - 1);
        }
    }

    /// Takes the character behind the cursor away.
    pub fn delete_forward(&mut self)
        requires
            old(self).wf(),
        ensures
            final(self).wf(),
            final(self)@ == old(self)@.deleted(),
    {
        let (v, p) = self.read();
        if p < v.len() {
            let mut t = string_of(&v, 0, p);
            let rest = string_of(&v, p + 1, v.len());
            t.append(rest.as_str());
            assert(t@ =~= v@.remove(p as int));
            self.set(t, p);
        }
    }

    /// Gives the focus to the other field.
    pub fn switch_focus(&mut self)
        requires
            old(self).wf(),
        ensures
            final(self).wf(),
            final(self)@ == old(self)@.switched(),
    {
        self.focus = match self.focus {
            EditFocus::Expression => EditFocus::Input,
            EditFocus::Input => EditFocus::Expression,
        };
    }
}

/// A cursor on a boundary stands in its text.
pub proof fn law_wf_is_valid(e: Edit)
    requires
        e.wf(),
    ensures
        e@.valid(),
{
    assert(offsets::stands_at(e.expression@, e.expression_cursor as int, e@.expression.pos));
    assert(offsets::stands_at(e.input@, e.input_cursor as int, e@.input.pos));
}

/// Backspace takes back what was just typed, whatever it was.
pub proof fn law_backspace_undoes_insert(e: EditV, c: char)
    requires
        e.valid(),
    ensures
        e.inserted(c).backspaced() == e,
{
    let f = e.current();
    assert(f.text.insert(f.pos, c).remove(f.pos) =~= f.text);
}

/// To delete forward is to step to the right and go back with backspace.
pub proof fn law_delete_is_right_then_backspace(e: EditV)
    requires
        e.valid(),
        e.current().pos < e.current().text.len(),
    ensures
        e.deleted() == e.right().backspaced(),
{
}

/// A step to the right and a step to the left end where they began.
pub proof fn law_left_undoes_right(e: EditV)
    requires
        e.valid(),
    ensures
        e.current().pos < e.current().text.len() ==> e.right().left() == e,
        e.current().pos > 0 ==> e.left().right() == e,
{
}

/// No operation touches the field that has not the focus, and none moves the
/// focus; the cursor never leaves the text.
pub proof fn law_operations_stay_in_the_field(e: EditV, c: char)
    requires
        e.valid(),
    ensures
        forall|g: EditV|
            g == e.left() || g == e.right() || g == e.home() || g == e.end() || g == e.up() || g
                == e.down() || g == e.inserted(c) || g == e.new_line() || g == e.backspaced() || g
                == e.deleted() ==> {
                &&& #[trigger] g.valid()
                &&& g.focus == e.focus
                &&& e.focus == EditFocus::Expression ==> g.input == e.input
                &&& e.focus == EditFocus::Input ==> g.expression == e.expression
            },
{
    law_line_bounds(e.input.text, e.input.pos);
    law_up_keeps_column(e.input.text, e.input.pos);
    law_down_keeps_column(e.input.text, e.input.pos);
}

/// The start and the end of a line enclose the position, and the line between
/// them has no line feed.
pub proof fn law_line_bounds(text: Seq<char>, p: int)
    requires
        0 <= p <= text.len(),
    ensures
        0 <= line_start(text, p) <= p <= line_end(text, p) <= text.len(),
        line_start(text, p) > 0 ==> text[line_start(text, p) - 1] == '\n',
        line_end(text, p) < text.len() ==> text[line_end(text, p)] == '\n',
        forall|k: int| line_start(text, p) <= k < line_end(text, p) ==> text[k] != '\n',
{
    lemma_after_last_len(text.take(p), '\n');
    lemma_until_len(text.skip(p), '\n');
    let s = line_start(text, p);
    if s > 0 {
        assert(text.take(p)[s - 1] == '\n');
    }
    let e = line_end(text, p);
    if e < text.len() {
        assert(text.skip(p)[e - p] == '\n');
    }
    assert forall|k: int| s <= k < e implies text[k] != '\n' by {
        if k < p {
            assert(text.take(p)[k] != '\n');
        } else {
            assert(text.skip(p)[k - p] != '\n');
        }
    }
}

/// Every position of a line has the same start and the same end.
pub proof fn lemma_same_line(text: Seq<char>, p: int, q: int)
    requires
        0 <= p <= text.len(),
        line_start(text, p) <= q <= line_end(text, p),
    ensures
        line_start(text, q) == line_start(text, p),
        line_end(text, q) == line_end(text, p),
{
    law_line_bounds(text, p);
    let s = line_start(text, p);
    let e = line_end(text, p);
    assert(forall|k: int| s <= k < q ==> text.take(q)[k] != '\n');
    text::lemma_after_last_at(text.take(q), '\n', s);
    assert(forall|k: int| 0 <= k < e - q ==> text.skip(q)[k] != '\n');
    text::lemma_until_at(text.skip(q), '\n', e - q);
}

/// Going up keeps the column wherever the line above is long enough, and
/// stays within the text.
pub proof fn law_up_keeps_column(text: Seq<char>, p: int)
    requires
        0 <= p <= text.len(),
    ensures
        0 <= above(text, p) <= p,
        line_start(text, p) > 0 ==> {
            let above_start = line_start(text, line_start(text, p) - 1);
            let above_len = line_start(text, p) - 1 - above_start;
            &&& line_start(text, above(text, p)) == above_start
            &&& above(text, p) - above_start == smaller(p - line_start(text, p), above_len)
        },
{
    law_line_bounds(text, p);
    let start = line_start(text, p);
    if start > 0 {
        law_line_bounds(text, start - 1);
        assert(line_end(text, start - 1) == start - 1) by {
            text::lemma_until_at(text.skip(start - 1), '\n', 0);
        }
        lemma_same_line(text, start - 1, above(text, p));
    }
}

/// Going down keeps the column wherever the line below is long enough, and
/// stays within the text.
pub proof fn law_down_keeps_column(text: Seq<char>, p: int)
    requires
        0 <= p <= text.len(),
    ensures
        p <= below(text, p) <= text.len(),
        line_end(text, p) < text.len() ==> {
            let next = line_end(text, p) + 1;
            &&& line_start(text, below(text, p)) == next
            &&& below(text, p) - next == smaller(
                p - line_start(text, p),
                line_end(text, next) - next,
            )
        },
{
    law_line_bounds(text, p);
    let end = line_end(text, p);
    if end < text.len() {
        let next = end + 1;
        law_line_bounds(text, next);
        assert(line_start(text, next) == next) by {
            assert(text.take(next)[next - 1] == '\n');
            text::lemma_after_last_at(text.take(next), '\n', next);
        }
        lemma_same_line(text, next, below(text, p));
    }
}

/// Going down and up again comes back to the same place, where the line below
/// is long enough.
pub proof fn law_down_then_up(text: Seq<char>, p: int)
    requires
        0 <= p <= text.len(),
        line_end(text, p) < text.len(),
        p - line_start(text, p) <= line_end(text, line_end(text, p) + 1) - (line_end(text, p) + 1),
    ensures
        above(text, below(text, p)) == p,
{
    law_line_bounds(text, p);
    law_down_keeps_column(text, p);
    law_up_keeps_column(text, below(text, p));
    lemma_same_line(text, p, line_end(text, p));
}

} // verus!
