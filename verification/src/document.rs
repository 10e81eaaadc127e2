use vstd::prelude::*;
use vstd::string::*;

verus! {

/// One line of text of the open document.
#[derive(Debug, PartialEq, Eq)]
pub struct Row {
    pub text: String,
}

/// What remains of a line once it is cut to the column window `[start, end)`:
/// the window is clamped to the line's length before slicing.
pub open spec fn rendered_slice(s: Seq<char>, start: int, end: int) -> Seq<char> {
    let e = if end <= s.len() { end } else { s.len() as int };
    let st = if start <= e { start } else { e };
    s.subrange(st, e)
}

impl Row {
    /// The visible part of this line for the column window `[start, end)`.
    pub fn render(&self, start: usize, end: usize) -> (r: String)
        ensures
            r@ == rendered_slice(self.text@, start as int, end as int),
    {
        let len = self.text.as_str().unicode_len();
        let e = if end <= len { end } else { len };
        let st = if start <= e { start } else { e };
        let sub = self.text.as_str().substring_char(st, e);
        sub.to_owned()
    }
}

/// The ordered lines of the open file. The session never edits them; it only
/// reads them back row by row while rendering.
#[derive(Debug, PartialEq, Eq)]
pub struct Document {
    pub rows: Vec<Row>,
}

impl Document {
    /// A document with no lines at all.
    pub fn new() -> (d: Document)
        ensures
            d.rows@.len() == 0,
    {
        Document { rows: Vec::new() }
    }

    /// Number of lines in the document.
    pub fn len(&self) -> (n: usize)
        ensures
            n == self.rows@.len(),
    {
        self.rows.len()
    }

    /// True exactly when the document holds no lines.
    pub fn is_empty(&self) -> (b: bool)
        ensures
            b == (self.rows@.len() == 0),
    {
        self.rows.len() == 0
    }

    /// The line at `index`, if the document has one there.
    pub fn row(&self, index: usize) -> (r: Option<&Row>)
        ensures
            (index < self.rows@.len()) <==> (r is Some),
            r matches Some(row) ==> *row == self.rows@[index as int],
    {
        if index < self.rows.len() {
            Some(&self.rows[index])
        } else {
            None
        }
    }
}

} // verus!
