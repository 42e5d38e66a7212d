//! A table in wiki markup, filled row by row and cell by cell.
use vstd::prelude::*;

use crate::text::{push_text, string_views};

verus! {

/// A wiki table: a header row followed by the rows of the body. It always has at least one
/// row; cells are added to the last row.
pub struct Wikitable {
    cells: Vec<Vec<String>>,
}

/// The texts of the cells, row by row.
pub open spec fn rows_view(cells: Seq<Vec<String>>) -> Seq<Seq<Seq<char>>> {
    cells.map_values(|r: Vec<String>| string_views(r@))
}

impl View for Wikitable {
    type V = Seq<Seq<Seq<char>>>;

    closed spec fn view(&self) -> Seq<Seq<Seq<char>>> {
        rows_view(self.cells@)
    }
}

/// The cells of a row, each written after a mark and followed by a space.
pub open spec fn marked_cells(row: Seq<Seq<char>>, mark: Seq<char>) -> Seq<char>
    decreases row.len(),
{
    if row.len() == 0 {
        seq![]
    } else {
        marked_cells(row.drop_last(), mark) + mark + row.last() + seq![' ']
    }
}

/// A row as one line: its first cell after the first mark, the others after the mark.
pub open spec fn line_text(row: Seq<Seq<char>>, first: Seq<char>, mark: Seq<char>) -> Seq<char> {
    first + row[0] + seq![' '] + marked_cells(row.skip(1), mark)
}

/// The rows of the body, each on its line and followed by a row separator.
pub open spec fn body_text(rows: Seq<Seq<Seq<char>>>) -> Seq<char>
    decreases rows.len(),
{
    if rows.len() == 0 {
        seq![]
    } else {
        body_text(rows.drop_last()) + line_text(rows.last(), "| "@, "|| "@) + "\n|-\n"@
    }
}

/// The markup of a table whose first row is the header.
#[verifier::opaque]
pub open spec fn table_text(t: Seq<Seq<Seq<char>>>) -> Seq<char> {
    "{| class=\"wikitable\"\n|-\n"@ + line_text(t[0], "! "@, "!! "@) + "\n|-\n"@ + body_text(
        t.skip(1),
    ) + "|}"@
}

/// Every row has a cell.
pub open spec fn rows_filled(t: Seq<Seq<Seq<char>>>) -> bool {
    forall|i: int| 0 <= i < t.len() ==> #[trigger] t[i].len() > 0
}

/// Appends a row as one line.
fn push_line(s: &mut String, row: &Vec<String>, first: &str, mark: &str)
    requires
        row@.len() > 0,
    ensures
        final(s)@ == old(s)@ + line_text(string_views(row@), first@, mark@),
{
    let ghost r = string_views(row@);
    push_text(s, first);
    push_text(s, row[0].as_str());
    push_text(s, " ");
    proof {
        reveal_strlit(" ");
    }
    let ghost start = s@;
    assert(start == old(s)@ + first@ + r[0] + seq![' ']);
    let mut j: usize = 1;
    assert(r.skip(1).take(0) =~= seq![]);
    while j < row.len()
        invariant
            r == string_views(row@),
            1 <= j <= row@.len(),
            s@ == start + marked_cells(r.skip(1).take(j - 1), mark@),
        decreases row@.len() - j,
    {
        proof {
            reveal_strlit(" ");
        }
        let ghost before = s@;
        push_text(s, mark);
        push_text(s, row[j].as_str());
        push_text(s, " ");
        assert(row@[j as int]@ == r[j as int]);
        assert(s@ =~= before + mark@ + r[j as int] + seq![' ']);
        assert(r.skip(1).take(j as int).drop_last() =~= r.skip(1).take(j - 1));
        assert(r.skip(1).take(j as int).last() == r[j as int]);
        j = j + 1;
        assert(s@ =~= start + marked_cells(r.skip(1).take(j - 1), mark@));
    }
    assert(r.skip(1).take(j - 1) =~= r.skip(1));
    assert(s@ =~= old(s)@ + line_text(r, first@, mark@));
}

impl Wikitable {
    /// A table with one empty row.
    pub fn new() -> (t: Self)
        ensures
            t@ == seq![Seq::<Seq<char>>::empty()],
    {
        let mut cells: Vec<Vec<String>> = Vec::new();
        let row: Vec<String> = Vec::new();
        assert(string_views(row@) =~= seq![]);
        cells.push(row);
        let t = Wikitable { cells };
        assert(t@ =~= seq![Seq::<Seq<char>>::empty()]);
        t
    }

    /// Starts a new, empty row.
    pub fn add_row(&mut self)
        ensures
            final(self)@ == old(self)@.push(seq![]),
    {
        let row: Vec<String> = Vec::new();
        assert(string_views(row@) =~= seq![]);
        self.cells.push(row);
        assert(self@ =~= old(self)@.push(seq![]));
    }

    /// Adds a cell at the end of the last row.
    pub fn add(&mut self, s: String)
        requires
            old(self)@.len() > 0,
        ensures
            final(self)@ == old(self)@.update(
                old(self)@.len() - 1,
                old(self)@.last().push(s@),
            ),
    {
        let mut row = match self.cells.pop() {
            Some(r) => r,
            None => {
                proof {
                    assert(false);
                }
                Vec::new()
            },
        };
        let ghost before = string_views(row@);
        row.push(s);
        assert(string_views(row@) =~= before.push(s@));
        self.cells.push(row);
        assert(self@ =~= old(self)@.update(old(self)@.len() - 1, old(self)@.last().push(s@)));
    }

    /// The markup of the table; every row must have a cell.
    pub fn to_string(&self) -> (r: String)
        requires
            self@.len() > 0,
            rows_filled(self@),
        ensures
            r@ == table_text(self@),
    {
        let ghost t = self@;
        let mut result = String::from_str("{| class=\"wikitable\"\n|-\n");
        assert(t[0] == string_views(self.cells@[0]@));
        push_line(&mut result, &self.cells[0], "! ", "!! ");
        push_text(&mut result, "\n|-\n");
        let ghost head = result@;
        let mut i: usize = 1;
        assert(t.skip(1).take(0) =~= seq![]);
        while i < self.cells.len()
            invariant
                t == self@,
                t.len() == self.cells@.len(),
                rows_filled(t),
                1 <= i <= self.cells@.len(),
                result@ == head + body_text(t.skip(1).take(i - 1)),
            decreases self.cells@.len() - i,
        {
            assert(t[i as int] == string_views(self.cells@[i as int]@));
            assert(t[i as int].len() > 0);
            push_line(&mut result, &self.cells[i], "| ", "|| ");
            push_text(&mut result, "\n|-\n");
            assert(t.skip(1).take(i as int).drop_last() =~= t.skip(1).take(i - 1));
            assert(t.skip(1).take(i as int).last() == t[i as int]);
            i = i + 1;
            assert(result@ =~= head + body_text(t.skip(1).take(i - 1)));
        }
        assert(t.skip(1).take(i - 1) =~= t.skip(1));
        push_text(&mut result, "|}");
        reveal(table_text);
        assert(result@ =~= table_text(t));
        result
    }
}

} // verus!
