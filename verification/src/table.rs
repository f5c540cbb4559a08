//! Plain text tables: one line per row, every column as wide as its widest
//! cell.

use crate::text::{pad, spaces};
use vstd::prelude::*;
use vstd::string::StringExecFns;

verus! {

#[derive(Clone, Copy, Debug, PartialEq, Eq, Structural)]
pub enum ColumnAlignment {
    Left,
    Right,
}

pub struct Column<'a> {
    pub name: &'a str,
    pub alignment: ColumnAlignment,
}

pub struct Table<'a> {
    pub columns: Vec<Column<'a>>,
}

/// The width of a cell: its length in bytes.
pub open spec fn width(cell: Seq<char>) -> int {
    vstd::utf8::encode_utf8(cell).len() as int
}

/// The width of a column over the first `upto` rows: that of its widest
/// cell.
pub open spec fn column_width(cells: Seq<Seq<Seq<char>>>, column: int, upto: int) -> int
    decreases upto,
{
    if upto <= 0 {
        0
    } else if column_width(cells, column, upto - 1) < width(cells[upto - 1][column]) {
        width(cells[upto - 1][column])
    } else {
        column_width(cells, column, upto - 1)
    }
}

/// A cell filled up with spaces to a width, on the side away from its
/// alignment.
pub open spec fn aligned(cell: Seq<char>, to_width: int, alignment: ColumnAlignment) -> Seq<char> {
    match alignment {
        ColumnAlignment::Right => spaces(to_width - width(cell)) + cell,
        ColumnAlignment::Left => cell + spaces(to_width - width(cell)),
    }
}

/// The start of a row's line, up to and without the column `upto`.
pub open spec fn row_start(
    cells: Seq<Seq<Seq<char>>>,
    alignments: Seq<ColumnAlignment>,
    row: int,
    upto: int,
) -> Seq<char>
    decreases upto,
{
    if upto <= 0 {
        seq!['|']
    } else {
        row_start(cells, alignments, row, upto - 1) + seq![' '] + aligned(
            cells[row][upto - 1],
            column_width(cells, upto - 1, cells.len() as int),
            alignments[upto - 1],
        ) + seq![' ', '|']
    }
}

/// The lines of the first `upto` rows, each closed by a line feed.
pub open spec fn rendered_rows(
    cells: Seq<Seq<Seq<char>>>,
    alignments: Seq<ColumnAlignment>,
    upto: int,
) -> Seq<char>
    decreases upto,
{
    if upto <= 0 {
        Seq::empty()
    } else {
        rendered_rows(cells, alignments, upto - 1) + row_start(
            cells,
            alignments,
            upto - 1,
            alignments.len() as int,
        ) + seq!['\n']
    }
}

/// A whole table as text.
pub open spec fn rendered(cells: Seq<Seq<Seq<char>>>, alignments: Seq<ColumnAlignment>) -> Seq<
    char,
> {
    rendered_rows(cells, alignments, cells.len() as int)
}

/// The cells of a list of rows.
pub open spec fn cells_of(rows: Seq<Vec<String>>) -> Seq<Seq<Seq<char>>> {
    Seq::new(rows.len(), |i: int| Seq::new(rows[i]@.len(), |j: int| rows[i]@[j]@))
}

impl<'a> Table<'a> {
    /// The names of the columns, the first row of every rendering.
    pub open spec fn header(&self) -> Seq<Seq<char>> {
        Seq::new(self.columns@.len(), |j: int| self.columns@[j].name@)
    }

    pub open spec fn alignments(&self) -> Seq<ColumnAlignment> {
        Seq::new(self.columns@.len(), |j: int| self.columns@[j].alignment)
    }

    /// Renders the header and the rows, which hold one cell per column.
    pub fn render(&self, rows: Vec<Vec<String>>) -> (text: String)
        requires
            forall|i: int| 0 <= i < rows@.len() ==> (#[trigger] rows@[i])@.len() == self.columns@.len(),
        ensures
            text@ == rendered(seq![self.header()] + cells_of(rows@), self.alignments()),
    {
        let column_count = self.columns.len();
        let mut header_row: Vec<String> = Vec::new();
        let mut j: usize = 0;
        while j < column_count
            invariant
                j <= column_count,
                column_count == self.columns@.len(),
                header_row@.len() == j,
                forall|k: int| 0 <= k < j ==> (#[trigger] header_row@[k])@ == self.columns@[k].name@,
            decreases column_count - j,
        {
            header_row.push(String::from_str(self.columns[j].name));
            j = j + 1;
        }
        let mut table = rows;
        table.insert(0, header_row);
        let ghost cells = cells_of(table@);
        let ghost alignments = self.alignments();
        proof {
            assert(cells =~~= seq![self.header()] + cells_of(rows@));
            assert forall|i: int| 0 <= i < table@.len() implies (#[trigger] table@[i])@.len()
                == column_count by {
                if i > 0 {
                    assert(table@[i] == rows@[i - 1]);
                }
            }
        }
        let row_count = table.len();

        let mut max_length: Vec<usize> = Vec::new();
        let mut j: usize = 0;
        while j < column_count
            invariant
                j <= column_count,
                max_length@.len() == j,
                forall|k: int| 0 <= k < j ==> #[trigger] max_length@[k] == column_width(cells, k, 0),
            decreases column_count - j,
        {
            max_length.push(0);
            j = j + 1;
        }
        let mut i: usize = 0;
        while i < row_count
            invariant
                i <= row_count,
                row_count == table@.len(),
                column_count == self.columns@.len(),
                cells == cells_of(table@),
                forall|r: int| 0 <= r < table@.len() ==> (#[trigger] table@[r])@.len() == column_count,
                max_length@.len() == column_count,
                forall|k: int|
                    0 <= k < column_count ==> #[trigger] max_length@[k] == column_width(
                        cells,
                        k,
                        i as int,
                    ),
            decreases row_count - i,
        {
            let mut j: usize = 0;
            while j < column_count
                invariant
                    j <= column_count,
                    i < row_count,
                    row_count == table@.len(),
                    column_count == self.columns@.len(),
                    cells == cells_of(table@),
                    table@[i as int]@.len() == column_count,
                    max_length@.len() == column_count,
                    forall|k: int|
                        0 <= k < j ==> #[trigger] max_length@[k] == column_width(cells, k, i + 1),
                    forall|k: int|
                        j <= k < column_count ==> #[trigger] max_length@[k] == column_width(
                            cells,
                            k,
                            i as int,
                        ),
                decreases column_count - j,
            {
                let length = table[i][j].as_str().as_bytes().len();
                assert(cells[i as int][j as int] == table@[i as int]@[j as int]@);
                if max_length[j] < length {
                    max_length.set(j, length);
                }
                j = j + 1;
            }
            i = i + 1;
        }

        let mut table_string = String::new();
        let mut i: usize = 0;
        assert(table_string@ =~= rendered_rows(cells, alignments, 0));
        while i < row_count
            invariant
                i <= row_count,
                row_count == table@.len(),
                column_count == self.columns@.len(),
                cells == cells_of(table@),
                alignments == self.alignments(),
                forall|r: int| 0 <= r < table@.len() ==> (#[trigger] table@[r])@.len() == column_count,
                max_length@.len() == column_count,
                forall|k: int|
                    0 <= k < column_count ==> #[trigger] max_length@[k] == column_width(
                        cells,
                        k,
                        row_count as int,
                    ),
                table_string@ == rendered_rows(cells, alignments, i as int),
            decreases row_count - i,
        {
            proof {
                reveal_strlit("|");
                reveal_strlit(" ");
                reveal_strlit(" |");
                reveal_strlit("\n");
            }
            let ghost before = table_string@;
            table_string.append("|");
            let mut j: usize = 0;
            while j < column_count
                invariant
                    j <= column_count,
                    i < row_count,
                    row_count == table@.len(),
                    column_count == self.columns@.len(),
                    cells == cells_of(table@),
                    alignments == self.alignments(),
                    table@[i as int]@.len() == column_count,
                    max_length@.len() == column_count,
                    forall|k: int|
                        0 <= k < column_count ==> #[trigger] max_length@[k] == column_width(
                            cells,
                            k,
                            row_count as int,
                        ),
                    table_string@ == before + row_start(cells, alignments, i as int, j as int),
                decreases column_count - j,
            {
                let ghost line = table_string@;
                let cell = table[i][j].as_str();
                let length = cell.as_bytes().len();
                proof {
                    assert(cells[i as int][j as int] == table@[i as int]@[j as int]@);
                    assert(alignments[j as int] == self.columns@[j as int].alignment);
                    lemma_column_width_covers(cells, j as int, row_count as int, i as int);
                }
                let fill: usize = max_length[j] - length;
                let ghost filled = aligned(
                    cells[i as int][j as int],
                    column_width(cells, j as int, cells.len() as int),
                    alignments[j as int],
                );
                proof {
                    reveal_strlit(" ");
                    reveal_strlit(" |");
                    assert(cells.len() == row_count);
                    assert(" "@ =~= seq![' ']);
                    assert(" |"@ =~= seq![' ', '|']);
                    assert(spaces(fill as int) == spaces(
                        column_width(cells, j as int, cells.len() as int) - width(
                            cells[i as int][j as int],
                        ),
                    ));
                }
                table_string.append(" ");
                match self.columns[j].alignment {
                    ColumnAlignment::Right => {
                        pad(&mut table_string, fill);
                        table_string.append(cell);
                        assert(table_string@ =~= line + seq![' '] + filled);
                    },
                    ColumnAlignment::Left => {
                        table_string.append(cell);
                        pad(&mut table_string, fill);
                        assert(table_string@ =~= line + seq![' '] + filled);
                    },
                }
                table_string.append(" |");
                assert(table_string@ =~= before + row_start(
                    cells,
                    alignments,
                    i as int,
                    j + 1,
                ));
                j = j + 1;
            }
            table_string.append("\n");
            i = i + 1;
            assert(table_string@ =~= rendered_rows(cells, alignments, i as int));
        }
        table_string
    }
}

/// A column is at least as wide as each of its cells.
proof fn lemma_column_width_covers(cells: Seq<Seq<Seq<char>>>, column: int, upto: int, row: int)
    requires
        0 <= row < upto,
    ensures
        width(cells[row][column]) <= column_width(cells, column, upto),
    decreases upto,
{
    if row < upto - 1 {
        lemma_column_width_covers(cells, column, upto - 1, row);
    }
}

} // verus!
