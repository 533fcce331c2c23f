//! Rendering a completion template into its final prompt string: the base
//! prompt, a blank line, every example row in column order, and a closing
//! test row, with cells of short columns rendered as the empty string.

use vstd::prelude::*;
use vstd::string::StringExecFns;
use crate::model::Completion;
use crate::model::CompletionView;
use crate::model::ColumnView;

verus! {

/// The cell of a column at row `i`: the `i`-th example value, or the empty
/// string when the column is shorter (a ragged table pads, never fails).
pub open spec fn spec_cell(values: Seq<Seq<char>>, i: int) -> Seq<char> {
    if 0 <= i < values.len() {
        values[i]
    } else {
        Seq::empty()
    }
}

/// One rendered line: `name: text`, newline-terminated.
pub open spec fn spec_line(name: Seq<char>, text: Seq<char>) -> Seq<char> {
    name + ": "@ + text + "\n"@
}

/// The lines of example row `i`, over the columns from index `j` on, in
/// declared column order.
pub open spec fn spec_example_row_from(cols: Seq<ColumnView>, i: int, j: int) -> Seq<char>
    decreases cols.len() - j,
{
    if j < 0 || j >= cols.len() {
        Seq::empty()
    } else {
        spec_line(cols[j].name, spec_cell(cols[j].values, i)) + spec_example_row_from(
            cols,
            i,
            j + 1,
        )
    }
}

/// The example rows from row `i` up to row `count`, each followed by one
/// blank line.
pub open spec fn spec_rows_from(cols: Seq<ColumnView>, i: int, count: int) -> Seq<char>
    decreases count - i,
{
    if i < 0 || i >= count {
        Seq::empty()
    } else {
        spec_example_row_from(cols, i, 0) + "\n"@ + spec_rows_from(cols, i + 1, count)
    }
}

/// The lines of the final test row over the columns from index `j` on: each
/// column's test value, or the empty string where none was given.
pub open spec fn spec_test_row_from(cols: Seq<ColumnView>, j: int) -> Seq<char>
    decreases cols.len() - j,
{
    if j < 0 || j >= cols.len() {
        Seq::empty()
    } else {
        spec_line(
            cols[j].name,
            match cols[j].test {
                Some(t) => t,
                None => Seq::empty(),
            },
        ) + spec_test_row_from(cols, j + 1)
    }
}

/// The maximum example-column length over the columns from index `j` on;
/// 0 when there is none.
pub open spec fn spec_max_count_from(cols: Seq<ColumnView>, j: int) -> nat
    decreases cols.len() - j,
{
    if j < 0 || j >= cols.len() {
        0
    } else {
        let rest = spec_max_count_from(cols, j + 1);
        if cols[j].values.len() > rest {
            cols[j].values.len()
        } else {
            rest
        }
    }
}

/// How many example rows a completion template has: the maximum length over
/// its example columns, 0 when it has no columns.
pub open spec fn spec_example_count(c: CompletionView) -> nat {
    match c.examples {
        None => 0,
        Some(cols) => spec_max_count_from(cols, 0),
    }
}

/// What the final prompt of a completion template is: the base prompt, a
/// blank line, all example rows, and the test row. Without an example table
/// the rows contribute nothing.
pub open spec fn spec_final_prompt(c: CompletionView) -> Seq<char> {
    match c.examples {
        None => c.prompt + "\n\n"@,
        Some(cols) => c.prompt + "\n\n"@ + spec_rows_from(
            cols,
            0,
            spec_max_count_from(cols, 0) as int,
        ) + spec_test_row_from(cols, 0),
    }
}

proof fn lemma_max_count_from(cols: Seq<ColumnView>, j: int)
    requires
        0 <= j <= cols.len(),
    ensures
        forall|k: int| j <= k < cols.len() ==> cols[k].values.len() <= spec_max_count_from(cols, j),
        j < cols.len() ==> exists|k: int|
            j <= k < cols.len() && cols[k].values.len() == spec_max_count_from(cols, j),
        j == cols.len() ==> spec_max_count_from(cols, j) == 0,
    decreases cols.len() - j,
{
    if j < cols.len() {
        lemma_max_count_from(cols, j + 1);
        if j + 1 < cols.len() && spec_max_count_from(cols, j + 1) > cols[j].values.len() {
            let k = choose|k: int|
                j + 1 <= k < cols.len() && cols[k].values.len() == spec_max_count_from(
                    cols,
                    j + 1,
                );
            assert(cols[k].values.len() == spec_max_count_from(cols, j));
        }
    }
}

/// The example count is the maximum of the column lengths: no column is
/// longer, some column reaches it whenever there is any column at all, and
/// without columns the count is 0.
pub proof fn lemma_example_count_is_max(cols: Seq<ColumnView>)
    ensures
        forall|k: int| 0 <= k < cols.len() ==> cols[k].values.len() <= spec_max_count_from(cols, 0),
        cols.len() > 0 ==> exists|k: int|
            0 <= k < cols.len() && cols[k].values.len() == spec_max_count_from(cols, 0),
        cols.len() == 0 ==> spec_max_count_from(cols, 0) == 0,
{
    lemma_max_count_from(cols, 0);
}

/// A cell of a ragged table beyond a column's own length renders as the
/// empty string.
pub proof fn lemma_ragged_cell_is_empty(col: ColumnView, i: int)
    requires
        col.values.len() <= i,
    ensures
        spec_cell(col.values, i) == Seq::<char>::empty(),
{
}

impl Completion {
    /// The number of example rows: the maximum length over the example
    /// columns, 0 when there are none or all are empty.
    pub fn example_count(&self) -> (r: usize)
        ensures
            r == spec_example_count(self@),
    {
        match &self.examples {
            None => 0,
            Some(columns) => {
                let ghost cv: Seq<ColumnView> = columns.deep_view();
                let mut max_length: usize = 0;
                let mut j: usize = 0;
                while j < columns.len()
                    invariant
                        j <= columns.len(),
                        cv == columns.deep_view(),
                        cv.len() == columns.len(),
                        ({
                            let rest = spec_max_count_from(cv, j as int);
                            (if max_length > rest {
                                max_length as nat
                            } else {
                                rest
                            }) == spec_max_count_from(cv, 0)
                        }),
                    decreases columns.len() - j,
                {
                    proof {
                        assert(cv[j as int] == columns@[j as int].deep_view());
                    }
                    if columns[j].values.len() > max_length {
                        max_length = columns[j].values.len();
                    }
                    j = j + 1;
                }
                max_length
            },
        }
    }

    /// Renders the final prompt: the base prompt, a blank line, each example
    /// row (columns in declared order, missing cells as empty strings), and
    /// one test row from the columns' test values.
    pub fn final_prompt(&self) -> (r: String)
        ensures
            r@ == spec_final_prompt(self@),
    {
        let mut out = String::new();
        out.append(self.prompt.as_str());
        out.append("\n\n");
        match &self.examples {
            None => {
                proof {
                    assert(out@ =~= spec_final_prompt(self@));
                }
                out
            },
            Some(columns) => {
                let ghost cv: Seq<ColumnView> = columns.deep_view();
                let ghost target: Seq<char> = spec_final_prompt(self@);
                let count = self.example_count();
                proof {
                    assert(out@ + spec_rows_from(cv, 0, count as int) + spec_test_row_from(cv, 0)
                        =~= target);
                }
                let mut i: usize = 0;
                while i < count
                    invariant
                        i <= count,
                        cv == columns.deep_view(),
                        cv.len() == columns.len(),
                        count == spec_max_count_from(cv, 0),
                        out@ + spec_rows_from(cv, i as int, count as int) + spec_test_row_from(
                            cv,
                            0,
                        ) == target,
                    decreases count - i,
                {
                    let ghost row_rest: Seq<char> = "\n"@ + spec_rows_from(
                        cv,
                        i as int + 1,
                        count as int,
                    ) + spec_test_row_from(cv, 0);
                    proof {
                        assert(spec_rows_from(cv, i as int, count as int)
                            == spec_example_row_from(cv, i as int, 0) + "\n"@ + spec_rows_from(
                            cv,
                            i as int + 1,
                            count as int,
                        ));
                        assert(out@ + spec_example_row_from(cv, i as int, 0) + row_rest
                            =~= out@ + spec_rows_from(cv, i as int, count as int)
                            + spec_test_row_from(cv, 0));
                    }
                    let mut j: usize = 0;
                    while j < columns.len()
                        invariant
                            j <= columns.len(),
                            i < count,
                            cv == columns.deep_view(),
                            cv.len() == columns.len(),
                            row_rest == "\n"@ + spec_rows_from(cv, i as int + 1, count as int)
                                + spec_test_row_from(cv, 0),
                            out@ + spec_example_row_from(cv, i as int, j as int) + row_rest
                                == target,
                        decreases columns.len() - j,
                    {
                        let ghost out0: Seq<char> = out@;
                        proof {
                            assert(cv[j as int] == columns@[j as int].deep_view());
                        }
                        let col = &columns[j];
                        out.append(col.name.as_str());
                        out.append(": ");
                        if i < col.values.len() {
                            proof {
                                assert(col.values.deep_view()[i as int]
                                    == col.values@[i as int].deep_view());
                            }
                            out.append(col.values[i].as_str());
                        }
                        out.append("\n");
                        proof {
                            assert(out@ =~= out0 + spec_line(
                                cv[j as int].name,
                                spec_cell(cv[j as int].values, i as int),
                            ));
                            assert(spec_example_row_from(cv, i as int, j as int) == spec_line(
                                cv[j as int].name,
                                spec_cell(cv[j as int].values, i as int),
                            ) + spec_example_row_from(cv, i as int, j as int + 1));
                            assert(out@ + spec_example_row_from(cv, i as int, j as int + 1)
                                + row_rest =~= out0 + spec_example_row_from(cv, i as int, j as int)
                                + row_rest);
                        }
                        j = j + 1;
                    }
                    proof {
                        assert(spec_example_row_from(cv, i as int, columns.len() as int)
                            == Seq::<char>::empty());
                        assert(out@ + Seq::<char>::empty() + row_rest =~= out@ + row_rest);
                    }
                    let ghost out1: Seq<char> = out@;
                    out.append("\n");
                    proof {
                        assert(out@ + spec_rows_from(cv, i as int + 1, count as int)
                            + spec_test_row_from(cv, 0) =~= out1 + row_rest);
                    }
                    i = i + 1;
                }
                proof {
                    assert(spec_rows_from(cv, count as int, count as int)
                        == Seq::<char>::empty());
                    assert(out@ + spec_test_row_from(cv, 0) =~= out@ + Seq::<char>::empty()
                        + spec_test_row_from(cv, 0));
                }
                let mut j: usize = 0;
                while j < columns.len()
                    invariant
                        j <= columns.len(),
                        cv == columns.deep_view(),
                        cv.len() == columns.len(),
                        out@ + spec_test_row_from(cv, j as int) == target,
                    decreases columns.len() - j,
                {
                    let ghost out0: Seq<char> = out@;
                    proof {
                        assert(cv[j as int] == columns@[j as int].deep_view());
                    }
                    let col = &columns[j];
                    out.append(col.name.as_str());
                    out.append(": ");
                    match &col.test {
                        Some(t) => {
                            out.append(t.as_str());
                        },
                        None => {},
                    }
                    out.append("\n");
                    proof {
                        let ghost cell = match cv[j as int].test {
                            Some(t) => t,
                            None => Seq::<char>::empty(),
                        };
                        assert(out@ =~= out0 + spec_line(cv[j as int].name, cell));
                        assert(spec_test_row_from(cv, j as int) == spec_line(
                            cv[j as int].name,
                            cell,
                        ) + spec_test_row_from(cv, j as int + 1));
                        assert(out@ + spec_test_row_from(cv, j as int + 1) =~= out0
                            + spec_test_row_from(cv, j as int));
                    }
                    j = j + 1;
                }
                proof {
                    assert(spec_test_row_from(cv, columns.len() as int) == Seq::<char>::empty());
                    assert(out@ + Seq::<char>::empty() =~= out@);
                }
                out
            },
        }
    }
}

} // verus!
