use vstd::prelude::*;

verus! {

/// The rows that one statement produced, kept as text: the column names,
/// then for each row one cell per column, `None` where the value was NULL.
pub struct ResultBatch {
    columns: Vec<String>,
    rows: Vec<Vec<Option<String>>>,
}

impl ResultBatch {
    /// The column names, in result order.
    pub closed spec fn columns(&self) -> Seq<String> {
        self.columns@
    }

    /// The rows, in result order.
    pub closed spec fn rows(&self) -> Seq<Seq<Option<String>>> {
        self.rows@.map_values(|row: Vec<Option<String>>| row@)
    }

    /// Every row has exactly one cell per column.
    pub open spec fn wf(&self) -> bool {
        forall|i: int| 0 <= i < self.rows().len() ==> #[trigger] self.rows()[i].len()
            == self.columns().len()
    }

    /// An empty batch with the given column names.
    pub fn new(columns: Vec<String>) -> (r: ResultBatch)
        ensures
            r.wf(),
            r.columns() == columns@,
            r.rows() == Seq::<Seq<Option<String>>>::empty(),
    {
        let r = ResultBatch { columns, rows: Vec::new() };
        assert(r.rows() =~= Seq::<Seq<Option<String>>>::empty());
        r
    }

    /// Appends a row. A row whose width differs from the number of columns
    /// is refused and the batch is left as it was.
    pub fn push_row(&mut self, row: Vec<Option<String>>) -> (accepted: bool)
        requires
            old(self).wf(),
        ensures
            final(self).wf(),
            accepted == (row@.len() == old(self).columns().len()),
            final(self).columns() == old(self).columns(),
            accepted ==> final(self).rows() == old(self).rows().push(row@),
            !accepted ==> final(self).rows() == old(self).rows(),
    {
        if row.len() != self.columns.len() {
            return false;
        }
        let ghost before = self.rows();
        self.rows.push(row);
        assert(self.rows() =~= before.push(row@));
        assert forall|i: int| 0 <= i < self.rows().len() implies #[trigger] self.rows()[i].len()
            == self.columns().len() by {
            if i < before.len() {
                assert(self.rows()[i] == before[i]);
            }
        }
        true
    }

    /// The number of columns.
    pub fn column_count(&self) -> (r: usize)
        ensures
            r == self.columns().len(),
    {
        self.columns.len()
    }

    /// The number of rows.
    pub fn row_count(&self) -> (r: usize)
        ensures
            r == self.rows().len(),
    {
        self.rows.len()
    }

    /// The name of column `col`.
    pub fn column_name(&self, col: usize) -> (r: &String)
        requires
            col < self.columns().len(),
        ensures
            *r == self.columns()[col as int],
    {
        &self.columns[col]
    }

    /// The text of one cell, `None` for NULL.
    pub fn cell(&self, row: usize, col: usize) -> (r: Option<&String>)
        requires
            self.wf(),
            row < self.rows().len(),
            col < self.columns().len(),
        ensures
            r == match self.rows()[row as int][col as int] {
                Some(s) => Some(&s),
                None => None::<&String>,
            },
    {
        let cells = &self.rows[row];
        assert(cells@ == self.rows()[row as int]);
        match &cells[col] {
            Some(s) => Some(s),
            None => None,
        }
    }
}

} // verus!
