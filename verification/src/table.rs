use vstd::prelude::*;

use crate::errors::IndicatorError;

verus! {

/// The two column roles the pipeline reads from an input table.
pub enum ColumnNames {
    Time,
    Close,
}

impl ColumnNames {
    /// Default source-field name for the role ("time" / "close"); a caller
    /// may override either through `ColumnConfig`.
    pub fn default_name(&self) -> (r: &'static str)
        ensures
            r@ == self.spec_default_name(),
    {
        match self {
            ColumnNames::Time => "time",
            ColumnNames::Close => "close",
        }
    }

    /// The default field name as a character sequence.
    pub open spec fn spec_default_name(&self) -> Seq<char> {
        match self {
            ColumnNames::Time => "time"@,
            ColumnNames::Close => "close"@,
        }
    }
}

/// The two configured source-field names, resolved once at the boundary of
/// the pipeline and never read mid-pipeline.
pub struct ColumnConfig {
    pub time_name: String,
    pub close_name: String,
}

impl Default for ColumnConfig {
    /// The canonical configuration: fields named "time" and "close".
    fn default() -> (r: Self)
        ensures
            r.time_name@ == ColumnNames::Time.spec_default_name(),
            r.close_name@ == ColumnNames::Close.spec_default_name(),
    {
        ColumnConfig {
            time_name: ColumnNames::Time.default_name().to_owned(),
            close_name: ColumnNames::Close.default_name().to_owned(),
        }
    }
}

/// One named column of fixed-point values.
pub struct Column {
    pub name: String,
    pub values: Vec<i64>,
}

/// An ordered table of named numeric columns; rows are indexed by position,
/// which must follow the chronological order of the source time field.
pub struct Table {
    pub columns: Vec<Column>,
}

impl Table {
    /// Number of rows: the length shared by all columns.
    pub open spec fn spec_rows(&self) -> nat {
        if self.columns@.len() == 0 {
            0
        } else {
            self.columns@[0].values@.len()
        }
    }

    /// Well-formed: every column has the same number of rows.
    pub open spec fn wf(&self) -> bool {
        forall|j: int|
            0 <= j < self.columns@.len() ==> (#[trigger] self.columns@[j]).values@.len()
                == self.spec_rows()
    }
}

/// Index of the first column at or after `from` whose name reads `name`,
/// or -1 if there is none.
pub open spec fn first_match(cols: Seq<Column>, name: Seq<char>, from: int) -> int
    decreases cols.len() - from,
{
    if from < 0 || from >= cols.len() {
        -1
    } else if cols[from].name@ == name {
        from
    } else {
        first_match(cols, name, from + 1)
    }
}

/// The reduced projection of an input table: the time and price columns
/// under their canonical roles, aligned by row position.
pub struct Series {
    pub time: Vec<i64>,
    pub price: Vec<i64>,
}

impl Series {
    /// Number of rows.
    pub open spec fn spec_rows(&self) -> nat {
        self.price@.len()
    }

    /// Well-formed: the columns are aligned and every price fits the
    /// fixed-point bound, so that pipeline arithmetic cannot overflow.
    pub open spec fn wf(&self) -> bool {
        &&& self.time@.len() == self.price@.len()
        &&& forall|i: int|
            0 <= i < self.price@.len() ==> -crate::PRICE_LIMIT <= #[trigger] self.price@[i]
                <= crate::PRICE_LIMIT
    }
}

/// Index of the first column of `table` named `name`, if any.
pub fn find_column(table: &Table, name: &String) -> (r: Option<usize>)
    ensures
        match r {
            Some(j) => 0 <= j < table.columns@.len() && first_match(table.columns@, name@, 0)
                == j,
            None => first_match(table.columns@, name@, 0) == -1,
        },
{
    let mut j: usize = 0;
    while j < table.columns.len()
        invariant
            0 <= j <= table.columns@.len(),
            first_match(table.columns@, name@, 0) == first_match(
                table.columns@,
                name@,
                j as int,
            ),
        decreases table.columns@.len() - j,
    {
        if table.columns[j].name == *name {
            return Some(j);
        }
        j += 1;
    }
    None
}

/// ColumnResolver: project `table` onto the configured time and price
/// fields, renamed to their canonical roles. Fails with a `SchemaError`
/// naming the first configured field that is absent.
pub fn resolve_columns(table: &Table, config: &ColumnConfig) -> (r: Result<
    Series,
    IndicatorError,
>)
    requires
        table.wf(),
    ensures
        ({
            let ti = first_match(table.columns@, config.time_name@, 0);
            let ci = first_match(table.columns@, config.close_name@, 0);
            match r {
                Ok(s) => {
                    &&& 0 <= ti < table.columns@.len()
                    &&& 0 <= ci < table.columns@.len()
                    &&& s.time@ == table.columns@[ti].values@
                    &&& s.price@ == table.columns@[ci].values@
                    &&& s.time@.len() == s.price@.len()
                },
                Err(e) => {
                    &&& (ti < 0 || ci < 0)
                    &&& e matches IndicatorError::SchemaError { column } && column@ == (
                    if ti < 0 {
                        config.time_name@
                    } else {
                        config.close_name@
                    })
                },
            }
        }),
{
    let ti = match find_column(table, &config.time_name) {
        Some(j) => j,
        None => {
            return Err(
                IndicatorError::SchemaError { column: config.time_name.clone() },
            );
        },
    };
    let ci = match find_column(table, &config.close_name) {
        Some(j) => j,
        None => {
            return Err(
                IndicatorError::SchemaError { column: config.close_name.clone() },
            );
        },
    };
    let time = crate::copy_values(&table.columns[ti].values);
    let price = crate::copy_values(&table.columns[ci].values);
    Ok(Series { time, price })
}

} // verus!
