//! The lookup-table chip: configuration, table loading, witness assignment.

use vstd::prelude::*;

use halo2_proofs::pasta::Fp;
use halo2_proofs::plonk::{Error, Expression, TableColumn};

use crate::framework::{
    advice_cells, advice_columns_made, assign_advice_byte, assign_table_cell,
    assign_table_region, cells_advice_columns, gates_made, lookups_made, new_table_column,
    query_advice_cur, register_lookup, table_cells, table_columns_made, AdviceColumn, Builder,
    CellsHandle, LookupShape, RegionHandle, TableHandle,
};

verus! {

/// Handles to the two advice columns the surrounding circuit owns.
#[derive(Clone, Debug)]
pub struct Inputs {
    pub x: AdviceColumn,
    pub y: AdviceColumn,
}

/// Handles to the two fixed table columns owned by the chip.
#[derive(Clone, Debug)]
pub struct Table {
    pub x: TableColumn,
    pub y: TableColumn,
}

/// The chip's complete configuration: the advice columns under lookup and the
/// fixed table columns they must match.
#[derive(Clone, Debug)]
pub struct TableConfig {
    pub input: Inputs,
    pub table: Table,
}

/// The runtime chip: a thin, stateless binding of a configuration.
#[derive(Clone, Debug)]
pub struct TableChip {
    pub config: TableConfig,
}

/// An error of the chip. Everything the framework reports is forwarded
/// unchanged; the shape mismatch is the chip's own.
#[derive(Debug)]
pub enum LookupError {
    /// The two byte sequences handed to the loader differ in length.
    ShapeMismatch { xs_len: usize, ys_len: usize },
    /// An error the underlying framework reported, forwarded unchanged.
    Framework(Error),
}

impl TableChip {
    /// Allocates the two fixed table columns and registers the lookup
    /// argument coupling `(input_x, input_y)` at every row to some row of
    /// the table columns: the builder gains exactly those two columns, both
    /// fresh and distinct, exactly that one lookup argument, and no advice
    /// column or gate, so the lookup is wired to the very columns `load`
    /// will later populate.
    ///
    /// The advice handles must have been allocated from the builder's own
    /// constraint system — [`crate::framework::new_advice_column`] hands
    /// such handles out — since the framework's advice query panics on a
    /// foreign handle; the precondition excludes that input.
    pub fn configure(
        meta: &mut Builder<'_>,
        input_x: AdviceColumn,
        input_y: AdviceColumn,
    ) -> (r: TableConfig)
        requires
            advice_columns_made(*old(meta)).contains(input_x),
            advice_columns_made(*old(meta)).contains(input_y),
        ensures
            r.input.x == input_x,
            r.input.y == input_y,
            table_columns_made(*final(meta)) == table_columns_made(*old(meta)).push(
                r.table.x,
            ).push(r.table.y),
            !table_columns_made(*old(meta)).contains(r.table.x),
            !table_columns_made(*old(meta)).contains(r.table.y),
            r.table.x != r.table.y,
            lookups_made(*final(meta)) == lookups_made(*old(meta)).push(
                (LookupShape { input_x, input_y, table_x: r.table.x, table_y: r.table.y }),
            ),
            advice_columns_made(*final(meta)) == advice_columns_made(*old(meta)),
            gates_made(*final(meta)) == gates_made(*old(meta)),
    {
        let ghost made_before = table_columns_made(*meta);
        let table_x = new_table_column(meta);
        let ghost made_mid = table_columns_made(*meta);
        let table_y = new_table_column(meta);

        register_lookup(meta, &input_x, &input_y, table_x, table_y);

        proof {
            assert(made_mid[made_before.len() as int] == table_x);
            assert(made_mid.contains(table_x));
            if made_before.contains(table_y) {
                let j = choose|j: int| 0 <= j < made_before.len() && made_before[j] == table_y;
                assert(made_mid[j] == table_y);
                assert(made_mid.contains(table_y));
            }
        }

        TableConfig {
            input: Inputs { x: input_x, y: input_y },
            table: Table { x: table_x, y: table_y },
        }
    }

    /// Binds a configuration into a chip.
    pub fn construct(config: TableConfig) -> (r: Self)
        ensures
            r.config == config,
    {
        TableChip { config }
    }

    /// The configuration this chip was constructed from.
    pub fn config(&self) -> (r: &TableConfig)
        ensures
            *r == self.config,
    {
        &self.config
    }

    /// Materializes the `(xs[i], ys[i])` pairs into the fixed table columns,
    /// row by row in the given order ([`fill_table`] states the cells
    /// written). Rejects sequences of unequal length before touching the
    /// layouter; any framework error is forwarded. Note that the framework's
    /// single-pass layouter refuses a table region with no assigned cell, so
    /// loading an empty table comes back as a forwarded framework error.
    pub fn load<L: halo2_proofs::circuit::Layouter<Fp>>(
        config: TableConfig,
        layouter: &mut L,
        xs: &Vec<u8>,
        ys: &Vec<u8>,
    ) -> (r: Result<(), LookupError>)
        ensures
            xs@.len() != ys@.len() <==> (r matches Err(e) && e is ShapeMismatch),
            xs@.len() != ys@.len() ==> r == Err::<(), LookupError>(
                LookupError::ShapeMismatch { xs_len: xs@.len() as usize, ys_len: ys@.len() as usize },
            ),
    {
        if xs.len() != ys.len() {
            return Err(LookupError::ShapeMismatch { xs_len: xs.len(), ys_len: ys.len() });
        }
        match assign_table_region(layouter, config.table.x, config.table.y, xs, ys) {
            Ok(()) => Ok(()),
            Err(e) => Err(LookupError::Framework(e)),
        }
    }

    /// Writes one witnessed pair into the advice cells `(input_x, row)` and
    /// `(input_y, row)` of the region, and into no other cell. An unknown
    /// component is handed to the framework as the unknown value, which key
    /// generation tolerates and proving reports as a missing witness. Errors
    /// are forwarded unchanged; this method never reports a shape mismatch.
    pub fn add_row(
        &self,
        region: &mut RegionHandle<'_>,
        row: usize,
        x: Option<u8>,
        y: Option<u8>,
    ) -> (r: Result<(), LookupError>)
        ensures
            r matches Err(e) ==> e is Framework,
            r is Ok ==> advice_cells(*final(region)) == advice_cells(*old(region)).insert(
                (self.config.input.x, row as int),
                x,
            ).insert((self.config.input.y, row as int), y),
            r is Err ==> advice_cells(*final(region)) == advice_cells(*old(region))
                || advice_cells(*final(region)) == advice_cells(*old(region)).insert(
                (self.config.input.x, row as int),
                x,
            ),
    {
        match assign_advice_byte(region, "x", &self.config.input.x, row, x) {
            Ok(()) => {}
            Err(e) => {
                return Err(LookupError::Framework(e));
            }
        }
        match assign_advice_byte(region, "y", &self.config.input.y, row, y) {
            Ok(()) => {}
            Err(e) => {
                return Err(LookupError::Framework(e));
            }
        }
        Ok(())
    }
}

/// Builds the lookup argument's `(expression, table column)` pairs: the two
/// advice columns queried at the evaluation row, each coupled to its table
/// column. Called by the constraint-system builder during configuration;
/// the columns must belong to the system the context views, which
/// [`crate::framework::register_lookup`] guarantees at its call.
pub(crate) fn lookup_inputs(
    cells: &mut CellsHandle<'_, '_>,
    input_x: &AdviceColumn,
    input_y: &AdviceColumn,
    table_x: TableColumn,
    table_y: TableColumn,
) -> (r: Vec<(Expression<Fp>, TableColumn)>)
    requires
        cells_advice_columns(*old(cells)).contains(*input_x),
        cells_advice_columns(*old(cells)).contains(*input_y),
    ensures
        r@.len() == 2,
        r@[0].1 == table_x,
        r@[1].1 == table_y,
{
    let x_cur = query_advice_cur(cells, input_x);
    let y_cur = query_advice_cur(cells, input_y);

    let mut pairs: Vec<(Expression<Fp>, TableColumn)> = Vec::new();
    pairs.push((x_cur, table_x));
    pairs.push((y_cur, table_y));
    pairs
}

/// The table cells after rows `0 .. n` of `(xs, ys)` are written over `m`:
/// row `i` gains the entries `(table_x, i)` holding `xs[i]` and
/// `(table_y, i)` holding `ys[i]`, in that order.
pub open spec fn cells_after_rows(
    m: Map<(TableColumn, int), u8>,
    table_x: TableColumn,
    table_y: TableColumn,
    xs: Seq<u8>,
    ys: Seq<u8>,
    n: int,
) -> Map<(TableColumn, int), u8>
    decreases n,
{
    if n <= 0 {
        m
    } else {
        cells_after_rows(m, table_x, table_y, xs, ys, n - 1).insert(
            (table_x, n - 1),
            xs[n - 1],
        ).insert((table_y, n - 1), ys[n - 1])
    }
}

/// Writes row `i` of the table as `(xs[i], ys[i])` for every `i`, cell by
/// cell, and writes nothing else: on success the assigner's cells are the
/// old ones with exactly those entries, a function of `(xs, ys)` alone; on
/// failure they hold some prefix of that walk, at most one `x` cell beyond
/// a whole row. Called by the layouter on the table assigner it lays out;
/// the first framework error ends the walk and is forwarded.
pub(crate) fn fill_table(
    table: &mut TableHandle<'_>,
    table_x: TableColumn,
    table_y: TableColumn,
    xs: &Vec<u8>,
    ys: &Vec<u8>,
) -> (r: Result<(), Error>)
    requires
        xs@.len() == ys@.len(),
    ensures
        r is Ok ==> table_cells(*final(table)) == cells_after_rows(
            table_cells(*old(table)),
            table_x,
            table_y,
            xs@,
            ys@,
            xs@.len() as int,
        ),
        r is Err ==> exists|k: int|
            0 <= k <= xs@.len() && (table_cells(*final(table)) == cells_after_rows(
                table_cells(*old(table)),
                table_x,
                table_y,
                xs@,
                ys@,
                k,
            ) || (k < xs@.len() && table_cells(*final(table)) == cells_after_rows(
                table_cells(*old(table)),
                table_x,
                table_y,
                xs@,
                ys@,
                k,
            ).insert((table_x, k), xs@[k]))),
{
    let mut i: usize = 0;
    while i < xs.len()
        invariant
            xs@.len() == ys@.len(),
            0 <= i <= xs@.len(),
            table_cells(*table) == cells_after_rows(
                table_cells(*old(table)),
                table_x,
                table_y,
                xs@,
                ys@,
                i as int,
            ),
        decreases xs@.len() - i,
    {
        match assign_table_cell(table, table_x, i, xs[i]) {
            Ok(()) => {}
            Err(e) => {
                proof {
                    let k = i as int;
                    assert(0 <= k <= xs@.len() && table_cells(*table) == cells_after_rows(
                        table_cells(*old(table)),
                        table_x,
                        table_y,
                        xs@,
                        ys@,
                        k,
                    ));
                }
                return Err(e);
            }
        }
        match assign_table_cell(table, table_y, i, ys[i]) {
            Ok(()) => {}
            Err(e) => {
                proof {
                    let k = i as int;
                    assert(0 <= k < xs@.len() && table_cells(*table) == cells_after_rows(
                        table_cells(*old(table)),
                        table_x,
                        table_y,
                        xs@,
                        ys@,
                        k,
                    ).insert((table_x, k), xs@[k]));
                }
                return Err(e);
            }
        }
        i += 1;
    }
    Ok(())
}

} // verus!
