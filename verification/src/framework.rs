//! Trusted boundary to the PLONK framework.
//!
//! The chip's logic is verified; its interactions with the constraint-system
//! builder, the layouter, the table assigner and the region all go through the
//! items here. Each wrapper makes exactly one framework call. Framework types
//! without trait bounds are declared outright; the ones whose generics carry
//! the framework's `Field` or `ColumnType` bounds cannot be declared, so they
//! travel inside opaque handle structs instead.

use vstd::prelude::*;

use halo2_proofs::pasta::Fp;
use halo2_proofs::plonk::{
    Advice, Column, ConstraintSystem, Error, Expression, TableColumn, VirtualCells,
};

verus! {

#[verifier::external_type_specification]
#[verifier::external_body]
pub struct ExFp(Fp);

#[verifier::external_type_specification]
#[verifier::external_body]
pub struct ExTableColumn(TableColumn);

#[verifier::external_type_specification]
#[verifier::external_body]
pub struct ExError(Error);

#[verifier::external_type_specification]
#[verifier::external_body]
#[verifier::reject_recursive_types(F)]
pub struct ExExpression<F>(Expression<F>);

/// An advice column handle, as the surrounding circuit allocated it. Holds
/// `halo2_proofs::plonk::Column<Advice>`.
#[verifier::external_body]
#[derive(Debug)]
pub struct AdviceColumn {
    pub inner: Column<Advice>,
}

impl Clone for AdviceColumn {
    /// Relies on the `Copy` of `halo2_proofs::plonk::Column`: the clone is
    /// the value itself.
    #[verifier::external_body]
    fn clone(&self) -> (r: Self)
        ensures
            r == *self,
    {
        AdviceColumn { inner: self.inner }
    }
}

/// Exclusively borrowed access to the framework's constraint-system builder
/// during configuration. Holds
/// `&mut halo2_proofs::plonk::ConstraintSystem<Fp>`.
#[verifier::external_body]
pub struct Builder<'a> {
    pub inner: &'a mut ConstraintSystem<Fp>,
}

/// A region under assignment, as the layouter handed it to the surrounding
/// circuit. Holds `halo2_proofs::circuit::Region<'r, Fp>`.
#[verifier::external_body]
pub struct RegionHandle<'r> {
    pub inner: halo2_proofs::circuit::Region<'r, Fp>,
}

/// The table assigner the layouter hands out while a table region is laid
/// out. Holds `halo2_proofs::circuit::Table<'r, Fp>`.
#[verifier::external_body]
pub struct TableHandle<'r> {
    pub inner: halo2_proofs::circuit::Table<'r, Fp>,
}

/// The builder's expression context inside a lookup registration. Holds
/// `&mut halo2_proofs::plonk::VirtualCells<'cs, Fp>`.
#[verifier::external_body]
pub struct CellsHandle<'a, 'cs> {
    pub inner: &'a mut VirtualCells<'cs, Fp>,
}

/// The shape of one registered lookup argument: the advice columns queried
/// at the evaluation row, and the table columns their row tuple must match.
pub struct LookupShape {
    pub input_x: AdviceColumn,
    pub input_y: AdviceColumn,
    pub table_x: TableColumn,
    pub table_y: TableColumn,
}

/// The fixed table columns the builder has handed out, in order of
/// allocation. Trusted model of the builder's state, written to by the
/// wrappers below.
pub uninterp spec fn table_columns_made(b: Builder) -> Seq<TableColumn>;

/// The lookup arguments registered with the builder, in order, each as its
/// [`LookupShape`]. Trusted model of the builder's state.
pub uninterp spec fn lookups_made(b: Builder) -> Seq<LookupShape>;

/// The advice columns the builder has handed out, in order of allocation.
/// Trusted model of the builder's state.
pub uninterp spec fn advice_columns_made(b: Builder) -> Seq<AdviceColumn>;

/// How many gates the builder carries. Trusted model of the builder's
/// state; none of the chip's wrappers adds a gate or any constraint besides
/// the one lookup argument, so they leave this count unchanged.
pub uninterp spec fn gates_made(b: Builder) -> nat;

/// The advice columns of the constraint system that the expression context
/// views: the same sequence as [`advice_columns_made`] of the builder the
/// context was opened on. A query on a column outside it panics in the
/// framework, so the query wrapper requires membership.
pub uninterp spec fn cells_advice_columns(c: CellsHandle) -> Seq<AdviceColumn>;

/// The table cells recorded by the assignments that returned `Ok` through
/// the assigner, keyed by column and row, holding the byte handed in.
/// Trusted model of the assigner's log: a failed call records nothing.
pub uninterp spec fn table_cells(t: TableHandle) -> Map<(TableColumn, int), u8>;

/// The advice cells recorded by the assignments that returned `Ok` through
/// the region handle, keyed by column and row; `None` stands for the unknown
/// value of key generation. Trusted model of the region's assignment log: a
/// failed call records nothing.
pub uninterp spec fn advice_cells(rg: RegionHandle) -> Map<(AdviceColumn, int), Option<u8>>;

/// Relies on the `Clone` that `halo2_proofs` derives for `TableColumn`,
/// beside `Copy`: cloning returns the value itself.
pub assume_specification[ <TableColumn as Clone>::clone ](c: &TableColumn) -> (r: TableColumn)
    ensures
        r == *c,
;

/// Relies on `halo2_proofs::plonk::ConstraintSystem::advice_column`:
/// allocates a fresh advice column. The new handle wraps a column index the
/// builder has not handed out before, so it differs from every earlier one;
/// no fixed table column, lookup argument or gate is touched. It is public
/// so that a circuit can allocate the handles that `configure` requires to
/// come from the builder's own constraint system.
#[verifier::external_body]
pub fn new_advice_column(meta: &mut Builder<'_>) -> (r: AdviceColumn)
    ensures
        advice_columns_made(*final(meta)) == advice_columns_made(*old(meta)).push(r),
        advice_columns_made(*final(meta)).contains(r),
        !advice_columns_made(*old(meta)).contains(r),
        table_columns_made(*final(meta)) == table_columns_made(*old(meta)),
        lookups_made(*final(meta)) == lookups_made(*old(meta)),
        gates_made(*final(meta)) == gates_made(*old(meta)),
{
    AdviceColumn { inner: meta.inner.advice_column() }
}

/// Relies on `halo2_proofs::plonk::ConstraintSystem::lookup_table_column`:
/// allocates a fresh fixed column that lookup arguments may use as a table
/// column. The new handle wraps a column index the builder has not handed
/// out before, so it differs from every earlier one; no lookup argument is
/// touched.
#[verifier::external_body]
pub(crate) fn new_table_column(meta: &mut Builder<'_>) -> (r: TableColumn)
    ensures
        table_columns_made(*final(meta)) == table_columns_made(*old(meta)).push(r),
        !table_columns_made(*old(meta)).contains(r),
        lookups_made(*final(meta)) == lookups_made(*old(meta)),
        advice_columns_made(*final(meta)) == advice_columns_made(*old(meta)),
        gates_made(*final(meta)) == gates_made(*old(meta)),
{
    meta.inner.lookup_table_column()
}

/// Relies on `halo2_proofs::plonk::ConstraintSystem::lookup`: registers
/// exactly one lookup argument over the `(expression, table column)` pairs
/// that the closure returns, so that in any satisfying assignment every
/// row's tuple of expressions appears as a row of the named table columns.
/// The closure only calls the verified [`crate::chip::lookup_inputs`], whose
/// contract pins the pairs to the two advice queries at the evaluation row,
/// coupled to `table_x` and `table_y` in order; no fixed table column or
/// gate is added. The advice handles must be the builder's own: the
/// expression context handed to the closure views the same constraint
/// system, so its advice columns are [`advice_columns_made`] of this
/// builder, which meets the requirement of `lookup_inputs`.
#[verifier::external_body]
pub(crate) fn register_lookup(
    meta: &mut Builder<'_>,
    input_x: &AdviceColumn,
    input_y: &AdviceColumn,
    table_x: TableColumn,
    table_y: TableColumn,
)
    requires
        advice_columns_made(*old(meta)).contains(*input_x),
        advice_columns_made(*old(meta)).contains(*input_y),
    ensures
        lookups_made(*final(meta)) == lookups_made(*old(meta)).push(
            (LookupShape { input_x: *input_x, input_y: *input_y, table_x, table_y }),
        ),
        table_columns_made(*final(meta)) == table_columns_made(*old(meta)),
        advice_columns_made(*final(meta)) == advice_columns_made(*old(meta)),
        gates_made(*final(meta)) == gates_made(*old(meta)),
{
    meta.inner.lookup(|cells| {
        let mut handle = CellsHandle { inner: cells };
        crate::chip::lookup_inputs(&mut handle, input_x, input_y, table_x, table_y)
    });
}

/// Relies on `halo2_proofs::plonk::VirtualCells::query_advice` at
/// `halo2_proofs::poly::Rotation::cur`: builds the expression that refers to
/// the given advice column at the evaluation row itself. The framework
/// indexes its per-column query counts without a bounds check and would
/// panic on a column handle foreign to the constraint system, so the column
/// must be one the system handed out; querying allocates no column.
#[verifier::external_body]
pub(crate) fn query_advice_cur(
    cells: &mut CellsHandle<'_, '_>,
    column: &AdviceColumn,
) -> (r: Expression<Fp>)
    requires
        cells_advice_columns(*old(cells)).contains(*column),
    ensures
        cells_advice_columns(*final(cells)) == cells_advice_columns(*old(cells)),
{
    cells.inner.query_advice(column.inner, halo2_proofs::poly::Rotation::cur())
}

/// Relies on `halo2_proofs::circuit::Layouter::assign_table`: hands a fresh
/// table assigner to the closure and lays the assigned cells out as one table
/// region. The closure only calls the verified [`crate::chip::fill_table`];
/// any error it reports, or the layouter reports, comes back unchanged.
#[verifier::external_body]
pub(crate) fn assign_table_region<L: halo2_proofs::circuit::Layouter<Fp>>(
    layouter: &mut L,
    table_x: TableColumn,
    table_y: TableColumn,
    xs: &Vec<u8>,
    ys: &Vec<u8>,
) -> Result<(), Error>
    requires
        xs@.len() == ys@.len(),
{
    layouter.assign_table(
        || "byte pair table",
        |table| {
            let mut handle = TableHandle { inner: table };
            crate::chip::fill_table(&mut handle, table_x, table_y, xs, ys)
        },
    )
}

/// Relies on `halo2_proofs::circuit::Table::assign_cell`: writes the byte,
/// embedded into the field by the natural unsigned cast, into the given table
/// column at the given row and nowhere else; reports an error if the cell was
/// already assigned or lies outside the region.
#[verifier::external_body]
pub(crate) fn assign_table_cell(
    table: &mut TableHandle<'_>,
    column: TableColumn,
    row: usize,
    value: u8,
) -> (r: Result<(), Error>)
    ensures
        r is Ok ==> table_cells(*final(table)) == table_cells(*old(table)).insert(
            (column, row as int),
            value,
        ),
        r is Err ==> table_cells(*final(table)) == table_cells(*old(table)),
{
    let v = Fp::from(value as u64);
    table.inner.assign_cell(|| format!("byte row {}", row), column, row, || Ok(v))
}

/// Relies on `halo2_proofs::circuit::Region::assign_advice`: writes the byte,
/// embedded into the field by the natural unsigned cast, into the advice cell
/// at the given row and nowhere else. A `None` value makes the value closure
/// report `Error::Synthesis`; the backend evaluates that closure only when it
/// demands real witnesses, so key generation tolerates `None`.
#[verifier::external_body]
pub(crate) fn assign_advice_byte(
    region: &mut RegionHandle<'_>,
    name: &str,
    column: &AdviceColumn,
    row: usize,
    value: Option<u8>,
) -> (r: Result<(), Error>)
    ensures
        r is Ok ==> advice_cells(*final(region)) == advice_cells(*old(region)).insert(
            (*column, row as int),
            value,
        ),
        r is Err ==> advice_cells(*final(region)) == advice_cells(*old(region)),
{
    let v = value.map(|b| Fp::from(b as u64));
    region.inner.assign_advice(
        || format!("{}: {}", name, row),
        column.inner,
        row,
        || v.ok_or(Error::Synthesis),
    )?;
    Ok(())
}

} // verus!
