use halo2_proofs::circuit::{Layouter, SimpleFloorPlanner};
use halo2_proofs::dev::MockProver;
use halo2_proofs::pasta::{pallas, EqAffine, Fp};
use halo2_proofs::plonk::{keygen_vk, Circuit, ConstraintSystem, Error};
use halo2_proofs::poly::commitment::Params;

use lookup_chip::chip::{LookupError, TableChip, TableConfig};
use lookup_chip::framework::{new_advice_column, Builder, RegionHandle};
use lookup_chip::membership::{row_in_table, table_rows, witness_in_table};
use lookup_chip::table::{InputRow, TableRow};

fn to_plonk(r: Result<(), LookupError>) -> Result<(), Error> {
    match r {
        Ok(()) => Ok(()),
        Err(LookupError::Framework(e)) => Err(e),
        Err(LookupError::ShapeMismatch { .. }) => Err(Error::Synthesis),
    }
}

/// The rows MockProver lets a circuit use at this `k`: everything above is
/// reserved for blinding. Computed on a scratch constraint system carrying
/// this chip's configuration.
fn usable_rows(k: u32) -> usize {
    let mut cs = ConstraintSystem::<Fp>::default();
    let _ = configure_chip(&mut cs);
    (1usize << k) - (cs.blinding_factors() + 1)
}

fn configure_chip(meta: &mut ConstraintSystem<Fp>) -> TableConfig {
    let mut builder = Builder { inner: meta };
    let input_x = new_advice_column(&mut builder);
    let input_y = new_advice_column(&mut builder);
    TableChip::configure(&mut builder, input_x, input_y)
}

/// Assigns the witness rows, then fills the remaining usable rows of the
/// advice columns with `pad` (a pair that the table holds): the chip's lookup
/// constrains every row, and unassigned cells would read as `(0, 0)`.
fn assign_witness(
    chip: &TableChip,
    handle: &mut RegionHandle<'_>,
    rows: &[(Option<u8>, Option<u8>)],
    pad: Option<(u8, u8)>,
) -> Result<(), Error> {
    for (i, (x, y)) in rows.iter().enumerate() {
        to_plonk(chip.add_row(handle, i, *x, *y))?;
    }
    if let Some((px, py)) = pad {
        for row in rows.len()..usable_rows(4) {
            to_plonk(chip.add_row(handle, row, Some(px), Some(py)))?;
        }
    }
    Ok(())
}

#[derive(Clone, Debug, Default)]
struct MyCircuit {
    // public inputs
    xs: Vec<u8>,
    ys: Vec<u8>,
}

impl Circuit<pallas::Base> for MyCircuit {
    type Config = TableConfig;
    type FloorPlanner = SimpleFloorPlanner;

    fn without_witnesses(&self) -> Self {
        Self::default()
    }

    fn configure(meta: &mut ConstraintSystem<pallas::Base>) -> Self::Config {
        configure_chip(meta)
    }

    fn synthesize(
        &self,
        config: Self::Config,
        mut layouter: impl Layouter<pallas::Base>,
    ) -> Result<(), Error> {
        to_plonk(TableChip::load(config.clone(), &mut layouter, &self.xs, &self.ys))?;

        let table_chip = TableChip::construct(config);

        layouter.assign_region(
            || "compress",
            |region| {
                let mut handle = RegionHandle { inner: region };

                to_plonk(table_chip.add_row(&mut handle, 0, Some(0), Some(1)))?;

                to_plonk(table_chip.add_row(&mut handle, 1, Some(1), Some(125)))?;

                to_plonk(table_chip.add_row(&mut handle, 2, Some(2), Some(126)))?;

                // Pad the remaining usable rows with a pair the table holds:
                // the lookup constrains every row, and unassigned advice
                // cells would read as (0, 0).
                for row in 3..usable_rows(4) {
                    to_plonk(table_chip.add_row(&mut handle, row, Some(0), Some(1)))?;
                }
                Ok(())
            },
        )?;

        assert_eq!(self.xs[1], 1);
        assert_eq!(self.ys[1], 125);

        // Some value dependent on row_1
        let _z = 1 + self.ys[2];

        Ok(())
    }
}

#[test]
fn lookup_table() {
    let circuit: MyCircuit = MyCircuit { xs: vec![0, 1, 2], ys: vec![1, 125, 126] };

    let prover = match MockProver::<Fp>::run(4, &circuit, vec![]) {
        Ok(prover) => prover,
        Err(e) => panic!("{:?}", e),
    };
    assert_eq!(prover.verify(), Ok(()));
}

#[derive(Clone, Debug, Default)]
struct ScenarioCircuit {
    xs: Vec<u8>,
    ys: Vec<u8>,
    rows: Vec<(Option<u8>, Option<u8>)>,
    pad: Option<(u8, u8)>,
}

impl Circuit<Fp> for ScenarioCircuit {
    type Config = TableConfig;
    type FloorPlanner = SimpleFloorPlanner;

    fn without_witnesses(&self) -> Self {
        ScenarioCircuit {
            xs: self.xs.clone(),
            ys: self.ys.clone(),
            rows: self.rows.iter().map(|_| (None, None)).collect(),
            pad: None,
        }
    }

    fn configure(meta: &mut ConstraintSystem<Fp>) -> Self::Config {
        configure_chip(meta)
    }

    fn synthesize(
        &self,
        config: Self::Config,
        mut layouter: impl Layouter<Fp>,
    ) -> Result<(), Error> {
        match TableChip::load(config.clone(), &mut layouter, &self.xs, &self.ys) {
            Ok(()) => {}
            Err(LookupError::Framework(e)) => return Err(e),
            Err(LookupError::ShapeMismatch { xs_len, ys_len }) => {
                assert_eq!(xs_len, self.xs.len());
                assert_eq!(ys_len, self.ys.len());
                return Err(Error::Synthesis);
            }
        }
        let chip = TableChip::construct(config);
        layouter.assign_region(
            || "witness rows",
            |region| {
                let mut handle = RegionHandle { inner: region };
                assign_witness(&chip, &mut handle, &self.rows, self.pad)
            },
        )
    }
}

fn accepted(circuit: &ScenarioCircuit) -> bool {
    match MockProver::<Fp>::run(4, circuit, vec![]) {
        Ok(prover) => prover.verify().is_ok(),
        Err(_) => false,
    }
}

fn known(rows: &[(u8, u8)]) -> Vec<(Option<u8>, Option<u8>)> {
    rows.iter().map(|&(x, y)| (Some(x), Some(y))).collect()
}

#[test]
fn reject_wrong_pair() {
    let circuit = ScenarioCircuit {
        xs: vec![0, 1, 2],
        ys: vec![1, 125, 126],
        rows: known(&[(0, 1), (1, 125), (2, 127)]),
        pad: Some((0, 1)),
    };
    assert!(!accepted(&circuit));
}

#[test]
fn accept_swapped_witness_order() {
    let circuit = ScenarioCircuit {
        xs: vec![0, 1, 2],
        ys: vec![1, 125, 126],
        rows: known(&[(2, 126), (0, 1), (1, 125)]),
        pad: Some((0, 1)),
    };
    assert!(accepted(&circuit));
}

#[test]
fn accept_duplicate_witness() {
    let circuit = ScenarioCircuit {
        xs: vec![0, 1, 2],
        ys: vec![1, 125, 126],
        rows: known(&[(1, 125), (1, 125), (1, 125)]),
        pad: Some((0, 1)),
    };
    assert!(accepted(&circuit));
}

#[test]
fn reject_cross_tuple() {
    // (0, 125) pairs values that occur in the table, but never as one row.
    let circuit = ScenarioCircuit {
        xs: vec![0, 1, 2],
        ys: vec![1, 125, 126],
        rows: known(&[(0, 125)]),
        pad: Some((0, 1)),
    };
    assert!(!accepted(&circuit));
}

#[test]
fn reject_empty_table_nonempty_witness() {
    let circuit = ScenarioCircuit {
        xs: vec![],
        ys: vec![],
        rows: known(&[(0, 1)]),
        pad: None,
    };
    assert!(!accepted(&circuit));
}

#[test]
fn load_shape_mismatch_rejects() {
    let circuit = ScenarioCircuit {
        xs: vec![0, 1],
        ys: vec![0, 1, 2],
        rows: known(&[(0, 0)]),
        pad: None,
    };
    // The synthesize above checks that load reports the mismatch as
    // `ShapeMismatch { xs_len: 2, ys_len: 3 }`; no proof is attempted.
    assert!(MockProver::<Fp>::run(4, &circuit, vec![]).is_err());
}

#[test]
fn keygen_accepts_unknown_witnesses() {
    let circuit = ScenarioCircuit {
        xs: vec![0, 1, 2],
        ys: vec![1, 125, 126],
        rows: vec![(None, None), (None, None), (None, None)],
        pad: None,
    };
    let params: Params<EqAffine> = Params::new(4);
    assert!(keygen_vk(&params, &circuit).is_ok());
}

#[test]
fn table_row_new_sets_fields() {
    let row = TableRow::new(7, 200);
    assert_eq!(row.x, 7);
    assert_eq!(row.y, 200);
}

#[test]
fn input_row_holds_unknowns() {
    let row = InputRow { x: Some(3), y: None };
    let copy = row.clone();
    assert_eq!(row, copy);
    assert_eq!(copy.x, Some(3));
    assert_eq!(copy.y, None);
}

#[test]
fn membership_accepts_exact_rows() {
    let table = vec![TableRow::new(0, 1), TableRow::new(1, 125), TableRow::new(2, 126)];
    let witness = vec![TableRow::new(2, 126), TableRow::new(0, 1)];
    assert!(witness_in_table(&table, &witness));
}

#[test]
fn membership_rejects_cross_tuple() {
    let table = vec![TableRow::new(0, 1), TableRow::new(1, 125), TableRow::new(2, 126)];
    let witness = vec![TableRow::new(0, 125)];
    assert!(!witness_in_table(&table, &witness));
}

#[test]
fn membership_ignores_duplicate_table_rows() {
    let plain = vec![TableRow::new(0, 1), TableRow::new(1, 125)];
    let doubled = vec![
        TableRow::new(0, 1),
        TableRow::new(0, 1),
        TableRow::new(1, 125),
        TableRow::new(0, 1),
    ];
    let witness = vec![TableRow::new(1, 125), TableRow::new(0, 1)];
    assert_eq!(witness_in_table(&plain, &witness), witness_in_table(&doubled, &witness));
    assert!(witness_in_table(&doubled, &witness));
}

#[test]
fn membership_empty_table_rejects() {
    let table: Vec<TableRow> = vec![];
    let witness = vec![TableRow::new(0, 0)];
    assert!(!witness_in_table(&table, &witness));
}

#[test]
fn membership_empty_witness_accepts() {
    let table = vec![TableRow::new(0, 1)];
    let witness: Vec<TableRow> = vec![];
    assert!(witness_in_table(&table, &witness));
}

#[test]
fn row_in_table_finds_row() {
    let table = vec![TableRow::new(9, 9), TableRow::new(1, 2)];
    assert!(row_in_table(&table, &TableRow::new(1, 2)));
    assert!(!row_in_table(&table, &TableRow::new(2, 1)));
}

#[test]
fn accept_permuted_table_rows() {
    // The same table as lookup_table, rows in another order: the decision on
    // the same witness stays accept.
    let circuit = ScenarioCircuit {
        xs: vec![2, 0, 1],
        ys: vec![126, 1, 125],
        rows: known(&[(0, 1), (1, 125), (2, 126)]),
        pad: Some((2, 126)),
    };
    assert!(accepted(&circuit));
}

#[test]
fn membership_ignores_table_row_order() {
    let table = vec![TableRow::new(0, 1), TableRow::new(1, 125), TableRow::new(2, 126)];
    let permuted = vec![TableRow::new(2, 126), TableRow::new(0, 1), TableRow::new(1, 125)];
    let witness = vec![TableRow::new(1, 125), TableRow::new(2, 126)];
    assert_eq!(witness_in_table(&table, &witness), witness_in_table(&permuted, &witness));
    assert!(witness_in_table(&permuted, &witness));
}

#[test]
fn accept_largest_byte_pair() {
    let circuit = ScenarioCircuit {
        xs: vec![255, 0],
        ys: vec![255, 0],
        rows: known(&[(255, 255), (0, 0)]),
        pad: Some((255, 255)),
    };
    assert!(accepted(&circuit));
}

/// The model's prediction for a scenario: the witness rows, looked up in the
/// rows the loader would materialize.
fn predicted(circuit: &ScenarioCircuit) -> bool {
    let table = table_rows(&circuit.xs, &circuit.ys).unwrap();
    let witness: Vec<TableRow> = circuit
        .rows
        .iter()
        .map(|&(x, y)| TableRow::new(x.unwrap(), y.unwrap()))
        .collect();
    witness_in_table(&table, &witness)
}

#[test]
fn model_predicts_prover_decision() {
    let scenarios = [
        ScenarioCircuit {
            xs: vec![0, 1, 2],
            ys: vec![1, 125, 126],
            rows: known(&[(0, 1), (1, 125), (2, 126)]),
            pad: Some((0, 1)),
        },
        ScenarioCircuit {
            xs: vec![0, 1, 2],
            ys: vec![1, 125, 126],
            rows: known(&[(0, 1), (1, 125), (2, 127)]),
            pad: Some((0, 1)),
        },
        ScenarioCircuit {
            xs: vec![0, 1, 2],
            ys: vec![1, 125, 126],
            rows: known(&[(0, 125)]),
            pad: Some((0, 1)),
        },
    ];
    for circuit in &scenarios {
        assert_eq!(predicted(circuit), accepted(circuit));
    }
}

#[test]
fn table_rows_builds_pairs_in_order() {
    let rows = table_rows(&vec![0, 1, 2], &vec![1, 125, 126]).unwrap();
    assert_eq!(rows, vec![TableRow::new(0, 1), TableRow::new(1, 125), TableRow::new(2, 126)]);
}

#[test]
fn table_rows_rejects_shape_mismatch() {
    match table_rows(&vec![0, 1], &vec![0, 1, 2]) {
        Err(LookupError::ShapeMismatch { xs_len, ys_len }) => {
            assert_eq!(xs_len, 2);
            assert_eq!(ys_len, 3);
        }
        other => panic!("{:?}", other),
    }
}
