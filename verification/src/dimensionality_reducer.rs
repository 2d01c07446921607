//! Dimensionality reduction of feature rows before the readout.
//!
//! A principal-component reducer keeps the mean of each feature and a matrix
//! of components. Fitting centers the data on the column means and keeps the
//! leading right singular vectors of the centered data as columns;
//! transforming centers data on the fitted mean and multiplies it by the
//! components.

use crate::linalg::{
    center_columns, centered, column_means, is_matrix_product, is_svd, lesser, matrix_ops_ok,
    matrix_product, means_of_columns, svd_of, svd_view, MatrixOps,
};
use crate::matrix::{rectangular, rows_view, transpose_spec, Matrix};
use vstd::prelude::*;

verus! {

/// The reducer that changes nothing.
#[derive(Clone, Copy, Debug)]
pub struct NullReducer;

impl NullReducer {
    /// The input, as it is.
    pub fn transform<T>(&self, input: Matrix<T>) -> (out: Matrix<T>)
        ensures
            out == input,
    {
        input
    }
}

/// Which reducer to fit: principal components with a limit on their number,
/// or none.
#[derive(Clone, Copy, Debug)]
pub enum ReducerType {
    PCA(usize),
    Null,
}

/// The number of components kept: `max_components`, but at most one per
/// feature.
pub open spec fn kept_components(max_components: nat, features: nat) -> nat {
    lesser(max_components, features)
}

/// Data without rows or without columns: nothing to fit or to transform.
pub open spec fn degenerate<T>(input: Matrix<T>) -> bool {
    input@.len() == 0 || input.cols() == 0
}

/// The component matrix made of the first `k` rows of `v_t` as columns.
pub open spec fn leading_components<T>(v_t: Seq<Seq<T>>, features: nat, k: nat) -> Seq<Seq<T>> {
    transpose_spec(v_t.take(k as int), features)
}

/// The means that a reducer fitted to the rows `input` keeps.
pub open spec fn fitted_mean<T, O: MatrixOps<T>>(ops: O, input: Seq<Seq<T>>, features: nat) -> Seq<
    T,
> {
    column_means(ops, input, features)
}

/// The components that a reducer fitted to the rows `input` keeps: the
/// first `k` right singular vectors of the centered data, as columns.
pub open spec fn fitted_components<T, O: MatrixOps<T>>(
    ops: O,
    input: Seq<Seq<T>>,
    features: nat,
    k: nat,
) -> Seq<Seq<T>> {
    leading_components(
        svd_of(
            ops,
            centered(ops, input, column_means(ops, input, features)),
            features,
            false,
            true,
        ).v_t->Some_0,
        features,
        k,
    )
}

/// The rows `input`, centered on `mean` and multiplied by `components`.
pub open spec fn projected<T, O: MatrixOps<T>>(
    ops: O,
    input: Seq<Seq<T>>,
    features: nat,
    mean: Seq<T>,
    components: Seq<Seq<T>>,
    k: nat,
) -> Seq<Seq<T>> {
    matrix_product(ops, centered(ops, input, mean), features, components, k)
}

/// A fitted principal-component reducer.
pub struct PCADimensionalityReducer<T> {
    mean: Vec<T>,
    components: Matrix<T>,
    max_components: usize,
}

impl<T> PCADimensionalityReducer<T> {
    #[verifier::type_invariant]
    spec fn inv(&self) -> bool {
        self.components@.len() == self.mean@.len()
    }

    /// The mean of each feature.
    pub closed spec fn mean_spec(&self) -> Seq<T> {
        self.mean@
    }

    /// The components, one column each, `features x components`.
    pub closed spec fn components_spec(&self) -> Seq<Seq<T>> {
        self.components@
    }

    /// The number of components.
    pub closed spec fn component_count(&self) -> nat {
        self.components.cols()
    }

    /// The limit on the number of components that the reducer was fitted
    /// with.
    pub closed spec fn max_components_spec(&self) -> nat {
        self.max_components as nat
    }

    /// The reducer without components: it lets data through unchanged.
    pub open spec fn is_empty(&self) -> bool {
        &&& self.mean_spec().len() == 0
        &&& self.components_spec().len() == 0
        &&& self.component_count() == 0
    }

    /// Whether `input` passes through this reducer unchanged.
    pub open spec fn passes_through(&self, input: Matrix<T>) -> bool {
        degenerate(input) || self.component_count() == 0
    }
}

impl<T> Default for PCADimensionalityReducer<T> {
    /// The reducer without components and with a limit of 512.
    fn default() -> (r: Self)
        ensures
            r.is_empty(),
            r.max_components_spec() == 512,
    {
        PCADimensionalityReducer {
            mean: Vec::new(),
            components: Matrix::empty(0),
            max_components: 512,
        }
    }
}

impl<T: Copy> PCADimensionalityReducer<T> {
    /// Fits a reducer to the rows of `input`. Data without rows or without
    /// columns gives the reducer without components. Else the data is
    /// centered on its column means, and the first
    /// `min(max_components, features)` right singular vectors of the
    /// centered data become the columns of the component matrix. The data
    /// must have at least as many rows as components are kept.
    pub fn fit_with_max_components<O: MatrixOps<T>>(
        input: &Matrix<T>,
        max_components: usize,
        ops: &O,
    ) -> (r: Self)
        requires
            !degenerate(*input) ==> kept_components(max_components as nat, input.cols())
                <= input@.len(),
            matrix_ops_ok(*ops),
        ensures
            r.max_components_spec() == max_components,
            degenerate(*input) ==> r.is_empty(),
            !degenerate(*input) ==> {
                &&& r.component_count() == kept_components(max_components as nat, input.cols())
                &&& r.mean_spec() == fitted_mean(*ops, input@, input.cols())
                &&& r.mean_spec().len() == input.cols()
                &&& r.components_spec() == fitted_components(
                    *ops,
                    input@,
                    input.cols(),
                    r.component_count(),
                )
            },
    {
        let samples = input.nrows();
        let features = input.ncols();
        if samples == 0 || features == 0 {
            return PCADimensionalityReducer {
                mean: Vec::new(),
                components: Matrix::empty(0),
                max_components,
            };
        }
        let mean = means_of_columns(input, ops);
        let centered_input = center_columns(input, &mean, ops);
        let ghost centered_spec = centered_input;
        let decomposition = ops.svd(centered_input, false, true);
        proof {
            assert(is_svd(
                *ops,
                centered_spec@,
                centered_spec.cols(),
                false,
                true,
                svd_view(decomposition),
            ));
        }
        let v_t = match decomposition.2 {
            Some(v_t) => v_t,
            None => {
                assert(false);
                Matrix::empty(0)
            },
        };
        let k = if max_components <= features {
            max_components
        } else {
            features
        };
        let components = leading_rows_transposed(&v_t, k);
        PCADimensionalityReducer { mean, components, max_components }
    }

    /// Centers `input` on the fitted mean and multiplies it by the
    /// components. Data without rows or without columns, and any data when
    /// the reducer has no components, is returned unchanged.
    pub fn transform<O: MatrixOps<T>>(&self, input: Matrix<T>, ops: &O) -> (out: Matrix<T>)
        requires
            !self.passes_through(input) ==> input.cols() == self.mean_spec().len(),
            matrix_ops_ok(*ops),
        ensures
            self.passes_through(input) ==> out == input,
            !self.passes_through(input) ==> {
                &&& out@ == projected(
                    *ops,
                    input@,
                    input.cols(),
                    self.mean_spec(),
                    self.components_spec(),
                    self.component_count(),
                )
                &&& out@.len() == input@.len()
                &&& out.cols() == self.component_count()
            },
    {
        proof {
            use_type_invariant(self);
        }
        let samples = input.nrows();
        let features = input.ncols();
        if samples == 0 || features == 0 {
            return input;
        }
        if self.components.ncols() == 0 {
            return input;
        }
        let centered_input = center_columns(&input, &self.mean, ops);
        let out = ops.times_matrix(&centered_input, &self.components);
        proof {
            assert(is_matrix_product(
                *ops,
                centered_input@,
                centered_input.cols(),
                self.components@,
                self.components.cols(),
                out@,
            ));
        }
        out
    }

    /// The number of components.
    pub fn n_components(&self) -> (k: usize)
        ensures
            k == self.component_count(),
    {
        self.components.ncols()
    }

    /// The limit on the number of components that the reducer was fitted
    /// with.
    pub fn max_components(&self) -> (k: usize)
        ensures
            k == self.max_components_spec(),
    {
        self.max_components
    }

    /// The mean of each feature.
    pub fn mean(&self) -> (m: &Vec<T>)
        ensures
            m@ == self.mean_spec(),
    {
        &self.mean
    }

    /// The component matrix.
    pub fn components(&self) -> (c: &Matrix<T>)
        ensures
            c@ == self.components_spec(),
            c.cols() == self.component_count(),
    {
        &self.components
    }

    /// A reducer from a mean and a component matrix with one row per entry
    /// of the mean.
    pub fn from_parts(mean: Vec<T>, components: Matrix<T>, max_components: usize) -> (r: Self)
        requires
            components@.len() == mean@.len(),
        ensures
            r.mean_spec() == mean@,
            r.components_spec() == components@,
            r.component_count() == components.cols(),
            r.max_components_spec() == max_components,
    {
        PCADimensionalityReducer { mean, components, max_components }
    }
}

/// The first `k` rows of `m`, as the columns of a new matrix.
pub fn leading_rows_transposed<T: Copy>(m: &Matrix<T>, k: usize) -> (out: Matrix<T>)
    requires
        k <= m@.len(),
    ensures
        out@ == leading_components(m@, m.cols(), k as nat),
        out@.len() == m.cols(),
        out.cols() == k,
{
    let features = m.ncols();
    let ghost lead = m@.take(k as int);
    let mut rows: Vec<Vec<T>> = Vec::new();
    let mut f: usize = 0;
    while f < features
        invariant
            f <= features,
            features == m.cols(),
            k <= m@.len(),
            rectangular(m@, m.cols()),
            lead == m@.take(k as int),
            rows@.len() == f,
            forall|j: int|
                0 <= j < f ==> (#[trigger] rows@[j])@ == Seq::new(
                    k as nat,
                    |i: int| lead[i][j],
                ),
        decreases features - f,
    {
        let mut row: Vec<T> = Vec::new();
        let mut c: usize = 0;
        while c < k
            invariant
                c <= k,
                f < features,
                features == m.cols(),
                k <= m@.len(),
                lead == m@.take(k as int),
                row@.len() == c,
                forall|i: int| 0 <= i < c ==> row@[i] == lead[i][f as int],
            decreases k - c,
        {
            row.push(m.get(c, f));
            c += 1;
        }
        assert(row@ =~= Seq::new(k as nat, |i: int| lead[i][f as int]));
        rows.push(row);
        f += 1;
    }
    assert(rows_view(rows@) =~= transpose_spec(lead, m.cols()));
    Matrix::from_rows(k, rows)
}

/// A fitted reducer of either kind.
pub enum Reducer<T> {
    PCAReducer(PCADimensionalityReducer<T>),
    NullReducer(NullReducer),
}

/// The reducer is of the kind asked for and, where it has anything to fit,
/// fitted to the data rows `rows` of `cols` columns: it keeps the column
/// means and the leading right singular vectors of the centered data.
pub open spec fn is_fitted_to<T, O: MatrixOps<T>>(
    ops: O,
    reducer: Reducer<T>,
    reducer_type: ReducerType,
    rows: Seq<Seq<T>>,
    cols: nat,
) -> bool {
    match reducer_type {
        ReducerType::Null => reducer is NullReducer,
        ReducerType::PCA(max_components) => reducer matches Reducer::PCAReducer(p)
            && p.max_components_spec() == max_components && if rows.len() == 0 || cols == 0 {
            p.is_empty()
        } else {
            &&& p.component_count() == kept_components(max_components as nat, cols)
            &&& p.mean_spec() == fitted_mean(ops, rows, cols)
            &&& p.mean_spec().len() == cols
            &&& p.components_spec() == fitted_components(ops, rows, cols, p.component_count())
        },
    }
}

/// The reducer is of the kind asked for and, where it has anything to fit,
/// fitted to `input`.
pub open spec fn is_fitted_reducer<T, O: MatrixOps<T>>(
    ops: O,
    reducer: Reducer<T>,
    reducer_type: ReducerType,
    input: Matrix<T>,
) -> bool {
    is_fitted_to(ops, reducer, reducer_type, input@, input.cols())
}

/// The rows that a reducer makes of the data rows `rows` of `cols` columns:
/// the rows themselves where the reducer is the null reducer, has no
/// components or the data has no rows or no columns, else their projection
/// on the components.
pub open spec fn reduced_rows<T, O: MatrixOps<T>>(
    ops: O,
    reducer: Reducer<T>,
    rows: Seq<Seq<T>>,
    cols: nat,
) -> Seq<Seq<T>> {
    match reducer {
        Reducer::NullReducer(_) => rows,
        Reducer::PCAReducer(p) => if rows.len() == 0 || cols == 0 || p.component_count() == 0 {
            rows
        } else {
            projected(ops, rows, cols, p.mean_spec(), p.components_spec(), p.component_count())
        },
    }
}

/// The number of columns that a reducer leaves of data with rows and `cols`
/// columns.
pub open spec fn reduced_cols<T>(reducer: Reducer<T>, cols: nat) -> nat {
    match reducer {
        Reducer::PCAReducer(p) => if p.component_count() > 0 && cols > 0 {
            p.component_count()
        } else {
            cols
        },
        Reducer::NullReducer(_) => cols,
    }
}

/// What `transform` returns for `input`: the input itself where it passes
/// through, else its projection on the components.
pub open spec fn is_reduction<T, O: MatrixOps<T>>(
    ops: O,
    reducer: Reducer<T>,
    input: Matrix<T>,
    reduced: Matrix<T>,
) -> bool {
    match reducer {
        Reducer::NullReducer(_) => reduced == input,
        Reducer::PCAReducer(p) => if p.passes_through(input) {
            reduced == input
        } else {
            &&& reduced@ == projected(
                ops,
                input@,
                input.cols(),
                p.mean_spec(),
                p.components_spec(),
                p.component_count(),
            )
            &&& reduced@.len() == input@.len()
            &&& reduced.cols() == p.component_count()
        },
    }
}

impl<T: Copy> Reducer<T> {
    /// A principal-component reducer fitted to `input`.
    pub fn pca_reducer<O: MatrixOps<T>>(input: &Matrix<T>, max_components: usize, ops: &O) -> (r:
        Self)
        requires
            !degenerate(*input) ==> kept_components(max_components as nat, input.cols())
                <= input@.len(),
            matrix_ops_ok(*ops),
        ensures
            is_fitted_reducer(*ops, r, ReducerType::PCA(max_components), *input),
    {
        Reducer::PCAReducer(
            PCADimensionalityReducer::fit_with_max_components(input, max_components, ops),
        )
    }

    /// The reducer that changes nothing.
    pub fn null_reducer() -> (r: Self)
        ensures
            r is NullReducer,
    {
        Reducer::NullReducer(NullReducer)
    }

    /// The reducer of the kind `reducer_type`, fitted to `input` where the
    /// kind has anything to fit.
    pub fn new<O: MatrixOps<T>>(reducer_type: ReducerType, input: &Matrix<T>, ops: &O) -> (r: Self)
        requires
            (reducer_type matches ReducerType::PCA(max_components) && !degenerate(*input))
                ==> kept_components(reducer_type->PCA_0 as nat, input.cols()) <= input@.len(),
            matrix_ops_ok(*ops),
        ensures
            is_fitted_reducer(*ops, r, reducer_type, *input),
    {
        match reducer_type {
            ReducerType::PCA(max_components) => Self::pca_reducer(input, max_components, ops),
            ReducerType::Null => Self::null_reducer(),
        }
    }

    /// Whether `input` passes through this reducer unchanged.
    pub open spec fn passes_through(&self, input: Matrix<T>) -> bool {
        match self {
            Reducer::PCAReducer(p) => p.passes_through(input),
            Reducer::NullReducer(_) => true,
        }
    }

    /// The number of columns of what `transform` returns for `input`.
    pub open spec fn reduced_width(&self, input: Matrix<T>) -> nat {
        match self {
            Reducer::PCAReducer(p) => if p.passes_through(input) {
                input.cols()
            } else {
                p.component_count()
            },
            Reducer::NullReducer(_) => input.cols(),
        }
    }

    /// The reduced data: the input itself where it passes through, else its
    /// projection on the components.
    pub fn transform<O: MatrixOps<T>>(&self, input: Matrix<T>, ops: &O) -> (out: Matrix<T>)
        requires
            self matches Reducer::PCAReducer(p) ==> (!p.passes_through(input) ==> input.cols()
                == p.mean_spec().len()),
            matrix_ops_ok(*ops),
        ensures
            is_reduction(*ops, *self, input, out),
            out@ == reduced_rows(*ops, *self, input@, input.cols()),
            out@.len() == input@.len(),
            out.cols() == self.reduced_width(input),
    {
        match self {
            Reducer::PCAReducer(reducer) => reducer.transform(input, ops),
            Reducer::NullReducer(reducer) => reducer.transform(input),
        }
    }
}

} // verus!
