//! The matrix of audio codes that generation produces and the codec consumes.

use vstd::prelude::*;
use crate::error::PipelineError;

verus! {

/// The rows of a vector of vectors, as sequences.
pub open spec fn grid(rows: Seq<Vec<u32>>) -> Seq<Seq<u32>> {
    Seq::new(rows.len(), |i: int| rows[i]@)
}

/// Number of time steps of a matrix: the length of its first row.
pub open spec fn steps_of(m: Seq<Seq<u32>>) -> nat {
    if m.len() == 0 {
        0
    } else {
        m[0].len()
    }
}

/// All rows have the same length.
pub open spec fn is_rectangular(m: Seq<Seq<u32>>) -> bool {
    forall|i: int| 0 <= i < m.len() ==> (#[trigger] m[i]).len() == steps_of(m)
}

/// Every code is below `limit`.
pub open spec fn codes_below(m: Seq<Seq<u32>>, limit: int) -> bool {
    forall|i: int, j: int| 0 <= i < m.len() && 0 <= j < m[i].len() ==> #[trigger] m[i][j] < limit
}

/// What generation may hand on: a rectangular matrix of at most
/// `max_steps` columns.
pub open spec fn is_generated(m: Seq<Seq<u32>>, max_steps: int) -> bool {
    is_rectangular(m) && steps_of(m) <= max_steps
}

/// What the codec accepts: one row per codebook and every code an index
/// into a codebook.
pub open spec fn fits_codec(m: Seq<Seq<u32>>, codebooks: int, codebook_size: int) -> bool {
    m.len() == codebooks && codes_below(m, codebook_size)
}

/// Codes by codebook (row) and time step (column).  Every value of this
/// type is rectangular.
pub struct CodeMatrix {
    rows: Vec<Vec<u32>>,
}

impl View for CodeMatrix {
    type V = Seq<Seq<u32>>;

    closed spec fn view(&self) -> Seq<Seq<u32>> {
        grid(self.rows@)
    }
}

impl CodeMatrix {
    #[verifier::type_invariant]
    spec fn well_formed(&self) -> bool {
        is_rectangular(grid(self.rows@))
    }

    /// Accepts the rows that generation produced exactly when they form a
    /// rectangular matrix of at most `max_steps` columns; fails with
    /// `Generation` otherwise.
    pub fn from_rows(rows: Vec<Vec<u32>>, max_steps: usize) -> (r: Result<
        CodeMatrix,
        PipelineError,
    >)
        ensures
            r is Ok <==> is_generated(grid(rows@), max_steps as int),
            r matches Ok(m) ==> m@ == grid(rows@) && is_rectangular(m@) && steps_of(m@)
                <= max_steps,
            r matches Err(e) ==> e == PipelineError::Generation,
    {
        let ghost m = grid(rows@);
        let steps: usize = if rows.len() == 0 {
            0
        } else {
            rows[0].len()
        };
        assert(steps == steps_of(m));
        if steps > max_steps {
            return Err(PipelineError::Generation);
        }
        let mut i: usize = 0;
        while i < rows.len()
            invariant
                i <= rows@.len(),
                m == grid(rows@),
                steps == steps_of(m),
                forall|k: int| 0 <= k < i ==> (#[trigger] m[k]).len() == steps,
            decreases rows@.len() - i,
        {
            if rows[i].len() != steps {
                assert(m[i as int].len() != steps_of(m));
                return Err(PipelineError::Generation);
            }
            i = i + 1;
        }
        Ok(CodeMatrix { rows })
    }

    /// Number of codebooks: the rows of the matrix.
    pub fn codebooks(&self) -> (n: usize)
        ensures
            n == self@.len(),
    {
        self.rows.len()
    }

    /// Number of generated time steps: the columns of the matrix.
    pub fn steps(&self) -> (n: usize)
        ensures
            n == steps_of(self@),
            is_rectangular(self@),
    {
        proof {
            use_type_invariant(self);
        }
        if self.rows.len() == 0 {
            0
        } else {
            self.rows[0].len()
        }
    }

    /// The code of codebook `codebook` at time step `step`.
    pub fn code(&self, codebook: usize, step: usize) -> (c: u32)
        requires
            codebook < self@.len(),
            step < steps_of(self@),
        ensures
            c == self@[codebook as int][step as int],
    {
        proof {
            use_type_invariant(self);
            assert(grid(self.rows@)[codebook as int].len() == steps_of(grid(self.rows@)));
        }
        self.rows[codebook][step]
    }

    /// The rows of the matrix.
    pub fn rows(&self) -> (rows: &Vec<Vec<u32>>)
        ensures
            grid(rows@) == self@,
            is_rectangular(self@),
    {
        proof {
            use_type_invariant(self);
        }
        &self.rows
    }

    /// Whether the codec accepts the matrix: it has `codebooks` rows and
    /// every code is below `codebook_size`.  Fails with `AudioDecode`
    /// exactly when it does not.
    pub fn check_for_codec(&self, codebooks: usize, codebook_size: usize) -> (r: Result<
        (),
        PipelineError,
    >)
        ensures
            r is Ok <==> fits_codec(self@, codebooks as int, codebook_size as int),
            r matches Err(e) ==> e == PipelineError::AudioDecode,
    {
        let ghost m = grid(self.rows@);
        if self.rows.len() != codebooks {
            return Err(PipelineError::AudioDecode);
        }
        let mut i: usize = 0;
        while i < self.rows.len()
            invariant
                i <= self.rows@.len(),
                m == grid(self.rows@),
                self.rows@.len() == codebooks,
                forall|a: int, b: int|
                    0 <= a < i && 0 <= b < m[a].len() ==> #[trigger] m[a][b] < codebook_size,
            decreases self.rows@.len() - i,
        {
            let row = &self.rows[i];
            assert(row@ == m[i as int]);
            let mut j: usize = 0;
            while j < row.len()
                invariant
                    j <= row@.len(),
                    i < self.rows@.len(),
                    m == grid(self.rows@),
                    row@ == m[i as int],
                    self.rows@.len() == codebooks,
                    forall|a: int, b: int|
                        0 <= a < i && 0 <= b < m[a].len() ==> #[trigger] m[a][b] < codebook_size,
                    forall|b: int| 0 <= b < j ==> #[trigger] row@[b] < codebook_size,
                decreases row@.len() - j,
            {
                if row[j] as usize >= codebook_size {
                    assert(!(m[i as int][j as int] < codebook_size));
                    return Err(PipelineError::AudioDecode);
                }
                j = j + 1;
            }
            i = i + 1;
        }
        Ok(())
    }
}

} // verus!
