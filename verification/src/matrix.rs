use vstd::prelude::*;

verus! {

/// A square grid of monochrome cells, stored row-major: the cell in column
/// `x` of row `y` is `bits[y * side + x]`, `true` meaning a set (dark) cell.
pub struct BitMatrix {
    pub side: usize,
    pub bits: Vec<bool>,
}

impl BitMatrix {
    /// The bit vector holds exactly one cell per position of a square grid.
    pub open spec fn wf(self) -> bool {
        self.bits@.len() == self.side * self.side
    }

    pub open spec fn spec_bit(self, x: int, y: int) -> bool {
        self.bits@[y * self.side + x]
    }

    pub fn new(side: usize, bits: Vec<bool>) -> (r: BitMatrix)
        requires
            bits@.len() == side * side,
        ensures
            r.side == side,
            r.bits == bits,
            r.wf(),
    {
        BitMatrix { side, bits }
    }

    pub fn get(&self, x: usize, y: usize) -> (r: bool)
        requires
            self.wf(),
            x < self.side,
            y < self.side,
        ensures
            r == self.spec_bit(x as int, y as int),
    {
        let n: usize = self.bits.len();
        proof {
            lemma_cell_index_in_range(self.side as int, x as int, y as int);
        }
        self.bits[y * self.side + x]
    }
}

proof fn lemma_cell_index_in_range(side: int, x: int, y: int)
    requires
        0 <= x < side,
        0 <= y < side,
    ensures
        0 <= y * side + x < side * side,
{
    assert(0 <= y * side + x < side * side) by (nonlinear_arith)
        requires
            0 <= x < side,
            0 <= y < side,
    ;
}

} // verus!
