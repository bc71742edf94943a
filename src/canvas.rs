use vstd::prelude::*;
use vstd::arithmetic::div_mod::lemma_multiply_divide_lt;

verus! {

/// A grid of packed colors, one per canvas unit, stored row by row.
pub struct Canvas {
    cells: Vec<Vec<usize>>,
    width: usize,
    height: usize,
}

/// A row of `n` zeros.
fn zero_row(n: usize) -> (row: Vec<usize>)
    ensures
        row@ == Seq::new(n as nat, |_i: int| 0usize),
{
    let mut row: Vec<usize> = Vec::new();
    let mut i: usize = 0;
    while i < n
        invariant
            i <= n,
            row@ == Seq::new(i as nat, |_j: int| 0usize),
        decreases n - i,
    {
        row.push(0);
        i = i + 1;
    }
    row
}

impl View for Canvas {
    type V = Seq<Seq<usize>>;

    /// The cells, one sequence per row.
    closed spec fn view(&self) -> Seq<Seq<usize>> {
        self.cells@.map_values(|r: Vec<usize>| r@)
    }
}

impl Canvas {
    proof fn lemma_view(&self)
        ensures
            self@.len() == self.cells@.len(),
            forall|r: int| 0 <= r < self.cells@.len() ==> #[trigger] self@[r] == self.cells@[r]@,
    {
    }

    /// Number of canvas units across.
    pub closed spec fn spec_width(&self) -> nat {
        self.width as nat
    }

    /// Number of canvas units down.
    pub closed spec fn spec_height(&self) -> nat {
        self.height as nat
    }

    /// The rows match the dimensions.
    pub open spec fn wf(&self) -> bool {
        &&& self@.len() == self.spec_height()
        &&& forall|r: int| 0 <= r < self@.len() ==> (#[trigger] self@[r]).len() == self.spec_width()
    }

    /// Every cell is black.
    pub open spec fn is_blank(&self) -> bool {
        forall|r: int, c: int|
            0 <= r < self.spec_height() && 0 <= c < self.spec_width() ==> #[trigger] self@[r][c] == 0
    }

    /// A blank canvas with one unit for each square block of
    /// `canvas_unit_size` screen pixels.
    pub fn new(screen_width: usize, screen_height: usize, canvas_unit_size: usize) -> (c: Canvas)
        requires
            canvas_unit_size > 0,
        ensures
            c.wf(),
            c.spec_width() == screen_width / canvas_unit_size,
            c.spec_height() == screen_height / canvas_unit_size,
            c.is_blank(),
    {
        let width: usize = screen_width / canvas_unit_size;
        let height: usize = screen_height / canvas_unit_size;
        let mut cells: Vec<Vec<usize>> = Vec::new();
        let mut i: usize = 0;
        while i < height
            invariant
                i <= height,
                cells@.len() == i,
                forall|r: int| 0 <= r < i ==> (#[trigger] cells@[r])@ == Seq::new(width as nat, |_j: int| 0usize),
            decreases height - i,
        {
            let row = zero_row(width);
            cells.push(row);
            i = i + 1;
        }
        let c = Canvas { cells, width, height };
        proof {
            c.lemma_view();
        }
        c
    }

    /// Number of canvas units across.
    pub fn width(&self) -> (w: usize)
        ensures
            w == self.spec_width(),
    {
        self.width
    }

    /// Number of canvas units down.
    pub fn height(&self) -> (h: usize)
        ensures
            h == self.spec_height(),
    {
        self.height
    }

    /// Sets every cell back to black.
    pub fn clear(&mut self)
        requires
            old(self).wf(),
        ensures
            final(self).wf(),
            final(self).spec_width() == old(self).spec_width(),
            final(self).spec_height() == old(self).spec_height(),
            final(self).is_blank(),
    {
        proof {
            self.lemma_view();
            assert forall|r: int| 0 <= r < self.height implies (#[trigger] self.cells@[r])@.len() == self.width by {
                assert(self@[r] == self.cells@[r]@);
            }
        }
        let mut i: usize = 0;
        while i < self.height
            invariant
                i <= self.height,
                self.width == old(self).width,
                self.height == old(self).height,
                self.cells@.len() == self.height,
                forall|r: int| 0 <= r < self.height ==> (#[trigger] self.cells@[r])@.len() == self.width,
                forall|r: int| 0 <= r < i ==> (#[trigger] self.cells@[r])@ == Seq::new(self.width as nat, |_j: int| 0usize),
            decreases self.height - i,
        {
            let row = zero_row(self.width);
            self.cells.set(i, row);
            i = i + 1;
        }
        proof {
            self.lemma_view();
        }
    }

    /// The color at `(row, col)`.
    pub fn get(&self, row: usize, col: usize) -> (v: usize)
        requires
            self.wf(),
            row < self.spec_height(),
            col < self.spec_width(),
        ensures
            v == self@[row as int][col as int],
    {
        proof {
            self.lemma_view();
            assert(self@[row as int] == self.cells@[row as int]@);
        }
        self.cells[row][col]
    }

    /// Writes the color at `(row, col)`.
    pub fn set(&mut self, row: usize, col: usize, v: usize)
        requires
            old(self).wf(),
            row < old(self).spec_height(),
            col < old(self).spec_width(),
        ensures
            final(self).wf(),
            final(self).spec_width() == old(self).spec_width(),
            final(self).spec_height() == old(self).spec_height(),
            final(self)@ == old(self)@.update(row as int, old(self)@[row as int].update(col as int, v)),
    {
        proof {
            self.lemma_view();
            assert(self@[row as int] == self.cells@[row as int]@);
        }
        self.cells[row][col] = v;
        proof {
            self.lemma_view();
        }
        assert(self@ =~= old(self)@.update(row as int, old(self)@[row as int].update(col as int, v)));
    }

    /// Copies the rows `row_start..row_end` of `band` into this canvas and
    /// leaves the other rows as they were.
    pub fn merge_band(&mut self, band: &Canvas, row_start: usize, row_end: usize)
        requires
            old(self).wf(),
            band.wf(),
            band.spec_width() == old(self).spec_width(),
            band.spec_height() == old(self).spec_height(),
            row_start <= row_end <= old(self).spec_height(),
        ensures
            final(self).wf(),
            final(self).spec_width() == old(self).spec_width(),
            final(self).spec_height() == old(self).spec_height(),
            forall|r: int, c: int|
                0 <= r < old(self).spec_height() && 0 <= c < old(self).spec_width()
                    ==> #[trigger] final(self)@[r][c] == if row_start <= r < row_end {
                    band@[r][c]
                } else {
                    old(self)@[r][c]
                },
    {
        proof {
            self.lemma_view();
            band.lemma_view();
        }
        let mut row: usize = row_start;
        while row < row_end
            invariant
                row_start <= row <= row_end <= self.height,
                self.width == old(self).width,
                self.height == old(self).height,
                band.wf(),
                band.spec_width() == self.width,
                band.spec_height() == self.height,
                self.wf(),
                forall|r: int, c: int|
                    0 <= r < self.height && 0 <= c < self.width ==> #[trigger] self@[r][c] == if row_start <= r < row {
                        band@[r][c]
                    } else {
                        old(self)@[r][c]
                    },
            decreases row_end - row,
        {
            let mut copy: Vec<usize> = Vec::new();
            let mut col: usize = 0;
            while col < self.width
                invariant
                    col <= self.width,
                    row < self.height,
                    band.wf(),
                    band.spec_width() == self.width,
                    band.spec_height() == self.height,
                    copy@ == band@[row as int].subrange(0, col as int),
                decreases self.width - col,
            {
                let v = band.get(row, col);
                copy.push(v);
                col = col + 1;
            }
            let ghost prev = self@;
            proof {
                self.lemma_view();
                assert(copy@ =~= band@[row as int]);
            }
            self.cells.set(row, copy);
            proof {
                self.lemma_view();
                assert(self@ =~= prev.update(row as int, band@[row as int]));
            }
            row = row + 1;
        }
    }

    /// The screen image: each canvas unit drawn as a `unit` by `unit` block
    /// of identical pixels, rows of pixels laid end to end.
    pub fn to_screen(&self, unit: usize) -> (screen: Vec<u32>)
        requires
            self.wf(),
            unit > 0,
            self.spec_width() * unit <= usize::MAX,
            self.spec_height() * unit <= usize::MAX,
            self.spec_width() * unit * (self.spec_height() * unit) <= usize::MAX,
        ensures
            screen@.len() == self.spec_width() * unit * (self.spec_height() * unit),
            forall|p: int|
                0 <= p < screen@.len() ==> #[trigger] screen@[p] == self@[(p / (self.spec_width()
                    * unit) as int) / unit as int][(p % (self.spec_width() * unit) as int)
                    / unit as int] as u32,
    {
        let screen_width: usize = self.width * unit;
        let screen_height: usize = self.height * unit;
        let total: usize = screen_width * screen_height;
        let mut screen: Vec<u32> = Vec::new();
        let mut p: usize = 0;
        while p < total
            invariant
                self.wf(),
                unit > 0,
                screen_width == self.width * unit,
                screen_height == self.height * unit,
                total == screen_width * screen_height,
                p <= total,
                screen@.len() == p,
                forall|q: int|
                    0 <= q < p ==> #[trigger] screen@[q] == self@[(q / screen_width as int)
                        / unit as int][(q % screen_width as int) / unit as int] as u32,
            decreases total - p,
        {
            let row: usize = p / screen_width;
            let col: usize = p % screen_width;
            proof {
                assert(screen_width > 0 && screen_height as int == unit as int * self.height as int
                    && screen_width as int == unit as int * self.width as int) by (nonlinear_arith)
                    requires
                        p < total,
                        total == screen_width * screen_height,
                        screen_width == self.width * unit,
                        screen_height == self.height * unit,
                ;
                lemma_multiply_divide_lt(p as int, screen_width as int, screen_height as int);
                lemma_multiply_divide_lt(row as int, unit as int, self.height as int);
                lemma_multiply_divide_lt(col as int, unit as int, self.width as int);
            }
            let v = self.get(row / unit, col / unit);
            screen.push(v as u32);
            p = p + 1;
        }
        screen
    }
}

} // verus!
