use vstd::prelude::*;

verus! {

/// The running estimate of every pixel of a `width` by `height` image, stored row by row,
/// with the index of the next sample, shared by all pixels, and the number of samples
/// after which the image is left as it is.
pub struct Accumulator<C> {
    width: usize,
    height: usize,
    cells: Vec<C>,
    sample: u32,
    limit: u32,
}

impl<C> Accumulator<C> {
    pub closed spec fn width_spec(&self) -> nat {
        self.width as nat
    }

    pub closed spec fn height_spec(&self) -> nat {
        self.height as nat
    }

    /// The pixels' values, row after row.
    pub closed spec fn cells_spec(&self) -> Seq<C> {
        self.cells@
    }

    pub closed spec fn sample_spec(&self) -> nat {
        self.sample as nat
    }

    pub closed spec fn limit_spec(&self) -> nat {
        self.limit as nat
    }

    /// One cell per pixel, and no more samples taken than the limit.
    pub closed spec fn wf(&self) -> bool {
        &&& self.width * self.height <= usize::MAX
        &&& self.cells@.len() == self.width * self.height
        &&& self.sample <= self.limit
    }

    /// The value of the pixel in `row` and `col`.
    pub open spec fn pixel(&self, row: nat, col: nat) -> C {
        self.cells_spec()[(row * self.width_spec() + col) as int]
    }

    /// Whether every pixel holds `value`.
    pub open spec fn all_equal(&self, value: C) -> bool {
        forall|i: int| 0 <= i < self.cells_spec().len() ==> #[trigger] self.cells_spec()[i] == value
    }
}

proof fn lemma_pixel_in_image(width: nat, height: nat, row: nat, col: nat)
    requires
        row < height,
        col < width,
    ensures
        row * width + col < width * height,
{
    assert(row * width + col < width * height) by (nonlinear_arith)
        requires
            row < height,
            col < width,
    ;
}

impl<C: Copy> Accumulator<C> {
    /// A `width` by `height` image whose pixels all hold `zero`, at sample 0, refined by at
    /// most `limit` samples.
    pub fn new(width: usize, height: usize, limit: u32, zero: C) -> (r: Accumulator<C>)
        requires
            width * height <= usize::MAX,
        ensures
            r.wf(),
            r.width_spec() == width,
            r.height_spec() == height,
            r.cells_spec().len() == width * height,
            r.all_equal(zero),
            r.sample_spec() == 0,
            r.limit_spec() == limit,
    {
        let n = width * height;
        let mut cells: Vec<C> = Vec::with_capacity(n);
        let mut i: usize = 0;
        while i < n
            invariant
                i <= n,
                cells@.len() == i,
                forall|j: int| 0 <= j < i ==> #[trigger] cells@[j] == zero,
            decreases n - i,
        {
            cells.push(zero);
            i = i + 1;
        }
        Accumulator { width, height, cells, sample: 0, limit }
    }

    pub fn width(&self) -> (r: usize)
        ensures
            r == self.width_spec(),
    {
        self.width
    }

    pub fn height(&self) -> (r: usize)
        ensures
            r == self.height_spec(),
    {
        self.height
    }

    /// The index of the next sample: the number of passes merged since the last reset.
    pub fn samples(&self) -> (r: u32)
        ensures
            r == self.sample_spec(),
    {
        self.sample
    }

    pub fn limit(&self) -> (r: u32)
        ensures
            r == self.limit_spec(),
    {
        self.limit
    }

    /// The value of the pixel in `row` and `col`.
    pub fn get(&self, row: usize, col: usize) -> (r: C)
        requires
            self.wf(),
            row < self.height_spec(),
            col < self.width_spec(),
        ensures
            r == self.pixel(row as nat, col as nat),
    {
        proof {
            lemma_pixel_in_image(self.width as nat, self.height as nat, row as nat, col as nat);
        }
        self.cells[row * self.width + col]
    }

    /// Stores `value` as the pixel in `row` and `col`, leaving every other pixel as it was.
    pub fn set(&mut self, row: usize, col: usize, value: C)
        requires
            old(self).wf(),
            row < old(self).height_spec(),
            col < old(self).width_spec(),
        ensures
            final(self).wf(),
            final(self).width_spec() == old(self).width_spec(),
            final(self).height_spec() == old(self).height_spec(),
            final(self).sample_spec() == old(self).sample_spec(),
            final(self).limit_spec() == old(self).limit_spec(),
            final(self).cells_spec() == old(self).cells_spec().update(
                (row * old(self).width_spec() + col) as int,
                value,
            ),
    {
        proof {
            lemma_pixel_in_image(self.width as nat, self.height as nat, row as nat, col as nat);
        }
        let i = row * self.width + col;
        self.cells.set(i, value);
    }

    /// Starts a pass: the index of the sample that this pass merges into every pixel, and
    /// the counter moves on; once `limit` samples were taken, no pass and nothing changes.
    pub fn begin_pass(&mut self) -> (r: Option<u32>)
        requires
            old(self).wf(),
        ensures
            final(self).wf(),
            final(self).width_spec() == old(self).width_spec(),
            final(self).height_spec() == old(self).height_spec(),
            final(self).cells_spec() == old(self).cells_spec(),
            final(self).limit_spec() == old(self).limit_spec(),
            old(self).sample_spec() < old(self).limit_spec() ==> r == Some(old(self).sample_spec() as u32)
                && final(self).sample_spec() == old(self).sample_spec() + 1,
            old(self).sample_spec() >= old(self).limit_spec() ==> r.is_none()
                && final(self).sample_spec() == old(self).sample_spec(),
    {
        if self.sample < self.limit {
            let i = self.sample;
            self.sample = self.sample + 1;
            Some(i)
        } else {
            None
        }
    }

    /// Discards every estimate after a change of the scene or the camera: all pixels
    /// hold `zero` again and the next sample is sample 0.
    pub fn reset(&mut self, zero: C)
        requires
            old(self).wf(),
        ensures
            final(self).wf(),
            final(self).width_spec() == old(self).width_spec(),
            final(self).height_spec() == old(self).height_spec(),
            final(self).cells_spec().len() == old(self).cells_spec().len(),
            final(self).all_equal(zero),
            final(self).sample_spec() == 0,
            final(self).limit_spec() == old(self).limit_spec(),
    {
        let n = self.cells.len();
        let mut i: usize = 0;
        while i < n
            invariant
                i <= n,
                n == self.cells@.len(),
                self.width == old(self).width,
                self.height == old(self).height,
                self.limit == old(self).limit,
                self.sample == old(self).sample,
                n == old(self).cells@.len(),
                forall|j: int| 0 <= j < i ==> #[trigger] self.cells@[j] == zero,
            decreases n - i,
        {
            self.cells.set(i, zero);
            i = i + 1;
        }
        self.sample = 0;
    }
}

/// The byte that shows a channel already scaled to the range 0..=255, clamped into it.
pub fn channel_byte(scaled: i64) -> (r: u8)
    ensures
        r == (if scaled < 0 {
            0
        } else if scaled > 255 {
            255
        } else {
            scaled
        }),
{
    if scaled < 0 {
        0
    } else if scaled > 255 {
        255
    } else {
        scaled as u8
    }
}

} // verus!
