use vstd::prelude::*;
use vstd::arithmetic::div_mod::lemma_fundamental_div_mod;
use vstd::arithmetic::mul::lemma_mul_inequality;
use crate::canvas::Canvas;
use crate::color::{blue, green, pack, red, Color};

verus! {

/// Why a renderer configuration is refused.
#[derive(Clone, Copy, Debug, PartialEq, Eq, Structural)]
pub enum ConfigError {
    /// The pixel block size is zero or does not divide both screen dimensions.
    BlockSizeMismatch,
    /// No worker to trace a band.
    NoWorkers,
    /// No sample to average for a pixel.
    NoSamples,
}

/// The validated shape of a frame: screen and canvas sizes, how many row
/// bands are traced in parallel and how many samples each canvas unit takes.
#[derive(Clone, Copy, Debug, PartialEq, Eq, Structural)]
pub struct RenderConfig {
    pub worker_count: usize,
    pub screen_width: usize,
    pub screen_height: usize,
    pub pixel_block_size: usize,
    pub sample_count: usize,
    pub canvas_width: usize,
    pub canvas_height: usize,
}

/// The error that a configuration gets, checked in this order, if any.
pub open spec fn config_error(
    worker_count: usize,
    screen_width: usize,
    screen_height: usize,
    pixel_block_size: usize,
    sample_count: usize,
) -> Option<ConfigError> {
    if pixel_block_size == 0 || screen_width % pixel_block_size != 0 || screen_height
        % pixel_block_size != 0 {
        Some(ConfigError::BlockSizeMismatch)
    } else if worker_count == 0 {
        Some(ConfigError::NoWorkers)
    } else if sample_count == 0 {
        Some(ConfigError::NoSamples)
    } else {
        None
    }
}

impl RenderConfig {
    /// The fields agree: the block size divides the screen, the canvas is
    /// the screen measured in blocks, and there is work for someone to do.
    pub open spec fn wf(&self) -> bool {
        &&& config_error(
            self.worker_count,
            self.screen_width,
            self.screen_height,
            self.pixel_block_size,
            self.sample_count,
        ) is None
        &&& self.canvas_width == self.screen_width / self.pixel_block_size
        &&& self.canvas_height == self.screen_height / self.pixel_block_size
    }

    /// Checks a configuration; fails exactly when a block size does not tile
    /// the screen, or there are no workers or no samples.
    pub fn new(
        worker_count: usize,
        screen_width: usize,
        screen_height: usize,
        pixel_block_size: usize,
        sample_count: usize,
    ) -> (r: Result<RenderConfig, ConfigError>)
        ensures
            match config_error(
                worker_count,
                screen_width,
                screen_height,
                pixel_block_size,
                sample_count,
            ) {
                Some(e) => r == Err::<RenderConfig, ConfigError>(e),
                None => r is Ok,
            },
            r matches Ok(c) ==> {
                &&& c.wf()
                &&& c.worker_count == worker_count
                &&& c.screen_width == screen_width
                &&& c.screen_height == screen_height
                &&& c.pixel_block_size == pixel_block_size
                &&& c.sample_count == sample_count
            },
    {
        if pixel_block_size == 0 || screen_width % pixel_block_size != 0 || screen_height
            % pixel_block_size != 0 {
            return Err(ConfigError::BlockSizeMismatch);
        }
        if worker_count == 0 {
            return Err(ConfigError::NoWorkers);
        }
        if sample_count == 0 {
            return Err(ConfigError::NoSamples);
        }
        Ok(
            RenderConfig {
                worker_count,
                screen_width,
                screen_height,
                pixel_block_size,
                sample_count,
                canvas_width: screen_width / pixel_block_size,
                canvas_height: screen_height / pixel_block_size,
            },
        )
    }

    /// A blank canvas of this configuration's size.
    pub fn blank_canvas(&self) -> (c: Canvas)
        requires
            self.wf(),
        ensures
            c.wf(),
            c.spec_width() == self.canvas_width,
            c.spec_height() == self.canvas_height,
            c.is_blank(),
    {
        Canvas::new(self.screen_width, self.screen_height, self.pixel_block_size)
    }
}

/// First row of band `index` when `height` rows are shared by `workers`.
pub open spec fn band_start(height: nat, workers: nat, index: nat) -> nat {
    index * (height / workers)
}

/// One past the last row of band `index`: the last band takes the rows
/// that the even split leaves over.
pub open spec fn band_end(height: nat, workers: nat, index: nat) -> nat {
    if index + 1 == workers {
        height
    } else {
        band_start(height, workers, index) + height / workers
    }
}

/// The rows that band `index` of `workers` traces, as `(start, end)`.
pub fn band_bounds(height: usize, workers: usize, index: usize) -> (b: (usize, usize))
    requires
        workers > 0,
        index < workers,
    ensures
        b.0 == band_start(height as nat, workers as nat, index as nat),
        b.1 == band_end(height as nat, workers as nat, index as nat),
        b.0 <= b.1 <= height,
{
    proof {
        lemma_bands_tile(height as nat, workers as nat);
        assert(band_end(height as nat, workers as nat, index as nat) <= height);
    }
    let chunk: usize = height / workers;
    let start: usize = index * chunk;
    let end: usize = if index == workers - 1 {
        height
    } else {
        start + chunk
    };
    (start, end)
}

/// The bands tile the rows: the first starts at row 0, each ends where the
/// next starts, none runs backwards, and the last ends at `height`.
pub proof fn lemma_bands_tile(height: nat, workers: nat)
    requires
        workers > 0,
    ensures
        band_start(height, workers, 0) == 0,
        band_end(height, workers, (workers - 1) as nat) == height,
        forall|i: nat|
            i + 1 < workers ==> #[trigger] band_end(height, workers, i) == band_start(
                height,
                workers,
                i + 1,
            ),
        forall|i: nat|
            i < workers ==> band_start(height, workers, i) <= #[trigger] band_end(
                height,
                workers,
                i,
            ) <= height,
{
    let q = height / workers;
    lemma_fundamental_div_mod(height as int, workers as int);
    assert(workers * q <= height);
    assert forall|i: nat| i + 1 < workers implies #[trigger] band_end(height, workers, i)
        == band_start(height, workers, i + 1) by {
        assert((i + 1) * q == i * q + q) by (nonlinear_arith);
    }
    assert forall|i: nat| i < workers implies band_start(height, workers, i) <= #[trigger] band_end(
        height,
        workers,
        i,
    ) <= height by {
        lemma_mul_inequality((i + 1) as int, workers as int, q as int);
        assert((i + 1) * q == i * q + q) by (nonlinear_arith);
        assert(workers * q == q * workers) by (nonlinear_arith);
    }
}

/// Sum of the red channels of packed colors.
pub open spec fn red_sum(s: Seq<usize>) -> int
    decreases s.len(),
{
    if s.len() == 0 {
        0
    } else {
        red_sum(s.drop_last()) + red(s.last() as int)
    }
}

/// Sum of the green channels of packed colors.
pub open spec fn green_sum(s: Seq<usize>) -> int
    decreases s.len(),
{
    if s.len() == 0 {
        0
    } else {
        green_sum(s.drop_last()) + green(s.last() as int)
    }
}

/// Sum of the blue channels of packed colors.
pub open spec fn blue_sum(s: Seq<usize>) -> int
    decreases s.len(),
{
    if s.len() == 0 {
        0
    } else {
        blue_sum(s.drop_last()) + blue(s.last() as int)
    }
}

proof fn lemma_sums_bounded(s: Seq<usize>)
    ensures
        0 <= red_sum(s) <= 255 * s.len(),
        0 <= green_sum(s) <= 255 * s.len(),
        0 <= blue_sum(s) <= 255 * s.len(),
    decreases s.len(),
{
    if s.len() > 0 {
        lemma_sums_bounded(s.drop_last());
    }
}

/// The color of a canvas unit from its samples: the channel-wise mean,
/// rounded down.
pub fn average_color(samples: &Vec<usize>) -> (c: usize)
    requires
        samples@.len() > 0,
        samples@.len() <= usize::MAX / 256,
    ensures
        c == pack(
            red_sum(samples@) / samples@.len() as int,
            green_sum(samples@) / samples@.len() as int,
            blue_sum(samples@) / samples@.len() as int,
        ),
{
    let n: usize = samples.len();
    let mut r: usize = 0;
    let mut g: usize = 0;
    let mut b: usize = 0;
    let mut i: usize = 0;
    while i < n
        invariant
            n == samples@.len(),
            n <= usize::MAX / 256,
            i <= n,
            r == red_sum(samples@.subrange(0, i as int)),
            g == green_sum(samples@.subrange(0, i as int)),
            b == blue_sum(samples@.subrange(0, i as int)),
        decreases n - i,
    {
        proof {
            let pre = samples@.subrange(0, i as int);
            let next = samples@.subrange(0, i + 1);
            assert(next.drop_last() =~= pre);
            lemma_sums_bounded(pre);
            assert(255 * i <= 255 * n) by (nonlinear_arith)
                requires
                    i <= n,
            ;
        }
        let c = samples[i];
        r = r + Color::r(c);
        g = g + Color::g(c);
        b = b + Color::b(c);
        i = i + 1;
    }
    proof {
        assert(samples@.subrange(0, n as int) =~= samples@);
        lemma_sums_bounded(samples@);
        let k = n as int;
        assert(red_sum(samples@) / k <= 255 && green_sum(samples@) / k <= 255 && blue_sum(samples@) / k <= 255) by (nonlinear_arith)
            requires
                k > 0,
                0 <= red_sum(samples@) <= 255 * k,
                0 <= green_sum(samples@) <= 255 * k,
                0 <= blue_sum(samples@) <= 255 * k,
        ;
    }
    Color::rgb(r / n, g / n, b / n)
}

/// Offset of a canvas unit from the canvas centre, in units: columns grow
/// to the right and rows grow downwards, so the second offset points up.
pub fn viewport_offset(canvas_width: usize, canvas_height: usize, col: usize, row: usize) -> (o: (isize, isize))
    requires
        canvas_width <= isize::MAX,
        canvas_height <= isize::MAX,
        col <= isize::MAX,
        row <= isize::MAX,
    ensures
        o.0 == col as int - (canvas_width / 2) as int,
        o.1 == (canvas_height / 2) as int - row as int,
{
    let x: isize = col as isize - (canvas_width / 2) as isize;
    let y: isize = (canvas_height / 2) as isize - row as isize;
    (x, y)
}

/// Where the render loop stands. A frame runs `UpdateCamera`,
/// `ClearCanvas`, `ParallelTrace` (each worker merges its band as it ends)
/// and `Present`; between frames, at `Poll`, the loop looks at the display
/// and either starts the next frame or stops.
#[derive(Clone, Copy, Debug, PartialEq, Eq, Structural)]
pub enum FramePhase {
    Poll,
    UpdateCamera,
    ClearCanvas,
    ParallelTrace,
    Present,
    Stopped,
}

impl FramePhase {
    /// The phase after `self`, given whether the display is still open and
    /// whether the quit key is down.
    pub open spec fn spec_next(self, window_open: bool, quit_pressed: bool) -> FramePhase {
        match self {
            FramePhase::Poll => if window_open && !quit_pressed {
                FramePhase::UpdateCamera
            } else {
                FramePhase::Stopped
            },
            FramePhase::UpdateCamera => FramePhase::ClearCanvas,
            FramePhase::ClearCanvas => FramePhase::ParallelTrace,
            FramePhase::ParallelTrace => FramePhase::Present,
            FramePhase::Present => FramePhase::Poll,
            FramePhase::Stopped => FramePhase::Stopped,
        }
    }

    /// The phase after `self`.
    #[verifier::when_used_as_spec(spec_next)]
    pub fn next(self, window_open: bool, quit_pressed: bool) -> (p: FramePhase)
        ensures
            p == self.spec_next(window_open, quit_pressed),
    {
        match self {
            FramePhase::Poll => if window_open && !quit_pressed {
                FramePhase::UpdateCamera
            } else {
                FramePhase::Stopped
            },
            FramePhase::UpdateCamera => FramePhase::ClearCanvas,
            FramePhase::ClearCanvas => FramePhase::ParallelTrace,
            FramePhase::ParallelTrace => FramePhase::Present,
            FramePhase::Present => FramePhase::Poll,
            FramePhase::Stopped => FramePhase::Stopped,
        }
    }
}

/// The display is consulted only between frames: a frame that has begun
/// runs through to `Present` whatever happens to the window meanwhile, and
/// once stopped the loop stays stopped.
pub proof fn lemma_frames_run_to_completion(p: FramePhase, open1: bool, quit1: bool, open2: bool, quit2: bool)
    ensures
        p != FramePhase::Poll ==> p.spec_next(open1, quit1) == p.spec_next(open2, quit2),
        p != FramePhase::Poll && p != FramePhase::Present && p != FramePhase::Stopped
            ==> p.spec_next(open1, quit1) != FramePhase::Stopped,
        p == FramePhase::Stopped ==> p.spec_next(open1, quit1) == FramePhase::Stopped,
{
}

} // verus!
