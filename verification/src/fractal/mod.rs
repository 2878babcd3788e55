//! The formulas, their kernels and the frame orchestrator.

use crate::color::{table_for, Color};
use crate::fractal::bands::{band_end, band_range, band_rows, band_start};
use crate::fractal::fill::{filled, fits};
use crate::fractal::laws::lemma_count_within_cap;
use crate::raster::{new_grid, paint_band, shaped};
use crate::scalar::{Float32, Float64};
use vstd::prelude::*;

pub mod bands;
pub mod burning_ship;
pub mod fill;
pub mod julia;
pub mod kernel;
pub mod lanes;
pub mod laws;
pub mod mandelbrot;
pub mod newton;

verus! {

/// The rows `start..end` that a kernel has filled.
pub type Block = (usize, usize);

/// The recurrence that is iterated at each pixel.
#[derive(Clone, Copy, Debug, PartialEq, Eq, Structural)]
pub enum FractalType {
    Mandelbrot,
    Julia,
    BurningShip,
    Newton,
}

/// The floating-point precision of a kernel.
#[derive(Clone, Copy, Debug, PartialEq, Eq, Structural)]
pub enum Precision {
    F32,
    F64,
}

/// The vector width of a kernel: one pixel at a time, 128 bits or 256 bits.
#[derive(Clone, Copy, Debug, PartialEq, Eq, Structural)]
pub enum InstructionSet {
    Scalar,
    SSE,
    AVX,
}

/// The number of lanes of a vector of the given width in the given precision.
pub open spec fn lane_count(prec: Precision, ins: InstructionSet) -> usize {
    match (prec, ins) {
        (_, InstructionSet::Scalar) => 1,
        (Precision::F64, InstructionSet::SSE) => 2,
        (Precision::F64, InstructionSet::AVX) => 4,
        (Precision::F32, InstructionSet::SSE) => 4,
        (Precision::F32, InstructionSet::AVX) => 8,
    }
}

/// One combination of formula, precision and instruction set: a kernel that can be run.
#[derive(Clone, Copy, Debug, PartialEq, Eq, Structural)]
pub struct Kernel {
    pub formula: FractalType,
    pub precision: Precision,
    pub iset: InstructionSet,
}

impl Kernel {
    /// The precision that the kernel computes in. Newton's method is done in single
    /// precision whatever was asked for.
    pub open spec fn working_precision(self) -> Precision {
        if self.formula == FractalType::Newton {
            Precision::F32
        } else {
            self.precision
        }
    }

    /// The number of lanes that the kernel works with.
    pub open spec fn lanes(self) -> usize {
        if self.formula == FractalType::Newton {
            1
        } else {
            lane_count(self.precision, self.iset)
        }
    }

    /// The iteration count that the kernel gives the pixel in column `x` and row `y`.
    pub open spec fn count(
        self,
        x: usize,
        y: usize,
        cap: u32,
        pow: u32,
        width: usize,
        height: usize,
        xpos: i32,
        ypos: i32,
    ) -> u32 {
        match self.working_precision() {
            Precision::F64 => kernel::count_at::<Float64>(
                self.formula,
                self.lanes(),
                x,
                y,
                cap,
                pow,
                width,
                height,
                xpos,
                ypos,
            ),
            Precision::F32 => kernel::count_at::<Float32>(
                self.formula,
                self.lanes(),
                x,
                y,
                cap,
                pow,
                width,
                height,
                xpos,
                ypos,
            ),
        }
    }

    /// What a run of the kernel on the rows `hstart..hend` leaves in a block.
    pub open spec fn fills(
        self,
        hstart: usize,
        hend: usize,
        cap: u32,
        pow: u32,
        width: usize,
        height: usize,
        xpos: i32,
        ypos: i32,
        before: Vec<Vec<u32>>,
        after: Vec<Vec<u32>>,
    ) -> bool {
        match self.working_precision() {
            Precision::F64 => filled::<Float64>(
                self.formula,
                self.lanes(),
                hstart,
                hend,
                cap,
                pow,
                width,
                height,
                xpos,
                ypos,
                before,
                after,
            ),
            Precision::F32 => filled::<Float32>(
                self.formula,
                self.lanes(),
                hstart,
                hend,
                cap,
                pow,
                width,
                height,
                xpos,
                ypos,
                before,
                after,
            ),
        }
    }

    /// Runs the kernel on the rows `hstart..hend`: calls the function that implements the
    /// combination. Newton's method needs a power of at least 1.
    pub fn run(
        &self,
        hstart: usize,
        hend: usize,
        max_iterations: u32,
        pow: u32,
        width: usize,
        height: usize,
        block: &mut Vec<Vec<u32>>,
        xpos: i32,
        ypos: i32,
    ) -> (done: Block)
        requires
            kernel::defined_for(self.formula, pow),
            fits(*old(block), hstart, hend, width),
        ensures
            done == (hstart, hend),
            self.fills(
                hstart,
                hend,
                max_iterations,
                pow,
                width,
                height,
                xpos,
                ypos,
                *old(block),
                *final(block),
            ),
    {
        match (self.formula, self.precision, self.iset) {
            (FractalType::Newton, _, _) => newton::newton(
                hstart,
                hend,
                max_iterations,
                pow,
                width,
                height,
                block,
                xpos,
                ypos,
            ),
            (FractalType::Mandelbrot, Precision::F64, InstructionSet::Scalar) => mandelbrot::mandelbrot(
                hstart,
                hend,
                max_iterations,
                pow,
                width,
                height,
                block,
                xpos,
                ypos,
            ),
            (FractalType::Mandelbrot, Precision::F64, InstructionSet::SSE) => mandelbrot::mandelbrot_simd(
                hstart,
                hend,
                max_iterations,
                pow,
                width,
                height,
                block,
                xpos,
                ypos,
            ),
            (FractalType::Mandelbrot, Precision::F64, InstructionSet::AVX) => mandelbrot::mandelbrot_simd256(
                hstart,
                hend,
                max_iterations,
                pow,
                width,
                height,
                block,
                xpos,
                ypos,
            ),
            (FractalType::Mandelbrot, Precision::F32, InstructionSet::Scalar) => mandelbrot::mandelbrotf32(
                hstart,
                hend,
                max_iterations,
                pow,
                width,
                height,
                block,
                xpos,
                ypos,
            ),
            (FractalType::Mandelbrot, Precision::F32, InstructionSet::SSE) => mandelbrot::mandelbrotf32_simd(
                hstart,
                hend,
                max_iterations,
                pow,
                width,
                height,
                block,
                xpos,
                ypos,
            ),
            (FractalType::Mandelbrot, Precision::F32, InstructionSet::AVX) => mandelbrot::mandelbrotf32_simd256(
                hstart,
                hend,
                max_iterations,
                pow,
                width,
                height,
                block,
                xpos,
                ypos,
            ),
            (FractalType::Julia, Precision::F64, InstructionSet::Scalar) => julia::julia(
                hstart,
                hend,
                max_iterations,
                pow,
                width,
                height,
                block,
                xpos,
                ypos,
            ),
            (FractalType::Julia, Precision::F64, InstructionSet::SSE) => julia::julia_simd(
                hstart,
                hend,
                max_iterations,
                pow,
                width,
                height,
                block,
                xpos,
                ypos,
            ),
            (FractalType::Julia, Precision::F64, InstructionSet::AVX) => julia::julia_simd256(
                hstart,
                hend,
                max_iterations,
                pow,
                width,
                height,
                block,
                xpos,
                ypos,
            ),
            (FractalType::Julia, Precision::F32, InstructionSet::Scalar) => julia::juliaf32(
                hstart,
                hend,
                max_iterations,
                pow,
                width,
                height,
                block,
                xpos,
                ypos,
            ),
            (FractalType::Julia, Precision::F32, InstructionSet::SSE) => julia::juliaf32_simd(
                hstart,
                hend,
                max_iterations,
                pow,
                width,
                height,
                block,
                xpos,
                ypos,
            ),
            (FractalType::Julia, Precision::F32, InstructionSet::AVX) => julia::juliaf32_simd256(
                hstart,
                hend,
                max_iterations,
                pow,
                width,
                height,
                block,
                xpos,
                ypos,
            ),
            (FractalType::BurningShip, Precision::F64, InstructionSet::Scalar) => burning_ship::burning_ship(
                hstart,
                hend,
                max_iterations,
                pow,
                width,
                height,
                block,
                xpos,
                ypos,
            ),
            (FractalType::BurningShip, Precision::F64, InstructionSet::SSE) => burning_ship::burning_ship_simd(
                hstart,
                hend,
                max_iterations,
                pow,
                width,
                height,
                block,
                xpos,
                ypos,
            ),
            (FractalType::BurningShip, Precision::F64, InstructionSet::AVX) => burning_ship::burning_ship_simd256(
                hstart,
                hend,
                max_iterations,
                pow,
                width,
                height,
                block,
                xpos,
                ypos,
            ),
            (FractalType::BurningShip, Precision::F32, InstructionSet::Scalar) => burning_ship::burning_shipf32(
                hstart,
                hend,
                max_iterations,
                pow,
                width,
                height,
                block,
                xpos,
                ypos,
            ),
            (FractalType::BurningShip, Precision::F32, InstructionSet::SSE) => burning_ship::burning_shipf32_simd(
                hstart,
                hend,
                max_iterations,
                pow,
                width,
                height,
                block,
                xpos,
                ypos,
            ),
            (FractalType::BurningShip, Precision::F32, InstructionSet::AVX) => burning_ship::burning_shipf32_simd256(
                hstart,
                hend,
                max_iterations,
                pow,
                width,
                height,
                block,
                xpos,
                ypos,
            ),
        }
    }
}

/// Why a configuration was turned down.
#[derive(Clone, Copy, Debug, PartialEq, Eq, Structural)]
pub enum ConfigError {
    /// The thread count is zero.
    ZeroThreads,
    /// The image has no columns or no rows.
    ZeroSizedImage,
    /// The formula has no kernel for the instruction set.
    UnsupportedInstructionSet,
    /// The formula is not defined for the power.
    UnsupportedPower,
    /// The colour table does not have one entry for every count up to the cap.
    ColorTableLength,
}

/// A render configuration.
#[derive(Clone, Copy, Debug, PartialEq, Eq, Structural)]
pub struct Config {
    pub fractal_type: FractalType,
    /// The number of bands, or `None` for one band that nothing divides.
    pub num_threads: Option<u8>,
    pub max_iter: u16,
    pub width: u16,
    pub height: u16,
    pub pow: u32,
    pub iset: InstructionSet,
    pub precision: Precision,
}

/// Whether a formula has a kernel for an instruction set. Newton's method has none that
/// works on lanes.
pub open spec fn supported(formula: FractalType, ins: InstructionSet) -> bool {
    formula != FractalType::Newton || ins == InstructionSet::Scalar
}

impl Config {
    /// Whether the configuration can be rendered: the image has pixels, the thread count
    /// is not zero, the formula has a kernel for the instruction set and is defined for
    /// the power.
    pub open spec fn valid(self) -> bool {
        &&& self.width > 0
        &&& self.height > 0
        &&& self.num_threads != Some(0u8)
        &&& supported(self.fractal_type, self.iset)
        &&& kernel::defined_for(self.fractal_type, self.pow)
    }

    /// The number of bands that the image is divided into.
    pub open spec fn bands(self) -> usize {
        match self.num_threads {
            Some(threads) => threads as usize,
            None => 1,
        }
    }

    /// The kernel that renders the configuration.
    pub open spec fn kernel(self) -> Kernel {
        Kernel { formula: self.fractal_type, precision: self.precision, iset: self.iset }
    }

    /// The iteration count of the pixel in column `x` and row `y`.
    pub open spec fn count(self, x: usize, y: usize, xpos: i32, ypos: i32) -> u32 {
        self.kernel().count(
            x,
            y,
            self.max_iter as u32,
            self.pow,
            self.width as usize,
            self.height as usize,
            xpos,
            ypos,
        )
    }

    /// The same configuration with another thread count.
    pub open spec fn with_threads(self, num_threads: Option<u8>) -> Config {
        Config { num_threads, ..self }
    }
}

/// Whether `image` is the rendering of a configuration with a colour table and a pointer
/// position: it has the configured size, and every pixel has the colour that the table
/// gives the iteration count of that pixel.
pub open spec fn raster_of(
    config: Config,
    colors: Seq<Color>,
    xpos: i32,
    ypos: i32,
    image: Vec<Vec<Color>>,
) -> bool {
    &&& shaped(image, config.width as int, config.height as int)
    &&& forall|y: int, x: int|
        0 <= y < config.height && 0 <= x < config.width ==> #[trigger] image[y][x] == colors[config.count(
            x as usize,
            y as usize,
            xpos,
            ypos,
        ) as int]
}

/// The count that a kernel gives a pixel never passes the cap.
pub proof fn lemma_kernel_count_within_cap(
    kernel: Kernel,
    x: usize,
    y: usize,
    cap: u32,
    pow: u32,
    width: usize,
    height: usize,
    xpos: i32,
    ypos: i32,
)
    ensures
        kernel.count(x, y, cap, pow, width, height, xpos, ypos) <= cap,
{
    lemma_count_within_cap::<Float64>(
        kernel.formula,
        kernel.lanes(),
        x,
        y,
        cap,
        pow,
        width,
        height,
        xpos,
        ypos,
    );
    lemma_count_within_cap::<Float32>(
        kernel.formula,
        kernel.lanes(),
        x,
        y,
        cap,
        pow,
        width,
        height,
        xpos,
        ypos,
    );
}

/// Whether every cell of every block is zero.
pub open spec fn zeroed(blocks: Vec<Vec<Vec<u32>>>) -> bool {
    forall|i: int, r: int, c: int|
        0 <= i < blocks.len() && 0 <= r < blocks[i].len() && 0 <= c < blocks[i][r].len()
            ==> #[trigger] blocks[i][r][c] == 0
}

/// Allocates the iteration buffers of an image: one block for each band, with the rows of
/// that band, every cell zero.
pub fn new_blocks(width: usize, height: usize, bands: usize) -> (blocks: Vec<Vec<Vec<u32>>>)
    requires
        bands > 0,
    ensures
        blocks.len() == bands,
        forall|i: int|
            0 <= i < bands ==> shaped(#[trigger] blocks[i], width as int, band_rows(height, bands, i)),
        zeroed(blocks),
{
    let mut blocks: Vec<Vec<Vec<u32>>> = Vec::new();
    let mut i: usize = 0;
    while i < bands
        invariant
            i <= bands,
            blocks.len() == i,
            forall|k: int|
                0 <= k < i ==> shaped(#[trigger] blocks[k], width as int, band_rows(height, bands, k)),
            zeroed(blocks),
        decreases bands - i,
    {
        let (start, end) = band_range(height, bands, i);
        blocks.push(new_grid(width, end - start, 0u32));
        i = i + 1;
    }
    blocks
}

/// The frame orchestrator: a configuration, the colour table for its iteration cap, and
/// one iteration buffer for each band.
///
/// Between calls the orchestrator is configured: the table and the buffers fit the
/// configuration. A render pass borrows it exclusively, so nothing can reconfigure it
/// while the pass runs. A reconfiguration that is turned down changes nothing.
pub struct Fractal {
    config: Config,
    color_buffer: Vec<Color>,
    th_block: Vec<Vec<Vec<u32>>>,
}

impl Fractal {
    /// The configuration.
    pub closed spec fn config(self) -> Config {
        self.config
    }

    /// The colour table.
    pub closed spec fn colors(self) -> Seq<Color> {
        self.color_buffer@
    }

    /// The iteration buffers, one for each band.
    pub closed spec fn blocks(self) -> Vec<Vec<Vec<u32>>> {
        self.th_block
    }

    /// Whether the table and the buffers fit the configuration: the configuration is
    /// valid, the table has an entry for every count up to the cap, and there is a buffer
    /// for every band, with the rows of that band and the width of the image.
    pub open spec fn wf(self) -> bool {
        &&& self.config().valid()
        &&& table_for(self.colors(), self.config().max_iter as u32)
        &&& self.blocks().len() == self.config().bands()
        &&& forall|i: int|
            0 <= i < self.config().bands() ==> shaped(
                #[trigger] self.blocks()[i],
                self.config().width as int,
                band_rows(self.config().height as usize, self.config().bands(), i),
            )
    }

    /// The default orchestrator: the Mandelbrot set to the power 2, 1280 by 720 pixels,
    /// at most 100 iterations, in single precision, one pixel at a time, in one band.
    /// `colors` is the table for 100 iterations and must have 101 entries.
    pub fn new(colors: Vec<Color>) -> (made: Result<Fractal, ConfigError>)
        ensures
            made is Ok <==> colors.len() == 101,
            made is Err ==> made == Err::<Fractal, ConfigError>(ConfigError::ColorTableLength),
            made is Ok ==> {
                &&& made->Ok_0.wf()
                &&& zeroed(made->Ok_0.blocks())
                &&& made->Ok_0.colors() == colors@
                &&& made->Ok_0.config() == (Config {
                    fractal_type: FractalType::Mandelbrot,
                    num_threads: None,
                    max_iter: 100,
                    width: 1280,
                    height: 720,
                    pow: 2,
                    iset: InstructionSet::Scalar,
                    precision: Precision::F32,
                })
            },
    {
        if colors.len() != 101 {
            return Err(ConfigError::ColorTableLength);
        }
        let made = Fractal {
            config: Config {
                fractal_type: FractalType::Mandelbrot,
                num_threads: None,
                max_iter: 100,
                width: 1280,
                height: 720,
                pow: 2,
                iset: InstructionSet::Scalar,
                precision: Precision::F32,
            },
            color_buffer: colors,
            th_block: new_blocks(1280, 720, 1),
        };
        Ok(made)
    }

    /// Sets the instruction set. Turned down when the formula has no kernel for it.
    pub fn set_iset(&mut self, iset: InstructionSet) -> (set: Result<(), ConfigError>)
        requires
            old(self).wf(),
        ensures
            final(self).wf(),
            set is Ok <==> supported(old(self).config().fractal_type, iset),
            set is Err ==> set == Err::<(), ConfigError>(ConfigError::UnsupportedInstructionSet),
            set is Err ==> *final(self) == *old(self),
            set is Ok ==> final(self).config() == (Config { iset, ..old(self).config() }),
            final(self).colors() == old(self).colors(),
            final(self).blocks() == old(self).blocks(),
    {
        if matches!(self.config.fractal_type, FractalType::Newton) && !matches!(
            iset,
            InstructionSet::Scalar
        ) {
            return Err(ConfigError::UnsupportedInstructionSet);
        }
        self.config.iset = iset;
        Ok(())
    }

    /// Sets the power of the recurrence. Turned down when the formula is not defined for
    /// it: Newton's method has no power 0.
    pub fn set_pow(&mut self, pow: u32) -> (set: Result<(), ConfigError>)
        requires
            old(self).wf(),
        ensures
            final(self).wf(),
            set is Ok <==> kernel::defined_for(old(self).config().fractal_type, pow),
            set is Err ==> set == Err::<(), ConfigError>(ConfigError::UnsupportedPower),
            set is Err ==> *final(self) == *old(self),
            set is Ok ==> final(self).config() == (Config { pow, ..old(self).config() }),
            final(self).colors() == old(self).colors(),
            final(self).blocks() == old(self).blocks(),
    {
        if matches!(self.config.fractal_type, FractalType::Newton) && pow == 0 {
            return Err(ConfigError::UnsupportedPower);
        }
        self.config.pow = pow;
        Ok(())
    }

    /// Sets the precision.
    pub fn set_prec(&mut self, prec: Precision)
        requires
            old(self).wf(),
        ensures
            final(self).wf(),
            final(self).config() == (Config { precision: prec, ..old(self).config() }),
            final(self).colors() == old(self).colors(),
            final(self).blocks() == old(self).blocks(),
    {
        self.config.precision = prec;
    }

    /// Sets the iteration cap and replaces the colour table by `colors`, the table for
    /// the new cap. Turned down when `colors` does not have `iter + 1` entries. The
    /// iteration buffers stay as they are.
    pub fn set_max_iter(&mut self, iter: u16, colors: Vec<Color>) -> (set: Result<(), ConfigError>)
        requires
            old(self).wf(),
        ensures
            final(self).wf(),
            set is Ok <==> colors.len() == iter + 1,
            set is Err ==> set == Err::<(), ConfigError>(ConfigError::ColorTableLength),
            set is Err ==> *final(self) == *old(self),
            set is Ok ==> final(self).config() == (Config { max_iter: iter, ..old(self).config() }),
            set is Ok ==> final(self).colors() == colors@,
            final(self).blocks() == old(self).blocks(),
    {
        if colors.len() != iter as usize + 1 {
            return Err(ConfigError::ColorTableLength);
        }
        self.config.max_iter = iter;
        self.color_buffer = colors;
        Ok(())
    }

    /// Sets the number of threads, and with it the number of bands, and allocates the
    /// iteration buffers anew. Turned down when `threads` is zero.
    pub fn set_num_threads(&mut self, threads: u8) -> (set: Result<(), ConfigError>)
        requires
            old(self).wf(),
        ensures
            final(self).wf(),
            set is Ok <==> threads > 0,
            set is Err ==> set == Err::<(), ConfigError>(ConfigError::ZeroThreads),
            set is Err ==> *final(self) == *old(self),
            set is Ok ==> final(self).config() == old(self).config().with_threads(Some(threads)),
            set is Ok ==> zeroed(final(self).blocks()),
            final(self).colors() == old(self).colors(),
    {
        if threads == 0 {
            return Err(ConfigError::ZeroThreads);
        }
        self.config.num_threads = Some(threads);
        self.th_block = new_blocks(
            self.config.width as usize,
            self.config.height as usize,
            threads as usize,
        );
        Ok(())
    }

    /// The width and the height of the image.
    pub fn get_dim(&self) -> (dim: (u16, u16))
        ensures
            dim == (self.config().width, self.config().height),
    {
        (self.config.width, self.config.height)
    }

    /// Sets the size of the image and allocates the iteration buffers anew. Turned down
    /// when the image would have no columns or no rows.
    pub fn set_window_dim(&mut self, width: u16, height: u16) -> (set: Result<(), ConfigError>)
        requires
            old(self).wf(),
        ensures
            final(self).wf(),
            set is Ok <==> width > 0 && height > 0,
            set is Err ==> set == Err::<(), ConfigError>(ConfigError::ZeroSizedImage),
            set is Err ==> *final(self) == *old(self),
            set is Ok ==> final(self).config() == (Config { width, height, ..old(self).config() }),
            set is Ok ==> zeroed(final(self).blocks()),
            final(self).colors() == old(self).colors(),
    {
        if width == 0 || height == 0 {
            return Err(ConfigError::ZeroSizedImage);
        }
        let bands = self.bands();
        self.config.width = width;
        self.config.height = height;
        self.th_block = new_blocks(width as usize, height as usize, bands);
        Ok(())
    }

    /// Sets the formula. Turned down when the formula has no kernel for the configured
    /// instruction set, or else when it is not defined for the configured power.
    pub fn set_fractal(&mut self, ftype: FractalType) -> (set: Result<(), ConfigError>)
        requires
            old(self).wf(),
        ensures
            final(self).wf(),
            set is Ok <==> supported(ftype, old(self).config().iset) && kernel::defined_for(
                ftype,
                old(self).config().pow,
            ),
            !supported(ftype, old(self).config().iset) ==> set == Err::<(), ConfigError>(
                ConfigError::UnsupportedInstructionSet,
            ),
            supported(ftype, old(self).config().iset) && !kernel::defined_for(
                ftype,
                old(self).config().pow,
            ) ==> set == Err::<(), ConfigError>(ConfigError::UnsupportedPower),
            set is Err ==> *final(self) == *old(self),
            set is Ok ==> final(self).config() == (Config { fractal_type: ftype, ..old(self).config() }),
            final(self).colors() == old(self).colors(),
            final(self).blocks() == old(self).blocks(),
    {
        if matches!(ftype, FractalType::Newton) {
            if !matches!(self.config.iset, InstructionSet::Scalar) {
                return Err(ConfigError::UnsupportedInstructionSet);
            }
            if self.config.pow == 0 {
                return Err(ConfigError::UnsupportedPower);
            }
        }
        self.config.fractal_type = ftype;
        Ok(())
    }

    /// The configuration.
    pub fn get_config(&self) -> (config: Config)
        ensures
            config == self.config(),
    {
        self.config
    }

    /// The colour table.
    pub fn get_colors(&self) -> (colors: &Vec<Color>)
        ensures
            colors@ == self.colors(),
    {
        &self.color_buffer
    }

    /// The number of bands.
    pub fn bands(&self) -> (bands: usize)
        ensures
            bands == self.config().bands(),
    {
        match self.config.num_threads {
            Some(threads) => threads as usize,
            None => 1,
        }
    }

    /// The kernel for the configured formula, precision and instruction set.
    pub fn kernel(&self) -> (kernel: Kernel)
        ensures
            kernel == self.config().kernel(),
    {
        match self.config.fractal_type {
            FractalType::Mandelbrot => mandelbrot::fn_(self.config.precision, self.config.iset),
            FractalType::Julia => julia::fn_(self.config.precision, self.config.iset),
            FractalType::BurningShip => burning_ship::fn_(self.config.precision, self.config.iset),
            FractalType::Newton => Kernel {
                formula: FractalType::Newton,
                precision: self.config.precision,
                iset: self.config.iset,
            },
        }
    }
}

/// Whether the first `upto` blocks hold the iteration counts of their bands.
pub open spec fn computed(
    config: Config,
    xpos: i32,
    ypos: i32,
    blocks: Vec<Vec<Vec<u32>>>,
    upto: int,
) -> bool {
    forall|k: int, r: int, c: int|
        0 <= k < upto && 0 <= r < band_rows(config.height as usize, config.bands(), k) && 0 <= c
            < config.width ==> #[trigger] blocks[k][r][c] == config.count(
            c as usize,
            (band_start(config.height as usize, config.bands(), k) + r) as usize,
            xpos,
            ypos,
        )
}

/// Whether the rows of `image` before row `upto` hold the colours of their pixels.
pub open spec fn painted(
    config: Config,
    colors: Seq<Color>,
    xpos: i32,
    ypos: i32,
    image: Vec<Vec<Color>>,
    upto: int,
) -> bool {
    &&& shaped(image, config.width as int, config.height as int)
    &&& forall|y: int, x: int|
        0 <= y < upto && 0 <= x < config.width ==> #[trigger] image[y][x] == colors[config.count(
            x as usize,
            y as usize,
            xpos,
            ypos,
        ) as int]
}

impl Fractal {
    /// Computes band `i`: runs the kernel on the rows of the band, into the buffer of the
    /// band.
    fn compute_band(&mut self, i: usize, xpos: i32, ypos: i32)
        requires
            old(self).wf(),
            i < old(self).config().bands(),
            computed(old(self).config(), xpos, ypos, old(self).blocks(), i as int),
        ensures
            final(self).wf(),
            final(self).config() == old(self).config(),
            final(self).colors() == old(self).colors(),
            computed(old(self).config(), xpos, ypos, final(self).blocks(), i + 1),
    {
        let bands = self.bands();
        let kernel = self.kernel();
        let width = self.config.width as usize;
        let height = self.config.height as usize;
        let cap = self.config.max_iter as u32;
        let pow = self.config.pow;
        let (start, end) = band_range(height, bands, i);
        let ghost before = self.th_block;
        assert(shaped(before[i as int], width as int, band_rows(height, bands, i as int)));
        kernel.run(start, end, cap, pow, width, height, &mut self.th_block[i], xpos, ypos);
        proof {
            let after = self.th_block;
            assert(kernel.fills(start, end, cap, pow, width, height, xpos, ypos, before[i as int], after[i as int]));
            assert forall|k: int| 0 <= k < bands implies shaped(
                #[trigger] after[k],
                width as int,
                band_rows(height, bands, k),
            ) by {
                assert(shaped(before[k], width as int, band_rows(height, bands, k)));
                if k == i {
                    assert forall|r: int| 0 <= r < band_rows(height, bands, k) implies (#[trigger] after[k][r]).len()
                        == width by {
                        assert(before[k][r].len() == width);
                    }
                }
            }
            assert forall|k: int, r: int, c: int|
                0 <= k < i + 1 && 0 <= r < band_rows(height, bands, k) && 0 <= c < width implies #[trigger] after[k][r][c]
                == self.config.count(
                c as usize,
                (band_start(height, bands, k) + r) as usize,
                xpos,
                ypos,
            ) by {
                assert(shaped(before[k], width as int, band_rows(height, bands, k)));
                assert(before[k][r].len() == width);
                if k == i {
                } else {
                    assert(after[k] == before[k]);
                }
            }
        }
    }

    /// Paints band `i` from its buffer.
    fn paint(&self, image: &mut Vec<Vec<Color>>, i: usize, xpos: i32, ypos: i32)
        requires
            self.wf(),
            i < self.config().bands(),
            computed(self.config(), xpos, ypos, self.blocks(), self.config().bands() as int),
            painted(
                self.config(),
                self.colors(),
                xpos,
                ypos,
                *old(image),
                band_start(self.config().height as usize, self.config().bands(), i as int),
            ),
        ensures
            painted(
                self.config(),
                self.colors(),
                xpos,
                ypos,
                *final(image),
                band_end(self.config().height as usize, self.config().bands(), i as int),
            ),
    {
        let bands = self.bands();
        let width = self.config.width as usize;
        let height = self.config.height as usize;
        let (start, end) = band_range(height, bands, i);
        let ghost before = *image;
        proof {
            let block = self.th_block[i as int];
            assert(shaped(block, width as int, band_rows(height, bands, i as int)));
            assert forall|r: int, c: int| 0 <= r < end - start && 0 <= c < width implies (#[trigger] block[r][c])
                < self.color_buffer.len() by {
                lemma_kernel_count_within_cap(
                    self.config.kernel(),
                    c as usize,
                    (start + r) as usize,
                    self.config.max_iter as u32,
                    self.config.pow,
                    width,
                    height,
                    xpos,
                    ypos,
                );
            }
        }
        paint_band(image, &self.color_buffer, &self.th_block[i], start, end - start, width);
        proof {
            assert forall|y: int, x: int| 0 <= y < end && 0 <= x < width implies #[trigger] image[y][x]
                == self.color_buffer@[self.config.count(x as usize, y as usize, xpos, ypos) as int] by {
                assert(before[y].len() == width);
                if y >= start {
                    assert(self.th_block[i as int][y - start][x] == self.config.count(
                        x as usize,
                        (start + (y - start)) as usize,
                        xpos,
                        ypos,
                    ));
                }
            }
            assert forall|y: int| 0 <= y < height implies (#[trigger] image[y]).len() == width by {
                assert(before[y].len() == width);
            }
        }
    }

    /// Renders one frame for the pointer position `(xpos, ypos)` into `image`, which must
    /// have the configured size: in one piece where no thread count is set, band by band
    /// otherwise.
    pub fn draw(&mut self, image: &mut Vec<Vec<Color>>, xpos: i32, ypos: i32)
        requires
            old(self).wf(),
            shaped(*old(image), old(self).config().width as int, old(self).config().height as int),
        ensures
            final(self).wf(),
            final(self).config() == old(self).config(),
            final(self).colors() == old(self).colors(),
            computed(
                old(self).config(),
                xpos,
                ypos,
                final(self).blocks(),
                old(self).config().bands() as int,
            ),
            raster_of(old(self).config(), old(self).colors(), xpos, ypos, *final(image)),
    {
        match self.config.num_threads {
            None => self.draw_st(image, xpos, ypos),
            Some(th) => self.draw_mt(image, th, xpos, ypos),
        }
    }

    /// Renders one frame in one piece: the kernel runs once, over all rows, into the only
    /// buffer. For a configuration with one band.
    pub fn draw_st(&mut self, image: &mut Vec<Vec<Color>>, xpos: i32, ypos: i32)
        requires
            old(self).wf(),
            old(self).config().bands() == 1,
            shaped(*old(image), old(self).config().width as int, old(self).config().height as int),
        ensures
            final(self).wf(),
            final(self).config() == old(self).config(),
            final(self).colors() == old(self).colors(),
            computed(
                old(self).config(),
                xpos,
                ypos,
                final(self).blocks(),
                old(self).config().bands() as int,
            ),
            raster_of(old(self).config(), old(self).colors(), xpos, ypos, *final(image)),
    {
        proof {
            assert(computed(self.config, xpos, ypos, self.th_block, 0));
        }
        self.compute_band(0, xpos, ypos);
        self.paint(image, 0, xpos, ypos);
    }

    /// Renders one frame band by band, for a configuration with `thread` bands: first the
    /// kernel runs on every band, each into its own buffer; when all bands are done, the
    /// buffers are painted.
    pub fn draw_mt(&mut self, image: &mut Vec<Vec<Color>>, thread: u8, xpos: i32, ypos: i32)
        requires
            old(self).wf(),
            old(self).config().bands() == thread,
            shaped(*old(image), old(self).config().width as int, old(self).config().height as int),
        ensures
            final(self).wf(),
            final(self).config() == old(self).config(),
            final(self).colors() == old(self).colors(),
            computed(
                old(self).config(),
                xpos,
                ypos,
                final(self).blocks(),
                old(self).config().bands() as int,
            ),
            raster_of(old(self).config(), old(self).colors(), xpos, ypos, *final(image)),
    {
        let bands = thread as usize;
        let mut i: usize = 0;
        while i < bands
            invariant
                i <= bands,
                bands == self.config().bands(),
                self.wf(),
                self.config() == old(self).config(),
                self.colors() == old(self).colors(),
                computed(self.config(), xpos, ypos, self.blocks(), i as int),
            decreases bands - i,
        {
            self.compute_band(i, xpos, ypos);
            i = i + 1;
        }
        let mut j: usize = 0;
        while j < bands
            invariant
                j <= bands,
                0 < bands,
                bands == self.config().bands(),
                self.wf(),
                self.config() == old(self).config(),
                self.colors() == old(self).colors(),
                computed(self.config(), xpos, ypos, self.blocks(), bands as int),
                painted(
                    self.config(),
                    self.colors(),
                    xpos,
                    ypos,
                    *image,
                    if j == 0 {
                        0
                    } else {
                        band_end(self.config().height as usize, bands, j - 1)
                    },
                ),
            decreases bands - j,
        {
            proof {
                bands::lemma_bands_contiguous(self.config().height as usize, bands, j as int);
                if j > 0 {
                    bands::lemma_bands_contiguous(self.config().height as usize, bands, j - 1);
                }
            }
            self.paint(image, j, xpos, ypos);
            j = j + 1;
        }
    }
}

} // verus!
