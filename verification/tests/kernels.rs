use fractal_engine::fractal::burning_ship::{
    burning_ship, burning_ship_simd, burning_ship_simd256, burning_shipf32, burning_shipf32_simd,
    burning_shipf32_simd256,
};
use fractal_engine::fractal::fill::fill_band;
use fractal_engine::fractal::julia::{
    julia, julia_simd, julia_simd256, juliaf32, juliaf32_simd, juliaf32_simd256,
};
use fractal_engine::fractal::kernel::{
    bounded, fold, iterate, near_root, newton_step, pixel, pointer, root, step, within, Powering,
};
use fractal_engine::fractal::lanes::run_group;
use fractal_engine::fractal::mandelbrot::{
    mandelbrot, mandelbrot_simd, mandelbrot_simd256, mandelbrotf32, mandelbrotf32_simd,
    mandelbrotf32_simd256,
};
use fractal_engine::fractal::newton::newton;
use fractal_engine::fractal::FractalType;
use fractal_engine::complex::Complex;
use fractal_engine::scalar::{Float32, Float64};

type Band = fn(usize, usize, u32, u32, usize, usize, &mut Vec<Vec<u32>>, i32, i32) -> (usize, usize);

fn blank(rows: usize, width: usize) -> Vec<Vec<u32>> {
    vec![vec![0u32; width]; rows]
}

fn render(kernel: Band, cap: u32, pow: u32, width: usize, height: usize, xpos: i32, ypos: i32) -> Vec<Vec<u32>> {
    let mut block = blank(height, width);
    assert_eq!(kernel(0, height, cap, pow, width, height, &mut block, xpos, ypos), (0, height));
    block
}

fn mul64(a: (f64, f64), b: (f64, f64)) -> (f64, f64) {
    (a.0 * b.0 - a.1 * b.1, a.1 * b.0 + a.0 * b.1)
}

fn mul32(a: (f32, f32), b: (f32, f32)) -> (f32, f32) {
    (a.0 * b.0 - a.1 * b.1, a.1 * b.0 + a.0 * b.1)
}

/// The scalar power on native doubles: written out up to the cube, by squaring beyond.
fn pow64(z: (f64, f64), pow: u32) -> (f64, f64) {
    match pow {
        0 => (1.0, 0.0),
        1 => z,
        2 => mul64(z, z),
        3 => mul64(mul64(z, z), z),
        _ => {
            let (mut result, mut base, mut rest) = ((1.0, 0.0), z, pow);
            while rest > 0 {
                if rest & 1 == 1 {
                    result = mul64(result, base);
                }
                base = mul64(base, base);
                rest >>= 1;
            }
            result
        }
    }
}

fn pow32(z: (f32, f32), pow: u32) -> (f32, f32) {
    match pow {
        0 => (1.0, 0.0),
        1 => z,
        2 => mul32(z, z),
        3 => mul32(mul32(z, z), z),
        _ => {
            let (mut result, mut base, mut rest) = ((1.0, 0.0), z, pow);
            while rest > 0 {
                if rest & 1 == 1 {
                    result = mul32(result, base);
                }
                base = mul32(base, base);
                rest >>= 1;
            }
            result
        }
    }
}

/// An escape-time count on native doubles.
fn escape64(ship: bool, mut z: (f64, f64), c: (f64, f64), cap: u32, pow: u32) -> u32 {
    let mut n = 0;
    while n < cap && z.0 * z.0 + z.1 * z.1 < 4.0 {
        if ship {
            z = (-z.0.abs(), z.1.abs());
        }
        let p = pow64(z, pow);
        z = (p.0 + c.0, p.1 + c.1);
        n += 1;
    }
    n
}

fn escape32(ship: bool, mut z: (f32, f32), c: (f32, f32), cap: u32, pow: u32) -> u32 {
    let mut n = 0;
    while n < cap && z.0 * z.0 + z.1 * z.1 < 4.0 {
        if ship {
            z = (-z.0.abs(), z.1.abs());
        }
        let p = pow32(z, pow);
        z = (p.0 + c.0, p.1 + c.1);
        n += 1;
    }
    n
}

fn at64(n: i64, h: usize, offset: f64) -> f64 {
    n as f64 / h as f64 * 2.0 - offset
}

fn at32(n: i64, h: usize, offset: f32) -> f32 {
    n as f32 / h as f32 * 2.0 - offset
}

fn reference64(formula: FractalType, x: usize, y: usize, h: usize, cap: u32, pow: u32, xpos: i32, ypos: i32) -> u32 {
    match formula {
        FractalType::Mandelbrot => {
            escape64(false, (0.0, 0.0), (at64(x as i64, h, 1.8), at64(y as i64, h, 1.0)), cap, pow)
        }
        FractalType::BurningShip => {
            escape64(true, (0.0, 0.0), (at64(x as i64, h, 2.0), at64(y as i64, h, 0.5)), cap, pow)
        }
        FractalType::Julia => escape64(
            false,
            (at64(x as i64, h, 1.8), at64(y as i64, h, 1.0)),
            (at64(xpos as i64, h, 1.8), at64(ypos as i64, h, 1.0)),
            cap,
            pow,
        ),
        FractalType::Newton => unreachable!(),
    }
}

fn reference32(formula: FractalType, x: usize, y: usize, h: usize, cap: u32, pow: u32, xpos: i32, ypos: i32) -> u32 {
    match formula {
        FractalType::Mandelbrot => {
            escape32(false, (0.0, 0.0), (at32(x as i64, h, 1.8), at32(y as i64, h, 1.0)), cap, pow)
        }
        FractalType::BurningShip => {
            escape32(true, (0.0, 0.0), (at32(x as i64, h, 2.0), at32(y as i64, h, 0.5)), cap, pow)
        }
        FractalType::Julia => escape32(
            false,
            (at32(x as i64, h, 1.8), at32(y as i64, h, 1.0)),
            (at32(xpos as i64, h, 1.8), at32(ypos as i64, h, 1.0)),
            cap,
            pow,
        ),
        FractalType::Newton => newton32(
            (at32(x as i64, h, 1.8), at32(y as i64, h, 1.0)),
            (at32(xpos as i64, h, 1.8), at32(ypos as i64, h, 1.0)),
            cap,
            pow,
        ),
    }
}

fn div32(a: (f32, f32), b: (f32, f32)) -> (f32, f32) {
    let abs = b.0 * b.0 + b.1 * b.1;
    ((a.0 * b.0 + a.1 * b.1) / abs, (a.1 * b.0 - a.0 * b.1) / abs)
}

/// The damped Newton iteration on native singles, for a power of at least 1.
fn newton32(mut z: (f32, f32), u: (f32, f32), cap: u32, pow: u32) -> u32 {
    let half_root_three = 3.0f32.sqrt() / 2.0;
    let roots = [(1.0f32, 0.0f32), (-0.5, half_root_three), (-0.5, -half_root_three)];
    let tol = 1e-6f32;
    let mut n = 0;
    while n < cap {
        let power = pow32(z, pow);
        let quotient = div32((power.0 - u.0, power.1 - u.1), pow32(z, pow - 1));
        let scaled = mul32(mul32(quotient, (pow as f32, 0.0)), (-0.03125, 0.0));
        z = (z.0 - scaled.0, z.1 - scaled.1);
        n += 1;
        if roots.iter().any(|r| z.0 - r.0 < tol && z.1 - r.1 < tol) {
            break;
        }
    }
    n
}

fn check64(kernel: Band, formula: FractalType, cap: u32, pow: u32, width: usize, height: usize, xpos: i32, ypos: i32) {
    let block = render(kernel, cap, pow, width, height, xpos, ypos);
    for y in 0..height {
        for x in 0..width {
            let want = reference64(formula, x, y, height, cap, pow, xpos, ypos);
            assert_eq!(block[y][x], want, "{formula:?} pixel ({x}, {y}) power {pow}");
        }
    }
}

fn check32(kernel: Band, formula: FractalType, cap: u32, pow: u32, width: usize, height: usize, xpos: i32, ypos: i32) {
    let block = render(kernel, cap, pow, width, height, xpos, ypos);
    for y in 0..height {
        for x in 0..width {
            let want = reference32(formula, x, y, height, cap, pow, xpos, ypos);
            assert_eq!(block[y][x], want, "{formula:?} pixel ({x}, {y}) power {pow}");
        }
    }
}

#[test]
fn pixel_zero_zero_of_a_four_by_four_image() {
    let at = pixel::<Float64>(FractalType::Mandelbrot, 0, 0, 4);
    assert_eq!(at.real.bits, (-1.8f64).to_bits());
    assert_eq!(at.img.bits, (-1.0f64).to_bits());
    let ship = pixel::<Float64>(FractalType::BurningShip, 0, 0, 4);
    assert_eq!(ship.real.bits, (-2.0f64).to_bits());
    assert_eq!(ship.img.bits, (-0.5f64).to_bits());
    let single = pixel::<Float32>(FractalType::Julia, 3, 1, 4);
    assert_eq!(single.real.bits, (3.0f32 / 4.0 * 2.0 - 1.8).to_bits());
    assert_eq!(single.img.bits, (1.0f32 / 4.0 * 2.0 - 1.0).to_bits());
}

#[test]
fn the_height_scales_both_axes() {
    let at = pixel::<Float64>(FractalType::Mandelbrot, 30, 5, 10);
    assert_eq!(at.real.bits, (30.0f64 / 10.0 * 2.0 - 1.8).to_bits());
    assert_eq!(at.img.bits, (5.0f64 / 10.0 * 2.0 - 1.0).to_bits());
}

#[test]
fn pointer_goes_through_the_same_map() {
    let at = pointer::<Float64>(-7, 300, 900);
    assert_eq!(at.real.bits, (-7.0f64 / 900.0 * 2.0 - 1.8).to_bits());
    assert_eq!(at.img.bits, (300.0f64 / 900.0 * 2.0 - 1.0).to_bits());
}

#[test]
fn mandelbrot_four_by_four_matches_reference_trace() {
    let mut block = blank(4, 4);
    let done = mandelbrot(0, 4, 10, 2, 4, 4, &mut block, 0, 0);
    assert_eq!(done, (0, 4));
    // Pixel (0, 0) is (-1.8, -1.0). From zero the first step lands on it, at squared
    // magnitude 4.24: one iteration.
    assert_eq!(block[0][0], 1);
    // Pixel (3, 2) is (-0.3, 0.0), inside the set: the cap.
    assert_eq!(block[2][3], 10);
    let want = [[1, 3, 3, 5], [3, 4, 6, 10], [10, 10, 10, 10], [3, 4, 6, 10]];
    for y in 0..4 {
        for x in 0..4 {
            assert_eq!(block[y][x], reference64(FractalType::Mandelbrot, x, y, 4, 10, 2, 0, 0));
            assert_eq!(block[y][x], want[y][x], "pixel ({x}, {y})");
        }
    }
}

#[test]
fn a_cap_of_zero_counts_nothing() {
    let mut block = vec![vec![9u32; 3]; 2];
    mandelbrot(0, 2, 0, 2, 3, 2, &mut block, 0, 0);
    assert_eq!(block, blank(2, 3));
}

#[test]
fn scalar_kernels_match_the_native_recurrence() {
    for pow in [2, 3, 5] {
        check64(mandelbrot, FractalType::Mandelbrot, 25, pow, 9, 7, 0, 0);
        check64(julia, FractalType::Julia, 25, pow, 9, 7, 4, 2);
        check64(burning_ship, FractalType::BurningShip, 25, pow, 9, 7, 0, 0);
        check32(mandelbrotf32, FractalType::Mandelbrot, 25, pow, 9, 7, 0, 0);
        check32(juliaf32, FractalType::Julia, 25, pow, 9, 7, 4, 2);
        check32(burning_shipf32, FractalType::BurningShip, 25, pow, 9, 7, 0, 0);
    }
}

#[test]
fn lane_kernels_match_the_scalar_kernels() {
    let doubles: [(Band, [Band; 2]); 3] = [
        (mandelbrot, [mandelbrot_simd, mandelbrot_simd256]),
        (julia, [julia_simd, julia_simd256]),
        (burning_ship, [burning_ship_simd, burning_ship_simd256]),
    ];
    let singles: [(Band, [Band; 2]); 3] = [
        (mandelbrotf32, [mandelbrotf32_simd, mandelbrotf32_simd256]),
        (juliaf32, [juliaf32_simd, juliaf32_simd256]),
        (burning_shipf32, [burning_shipf32_simd, burning_shipf32_simd256]),
    ];
    for width in [1, 7, 8, 11, 16] {
        for pow in [0, 1, 2, 3] {
            for (scalar, lanes) in doubles.iter().chain(singles.iter()) {
                let want = render(*scalar, 30, pow, width, 6, 5, 1);
                for kernel in lanes {
                    assert_eq!(render(*kernel, 30, pow, width, 6, 5, 1), want, "width {width} power {pow}");
                }
            }
        }
    }
}

#[test]
fn lane_kernels_reach_the_cap_and_escape_in_one_group() {
    // Row 1 of a 4 by 4 image holds the counts 3, 4, 6, 10: one group of four lanes that
    // leave one after the other, the last one at the cap.
    let block = render(mandelbrot_simd256, 10, 2, 4, 4, 0, 0);
    assert_eq!(block[1], vec![3, 4, 6, 10]);
    assert_eq!(block[0], vec![1, 3, 3, 5]);
    let pairs = render(mandelbrot_simd, 10, 2, 4, 4, 0, 0);
    assert_eq!(pairs[1], vec![3, 4, 6, 10]);
}

#[test]
fn lanes_multiply_the_power_up_factor_by_factor() {
    let z = Complex::new(Float64 { bits: 0.3f64.to_bits() }, Float64 { bits: 0.6f64.to_bits() });
    let c = Complex::new(Float64 { bits: 0.1f64.to_bits() }, Float64 { bits: (-0.2f64).to_bits() });
    let unrolled = step(FractalType::Mandelbrot, Powering::Unrolled, z, c, 5);
    let a = (0.3f64, 0.6f64);
    let p = mul64(mul64(mul64(mul64(a, a), a), a), a);
    assert_eq!(unrolled.real.bits, (p.0 + 0.1).to_bits());
    assert_eq!(unrolled.img.bits, (p.1 + -0.2).to_bits());
    let logarithmic = step(FractalType::Mandelbrot, Powering::Logarithmic, z, c, 5);
    let q = pow64(a, 5);
    assert_eq!(logarithmic.real.bits, (q.0 + 0.1).to_bits());
    assert_eq!(logarithmic.img.bits, (q.1 + -0.2).to_bits());
    // The power 1 leaves the number as it is; the power 0 is 1 under both rules.
    let one = step(FractalType::Mandelbrot, Powering::Unrolled, z, c, 1);
    assert_eq!((one.real.bits, one.img.bits), ((0.3f64 + 0.1).to_bits(), (0.6f64 + -0.2).to_bits()));
    for rule in [Powering::Unrolled, Powering::Logarithmic] {
        let zero = step(FractalType::Mandelbrot, rule, z, c, 0);
        assert_eq!((zero.real.bits, zero.img.bits), ((1.0f64 + 0.1).to_bits(), (0.0f64 + -0.2).to_bits()));
        let ship = step(FractalType::BurningShip, rule, z, c, 0);
        assert_eq!((ship.real.bits, ship.img.bits), ((1.0f64 + 0.1).to_bits(), (0.0f64 + -0.2).to_bits()));
    }
}

#[test]
fn power_zero_is_one_in_every_kernel() {
    // With the power 0 every step is z = 1 + c. Pixel (3, 2) of an image 4 rows high is
    // (-0.3, 0) for the Mandelbrot set: 1 + c is 0.7, which never escapes.
    for kernel in [mandelbrot as Band, mandelbrot_simd, mandelbrot_simd256, mandelbrotf32_simd256] {
        assert_eq!(render(kernel, 10, 0, 8, 4, 0, 0)[2][3], 10);
    }
    for kernel in [julia as Band, julia_simd, julia_simd256, juliaf32_simd256] {
        assert_eq!(render(kernel, 10, 0, 8, 4, 3, 2)[2][3], 10);
    }
    // Pixel (3, 0) is (-0.5, -0.5) for the Burning Ship: 1 + c is (0.5, -0.5).
    for kernel in [burning_ship as Band, burning_ship_simd, burning_ship_simd256, burning_shipf32_simd] {
        assert_eq!(render(kernel, 10, 0, 8, 4, 0, 0)[0][3], 10);
    }
    assert_eq!(render(mandelbrot_simd256, 10, 0, 4, 4, 0, 0), render(mandelbrot, 10, 0, 4, 4, 0, 0));
    assert_ne!(render(mandelbrot_simd256, 10, 0, 4, 4, 0, 0), render(mandelbrot_simd256, 10, 1, 4, 4, 0, 0));
}

#[test]
fn from_the_fourth_power_on_the_two_products_round_apart() {
    // Row 42 of an image 90 rows high, to the power 4: the scalar kernel squares twice,
    // a lane multiplies three times, and at column 107 the difference in the last bits
    // moves the escape by one step.
    let mut scalar = blank(1, 108);
    let mut lanes = blank(1, 108);
    mandelbrot(42, 43, 300, 4, 108, 90, &mut scalar, 0, 0);
    mandelbrot_simd(42, 43, 300, 4, 108, 90, &mut lanes, 0, 0);
    assert_eq!(scalar[0][107], 168);
    assert_eq!(lanes[0][107], 167);
    let c = (at64(107, 90, 1.8), at64(42, 90, 1.0));
    assert_eq!(escape64(false, (0.0, 0.0), c, 300, 4), 168);
}

#[test]
fn a_group_gives_each_lane_its_own_count() {
    let at = |re: f64, im: f64| Complex::new(Float64 { bits: re.to_bits() }, Float64 { bits: im.to_bits() });
    let z = vec![at(0.0, 0.0), at(0.0, 0.0), at(3.0, 0.0), at(0.0, 0.0)];
    let c = vec![at(-1.8, -1.0), at(-0.3, 0.0), at(0.0, 0.0), at(0.3, 0.5)];
    let counts = run_group(FractalType::Mandelbrot, z.clone(), &c, 12, 2);
    assert_eq!(counts.len(), 4);
    for l in 0..4 {
        let alone = iterate(FractalType::Mandelbrot, Powering::Unrolled, z[l], c[l], 12, 2);
        assert_eq!(counts[l], alone, "lane {l}");
    }
    assert_eq!(counts, vec![1, 12, 0, 12]);
    assert_eq!(run_group::<Float64>(FractalType::Julia, Vec::new(), &Vec::new(), 12, 2), Vec::<u32>::new());
}

#[test]
fn the_fold_changes_the_trajectory() {
    // Column 7, row 3 of an image 4 rows high is (1.5, 1.0) in the Burning Ship window.
    let c = pixel::<Float64>(FractalType::BurningShip, 7, 3, 4);
    assert_eq!((c.real.bits, c.img.bits), (1.5f64.to_bits(), 1.0f64.to_bits()));
    let zero = Complex::<Float64>::zero();
    let ship_1 = step(FractalType::BurningShip, Powering::Logarithmic, zero, c, 2);
    let plain_1 = step(FractalType::Mandelbrot, Powering::Logarithmic, zero, c, 2);
    assert_eq!(f64::from_bits(ship_1.real.bits), 1.5);
    assert_eq!(f64::from_bits(ship_1.img.bits), 1.0);
    assert_eq!(f64::from_bits(plain_1.real.bits), 1.5);
    assert_eq!(f64::from_bits(plain_1.img.bits), 1.0);
    // Folded, (1.5, 1) becomes (-1.5, 1), whose square is (1.25, -3); unfolded it is (1.25, 3).
    let ship_2 = step(FractalType::BurningShip, Powering::Logarithmic, ship_1, c, 2);
    let plain_2 = step(FractalType::Mandelbrot, Powering::Logarithmic, plain_1, c, 2);
    assert_eq!((f64::from_bits(ship_2.real.bits), f64::from_bits(ship_2.img.bits)), (2.75, -2.0));
    assert_eq!((f64::from_bits(plain_2.real.bits), f64::from_bits(plain_2.img.bits)), (2.75, 4.0));
    assert_ne!(ship_2.img.bits, plain_2.img.bits);
    // Both have escaped after the second step.
    assert_eq!(iterate(FractalType::BurningShip, Powering::Logarithmic, zero, c, 50, 2), 2);
    assert_eq!(iterate(FractalType::Mandelbrot, Powering::Logarithmic, zero, c, 50, 2), 2);
    let block = render(burning_ship, 50, 2, 8, 4, 0, 0);
    assert_eq!(block[3][7], 2);
}

#[test]
fn the_fold_changes_the_count() {
    let ship = render(burning_ship, 40, 2, 12, 8, 0, 0);
    let mut differs = false;
    for y in 0..8 {
        for x in 0..12 {
            let c = (at64(x as i64, 8, 2.0), at64(y as i64, 8, 0.5));
            assert_eq!(ship[y][x], escape64(true, (0.0, 0.0), c, 40, 2));
            differs = differs || ship[y][x] != escape64(false, (0.0, 0.0), c, 40, 2);
        }
    }
    assert!(differs);
}

#[test]
fn julia_takes_its_constant_from_the_pointer() {
    let here = render(julia, 30, 2, 10, 8, 3, 4);
    let there = render(julia, 30, 2, 10, 8, -40, 9);
    assert_ne!(here, there);
    assert_eq!(here[4][3], reference64(FractalType::Julia, 3, 4, 8, 30, 2, 3, 4));
    assert_eq!(there[4][3], reference64(FractalType::Julia, 3, 4, 8, 30, 2, -40, 9));
    // The other formulas do not look at the pointer.
    assert_eq!(render(mandelbrot, 30, 2, 10, 8, 3, 4), render(mandelbrot, 30, 2, 10, 8, -40, 9));
    assert_eq!(render(burning_ship, 30, 2, 10, 8, 3, 4), render(burning_ship, 30, 2, 10, 8, -40, 9));
}

#[test]
fn newton_matches_the_native_iteration() {
    for pow in [1, 2, 3, 4, 7] {
        for (xpos, ypos) in [(0, 0), (14, 5), (9, 4), (-3, 20)] {
            check32(newton, FractalType::Newton, 40, pow, 10, 8, xpos, ypos);
        }
    }
}

#[test]
fn newton_steps_with_the_configured_power() {
    // Column 14, row 5 of an image 10 rows high is (1, 0); the pointer at (109, 0) stands
    // for (20, -1). With the power 2 the first step lands on (-0.1875, 0.0625), near no
    // root; with the power 3 it lands on (-0.78125, 0.09375), which passes the test
    // against the root above it.
    let u = pointer::<Float32>(109, 0, 10);
    assert_eq!((f32::from_bits(u.real.bits), f32::from_bits(u.img.bits)), (20.0, -1.0));
    let z = pixel::<Float32>(FractalType::Newton, 14, 5, 10);
    assert_eq!((f32::from_bits(z.real.bits), f32::from_bits(z.img.bits)), (1.0, 0.0));
    let square = newton_step(z, u, 2);
    assert_eq!((f32::from_bits(square.real.bits), f32::from_bits(square.img.bits)), (-0.1875, 0.0625));
    let cube = newton_step(z, u, 3);
    assert_eq!((f32::from_bits(cube.real.bits), f32::from_bits(cube.img.bits)), (-0.78125, 0.09375));
    let mut block = blank(1, 110);
    newton(5, 6, 2, 2, 110, 10, &mut block, 109, 0);
    assert_eq!(block[0][14], 2);
    newton(5, 6, 2, 3, 110, 10, &mut block, 109, 0);
    assert_eq!(block[0][14], 1);
    newton(5, 6, 2, 1, 110, 10, &mut block, 109, 0);
    assert_eq!(block[0][14], 2);
}

#[test]
fn newton_stops_after_a_step_that_lands_near_a_root() {
    let block = render(newton, 40, 3, 10, 8, 14, 5);
    assert!(block.iter().flatten().all(|&n| (1..=40).contains(&n)));
    assert!(block.iter().flatten().any(|&n| n == 1));
    assert!(block.iter().flatten().any(|&n| n > 1));
}

#[test]
fn newton_survives_a_division_by_zero() {
    // Pixel (9, 5) of an image 10 rows high is (0, 0): the first step divides by zero, and
    // the iteration goes on to the cap on numbers that are not numbers.
    let at = pixel::<Float32>(FractalType::Newton, 9, 5, 10);
    assert_eq!((f32::from_bits(at.real.bits), f32::from_bits(at.img.bits)), (0.0, 0.0));
    let block = render(newton, 17, 3, 10, 10, 0, 0);
    assert_eq!(block[5][9], 17);
}

#[test]
fn newton_has_no_lanes() {
    let mut with_lanes = blank(8, 10);
    fill_band::<Float32>(FractalType::Newton, 4, 0, 8, 40, 3, 10, 8, &mut with_lanes, 14, 5);
    assert_eq!(with_lanes, render(newton, 40, 3, 10, 8, 14, 5));
}

#[test]
fn a_band_holds_its_rows_of_the_image() {
    let whole = render(mandelbrot_simd, 30, 2, 9, 10, 0, 0);
    let mut band = vec![vec![77u32; 12]; 5];
    assert_eq!(mandelbrot_simd(3, 7, 30, 2, 9, 10, &mut band, 0, 0), (3, 7));
    for r in 0..4 {
        assert_eq!(band[r][..9], whole[3 + r][..]);
        assert_eq!(band[r][9..], [77, 77, 77]);
    }
    assert_eq!(band[4], vec![77u32; 12]);
}

#[test]
fn an_empty_range_of_rows_changes_nothing() {
    let mut block = vec![vec![5u32; 4]; 2];
    assert_eq!(julia_simd256(3, 3, 30, 2, 4, 8, &mut block, 0, 0), (3, 3));
    assert_eq!(juliaf32(6, 2, 30, 2, 4, 8, &mut block, 0, 0), (6, 2));
    assert_eq!(block, vec![vec![5u32; 4]; 2]);
}

#[test]
fn counts_never_pass_the_cap() {
    for cap in [0u32, 1, 2, 9] {
        for kernel in [mandelbrot as Band, julia_simd, burning_shipf32_simd256, newton] {
            let block = render(kernel, cap, 2, 9, 6, 2, 2);
            assert!(block.iter().flatten().all(|&n| n <= cap));
        }
    }
}

#[test]
fn the_fold_makes_the_real_part_negative_and_the_imaginary_part_positive() {
    let at = |re: f64, im: f64| Complex::new(Float64 { bits: re.to_bits() }, Float64 { bits: im.to_bits() });
    for (re, im) in [(1.5, 1.0), (-1.5, 1.0), (1.5, -1.0), (-1.5, -1.0)] {
        let folded = fold(at(re, im));
        assert_eq!((f64::from_bits(folded.real.bits), f64::from_bits(folded.img.bits)), (-1.5, 1.0));
    }
}

#[test]
fn escape_is_at_squared_magnitude_four() {
    let at = |re: f64, im: f64| Complex::new(Float64 { bits: re.to_bits() }, Float64 { bits: im.to_bits() });
    assert!(bounded(at(0.0, 0.0)));
    assert!(bounded(at(1.9, 0.0)));
    assert!(!bounded(at(2.0, 0.0)));
    assert!(!bounded(at(-1.8, -1.0)));
    assert!(!bounded(at(f64::NAN, 0.0)));
    assert!(!bounded(at(f64::INFINITY, 0.0)));
}

#[test]
fn the_root_test_takes_the_differences_as_they_are() {
    let at = |re: f32, im: f32| Complex::new(Float32 { bits: re.to_bits() }, Float32 { bits: im.to_bits() });
    let one = root::<Float32>(0);
    assert_eq!((f32::from_bits(one.real.bits), f32::from_bits(one.img.bits)), (1.0, 0.0));
    let upper = root::<Float32>(1);
    let lower = root::<Float32>(2);
    assert_eq!(f32::from_bits(upper.real.bits), -0.5);
    assert_eq!(f32::from_bits(upper.img.bits), 3.0f32.sqrt() / 2.0);
    assert_eq!(f32::from_bits(lower.img.bits), -(3.0f32.sqrt() / 2.0));
    assert!(within(at(1.0, 0.0), one));
    assert!(!within(at(1.00001, 0.0), one));
    assert!(!within(at(1.0, 0.00001), one));
    // Far to the left of and below a root, both differences are negative.
    assert!(within(at(-30.0, -30.0), one));
    assert!(near_root(at(1.0, 0.0)));
    assert!(near_root(at(-0.5, 3.0f32.sqrt() / 2.0)));
    assert!(!near_root(at(2.0, 2.0)));
    assert!(!near_root(at(f32::NAN, f32::NAN)));
}

#[test]
fn a_newton_step_is_damped() {
    let at = |re: f32, im: f32| Complex::new(Float32 { bits: re.to_bits() }, Float32 { bits: im.to_bits() });
    // From 2, for the cube roots of 1: (8 - 1) / 4 * 3 * -0.03125 = -0.1640625.
    let next = newton_step(at(2.0, 0.0), at(1.0, 0.0), 3);
    assert_eq!((f32::from_bits(next.real.bits), f32::from_bits(next.img.bits)), (2.1640625, 0.0));
    // For the square roots of 1: (4 - 1) / 2 * 2 * -0.03125 = -0.09375.
    let next = newton_step(at(2.0, 0.0), at(1.0, 0.0), 2);
    assert_eq!((f32::from_bits(next.real.bits), f32::from_bits(next.img.bits)), (2.09375, 0.0));
}
