use fractal_engine::color::{lookup, Color};
use fractal_engine::fractal::bands::band_range;
use fractal_engine::fractal::new_blocks;
use fractal_engine::raster::{new_grid, paint_band};

fn shade(i: usize) -> Color {
    Color { r: i as u8, g: (i * 3) as u8, b: 255 - i as u8 }
}

#[test]
fn bands_cover_every_row_once() {
    for height in [1usize, 2, 7, 10, 16, 720, 900] {
        for bands in [1usize, 2, 3, 4, 7, 16, 255] {
            let mut seen = vec![0u32; height];
            let mut next = 0;
            for i in 0..bands {
                let (start, end) = band_range(height, bands, i);
                assert_eq!(start, next, "height {height}, {bands} bands, band {i}");
                assert!(start <= end && end <= height);
                for row in start..end {
                    seen[row] += 1;
                }
                next = end;
            }
            assert_eq!(next, height);
            assert!(seen.iter().all(|&n| n == 1));
        }
    }
}

#[test]
fn the_last_band_takes_the_remainder() {
    assert_eq!(band_range(10, 4, 0), (0, 2));
    assert_eq!(band_range(10, 4, 1), (2, 4));
    assert_eq!(band_range(10, 4, 2), (4, 6));
    assert_eq!(band_range(10, 4, 3), (6, 10));
    for height in [5usize, 10, 900, 901, 1079] {
        for bands in [1usize, 4, 16] {
            let (start, end) = band_range(height, bands, bands - 1);
            assert_eq!(end - start, height / bands + height % bands);
            for i in 0..bands - 1 {
                let (start, end) = band_range(height, bands, i);
                assert_eq!(end - start, height / bands);
            }
        }
    }
}

#[test]
fn more_bands_than_rows() {
    for i in 0..4 {
        assert_eq!(band_range(3, 5, i), (0, 0));
    }
    assert_eq!(band_range(3, 5, 4), (0, 3));
}

#[test]
fn one_band_is_the_whole_image() {
    assert_eq!(band_range(720, 1, 0), (0, 720));
}

#[test]
fn blocks_have_the_rows_of_their_bands() {
    let blocks = new_blocks(6, 10, 4);
    assert_eq!(blocks.len(), 4);
    let rows: Vec<usize> = blocks.iter().map(|b| b.len()).collect();
    assert_eq!(rows, vec![2, 2, 2, 4]);
    assert!(blocks.iter().flatten().all(|row| row == &vec![0u32; 6]));
}

#[test]
fn a_new_grid_is_filled() {
    let grid = new_grid(3, 2, 7u32);
    assert_eq!(grid, vec![vec![7, 7, 7], vec![7, 7, 7]]);
    assert_eq!(new_grid(0, 2, 7u32), vec![Vec::<u32>::new(), Vec::new()]);
    assert_eq!(new_grid(5, 0, 7u32), Vec::<Vec<u32>>::new());
}

#[test]
fn lookup_is_by_index() {
    let colors: Vec<Color> = (0..=10).map(shade).collect();
    for count in 0..=10u32 {
        assert_eq!(lookup(&colors, count), shade(count as usize));
    }
}

#[test]
fn the_cap_has_the_last_entry() {
    let mut colors: Vec<Color> = (0..10).map(shade).collect();
    colors.push(Color { r: 0, g: 0, b: 0 });
    assert_eq!(lookup(&colors, 10), Color { r: 0, g: 0, b: 0 });
    assert_eq!(lookup(&colors, 10), *colors.last().unwrap());
    assert_ne!(lookup(&colors, 9), Color { r: 0, g: 0, b: 0 });
}

#[test]
fn painting_a_band_touches_its_rows_only() {
    let colors: Vec<Color> = (0..=5).map(shade).collect();
    let white = Color { r: 255, g: 255, b: 255 };
    let mut image = new_grid(4, 5, white);
    let block = vec![vec![0u32, 1, 2, 3, 9], vec![5, 4, 3, 2, 9], vec![9, 9, 9, 9, 9]];
    paint_band(&mut image, &colors, &block, 1, 2, 3);
    assert_eq!(image[0], vec![white; 4]);
    assert_eq!(image[1], vec![shade(0), shade(1), shade(2), white]);
    assert_eq!(image[2], vec![shade(5), shade(4), shade(3), white]);
    assert_eq!(image[3], vec![white; 4]);
    assert_eq!(image[4], vec![white; 4]);
}
