use std::collections::HashMap;

use mandelbrot::ascii::calculate_pixel_index;
use mandelbrot::ascii::collect_ascii;
use mandelbrot::ascii::render_ascii;
use mandelbrot::ascii::to_ascii_char;
use mandelbrot::ascii::HEIGHT;
use mandelbrot::ascii::WIDTH;

const TEST_WIDTH: u32 = 800;
const TEST_HEIGHT: u32 = 800;

/// Maps pixel coordinates to complex plane coordinates, as the driver does
/// before evaluating a pixel.
fn to_complex_num(x: u32, y: u32, width: u32, height: u32) -> (f64, f64) {
    ((x as f64 / width as f64 * 3.5 - 2.5), (y as f64 / height as f64 * 2.0 - 1.0))
}

// Note that we used the round function to round the f64 values to the nearest u32.
// This way, we ensure that we don't lose precision (in the context of `to_complex_num` casting)
// during the casting from f64 to u32.
fn from_complex_num(c: (f64, f64), width: u32, height: u32) -> (u32, u32) {
    let (cx, cy) = c;
    let x = (cx + 2.5) / 3.5 * (width as f64 * 1.0);
    let y = (cy + 1.0) / 2.0 * (height as f64 * 1.0);
    (x.round() as u32, y.round() as u32)
}

#[test]
fn test_complex_num() {
    let width = TEST_WIDTH;
    let height = TEST_HEIGHT;
    let image_area = TEST_WIDTH * TEST_HEIGHT;

    let mut hash_enum = HashMap::new();
    let mut hash_loops = HashMap::new();

    // Enumerate the pixels in the image area using an enumerated iterator
    (0..image_area).enumerate().for_each(|(pixel_index, pixel_value)| {
        // Calculate the x and y coordinate of the pixel
        let x = pixel_value % width;
        let y = pixel_value / width;
        // Insert the pixel index and its corresponding x and y coordinate into the hash_enum
        // map
        hash_enum.insert(pixel_index, (x, y));

        let (cx1, cy1) = (x, y);
        // Convert the x and y coordinate to a complex number
        let c = to_complex_num(cx1, cy1, width, height);
        // Convert the complex number back to its corresponding x and y coordinate
        let (cx2, cy2) = from_complex_num(c, width, height);

        // Verify that the conversion from x and y coordinate to complex number and back is
        // correct
        assert_eq!((cx1, cy1), (cx2, cy2));
        // Verify that the pixel index is within bounds
        assert!(
            (pixel_index as u32) < image_area,
            "Pixel index is out of bounds: {pixel_index}",
        );
        // Verify that the calculated pixel index matches the expected pixel index
        assert_eq!(pixel_index, calculate_pixel_index(x, y, width));
    });

    // Loop through the pixels in the image area using nested loops
    for x in 0..TEST_WIDTH {
        for y in 0..TEST_HEIGHT {
            // Calculate the pixel index of the current pixel
            let pixel_index = calculate_pixel_index(x, y, width);
            // Insert the pixel index and its corresponding x and y coordinate into the
            // hash_loops map
            hash_loops.insert(pixel_index, (x, y));

            let (cx1, cy1) = (x, y);
            // Convert the x and y coordinate to a complex number
            let c = to_complex_num(cx1, cy1, width, height);
            // Convert the complex number back to its corresponding x and y coordinate
            let (cx2, cy2) = from_complex_num(c, width, height);

            // Verify that the conversion from x and y coordinate to complex number and back is
            // correct
            assert_eq!((cx1, cy1), (cx2, cy2));
        }
    }

    // Verify that the results of the enumeration and the loop are the same
    assert_eq!(hash_enum, hash_loops);
}

#[test]
fn test_to_ascii_char_buckets() {
    assert_eq!(to_ascii_char(0), '.');
    assert_eq!(to_ascii_char(5), '.');
    assert_eq!(to_ascii_char(6), '*');
    assert_eq!(to_ascii_char(10), '*');
    assert_eq!(to_ascii_char(11), ':');
    assert_eq!(to_ascii_char(20), ':');
    assert_eq!(to_ascii_char(21), 'o');
    assert_eq!(to_ascii_char(30), 'o');
    assert_eq!(to_ascii_char(31), '&');
    assert_eq!(to_ascii_char(40), '&');
    assert_eq!(to_ascii_char(41), '8');
    assert_eq!(to_ascii_char(50), '8');
    assert_eq!(to_ascii_char(51), '#');
    assert_eq!(to_ascii_char(60), '#');
    assert_eq!(to_ascii_char(61), '@');
    assert_eq!(to_ascii_char(u32::MAX), '@');
}

#[test]
fn test_to_ascii_char_ink_density_examples() {
    // Increasing counts never give a lighter character.
    assert_eq!(to_ascii_char(3), '.');
    assert_eq!(to_ascii_char(8), '*');
    assert_eq!(to_ascii_char(55), '#');
    assert_eq!(to_ascii_char(200), '@');
}

#[test]
fn test_calculate_pixel_index_values() {
    assert_eq!(calculate_pixel_index(0, 0, 80), 0);
    assert_eq!(calculate_pixel_index(79, 0, 80), 79);
    assert_eq!(calculate_pixel_index(0, 1, 80), 80);
    assert_eq!(calculate_pixel_index(79, 39, 80), 3199);
    assert_eq!(calculate_pixel_index(1, 2, 800), 1601);
}

/// Builds a synthetic grid of iteration counts covering every bucket.
fn sample_counts() -> Vec<u32> {
    let mut counts: Vec<u32> = Vec::new();
    for i in 0..(WIDTH * HEIGHT) {
        counts.push(i % 101);
    }
    counts
}

#[test]
fn test_collect_ascii_full_coverage() {
    let counts = sample_counts();
    let grid = collect_ascii(&counts);
    // Exactly one character per linear index in [0, WIDTH * HEIGHT).
    assert_eq!(grid.len(), (WIDTH * HEIGHT) as usize);
    for i in 0..grid.len() {
        assert_eq!(grid[i], to_ascii_char(counts[i]));
    }
}

#[test]
fn test_collect_ascii_deterministic() {
    // The grid is a pure function of the counts: two runs agree exactly.
    let counts = sample_counts();
    let first = collect_ascii(&counts);
    let second = collect_ascii(&counts);
    assert_eq!(first, second);
}

#[test]
fn test_render_ascii_rows() {
    let counts = sample_counts();
    let grid = collect_ascii(&counts);
    let text = render_ascii(&grid);
    assert_eq!(text.len(), (HEIGHT * (WIDTH + 1)) as usize);
    for y in 0..HEIGHT as usize {
        for x in 0..WIDTH as usize {
            assert_eq!(text[y * 81 + x], grid[y * 80 + x]);
        }
        assert_eq!(text[y * 81 + 80], '\n');
    }
}
