//! The character-grid rendering of the set: a fixed 80x40 grid whose cells
//! are drawn from a bucketed alphabet, one character per iteration count.

use vstd::arithmetic::div_mod::lemma_fundamental_div_mod_converse;
use vstd::prelude::*;

verus! {

/// Width of the character grid, in cells.
pub const WIDTH: u32 = 80;

/// Height of the character grid, in rows.
pub const HEIGHT: u32 = 40;

/// Iteration cap used by the character-grid pipeline.
pub const ITERATIONS: u32 = 100;

/// The bucket table: which character stands for a given iteration count.
/// Low counts (fast escape) give light marks, high counts give dense ones.
pub open spec fn ascii_char_spec(value: u32) -> char {
    if value <= 5 {
        '.'
    } else if value <= 10 {
        '*'
    } else if value <= 20 {
        ':'
    } else if value <= 30 {
        'o'
    } else if value <= 40 {
        '&'
    } else if value <= 50 {
        '8'
    } else if value <= 60 {
        '#'
    } else {
        '@'
    }
}

/// Converts an iteration count to the character that represents its
/// intensity, following the fixed bucket table.
pub fn to_ascii_char(value: u32) -> (c: char)
    ensures
        c == ascii_char_spec(value),
{
    match value {
        0..=5 => '.',
        6..=10 => '*',
        11..=20 => ':',
        21..=30 => 'o',
        31..=40 => '&',
        41..=50 => '8',
        51..=60 => '#',
        _ => '@',
    }
}

/// How much ink a character of the bucket alphabet puts on the page:
/// its position in the table, from the lightest mark to the densest.
pub open spec fn ink_level(c: char) -> int {
    if c == '.' {
        0
    } else if c == '*' {
        1
    } else if c == ':' {
        2
    } else if c == 'o' {
        3
    } else if c == '&' {
        4
    } else if c == '8' {
        5
    } else if c == '#' {
        6
    } else if c == '@' {
        7
    } else {
        -1
    }
}

/// The bucket table is monotonic: a larger iteration count never maps to a
/// lighter character, so ink density is non-decreasing in the count.
pub proof fn lemma_ascii_char_monotonic(a: u32, b: u32)
    requires
        a <= b,
    ensures
        ink_level(ascii_char_spec(a)) <= ink_level(ascii_char_spec(b)),
{
}

/// Calculates the linear pixel index of the cell at column `x`, row `y` in a
/// row-major grid `width` cells wide.
pub fn calculate_pixel_index(x: u32, y: u32, width: u32) -> (i: usize)
    requires
        y * width + x <= u32::MAX,
    ensures
        i == y * width + x,
{
    (y * width + x) as usize
}

/// Assembles the character grid from per-pixel iteration counts, one count
/// per cell keyed by linear pixel index. Every linear index of the fixed
/// WIDTH x HEIGHT extent receives exactly one character: the bucket-table
/// character of that cell's count.
pub fn collect_ascii(counts: &Vec<u32>) -> (grid: Vec<char>)
    requires
        counts.len() == WIDTH * HEIGHT,
    ensures
        grid.len() == counts.len(),
        forall|i: int| 0 <= i < grid.len() ==> grid[i] == ascii_char_spec(counts[i]),
{
    let mut grid: Vec<char> = Vec::new();
    let mut y: u32 = 0;
    while y < HEIGHT
        invariant
            y <= HEIGHT,
            counts.len() == WIDTH * HEIGHT,
            grid.len() == y * WIDTH,
            forall|i: int| 0 <= i < grid.len() ==> grid[i] == ascii_char_spec(counts[i]),
        decreases HEIGHT - y,
    {
        let mut x: u32 = 0;
        while x < WIDTH
            invariant
                x <= WIDTH,
                y < HEIGHT,
                counts.len() == WIDTH * HEIGHT,
                grid.len() == y * WIDTH + x,
                forall|i: int| 0 <= i < grid.len() ==> grid[i] == ascii_char_spec(counts[i]),
            decreases WIDTH - x,
        {
            let pixel_index = calculate_pixel_index(x, y, WIDTH);
            let c = to_ascii_char(counts[pixel_index]);
            grid.push(c);
            x = x + 1;
        }
        y = y + 1;
    }
    grid
}

/// What the text form of the grid holds at position `j`: each row of the
/// grid takes WIDTH + 1 positions, its WIDTH cells in order followed by a
/// newline.
pub open spec fn rendered_char(grid: Seq<char>, j: int) -> char {
    let row = j / (WIDTH + 1);
    let col = j % (WIDTH + 1);
    if col == WIDTH {
        '\n'
    } else {
        grid[row * WIDTH + col]
    }
}

/// Lays the character grid out as text: the cells of each row in order with
/// no separator, then a newline after each row.
pub fn render_ascii(grid: &Vec<char>) -> (text: Vec<char>)
    requires
        grid.len() == WIDTH * HEIGHT,
    ensures
        text.len() == HEIGHT * (WIDTH + 1),
        forall|j: int| 0 <= j < text.len() ==> text[j] == rendered_char(grid@, j),
{
    let mut text: Vec<char> = Vec::new();
    let mut y: u32 = 0;
    while y < HEIGHT
        invariant
            y <= HEIGHT,
            grid.len() == WIDTH * HEIGHT,
            text.len() == y * (WIDTH + 1),
            forall|j: int| 0 <= j < text.len() ==> text[j] == rendered_char(grid@, j),
        decreases HEIGHT - y,
    {
        let mut x: u32 = 0;
        while x < WIDTH
            invariant
                x <= WIDTH,
                y < HEIGHT,
                grid.len() == WIDTH * HEIGHT,
                text.len() == y * (WIDTH + 1) + x,
                forall|j: int| 0 <= j < text.len() ==> text[j] == rendered_char(grid@, j),
            decreases WIDTH - x,
        {
            let pixel_index = calculate_pixel_index(x, y, WIDTH);
            text.push(grid[pixel_index]);
            proof {
                assert(WIDTH + 1 == 81);
                let j0: int = y as int * (WIDTH + 1) + x as int;
                lemma_fundamental_div_mod_converse(j0, WIDTH + 1, y as int, x as int);
                assert(text[j0] == rendered_char(grid@, j0));
            }
            x = x + 1;
        }
        text.push('\n');
        proof {
            assert(WIDTH + 1 == 81);
            let j0: int = y as int * (WIDTH + 1) + WIDTH;
            lemma_fundamental_div_mod_converse(j0, WIDTH + 1, y as int, WIDTH as int);
            assert(text[j0] == rendered_char(grid@, j0));
        }
        y = y + 1;
    }
    text
}

} // verus!
