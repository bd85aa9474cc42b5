use mandelbrot::render::check_bounds;
use mandelbrot::render::escape_to_intensity;
use mandelbrot::render::render;

#[test]
fn test_check_bounds() {
    assert!(check_bounds((1000, 750)));
    assert!(check_bounds((1, 1)));
    assert!(!check_bounds((0, 750)));
    assert!(!check_bounds((1000, 0)));
    assert!(!check_bounds((0, 0)));
}

#[test]
fn test_escape_to_intensity_values() {
    assert_eq!(escape_to_intensity(None), 0);
    assert_eq!(escape_to_intensity(Some(0)), 255);
    assert_eq!(escape_to_intensity(Some(1)), 254);
    assert_eq!(escape_to_intensity(Some(100)), 155);
    assert_eq!(escape_to_intensity(Some(254)), 1);
}

#[test]
fn test_intensity_strictly_decreasing() {
    let mut previous = escape_to_intensity(Some(0));
    let mut i: u32 = 1;
    while i < 255 {
        let current = escape_to_intensity(Some(i));
        assert!(previous > current);
        assert!(current > 0);
        previous = current;
        i += 1;
    }
    assert!(escape_to_intensity(None) == 0);
}

#[test]
fn test_render_small_grid() {
    let mut buffer = vec![9u8; 6];
    let outcomes = vec![None, Some(0), Some(100), Some(254), None, Some(7)];
    render(&mut buffer, (3, 2), &outcomes);
    assert_eq!(buffer, vec![0, 255, 155, 1, 0, 248]);
}

#[test]
fn test_render_single_pixel() {
    let mut buffer = vec![0u8; 1];
    let outcomes = vec![Some(42)];
    render(&mut buffer, (1, 1), &outcomes);
    assert_eq!(buffer, vec![213]);
}

#[test]
fn test_render_row_major_order() {
    // width 2, height 3: the byte for (column, row) sits at row * 2 + column.
    let mut buffer = vec![0u8; 6];
    let outcomes = vec![Some(10), Some(20), Some(30), Some(40), Some(50), Some(60)];
    render(&mut buffer, (2, 3), &outcomes);
    assert_eq!(buffer[2 * 2 + 1], 255 - 60);
    assert_eq!(buffer[0], 255 - 10);
    assert_eq!(buffer[1 * 2 + 0], 255 - 30);
}

#[test]
fn test_render_full_size_reproducible() {
    let bounds = (1000usize, 750usize);
    let total: usize = bounds.0 * bounds.1;
    let mut outcomes: Vec<Option<u32>> = Vec::with_capacity(total);
    let mut k: usize = 0;
    while k < total {
        if k % 5 == 0 {
            outcomes.push(None);
        } else {
            outcomes.push(Some((k % 254) as u32));
        }
        k += 1;
    }
    let mut first = vec![0u8; total];
    render(&mut first, bounds, &outcomes);
    let mut second = vec![7u8; total];
    render(&mut second, bounds, &outcomes);
    assert_eq!(first.len(), 750000);
    assert_eq!(first, second);
    for (i, byte) in first.iter().enumerate() {
        if outcomes[i].is_none() {
            assert_eq!(*byte, 0);
        } else {
            assert!(*byte > 0);
        }
    }
}
