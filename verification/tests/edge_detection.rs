use canny::grayscale::rgb_to_grayscale;
use canny::grayscale::Rgba;
use canny::grid::Grid;
use canny::hysteresis::hysteresis_thresholding;
use canny::magnitude::gradient_magnitude_direction;
use canny::magnitude::Orientation;
use canny::pipeline::canny;
use canny::sobel::sobel_operator;
use canny::suppress::mag_byte;
use canny::suppress::non_maximum_suppression;

fn solid(v: u8) -> Rgba {
    Rgba { r: v, g: v, b: v, a: 255 }
}

fn image_from_rows(rows: &[&[u8]]) -> Grid<Rgba> {
    let h = rows.len();
    let w = rows[0].len();
    let mut g = Grid::new(w, h, solid(0));
    for i in 0..h {
        for j in 0..w {
            g.set(i, j, solid(rows[i][j]));
        }
    }
    g
}

fn byte_grid_from_rows(rows: &[&[u8]]) -> Grid<u8> {
    let h = rows.len();
    let w = rows[0].len();
    let mut g = Grid::new(w, h, 0u8);
    for i in 0..h {
        for j in 0..w {
            g.set(i, j, rows[i][j]);
        }
    }
    g
}

#[test]
fn grayscale_exact_truncating_average() {
    let mut img = Grid::new(2, 1, solid(0));
    img.set(0, 0, Rgba { r: 10, g: 200, b: 100, a: 7 });
    img.set(0, 1, Rgba { r: 1, g: 1, b: 2, a: 0 });
    let gray = rgb_to_grayscale(&img);
    assert_eq!(gray.get(0, 0), 103); // (10 + 200 + 100) / 3 = 103, truncating
    assert_eq!(gray.get(0, 1), 1); // 4 / 3 = 1, truncating
}

#[test]
fn grayscale_between_min_and_max_channel() {
    let mut img = Grid::new(3, 1, solid(0));
    img.set(0, 0, Rgba { r: 10, g: 200, b: 100, a: 255 });
    img.set(0, 1, Rgba { r: 255, g: 255, b: 255, a: 255 });
    img.set(0, 2, Rgba { r: 0, g: 255, b: 0, a: 255 });
    let gray = rgb_to_grayscale(&img);
    assert!(gray.get(0, 0) >= 10 && gray.get(0, 0) <= 200);
    assert_eq!(gray.get(0, 1), 255);
    assert!(gray.get(0, 2) <= 255 && gray.get(0, 2) >= 0);
    assert_eq!(gray.get(0, 2), 85); // 255 / 3
}

#[test]
fn sobel_exact_values_on_ramp() {
    let img = byte_grid_from_rows(&[&[1, 2, 3], &[4, 5, 6], &[7, 8, 9]]);
    let (gx, gy) = sobel_operator(&img);
    // gx = (3-1) + 2*(6-4) + (9-7) = 8;  gy = (7-1) + 2*(8-2) + (9-3) = 24
    assert_eq!(gx.get(1, 1), 8);
    assert_eq!(gy.get(1, 1), 24);
}

#[test]
fn dimension_preservation_through_all_stages() {
    let img = image_from_rows(&[
        &[0, 10, 20, 30, 250, 3],
        &[5, 0, 255, 6, 1, 200],
        &[9, 80, 7, 60, 50, 40],
        &[1, 2, 3, 4, 5, 6],
    ]);
    assert_eq!((img.width, img.height), (6, 4));
    let gray = rgb_to_grayscale(&img);
    assert_eq!((gray.width, gray.height), (6, 4));
    let (gx, gy) = sobel_operator(&gray);
    assert_eq!((gx.width, gx.height), (6, 4));
    assert_eq!((gy.width, gy.height), (6, 4));
    let (m2, dir) = gradient_magnitude_direction(&gx, &gy);
    assert_eq!((m2.width, m2.height), (6, 4));
    assert_eq!((dir.width, dir.height), (6, 4));
    let sup = non_maximum_suppression(&m2, &dir);
    assert_eq!((sup.width, sup.height), (6, 4));
    let edges = hysteresis_thresholding(&sup, 50, 150);
    assert_eq!((edges.width, edges.height), (6, 4));
    let full = canny(&img, 50, 150);
    assert_eq!((full.width, full.height), (6, 4));
}

#[test]
fn border_rows_and_columns_stay_zero() {
    let img = image_from_rows(&[
        &[200, 10, 250, 30, 90],
        &[5, 0, 255, 6, 1],
        &[9, 255, 7, 60, 50],
        &[90, 2, 233, 4, 5],
    ]);
    let gray = rgb_to_grayscale(&img);
    let (gx, gy) = sobel_operator(&gray);
    let (m2, dir) = gradient_magnitude_direction(&gx, &gy);
    let sup = non_maximum_suppression(&m2, &dir);
    let edges = hysteresis_thresholding(&sup, 10, 50);
    for i in 0..4 {
        for j in 0..5 {
            if i == 0 || i == 3 || j == 0 || j == 4 {
                assert_eq!(gx.get(i, j), 0);
                assert_eq!(gy.get(i, j), 0);
                assert_eq!(m2.get(i, j), 0);
                assert_eq!(sup.get(i, j), 0);
                assert_eq!(edges.get(i, j), 0);
            }
        }
    }
}

#[test]
fn final_grid_is_binary() {
    let img = image_from_rows(&[
        &[200, 10, 250, 30, 90],
        &[5, 0, 255, 6, 1],
        &[9, 255, 7, 60, 50],
        &[90, 2, 233, 4, 5],
        &[0, 128, 64, 32, 16],
    ]);
    let edges = canny(&img, 20, 60);
    for i in 0..5 {
        for j in 0..5 {
            let v = edges.get(i, j);
            assert!(v == 0 || v == 255);
        }
    }
}

#[test]
fn scenario_uniform_image_yields_no_edges() {
    let img = image_from_rows(&[&[100, 100, 100], &[100, 100, 100], &[100, 100, 100]]);
    let gray = rgb_to_grayscale(&img);
    let (gx, gy) = sobel_operator(&gray);
    let (m2, dir) = gradient_magnitude_direction(&gx, &gy);
    let sup = non_maximum_suppression(&m2, &dir);
    for i in 0..3 {
        for j in 0..3 {
            assert_eq!(gx.get(i, j), 0);
            assert_eq!(gy.get(i, j), 0);
            assert_eq!(m2.get(i, j), 0);
            assert_eq!(sup.get(i, j), 0);
        }
    }
    let edges = canny(&img, 50, 150);
    for i in 0..3 {
        for j in 0..3 {
            assert_eq!(edges.get(i, j), 0);
        }
    }
}

#[test]
fn scenario_vertical_step_edge() {
    let img = image_from_rows(&[
        &[0, 0, 255, 255, 255],
        &[0, 0, 255, 255, 255],
        &[0, 0, 255, 255, 255],
        &[0, 0, 255, 255, 255],
        &[0, 0, 255, 255, 255],
    ]);
    let gray = rgb_to_grayscale(&img);
    let (gx, gy) = sobel_operator(&gray);
    // A strong horizontal derivative at the step column, none vertically.
    assert_eq!(gx.get(2, 2), 1020);
    assert_eq!(gy.get(2, 2), 0);
    let (m2, dir) = gradient_magnitude_direction(&gx, &gy);
    assert_eq!(m2.get(2, 2), 1020 * 1020);
    assert_eq!(dir.get(2, 2), Orientation::Deg0);
    let sup = non_maximum_suppression(&m2, &dir);
    assert_eq!(sup.get(2, 2), 255);
    let edges = canny(&img, 50, 150);
    assert_eq!(edges.get(2, 2), 255);
}

#[test]
fn scenario_equal_degenerate_thresholds() {
    let sup = byte_grid_from_rows(&[
        &[0, 0, 0, 0, 0],
        &[0, 255, 0, 0, 0],
        &[0, 200, 0, 254, 0],
        &[0, 30, 128, 0, 0],
        &[0, 0, 0, 0, 0],
    ]);
    let edges = hysteresis_thresholding(&sup, 255, 255);
    for i in 0..5 {
        for j in 0..5 {
            if (i, j) == (1, 1) {
                assert_eq!(edges.get(i, j), 255);
            } else {
                // 254, and every other value below 255, stays 0: with
                // low == high the weak branch never differs from the strong.
                assert_eq!(edges.get(i, j), 0);
            }
        }
    }
}

#[test]
fn threshold_monotonicity_on_a_fixed_grid() {
    let sup = byte_grid_from_rows(&[
        &[0, 0, 0, 0, 0, 0],
        &[0, 90, 255, 10, 130, 0],
        &[0, 40, 170, 220, 60, 0],
        &[0, 255, 110, 55, 200, 0],
        &[0, 0, 0, 0, 0, 0],
    ]);
    let lenient = hysteresis_thresholding(&sup, 50, 100);
    let strict_high = hysteresis_thresholding(&sup, 50, 200);
    let strict_low = hysteresis_thresholding(&sup, 120, 200);
    for i in 0..5 {
        for j in 0..6 {
            // Raising high can only lose edges, never gain them.
            if strict_high.get(i, j) == 255 {
                assert_eq!(lenient.get(i, j), 255);
            }
            // Raising low as well can only lose more.
            if strict_low.get(i, j) == 255 {
                assert_eq!(strict_high.get(i, j), 255);
            }
        }
    }
}

#[test]
fn weak_cell_kept_only_beside_an_exact_255() {
    let sup = byte_grid_from_rows(&[
        &[0, 0, 0, 0, 0],
        &[0, 60, 0, 0, 0],
        &[0, 0, 100, 255, 0],
        &[0, 40, 0, 0, 0],
        &[0, 0, 0, 0, 0],
    ]);
    let edges = hysteresis_thresholding(&sup, 50, 150);
    assert_eq!(edges.get(2, 3), 255); // strong: 255 >= 150
    assert_eq!(edges.get(2, 2), 255); // weak 100 >= 50, neighbor (2,3) is 255
    assert_eq!(edges.get(1, 1), 0); // weak 60 >= 50 but no 255 neighbor
    assert_eq!(edges.get(3, 1), 0); // weak 40 < 50
}

#[test]
fn orientation_bins_follow_the_folded_angle() {
    let mut gx = Grid::new(6, 1, 0i16);
    let mut gy = Grid::new(6, 1, 0i16);
    let pairs: [(i16, i16); 6] = [(3, 4), (10, 0), (0, 10), (-10, 10), (10, -10), (-10, 0)];
    for (j, (x, y)) in pairs.iter().enumerate() {
        gx.set(0, j, *x);
        gy.set(0, j, *y);
    }
    let (m2, dir) = gradient_magnitude_direction(&gx, &gy);
    assert_eq!(m2.get(0, 0), 25); // 3*3 + 4*4
    assert_eq!(dir.get(0, 0), Orientation::Deg45); // atan2(4,3) = 53.13 deg
    assert_eq!(dir.get(0, 1), Orientation::Deg0);
    assert_eq!(dir.get(0, 2), Orientation::Deg90);
    assert_eq!(dir.get(0, 3), Orientation::Deg135); // 135 deg exactly
    assert_eq!(dir.get(0, 4), Orientation::Deg45); // |-45| = 45 deg
    assert_eq!(dir.get(0, 5), Orientation::Deg0); // 180 deg folds to 0
}

#[test]
fn truncated_magnitude_saturates_at_255() {
    assert_eq!(mag_byte(0), 0);
    assert_eq!(mag_byte(24), 4); // floor(sqrt(24)) = 4
    assert_eq!(mag_byte(25), 5);
    assert_eq!(mag_byte(65024), 254); // 254^2 = 64516 <= 65024 < 255^2
    assert_eq!(mag_byte(65025), 255);
    assert_eq!(mag_byte(1020 * 1020 * 2), 255); // largest possible square
}

#[test]
fn suppression_keeps_plateaus_of_equal_magnitude() {
    let mut m2 = Grid::new(3, 3, 100u32);
    let dir = Grid::new(3, 3, Orientation::Deg0);
    let sup = non_maximum_suppression(&m2, &dir);
    assert_eq!(sup.get(1, 1), 10); // survives the tie; floor(sqrt(100)) = 10
    m2.set(1, 2, 400);
    let sup2 = non_maximum_suppression(&m2, &dir);
    assert_eq!(sup2.get(1, 1), 0); // a strictly larger axis neighbor wins
}

#[test]
fn tiny_images_have_no_interior_and_no_edges() {
    let one = image_from_rows(&[&[200]]);
    let edges_one = canny(&one, 0, 0);
    assert_eq!((edges_one.width, edges_one.height), (1, 1));
    assert_eq!(edges_one.get(0, 0), 0);
    let two = image_from_rows(&[&[200, 0], &[0, 200]]);
    let edges_two = canny(&two, 0, 0);
    for i in 0..2 {
        for j in 0..2 {
            assert_eq!(edges_two.get(i, j), 0);
        }
    }
}
