use chaikin::subdivision::{chaikin_step, copy_points, line_strip, refine};
use std::cell::RefCell;

type Point = (f32, f32);

fn blend(p0: Point, w0: u8, p1: Point, w1: u8) -> Point {
    let k0 = w0 as f32 / 4.0;
    let k1 = w1 as f32 / 4.0;
    (k0 * p0.0 + k1 * p1.0, k0 * p0.1 + k1 * p1.1)
}

fn weighted_sum(a: i64, wa: u8, b: i64, wb: u8) -> i64 {
    wa as i64 * a + wb as i64 * b
}

fn bits(points: &[Point]) -> Vec<(u32, u32)> {
    points.iter().map(|p| (p.0.to_bits(), p.1.to_bits())).collect()
}

#[test]
fn empty_input_stays_empty() {
    let points: Vec<Point> = Vec::new();
    assert_eq!(chaikin_step(&points, &blend), Vec::<Point>::new());
}

#[test]
fn single_point_stays_as_it_is() {
    let points = vec![(3.5f32, -2.25f32)];
    assert_eq!(chaikin_step(&points, &blend), vec![(3.5f32, -2.25f32)]);
}

#[test]
fn two_points_give_four() {
    let points = vec![(0.0f32, 0.0f32), (4.0, 0.0)];
    assert_eq!(
        chaikin_step(&points, &blend),
        vec![(0.0f32, 0.0f32), (1.0, 0.0), (3.0, 0.0), (4.0, 0.0)]
    );
}

#[test]
fn three_points_cut_one_corner() {
    let points = vec![(0.0f32, 0.0f32), (4.0, 4.0), (8.0, 0.0)];
    assert_eq!(
        chaikin_step(&points, &blend),
        vec![(0.0f32, 0.0f32), (1.0, 1.0), (3.0, 3.0), (5.0, 3.0), (7.0, 1.0), (8.0, 0.0)]
    );
}

#[test]
fn matches_the_weighted_sums_of_each_segment() {
    let points = vec![(0.3f32, 7.1f32), (12.9, -4.4), (100.5, 33.3), (-8.0, 0.1)];
    let refined = chaikin_step(&points, &blend);
    assert_eq!(refined.len(), 8);
    for i in 0..3 {
        let (p0, p1) = (points[i], points[i + 1]);
        let q = (0.75 * p0.0 + 0.25 * p1.0, 0.75 * p0.1 + 0.25 * p1.1);
        let r = (0.25 * p0.0 + 0.75 * p1.0, 0.25 * p0.1 + 0.75 * p1.1);
        assert_eq!(refined[2 * i + 1].0.to_bits(), q.0.to_bits());
        assert_eq!(refined[2 * i + 1].1.to_bits(), q.1.to_bits());
        assert_eq!(refined[2 * i + 2].0.to_bits(), r.0.to_bits());
        assert_eq!(refined[2 * i + 2].1.to_bits(), r.1.to_bits());
    }
}

#[test]
fn doubles_the_length_and_keeps_both_ends() {
    for n in 2usize..9 {
        let points: Vec<Point> = (0..n).map(|i| (i as f32 * 1.5, (i * i) as f32)).collect();
        let refined = chaikin_step(&points, &blend);
        assert_eq!(refined.len(), 2 * n);
        assert_eq!(refined[0], points[0]);
        assert_eq!(refined[2 * n - 1], points[n - 1]);
    }
}

#[test]
fn near_point_comes_before_far_point() {
    let points = vec![0i64, 4];
    assert_eq!(chaikin_step(&points, &weighted_sum), vec![0, 4, 12, 4]);
    let points = vec![1i64, 10, 100];
    assert_eq!(chaikin_step(&points, &weighted_sum), vec![1, 13, 31, 130, 310, 100]);
}

#[test]
fn blend_is_asked_with_weights_three_and_one() {
    let calls: RefCell<Vec<(i64, u8, i64, u8)>> = RefCell::new(Vec::new());
    let recording = |a: i64, wa: u8, b: i64, wb: u8| {
        calls.borrow_mut().push((a, wa, b, wb));
        0i64
    };
    let refined = chaikin_step(&[5i64, 6, 7], &recording);
    assert_eq!(refined, vec![5, 0, 0, 0, 0, 7]);
    assert_eq!(
        calls.into_inner(),
        vec![(5, 3, 6, 1), (5, 1, 6, 3), (6, 3, 7, 1), (6, 1, 7, 3)]
    );
}

#[test]
fn blend_is_not_asked_without_a_segment() {
    let calls: RefCell<u32> = RefCell::new(0);
    let counting = |a: i64, _wa: u8, _b: i64, _wb: u8| {
        *calls.borrow_mut() += 1;
        a
    };
    assert_eq!(chaikin_step(&[], &counting), Vec::<i64>::new());
    assert_eq!(chaikin_step(&[9], &counting), vec![9]);
    assert_eq!(refine(&[9], 5, &counting), vec![9]);
    assert_eq!(calls.into_inner(), 0);
}

#[test]
fn refine_with_no_steps_copies() {
    let points = vec![(1.0f32, 2.0f32), (3.0, 4.0), (5.0, 6.0)];
    assert_eq!(refine(&points, 0, &blend), points);
}

#[test]
fn refine_is_repeated_corner_cutting() {
    let points = vec![(0.0f32, 0.0f32), (10.0, 30.0), (20.0, -5.0), (31.0, 7.0)];
    let mut expected = points.clone();
    for steps in 0u32..6 {
        assert_eq!(bits(&refine(&points, steps, &blend)), bits(&expected));
        expected = chaikin_step(&expected, &blend);
    }
}

#[test]
fn refine_two_steps_of_two_points() {
    let points = vec![(0.0f32, 0.0f32), (16.0, 0.0)];
    assert_eq!(
        refine(&points, 2, &blend),
        vec![
            (0.0f32, 0.0f32),
            (1.0, 0.0),
            (3.0, 0.0),
            (6.0, 0.0),
            (10.0, 0.0),
            (13.0, 0.0),
            (15.0, 0.0),
            (16.0, 0.0)
        ]
    );
}

#[test]
fn refine_gives_the_same_bits_every_time() {
    let points = vec![(0.1f32, 0.7f32), (123.456, -78.9), (3.3, 3.3), (-0.001, 1.0e6)];
    for steps in 0u32..8 {
        let first = refine(&points, steps, &blend);
        let second = refine(&points, steps, &blend);
        assert_eq!(bits(&first), bits(&second));
    }
}

#[test]
fn refine_doubles_with_each_step_and_keeps_both_ends() {
    let points = vec![(2.0f32, 9.0f32), (4.0, 1.0), (8.0, 8.0)];
    let mut len = 3usize;
    for steps in 0u32..8 {
        let refined = refine(&points, steps, &blend);
        assert_eq!(refined.len(), len);
        assert_eq!(refined[0], (2.0, 9.0));
        assert_eq!(refined[len - 1], (8.0, 8.0));
        len *= 2;
    }
    assert_eq!(refine(&points, 7, &blend).len(), 384);
}

#[test]
fn refine_leaves_short_input_alone() {
    let none: Vec<Point> = Vec::new();
    assert_eq!(refine(&none, 7, &blend), none);
    assert_eq!(refine(&[(1.0f32, 1.0f32)], 7, &blend), vec![(1.0f32, 1.0f32)]);
}

#[test]
fn copy_points_copies() {
    let points = vec![(1.0f32, 2.0f32), (3.0, 4.0)];
    assert_eq!(copy_points(&points), points);
    assert_eq!(copy_points::<Point>(&[]), Vec::<Point>::new());
}

#[test]
fn line_strip_joins_neighbours() {
    let points = vec![(0.0f32, 0.0f32), (1.0, 0.0), (1.0, 1.0)];
    assert_eq!(
        line_strip(&points),
        vec![((0.0f32, 0.0f32), (1.0f32, 0.0f32)), ((1.0, 0.0), (1.0, 1.0))]
    );
}

#[test]
fn line_strip_needs_two_points() {
    assert_eq!(line_strip::<Point>(&[]), Vec::<(Point, Point)>::new());
    assert_eq!(line_strip(&[(1.0f32, 1.0f32)]), Vec::<(Point, Point)>::new());
}
