use ray_tracer::hittable_list::HittableList;
use ray_tracer::ppm::{encode, header, pixel_line, push_decimal, scan_position, Rgb};
use ray_tracer::shading::{Path, Step};

#[test]
fn scene_new_holds_one_object() {
    let scene = HittableList::new(7u32);
    assert_eq!(scene.len(), 1);
    assert_eq!(scene.objects(), &[7u32]);
}

#[test]
fn scene_add_keeps_insertion_order() {
    let mut scene = HittableList::new(3u32);
    scene.add(1);
    scene.add(2);
    assert_eq!(scene.len(), 3);
    assert_eq!(scene.objects(), &[3u32, 1, 2]);
}

// Each object stands for a sphere hit at distance `t`; a query reports a hit
// only when it is nearer than the one kept so far, as a sphere test does.
fn nearer(o: &u32, best: Option<u32>) -> Option<u32> {
    if *o < best.unwrap_or(u32::MAX) {
        Some(*o)
    } else {
        None
    }
}

#[test]
fn scene_hit_picks_the_nearer_of_two() {
    let mut scene = HittableList::new(3u32);
    scene.add(1);
    assert_eq!(scene.hit(nearer), Some(1));
    let mut other = HittableList::new(1u32);
    other.add(3);
    assert_eq!(other.hit(nearer), Some(1));
}

#[test]
fn scene_hit_tie_keeps_first() {
    let mut scene = HittableList::new(2u32);
    scene.add(2);
    scene.add(5);
    assert_eq!(scene.hit(nearer), Some(2));
    let seen: std::cell::RefCell<Vec<u32>> = std::cell::RefCell::new(Vec::new());
    let kept = scene.hit(|o: &u32, best: Option<(u32, u32)>| {
        seen.borrow_mut().push(*o);
        let n = seen.borrow().len() as u32;
        if *o < best.map_or(u32::MAX, |b| b.0) { Some((*o, n)) } else { None }
    });
    assert_eq!(kept, Some((2, 1)));
    assert_eq!(seen.into_inner(), vec![2, 2, 5]);
}

#[test]
fn scene_hit_miss_everywhere() {
    let mut scene = HittableList::new(4u32);
    scene.add(9);
    assert_eq!(scene.hit(|_o: &u32, _best: Option<u32>| None), None);
}

#[test]
fn scene_hit_last_report_wins() {
    let mut scene = HittableList::new(1u32);
    scene.add(2);
    scene.add(3);
    assert_eq!(scene.hit(|o: &u32, _best: Option<u32>| Some(*o * 10)), Some(30));
}

#[test]
fn decimal_digits() {
    let mut out: Vec<u8> = Vec::new();
    push_decimal(&mut out, 0);
    assert_eq!(out, b"0".to_vec());
    let mut out: Vec<u8> = b"x".to_vec();
    push_decimal(&mut out, 4294967295);
    assert_eq!(out, b"x4294967295".to_vec());
    let mut out: Vec<u8> = Vec::new();
    push_decimal(&mut out, 100);
    assert_eq!(out, b"100".to_vec());
}

#[test]
fn header_format() {
    assert_eq!(header(400, 225), b"P3\n400 225\n255\n".to_vec());
    assert_eq!(header(0, 7), b"P3\n0 7\n255\n".to_vec());
}

#[test]
fn pixel_line_format() {
    assert_eq!(pixel_line(Rgb { r: 255, g: 0, b: 180 }), b"255 0 180\n".to_vec());
    assert_eq!(pixel_line(Rgb { r: 9, g: 10, b: 99 }), b"9 10 99\n".to_vec());
}

#[test]
fn encode_whole_image() {
    let pixels = vec![
        Rgb { r: 1, g: 2, b: 3 },
        Rgb { r: 255, g: 255, b: 255 },
        Rgb { r: 0, g: 0, b: 0 },
        Rgb { r: 12, g: 128, b: 200 },
    ];
    let bytes = encode(2, 2, &pixels);
    let text = String::from_utf8(bytes).unwrap();
    assert_eq!(text, "P3\n2 2\n255\n1 2 3\n255 255 255\n0 0 0\n12 128 200\n");
}

#[test]
fn encode_empty_image() {
    assert_eq!(encode(0, 5, &[]), b"P3\n0 5\n255\n".to_vec());
}

#[test]
fn scan_positions_count_down_from_the_top() {
    assert_eq!(scan_position(3, 2, 0), (0, 1));
    assert_eq!(scan_position(3, 2, 2), (2, 1));
    assert_eq!(scan_position(3, 2, 3), (0, 0));
    assert_eq!(scan_position(3, 2, 5), (2, 0));
}

#[test]
fn path_runs_out_of_bounces() {
    let p = Path::new(2);
    assert_eq!(p.step(), Step::Query);
    assert_eq!(p.bounces(), 0);
    let p = p.bounce();
    assert_eq!(p.step(), Step::Query);
    assert_eq!(p.depth(), 1);
    let p = p.bounce();
    assert_eq!(p.step(), Step::Absorbed);
    assert_eq!(p.depth(), 0);
    assert_eq!(p.bounces(), 2);
}

#[test]
fn path_without_budget_is_absorbed() {
    assert_eq!(Path::new(0).step(), Step::Absorbed);
    assert_eq!(Path::new(-3).step(), Step::Absorbed);
    assert_eq!(Path::new(50).step(), Step::Query);
}
