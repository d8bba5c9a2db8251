use epirust::geography::area::{area_factory, Area};
use epirust::geography::grid::define_geography;
use epirust::geography::point::Point;
use rand::rngs::StdRng;
use rand::SeedableRng;
use std::collections::HashSet;

fn get_area() -> Area {
    Area::new(Point { x: 0, y: 0 }, Point { x: 4, y: 4 })
}

fn assert_unique(data: &Vec<Point>) {
    let set: HashSet<Point> = data.iter().cloned().collect();
    assert_eq!(set.len(), data.len());
}

fn collect_area(area: &Area) -> Vec<Point> {
    let mut it = area.iter();
    let mut points = Vec::new();
    while let Some(p) = it.next() {
        points.push(p);
    }
    points
}

#[test]
fn add() {
    let point = Point::new(1, 1);
    let second_point = Point::new(1, 1);
    let output = point.add(second_point);
    assert_eq!(output, Point::new(2, 2));
}

#[test]
fn sub() {
    let point = Point::new(1, 1);
    let second_point = Point::new(1, 1);
    let output = point.sub(second_point);
    assert_eq!(output, Point::new(0, 0));
}

#[test]
fn sub_takes_each_coordinate_from_its_own() {
    let output = Point::new(5, 9).sub(Point::new(2, 4));
    assert_eq!(output, Point::new(3, 5));
}

#[test]
fn should_iterate_over_neighbor_cells() {
    let cell = Point::new(1, 1);
    let mut it = cell.neighbor_iterator();
    let mut neighbors: Vec<Point> = Vec::new();
    while let Some(p) = it.next() {
        neighbors.push(p);
    }
    assert_eq!(
        neighbors,
        vec![
            Point::new(0, 0),
            Point::new(1, 0),
            Point::new(2, 0),
            Point::new(0, 1),
            Point::new(2, 1),
            Point::new(0, 2),
            Point::new(1, 2),
            Point::new(2, 2),
        ]
    )
}

#[test]
fn generate_points() {
    let mut rng = StdRng::seed_from_u64(3);
    let area = get_area();
    let points = area.random_points(25, &mut rng);
    assert!(points.is_some());
    let points = points.unwrap();
    assert_eq!(points.len(), 25);
    assert_unique(&points);

    let points = area.random_points(5, &mut rng);
    assert!(points.is_some());
    let points = points.unwrap();
    assert_eq!(points.len(), 5);
    assert_unique(&points);
    let points = area.random_points(50, &mut rng);
    assert!(points.is_none());

    let area = Area::new(Point::new(0, 0), Point::new(0, 0));
    let points = area.random_points(1, &mut rng);
    assert!(points.is_some());
    let points = points.unwrap();
    assert_eq!(points.len(), 1);
    assert_unique(&points);

    let points = area.random_points(0, &mut rng);
    assert!(points.is_some());
    let points = points.unwrap();
    assert_eq!(points.len(), 0);
    assert_unique(&points);

    let area = Area::new(Point::new(0, 0), Point::new(1, 1));
    let points = area.random_points(4, &mut rng);
    assert!(points.is_some());
    let points = points.unwrap();
    assert_eq!(points.len(), 4);
    assert_unique(&points);
    for p in &points {
        assert!(area.contains(p));
    }

    let points = area.random_points(2, &mut rng);
    assert!(points.is_some());
    let points = points.unwrap();
    assert_eq!(points.len(), 2);
    assert_unique(&points);
}

#[test]
fn should_iterate_over_points_in_area() {
    let area = Area::new(Point { x: 0, y: 0 }, Point { x: 2, y: 2 });
    let x: Vec<Point> = collect_area(&area);
    assert_eq!(
        x,
        vec![
            Point::new(0, 0),
            Point::new(1, 0),
            Point::new(2, 0),
            Point::new(0, 1),
            Point::new(1, 1),
            Point::new(2, 1),
            Point::new(0, 2),
            Point::new(1, 2),
            Point::new(2, 2)
        ]
    );

    let area = Area::new(Point { x: 1, y: 1 }, Point { x: 2, y: 2 });
    let x: Vec<Point> = collect_area(&area);
    assert_eq!(
        x,
        vec![Point::new(1, 1), Point::new(2, 1), Point::new(1, 2), Point::new(2, 2)]
    )
}

#[test]
fn iterator_should_work_multiple_times() {
    let area = Area::new(Point { x: 0, y: 0 }, Point { x: 2, y: 2 });
    let x: Option<Point> = collect_area(&area).into_iter().find(|p| *p == Point::new(1, 1));
    assert!(x.is_some());

    let x: Option<Point> = collect_area(&area).into_iter().find(|p| *p == Point::new(1, 1));
    assert!(x.is_some());
}

#[test]
fn exhausted_area_iterator_stays_exhausted() {
    let area = Area::new(Point::new(0, 0), Point::new(0, 0));
    let mut it = area.iter();
    assert_eq!(it.next(), Some(Point::new(0, 0)));
    assert_eq!(it.next(), None);
    assert_eq!(it.next(), None);
}

#[test]
fn should_create_areas() {
    let buildings = area_factory(Point::new(10, 0), Point::new(21, 10), 3);

    assert_eq!(buildings.len(), 12);
    assert_eq!(buildings.get(0).unwrap().start_offset, Point::new(10, 0));
    assert_eq!(buildings.get(0).unwrap().end_offset, Point::new(12, 2));

    assert!(buildings.get(0).unwrap().contains(&Point::new(12, 0)));
    assert!(!buildings.get(1).unwrap().contains(&Point::new(12, 0)));
    assert!(buildings.get(1).unwrap().contains(&Point::new(13, 0)));

    assert!(buildings.get(0).unwrap().contains(&Point::new(12, 1)));
    assert!(!buildings.get(1).unwrap().contains(&Point::new(12, 1)));
    assert!(buildings.get(1).unwrap().contains(&Point::new(13, 1)));

    assert!(buildings.get(0).unwrap().contains(&Point::new(12, 2)));
    assert!(!buildings.get(1).unwrap().contains(&Point::new(12, 2)));
    assert!(buildings.get(1).unwrap().contains(&Point::new(13, 2)));

    assert_eq!(buildings.get(5).unwrap().start_offset, Point::new(13, 3));
    assert_eq!(buildings.get(5).unwrap().end_offset, Point::new(15, 5));

    assert_eq!(buildings.last().unwrap().start_offset, Point::new(19, 6));
    assert_eq!(buildings.last().unwrap().end_offset, Point::new(21, 8));
}

#[test]
fn should_get_neighbor_of() {
    let area = get_area();
    let neighbors: Vec<Point> = area.get_neighbors_of(Point::new(4, 5));
    assert_eq!(neighbors.len(), 2);
    assert_eq!(neighbors.contains(&Point::new(4, 4)), true);
    assert_eq!(neighbors.contains(&Point::new(4, 6)), false);
}

#[test]
fn neighbors_in_the_middle_of_an_area_are_all_eight() {
    let area = get_area();
    let neighbors = area.get_neighbors_of(Point::new(2, 2));
    assert_eq!(neighbors.len(), 8);
    assert!(!neighbors.contains(&Point::new(2, 2)));
}

#[test]
fn should_return_true_if_area_has_point() {
    let area = get_area();
    let is_inside_area = area.contains(&Point::new(2, 3));
    assert_eq!(is_inside_area, true);
}

#[test]
fn should_return_false_if_area_does_not_contain_point() {
    let area = get_area();
    let is_inside_area = area.contains(&Point::new(20, 3));
    assert_eq!(is_inside_area, false);
}

#[test]
fn should_get_random_point() {
    let area = get_area();
    let mut rng = StdRng::seed_from_u64(11);
    for _ in 0..50 {
        let random_point = area.get_random_point(&mut rng);
        assert_eq!(area.contains(&random_point), true);
    }
}

#[test]
fn should_get_number_of_cells() {
    let area = get_area();
    assert_eq!(area.get_number_of_cells(), 25);
    let area = Area::new(Point::new(0, 0), Point::new(0, 0));
    assert_eq!(area.get_number_of_cells(), 1);
    let area = Area::new(Point::new(0, 0), Point::new(1, 1));
    assert_eq!(area.get_number_of_cells(), 4);
}

#[test]
fn number_of_cells_uses_the_spread_of_the_corners() {
    let area = Area::new(Point::new(3, 4), Point::new(0, 0));
    assert_eq!(area.get_number_of_cells(), 20);
}

#[test]
fn should_define_geography() {
    let grid = define_geography(10);
    assert_eq!(grid.housing_area.start_offset, Point::new(0, 0));
    assert_eq!(grid.housing_area.end_offset, Point::new(3, 10));
    assert_eq!(grid.transport_area.start_offset, Point::new(4, 0));
    assert_eq!(grid.transport_area.end_offset, Point::new(4, 10));
    assert_eq!(grid.work_area.start_offset, Point::new(5, 0));
    assert_eq!(grid.work_area.end_offset, Point::new(6, 10));
    assert_eq!(grid.hospital_area.start_offset, Point::new(7, 0));
    assert_eq!(grid.hospital_area.end_offset, Point::new(7, 10));
}

#[test]
fn should_increase_hospital_size() {
    let mut grid = define_geography(100);
    grid.increase_hospital_size(120);
    assert_eq!(grid.hospital_area.start_offset, Point::new(70, 0));
    assert_eq!(grid.hospital_area.end_offset, Point::new(120, 120));
}

#[test]
fn should_resize_hospital() {
    let mut grid = define_geography(100);
    grid.resize_hospital(1000, 20_000, 10_000);
    assert_eq!(grid.hospital_area.start_offset, Point::new(70, 0));
    assert_eq!(grid.hospital_area.end_offset, Point::new(79, 3));
}

#[test]
fn should_not_resize_hospital_if_population_is_too_high() {
    let mut grid = define_geography(100);
    grid.resize_hospital(50000, 20_000, 10_000);
    assert_eq!(grid.hospital_area.start_offset, Point::new(70, 0));
    assert_eq!(grid.hospital_area.end_offset, Point::new(79, 100));
}
