use epirust::allocation_map::AgentLocationMap;
use epirust::geography::area::Area;
use epirust::geography::point::Point;

fn grid() -> AgentLocationMap {
    let mut map = AgentLocationMap::new(Area::new(Point::new(0, 0), Point::new(4, 4)));
    map.place_agent(Point::new(1, 1), 0);
    map.place_agent(Point::new(2, 2), 1);
    map
}

#[test]
fn move_to_an_occupied_cell_stays_put() {
    let mut map = grid();
    let result = map.move_agent(Point::new(1, 1), Point::new(2, 2));
    assert_eq!(result, Point::new(1, 1));
    assert_eq!(map.get_agent_for(&Point::new(1, 1)), Some(0));
    assert_eq!(map.get_agent_for(&Point::new(2, 2)), Some(1));
}

#[test]
fn move_outside_the_grid_stays_put() {
    let mut map = grid();
    let result = map.move_agent(Point::new(1, 1), Point::new(5, 1));
    assert_eq!(result, Point::new(1, 1));
    assert_eq!(map.get_agent_for(&Point::new(1, 1)), Some(0));
}

#[test]
fn move_to_a_vacant_cell_moves_the_agent() {
    let mut map = grid();
    let result = map.move_agent(Point::new(1, 1), Point::new(0, 1));
    assert_eq!(result, Point::new(0, 1));
    assert_eq!(map.get_agent_for(&Point::new(1, 1)), None);
    assert_eq!(map.get_agent_for(&Point::new(0, 1)), Some(0));
    assert!(map.is_cell_vacant(&Point::new(1, 1)));
}

#[test]
fn vacancy_answer_does_not_change_between_queries() {
    let map = grid();
    for p in [Point::new(1, 1), Point::new(3, 3), Point::new(9, 9)] {
        let first = map.is_cell_vacant(&p);
        let second = map.is_cell_vacant(&p);
        assert_eq!(first, second);
    }
    assert!(!map.is_cell_vacant(&Point::new(2, 2)));
    assert!(map.is_cell_vacant(&Point::new(9, 9)));
}

#[test]
fn resolve_move_judges_on_the_snapshot() {
    let map = grid();
    assert_eq!(map.resolve_move(Point::new(1, 1), Point::new(2, 2)), Point::new(1, 1));
    assert_eq!(map.resolve_move(Point::new(1, 1), Point::new(3, 2)), Point::new(3, 2));
    assert_eq!(map.resolve_move(Point::new(1, 1), Point::new(-1, 2)), Point::new(1, 1));
}

#[test]
fn hospital_takes_the_first_vacant_cell() {
    let map = grid();
    let hospital = Area::new(Point::new(1, 1), Point::new(2, 2));
    assert_eq!(map.goto_hospital(&hospital, Point::new(4, 4)), (true, Point::new(2, 1)));
    let full = Area::new(Point::new(1, 1), Point::new(1, 1));
    assert_eq!(map.goto_hospital(&full, Point::new(4, 4)), (false, Point::new(4, 4)));
}

#[test]
fn cells_are_walked_in_row_major_order() {
    let map = grid();
    assert_eq!(map.number_of_cells(), 25);
    assert_eq!(map.cell_at(0), Point::new(0, 0));
    assert_eq!(map.cell_at(7), Point::new(2, 1));
    assert_eq!(map.cell_at(24), Point::new(4, 4));
}
