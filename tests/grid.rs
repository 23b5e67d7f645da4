use bilinear::{Bracket, Cell, Grid, Ratio};

fn node(i: i64) -> Option<Ratio> {
    Some(Ratio { floor: i, exact: true })
}

fn past(i: i64) -> Option<Ratio> {
    Some(Ratio { floor: i, exact: false })
}

fn sample(nx: usize, ny: usize) -> Grid<f64> {
    let mut g = Grid::new(nx, ny, 0.0);
    for ix in 0..nx {
        for iy in 0..ny {
            g.insert(ix, iy, (10 * ix + iy) as f64);
        }
    }
    g
}

#[test]
fn new_grid_holds_the_fill_value() {
    let g: Grid<f64> = Grid::new(4, 3, 0.0);
    assert_eq!(g.dimensions(), (4, 3));
    for ix in 0..4 {
        for iy in 0..3 {
            assert_eq!(g.get(ix, iy), 0.0);
        }
    }
}

#[test]
fn insert_then_get_returns_the_value() {
    let mut g = Grid::new(4, 3, 0.0);
    g.insert(3, 2, 1.25);
    g.insert(0, 1, -2.5);
    assert_eq!(g.get(3, 2), 1.25);
    assert_eq!(g.get(0, 1), -2.5);
    assert_eq!(g.get(2, 1), 0.0);
    assert_eq!(g.dimensions(), (4, 3));
}

#[test]
fn last_write_wins() {
    let mut g = Grid::new(2, 2, 0.0);
    g.insert(1, 0, 3.0);
    g.insert(1, 0, 4.0);
    assert_eq!(g.get(1, 0), 4.0);
}

#[test]
fn nodes_do_not_alias() {
    let g = sample(5, 3);
    for ix in 0..5 {
        for iy in 0..3 {
            assert_eq!(g.get(ix, iy), (10 * ix + iy) as f64);
        }
    }
}

#[test]
fn cell_between_nodes_has_four_corners() {
    let g = sample(5, 3);
    let c = g.cell(past(1), past(0)).unwrap();
    assert_eq!(
        c,
        Cell {
            x: Bracket { lo: 1, hi: 2 },
            y: Bracket { lo: 0, hi: 1 },
            f11: 10.0,
            f12: 11.0,
            f21: 20.0,
            f22: 21.0,
        }
    );
}

#[test]
fn cell_at_inserted_node_is_that_node() {
    let g = sample(5, 3);
    for ix in 0..5 {
        for iy in 0..3 {
            let v = (10 * ix + iy) as f64;
            let c = g.cell(node(ix as i64), node(iy as i64)).unwrap();
            assert_eq!(c.x, Bracket { lo: ix, hi: ix });
            assert_eq!(c.y, Bracket { lo: iy, hi: iy });
            assert_eq!((c.f11, c.f12, c.f21, c.f22), (v, v, v, v));
        }
    }
}

#[test]
fn cell_on_an_edge_line() {
    let g = sample(5, 3);
    let c = g.cell(node(2), past(1)).unwrap();
    assert_eq!(c.x, Bracket { lo: 2, hi: 2 });
    assert_eq!(c.y, Bracket { lo: 1, hi: 2 });
    assert_eq!((c.f11, c.f12, c.f21, c.f22), (21.0, 22.0, 21.0, 22.0));
}

#[test]
fn cell_at_last_node_on_each_axis_is_defined() {
    let g = sample(5, 3);
    let c = g.cell(node(4), node(2)).unwrap();
    assert_eq!((c.f11, c.f22), (42.0, 42.0));
    assert!(g.cell(node(4), past(0)).is_some());
    assert!(g.cell(past(0), node(2)).is_some());
}

#[test]
fn cell_one_step_beyond_last_node_is_none() {
    let g = sample(5, 3);
    assert_eq!(g.cell(node(5), node(0)), None);
    assert_eq!(g.cell(node(0), node(3)), None);
    assert_eq!(g.cell(past(4), node(0)), None);
    assert_eq!(g.cell(node(0), past(2)), None);
}

#[test]
fn cell_below_origin_is_none() {
    let g = sample(5, 3);
    assert_eq!(g.cell(past(-1), node(1)), None);
    assert_eq!(g.cell(node(1), past(-1)), None);
}

#[test]
fn cell_of_undefined_position_is_none() {
    let g = sample(5, 3);
    assert_eq!(g.cell(None, node(1)), None);
    assert_eq!(g.cell(node(1), None), None);
    assert_eq!(g.cell(None, None), None);
}

#[test]
fn cell_of_linear_ramp_along_x() {
    let mut g = Grid::new(2, 2, 0.0);
    g.insert(1, 0, 1.0);
    g.insert(1, 1, 1.0);
    let c = g.cell(past(0), past(0)).unwrap();
    assert_eq!((c.f11, c.f12, c.f21, c.f22), (0.0, 0.0, 1.0, 1.0));
}
