use snake_core::frog::spawn_frog;

#[test]
fn spawn_frog_takes_the_given_handle() {
    let f = spawn_frog(42);
    assert_eq!(f.handle, 42);
}

#[test]
fn spawned_frogs_sit_on_in_bounds_cells() {
    for i in 0..200u64 {
        let f = spawn_frog(i);
        assert!(-300 <= f.pos.x && f.pos.x <= 290, "x out of range: {}", f.pos.x);
        assert!(-300 <= f.pos.y && f.pos.y <= 290, "y out of range: {}", f.pos.y);
        assert_eq!(f.pos.x % 10, 0, "x off the cell grid: {}", f.pos.x);
        assert_eq!(f.pos.y % 10, 0, "y off the cell grid: {}", f.pos.y);
    }
}
