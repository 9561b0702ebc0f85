use game_of_life::engine::{Engine, BORDER_WIDTH};

fn alive_count(e: &Engine) -> usize {
    let mut count = 0;
    let side = e.grid.n + 2;
    for x in 0..side {
        for y in 0..side {
            if e.grid.get(x, y) {
                count += 1;
            }
        }
    }
    count
}

#[test]
fn new_engine_is_paused_over_a_dead_grid() {
    let e = Engine::new(16, 7);
    assert_eq!(e.grid.n, 16);
    assert_eq!(alive_count(&e), 0);
    assert!(!e.scheduler.is_playing);
    assert_eq!(e.scheduler.interval_ms, 500);
    assert_eq!(e.scheduler.last_step_ms, 7);
}

#[test]
fn click_toggles_the_border_inset_cell() {
    let mut e = Engine::new(16, 0);
    assert_eq!(BORDER_WIDTH, 1);
    // Pixel (0, 0) maps to playable index (0, 0), which is matrix (1, 1).
    e.on_pointer_click(0, 0, 20);
    assert!(e.grid.get(1, 1));
    assert!(!e.grid.get(0, 0));
    assert_eq!(alive_count(&e), 1);
    // Any pixel of the same cell toggles the same matrix cell back.
    e.on_pointer_click(19, 19, 20);
    assert_eq!(alive_count(&e), 0);
}

#[test]
fn click_outside_the_playable_region_is_ignored() {
    let mut e = Engine::new(16, 0);
    e.on_pointer_click(320, 5, 20);
    e.on_pointer_click(5, 320, 20);
    e.on_pointer_click(9_999, 9_999, 20);
    assert_eq!(alive_count(&e), 0);
}

#[test]
fn advance_fires_only_while_playing_and_when_due() {
    let mut e = Engine::new(8, 0);
    // A block in the interior: a still life, but the step resets the timer.
    e.on_pointer_click(0, 0, 20);
    e.on_pointer_click(0, 20, 20);
    e.on_pointer_click(20, 0, 20);
    e.on_pointer_click(20, 20, 20);
    assert_eq!(alive_count(&e), 4);

    // Paused: nothing fires, however much time passes.
    assert!(!e.advance(300));
    assert_eq!(e.scheduler.last_step_ms, 0);

    e.on_play();
    assert!(!e.advance(499)); // not yet a full interval since the last step
    assert!(e.advance(500));
    assert_eq!(e.scheduler.last_step_ms, 500);
    assert_eq!(alive_count(&e), 4);
    assert!(!e.advance(999));
    assert!(e.advance(1_000));
    assert_eq!(e.scheduler.last_step_ms, 1_000);
}

#[test]
fn advance_steps_the_generation_when_it_fires() {
    let mut e = Engine::new(4, 0);
    // A lone cell at matrix (2, 2).
    e.on_pointer_click(25, 25, 20);
    assert!(e.grid.get(2, 2));
    e.on_play();
    assert!(e.advance(600));
    // The lone cell dies in the fired step.
    assert_eq!(alive_count(&e), 0);
}

#[test]
fn clear_empties_the_grid_and_pauses() {
    let mut e = Engine::new(6, 0);
    e.on_pointer_click(0, 0, 20);
    e.on_pointer_click(40, 40, 20);
    e.on_play();
    e.on_clear();
    assert_eq!(alive_count(&e), 0);
    assert_eq!(e.grid.n, 6);
    assert!(!e.scheduler.is_playing);
    // Cleared and paused: time alone can no longer change the grid.
    assert!(!e.advance(1_000_000));
}

#[test]
fn play_pause_and_interval_controls_compose() {
    let mut e = Engine::new(4, 0);
    e.set_interval_ms(9_999);
    assert_eq!(e.scheduler.interval_ms, 2_000);
    e.on_play();
    assert!(e.scheduler.is_playing);
    assert!(!e.advance(1_999));
    e.set_interval_ms(0);
    assert_eq!(e.scheduler.interval_ms, 100);
    assert!(e.advance(1_999));
    e.on_pause();
    assert!(!e.scheduler.is_playing);
}
