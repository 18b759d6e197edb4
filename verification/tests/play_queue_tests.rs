use music_controller::play_queue::PlayQueue;

fn queue_of(paths: &[&str]) -> PlayQueue {
    let mut queue = PlayQueue::new();
    assert!(queue.replace(paths.iter().map(|p| p.to_string()).collect()));
    queue
}

#[test]
fn a_new_queue_is_empty_with_nothing_selected() {
    let queue = PlayQueue::new();
    assert_eq!(queue.len(), 0);
    assert_eq!(queue.position(), -1);
    assert!(queue.files().is_empty());
}

#[test]
fn replacing_the_queue_resets_the_position() {
    let mut queue = queue_of(&["a", "b", "c"]);
    assert_eq!(queue.advance(false, false, 0), Some("a".to_string()));
    assert_eq!(queue.advance(false, false, 0), Some("b".to_string()));
    assert_eq!(queue.position(), 1);
    assert!(queue.replace(vec!["x".to_string()]));
    assert_eq!(queue.position(), -1);
    assert_eq!(queue.len(), 1);
    assert_eq!(queue.files(), &vec!["x".to_string()]);
    assert_eq!(queue.advance(false, false, 0), Some("x".to_string()));
    assert_eq!(queue.position(), 0);
}

#[test]
fn sequential_play_stops_at_the_last_track() {
    let mut queue = queue_of(&["A", "B"]);
    assert_eq!(queue.advance(false, false, 0), Some("A".to_string()));
    assert_eq!(queue.position(), 0);
    assert_eq!(queue.advance(false, false, 0), Some("B".to_string()));
    assert_eq!(queue.position(), 1);
    assert_eq!(queue.advance(false, false, 0), None);
    assert_eq!(queue.position(), 1);
    assert_eq!(queue.advance(false, false, 0), None);
    assert_eq!(queue.position(), 1);
}

#[test]
fn repeat_wraps_to_the_first_track() {
    let mut queue = queue_of(&["A", "B"]);
    assert_eq!(queue.advance(false, true, 0), Some("A".to_string()));
    assert_eq!(queue.advance(false, true, 0), Some("B".to_string()));
    assert_eq!(queue.advance(false, true, 0), Some("A".to_string()));
    assert_eq!(queue.position(), 0);
    assert_eq!(queue.advance(false, true, 0), Some("B".to_string()));
    assert_eq!(queue.position(), 1);
}

#[test]
fn repeat_of_a_single_track_plays_it_again() {
    let mut queue = queue_of(&["only"]);
    assert_eq!(queue.advance(false, true, 0), Some("only".to_string()));
    assert_eq!(queue.advance(false, true, 0), Some("only".to_string()));
    assert_eq!(queue.position(), 0);
}

#[test]
fn the_draw_is_ignored_in_sequential_mode() {
    let mut queue = queue_of(&["A", "B", "C"]);
    assert_eq!(queue.advance(false, false, 2), Some("A".to_string()));
    assert_eq!(queue.advance(false, false, 99), Some("B".to_string()));
    assert_eq!(queue.position(), 1);
}

#[test]
fn random_mode_takes_the_draw_as_the_position() {
    let mut queue = queue_of(&["A", "B", "C"]);
    assert_eq!(queue.advance(true, false, 2), Some("C".to_string()));
    assert_eq!(queue.position(), 2);
    assert_eq!(queue.advance(true, false, 0), Some("A".to_string()));
    assert_eq!(queue.position(), 0);
}

#[test]
fn random_mode_may_select_the_same_track_twice_in_a_row() {
    let mut queue = queue_of(&["A", "B", "C"]);
    assert_eq!(queue.advance(true, false, 1), Some("B".to_string()));
    assert_eq!(queue.advance(true, false, 1), Some("B".to_string()));
    assert_eq!(queue.position(), 1);
}

#[test]
fn random_mode_never_runs_out_even_without_repeat() {
    let mut queue = queue_of(&["A", "B"]);
    assert_eq!(queue.advance(true, false, 1), Some("B".to_string()));
    assert_eq!(queue.advance(true, false, 1), Some("B".to_string()));
    assert_eq!(queue.advance(true, false, 0), Some("A".to_string()));
}

#[test]
fn an_empty_queue_selects_nothing_in_any_mode() {
    let mut queue = PlayQueue::new();
    assert_eq!(queue.advance(false, false, 0), None);
    assert_eq!(queue.advance(false, true, 0), None);
    assert_eq!(queue.advance(true, false, 0), None);
    assert_eq!(queue.advance(true, true, 5), None);
    assert_eq!(queue.position(), -1);
}

#[test]
fn the_position_is_the_sentinel_or_inside_the_queue() {
    let mut queue = queue_of(&["A", "B", "C"]);
    assert_eq!(queue.position(), -1);
    let steps = [(false, false, 0usize), (true, false, 2), (false, false, 0), (false, true, 0), (true, true, 1), (false, false, 1)];
    for (random, repeat, roll) in steps {
        queue.advance(random, repeat, roll);
        let position = queue.position();
        assert!(0 <= position && (position as usize) < queue.len());
    }
}

#[test]
fn switching_from_random_to_sequential_goes_on_from_the_drawn_track() {
    let mut queue = queue_of(&["A", "B", "C", "D"]);
    assert_eq!(queue.advance(true, false, 1), Some("B".to_string()));
    assert_eq!(queue.advance(false, false, 0), Some("C".to_string()));
    assert_eq!(queue.advance(false, false, 0), Some("D".to_string()));
    assert_eq!(queue.advance(false, false, 0), None);
    assert_eq!(queue.position(), 3);
}
