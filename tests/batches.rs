use hnt::batch::{assemble, take_ids, MAX_BATCH};
use hnt::item::{FetchError, Item};

fn comment(id: usize) -> Item {
    Item::Comment { by: None, id, parent: 1, text: None, time: 0, kids: None }
}

#[test]
fn assembles_in_id_order_whatever_the_completion_order() {
    let done = vec![(2, Ok(comment(30))), (0, Ok(comment(10))), (1, Ok(comment(20)))];
    assert_eq!(assemble(3, done), Ok(vec![comment(10), comment(20), comment(30)]));
}

#[test]
fn assembles_in_order_completions() {
    let done = vec![(0, Ok(comment(10))), (1, Ok(comment(20)))];
    assert_eq!(assemble(2, done), Ok(vec![comment(10), comment(20)]));
}

#[test]
fn empty_batch_is_empty() {
    assert_eq!(assemble(0, Vec::new()), Ok(Vec::new()));
}

#[test]
fn one_failure_fails_the_batch() {
    let done = vec![(1, Ok(comment(20))), (0, Err(FetchError::Transport)), (2, Ok(comment(30)))];
    assert_eq!(assemble(3, done), Err(FetchError::Transport));
}

#[test]
fn first_failure_to_complete_is_reported() {
    let done = vec![(2, Err(FetchError::Decode)), (0, Err(FetchError::Transport)), (1, Ok(comment(2)))];
    assert_eq!(assemble(3, done), Err(FetchError::Decode));
}

#[test]
fn missing_position_is_incomplete() {
    let done = vec![(0, Ok(comment(10))), (2, Ok(comment(30)))];
    assert_eq!(assemble(3, done), Err(FetchError::Incomplete));
}

#[test]
fn repeated_position_is_incomplete() {
    let done = vec![(0, Ok(comment(10))), (0, Ok(comment(11)))];
    assert_eq!(assemble(2, done), Err(FetchError::Incomplete));
}

#[test]
fn position_past_the_batch_is_incomplete() {
    let done = vec![(0, Ok(comment(10))), (5, Ok(comment(11)))];
    assert_eq!(assemble(2, done), Err(FetchError::Incomplete));
}

#[test]
fn takes_at_most_the_cap() {
    let ids: Vec<usize> = (0..250).collect();
    let taken = take_ids(ids, MAX_BATCH);
    assert_eq!(taken.len(), 100);
    assert_eq!(taken, (0..100).collect::<Vec<usize>>());
    assert_eq!(take_ids(vec![42, 7, 99, 5], 3), vec![42, 7, 99]);
    assert_eq!(take_ids(vec![42, 7], 3), vec![42, 7]);
}
