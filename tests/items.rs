use hnt::item::{FetchError, Item, RawItem};

fn raw(kind: Option<&str>) -> RawItem {
    RawItem {
        kind: kind.map(|k| k.to_string()),
        by: Some("pg".to_string()),
        dead: None,
        descendants: Some(5),
        id: Some(8863),
        kids: Some(vec![8952, 9224]),
        parent: Some(8000),
        score: Some(111),
        text: Some("hello".to_string()),
        time: Some(1175714200),
        title: Some("My YC app".to_string()),
        url: None,
    }
}

#[test]
fn decodes_story() {
    let item = raw(Some("story")).decode().unwrap();
    assert_eq!(
        item,
        Item::Story {
            by: Some("pg".to_string()),
            dead: None,
            descendants: Some(5),
            id: 8863,
            kids: Some(vec![8952, 9224]),
            score: 111,
            text: Some("hello".to_string()),
            time: 1175714200,
            title: Some("My YC app".to_string()),
            url: None,
        }
    );
}

#[test]
fn decodes_comment() {
    let item = raw(Some("comment")).decode().unwrap();
    assert_eq!(
        item,
        Item::Comment {
            by: Some("pg".to_string()),
            id: 8863,
            parent: 8000,
            text: Some("hello".to_string()),
            time: 1175714200,
            kids: Some(vec![8952, 9224]),
        }
    );
}

#[test]
fn unknown_kind_decodes_to_unsupported() {
    assert_eq!(raw(Some("poll")).decode(), Ok(Item::Unsupported));
    assert_eq!(raw(Some("job")).decode(), Ok(Item::Unsupported));
}

#[test]
fn missing_kind_is_a_decode_error() {
    assert_eq!(raw(None).decode(), Err(FetchError::Decode));
}

#[test]
fn story_without_score_is_a_decode_error() {
    let mut r = raw(Some("story"));
    r.score = None;
    assert_eq!(r.decode(), Err(FetchError::Decode));
}

#[test]
fn comment_without_parent_is_a_decode_error() {
    let mut r = raw(Some("comment"));
    r.parent = None;
    assert_eq!(r.decode(), Err(FetchError::Decode));
}

#[test]
fn kids_lists_children_or_nothing() {
    let story = raw(Some("story")).decode().unwrap();
    assert_eq!(story.kids(), vec![8952, 9224]);
    let mut r = raw(Some("comment"));
    r.kids = None;
    assert_eq!(r.decode().unwrap().kids(), Vec::<usize>::new());
    assert_eq!(Item::Unsupported.kids(), Vec::<usize>::new());
}

#[test]
fn clone_keeps_every_field() {
    let story = raw(Some("story")).decode().unwrap();
    assert_eq!(story.clone(), story);
    let comment = raw(Some("comment")).decode().unwrap();
    assert_eq!(comment.clone(), comment);
}
