use hnt::item::Item;
use hnt::render::{meta_line, push_digits, render, DateTime, Line};

fn texts(lines: &[Line]) -> Vec<(String, bool)> {
    lines.iter().map(|l| (l.text.clone(), l.bold)).collect()
}

#[test]
fn story_without_title_at_epoch() {
    let item = Item::Story {
        by: None,
        dead: None,
        descendants: None,
        id: 1,
        kids: None,
        score: 0,
        text: None,
        time: 0,
        title: None,
        url: None,
    };
    assert_eq!(
        texts(&render(&item)),
        vec![
            ("".to_string(), true),
            ("    -- @ 1970.1.1 0:0:0 0 comments".to_string(), false),
            ("".to_string(), false),
        ]
    );
}

#[test]
fn story_with_fields() {
    let item = Item::Story {
        by: Some("dhouston".to_string()),
        dead: None,
        descendants: Some(71),
        id: 8863,
        kids: Some(vec![8952]),
        score: 104,
        text: None,
        time: 1175714200,
        title: Some("My YC app: Dropbox".to_string()),
        url: None,
    };
    assert_eq!(
        texts(&render(&item)),
        vec![
            ("My YC app: Dropbox".to_string(), true),
            ("    --dhouston @ 2007.4.4 19:16:40 71 comments".to_string(), false),
            ("".to_string(), false),
        ]
    );
}

#[test]
fn comment_is_wrapped_and_counts_replies() {
    let word = "abcdefghi ";
    let body: String = word.repeat(15);
    let item = Item::Comment {
        by: Some("norvig".to_string()),
        id: 2,
        parent: 1,
        text: Some(body),
        time: 1546300800,
        kids: Some(vec![3, 4, 5]),
    };
    let lines = texts(&render(&item));
    assert_eq!(lines.len(), 4);
    assert!(lines[0].0.len() <= 100 && lines[1].0.len() <= 100);
    assert_eq!(lines[0].0.clone() + " " + &lines[1].0, word.repeat(15).trim_end());
    assert_eq!(lines[2], ("    --norvig @ 2019.1.1 0:0:0 3 comments".to_string(), false));
    assert_eq!(lines[3], (" ".to_string(), false));
}

#[test]
fn comment_without_text_has_one_empty_body_line() {
    let item = Item::Comment { by: None, id: 2, parent: 1, text: None, time: 60, kids: None };
    assert_eq!(
        texts(&render(&item)),
        vec![
            ("".to_string(), false),
            ("    -- @ 1970.1.1 0:1:0 0 comments".to_string(), false),
            (" ".to_string(), false),
        ]
    );
}

#[test]
fn short_comment_at_epoch() {
    let item = Item::Comment {
        by: Some("ann".to_string()),
        id: 2,
        parent: 1,
        text: Some("hi".to_string()),
        time: 0,
        kids: Some(vec![3, 4, 5]),
    };
    assert_eq!(
        texts(&render(&item)),
        vec![
            ("hi".to_string(), false),
            ("    --ann @ 1970.1.1 0:0:0 3 comments".to_string(), false),
            (" ".to_string(), false),
        ]
    );
}

#[test]
fn unsupported_has_a_placeholder() {
    assert_eq!(
        texts(&render(&Item::Unsupported)),
        vec![("Unsupported item type".to_string(), false)]
    );
}

#[test]
fn timestamp_past_year_9999_shows_a_mark() {
    let item = Item::Comment { by: None, id: 2, parent: 1, text: None, time: 253402300800, kids: None };
    assert_eq!(texts(&render(&item))[1].0, "    -- @ ? 0 comments");
}

#[test]
fn last_second_of_9999() {
    let item = Item::Comment { by: None, id: 2, parent: 1, text: None, time: 253402300799, kids: None };
    assert_eq!(texts(&render(&item))[1].0, "    -- @ 9999.12.31 23:59:59 0 comments");
}

#[test]
fn digits_are_written_in_decimal() {
    let mut s = "n=".to_string();
    push_digits(&mut s, 0);
    assert_eq!(s, "n=0");
    push_digits(&mut s, 18446744073709551615);
    assert_eq!(s, "n=018446744073709551615");
}

#[test]
fn meta_line_with_negative_year() {
    let d = DateTime { year: -44, month: 3, day: 15, hour: 12, minute: 5, second: 9 };
    assert_eq!(meta_line(&Some("caesar".to_string()), Some(d), 23), "    --caesar @ -44.3.15 12:5:9 23 comments");
    assert_eq!(meta_line(&None, None, 0), "    -- @ ? 0 comments");
}
