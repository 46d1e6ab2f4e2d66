use vstd::prelude::*;
use vstd::string::StringExecFns;
use crate::item::Item;

verus! {

/// The column at which comment bodies are wrapped.
pub const WRAP_WIDTH: usize = 100;

/// The last second of the year 9999, the latest moment that is always given
/// a calendar date.
pub const LAST_DATED_SECOND: u64 = 253402300799;

/// The calendar date `(year, month, day)` in UTC of a Unix timestamp.
pub uninterp spec fn utc_date_of(ts: int) -> (int, int, int);

/// The lines that a text is wrapped into at a given width.
pub uninterp spec fn wrapped_of(text: Seq<char>, width: int) -> Seq<Seq<char>>;

/// A moment in UTC, by its calendar and clock fields.
#[derive(Clone, Copy, Debug, PartialEq, Eq, Structural)]
pub struct DateTime {
    pub year: i32,
    pub month: u8,
    pub day: u8,
    pub hour: u8,
    pub minute: u8,
    pub second: u8,
}

/// The moment of a Unix timestamp, where it has one.
pub open spec fn datetime_of(ts: int) -> DateTime {
    DateTime {
        year: utc_date_of(ts).0 as i32,
        month: utc_date_of(ts).1 as u8,
        day: utc_date_of(ts).2 as u8,
        hour: ((ts % 86400) / 3600) as u8,
        minute: ((ts % 3600) / 60) as u8,
        second: (ts % 60) as u8,
    }
}

/// Relies on time::OffsetDateTime::from_unix_timestamp: it succeeds for
/// every moment of the years up to 9999, maps 0 to the epoch, and takes the
/// clock fields from the seconds within the day.
#[verifier::external_body]
fn utc_datetime(ts: i64) -> (r: Option<DateTime>)
    ensures
        0 <= ts <= LAST_DATED_SECOND ==> r is Some,
        r is Some ==> (r.unwrap().year as int, r.unwrap().month as int, r.unwrap().day as int)
            == utc_date_of(ts as int),
        r is Some ==> r.unwrap().hour == (ts as int % 86400) / 3600 && r.unwrap().minute == (
        ts as int % 3600) / 60 && r.unwrap().second == ts as int % 60,
        ts == 0 ==> r == Some(
            (DateTime { year: 1970, month: 1, day: 1, hour: 0, minute: 0, second: 0 }),
        ),
{
    match time::OffsetDateTime::from_unix_timestamp(ts) {
        Ok(d) => Some(
            DateTime {
                year: d.year(),
                month: d.month() as u8,
                day: d.day(),
                hour: d.hour(),
                minute: d.minute(),
                second: d.second(),
            },
        ),
        Err(_) => None,
    }
}

/// Relies on textwrap::wrap: the text broken into lines of at most `width`
/// columns where words allow; an empty text gives one empty line.
#[verifier::external_body]
fn wrap_text(text: &str, width: usize) -> (r: Vec<String>)
    requires
        width > 0,
    ensures
        strings_view(r@) == wrapped_of(text@, width as int),
        text@.len() == 0 ==> r@.len() == 1 && r@[0]@.len() == 0,
{
    textwrap::wrap(text, width).into_iter().map(|l| l.into_owned()).collect()
}

/// The characters of each string.
pub open spec fn strings_view(s: Seq<String>) -> Seq<Seq<char>> {
    s.map_values(|l: String| l@)
}

/// One line of rendered text.
#[derive(Debug)]
pub struct Line {
    pub text: String,
    pub bold: bool,
}

/// The text and weight of each line.
pub open spec fn lines_view(s: Seq<Line>) -> Seq<(Seq<char>, bool)> {
    s.map_values(|l: Line| (l.text@, l.bold))
}

pub open spec fn digit_char(d: nat) -> char {
    if d == 0 {
        '0'
    } else if d == 1 {
        '1'
    } else if d == 2 {
        '2'
    } else if d == 3 {
        '3'
    } else if d == 4 {
        '4'
    } else if d == 5 {
        '5'
    } else if d == 6 {
        '6'
    } else if d == 7 {
        '7'
    } else if d == 8 {
        '8'
    } else {
        '9'
    }
}

/// The decimal digits of `n`, without leading zeros.
pub open spec fn digits(n: nat) -> Seq<char>
    decreases n,
{
    if n < 10 {
        seq![digit_char(n)]
    } else {
        digits(n / 10) + seq![digit_char(n % 10)]
    }
}

/// The decimal form of `i`, with a minus sign when negative.
pub open spec fn int_text(i: int) -> Seq<char> {
    if i < 0 {
        seq!['-'] + digits((-i) as nat)
    } else {
        digits(i as nat)
    }
}

/// `y.m.d h:m:s`, each field in decimal without padding.
pub open spec fn date_text(d: DateTime) -> Seq<char> {
    int_text(d.year as int) + seq!['.'] + digits(d.month as nat) + seq!['.'] + digits(d.day as nat)
        + seq![' '] + digits(d.hour as nat) + seq![':'] + digits(d.minute as nat) + seq![':']
        + digits(d.second as nat)
}

/// The date text of a timestamp; `?` past the last dated second.
pub open spec fn stamp_text(ts: usize) -> Seq<char> {
    if ts as int <= LAST_DATED_SECOND as int {
        date_text(datetime_of(ts as int))
    } else {
        seq!['?']
    }
}

pub open spec fn text_or_empty(s: Option<String>) -> Seq<char> {
    match s {
        Some(v) => v@,
        None => Seq::empty(),
    }
}

/// The metadata line under an item: author, date and reply count.
pub open spec fn meta_text(by: Seq<char>, date: Seq<char>, count: nat) -> Seq<char> {
    seq![' ', ' ', ' ', ' ', '-', '-'] + by + seq![' ', '@', ' '] + date + seq![' '] + digits(count)
        + " comments"@
}

fn digit_str(d: u64) -> (r: &'static str)
    requires
        d < 10,
    ensures
        r@ == seq![digit_char(d as nat)],
{
    proof {
        reveal_strlit("0");
        reveal_strlit("1");
        reveal_strlit("2");
        reveal_strlit("3");
        reveal_strlit("4");
        reveal_strlit("5");
        reveal_strlit("6");
        reveal_strlit("7");
        reveal_strlit("8");
        reveal_strlit("9");
    }
    if d == 0 {
        "0"
    } else if d == 1 {
        "1"
    } else if d == 2 {
        "2"
    } else if d == 3 {
        "3"
    } else if d == 4 {
        "4"
    } else if d == 5 {
        "5"
    } else if d == 6 {
        "6"
    } else if d == 7 {
        "7"
    } else if d == 8 {
        "8"
    } else {
        "9"
    }
}

/// Appends the decimal digits of `n`.
pub fn push_digits(s: &mut String, n: u64)
    ensures
        final(s)@ == old(s)@ + digits(n as nat),
    decreases n,
{
    if n >= 10 {
        push_digits(s, n / 10);
        s.append(digit_str(n % 10));
        assert(digits(n as nat) == digits((n / 10) as nat) + seq![digit_char((n % 10) as nat)]);
    } else {
        s.append(digit_str(n));
    }
}

/// Appends the date text of a moment.
pub fn push_date(s: &mut String, d: DateTime)
    ensures
        final(s)@ == old(s)@ + date_text(d),
{
    proof {
        reveal_strlit("-");
        reveal_strlit(".");
        reveal_strlit(" ");
        reveal_strlit(":");
    }
    let ghost start = s@;
    if d.year < 0 {
        s.append("-");
        push_digits(s, (-(d.year as i64)) as u64);
    } else {
        push_digits(s, d.year as u64);
    }
    assert(s@ == start + int_text(d.year as int));
    s.append(".");
    push_digits(s, d.month as u64);
    s.append(".");
    push_digits(s, d.day as u64);
    s.append(" ");
    push_digits(s, d.hour as u64);
    s.append(":");
    push_digits(s, d.minute as u64);
    s.append(":");
    push_digits(s, d.second as u64);
    assert(s@ =~= start + date_text(d));
}

/// The metadata line of an item from its author, its moment (`None` when it
/// has no calendar date) and its reply count.
pub fn meta_line(by: &Option<String>, date: Option<DateTime>, count: usize) -> (r: String)
    ensures
        r@ == meta_text(
            text_or_empty(*by),
            match date {
                Some(d) => date_text(d),
                None => seq!['?'],
            },
            count as nat,
        ),
{
    proof {
        reveal_strlit("    --");
        reveal_strlit(" @ ");
        reveal_strlit(" ");
        reveal_strlit("?");
        reveal_strlit(" comments");
    }
    let mut s = <String as StringExecFns>::from_str("    --");
    if let Some(b) = by {
        s.append(b.as_str());
    }
    s.append(" @ ");
    match date {
        Some(d) => push_date(&mut s, d),
        None => s.append("?"),
    }
    s.append(" ");
    push_digits(&mut s, count as u64);
    s.append(" comments");
    let ghost date_seq = match date {
        Some(d) => date_text(d),
        None => seq!['?'],
    };
    assert(s@ =~= meta_text(text_or_empty(*by), date_seq, count as nat));
    s
}

/// The moment of a timestamp, where it has a calendar date that the
/// rendering shows.
fn stamp(ts: usize) -> (r: Option<DateTime>)
    ensures
        ts as int <= LAST_DATED_SECOND as int ==> r == Some(datetime_of(ts as int)),
        ts as int > LAST_DATED_SECOND as int ==> r is None,
        ts == 0 ==> r == Some(epoch()),
{
    if ts as u64 <= LAST_DATED_SECOND {
        utc_datetime(ts as i64)
    } else {
        None
    }
}

/// The date text that a rendering shows for a timestamp.
fn stamp_line_date(ts: usize) -> (r: Option<DateTime>)
    ensures
        match r {
            Some(d) => date_text(d),
            None => seq!['?'],
        } == stamp_text(ts),
        ts == 0 ==> r == Some(epoch()),
{
    stamp(ts)
}

/// The closing line of a comment: a single space.
pub open spec fn comment_end() -> Seq<char> {
    seq![' ']
}

/// A line in the plain weight.
pub open spec fn plain(text: Seq<char>) -> (Seq<char>, bool) {
    (text, false)
}

/// The number of ids in an optional id list.
pub open spec fn count_ids(kids: Option<Vec<usize>>) -> nat {
    match kids {
        Some(v) => v@.len(),
        None => 0,
    }
}

/// How an item is shown. A story: its title in bold (empty when it has
/// none), its metadata line, a blank line. A comment: its body wrapped at
/// `WRAP_WIDTH`, its metadata line with the number of direct replies, a
/// closing line of a single space. Anything else: a fixed placeholder.
pub open spec fn rendered(item: Item) -> Seq<(Seq<char>, bool)> {
    match item {
        Item::Story { by, descendants, time, title, .. } => seq![
            (text_or_empty(title), true),
            plain(
                meta_text(
                    text_or_empty(by),
                    stamp_text(time),
                    match descendants {
                        Some(n) => n as nat,
                        None => 0,
                    },
                ),
            ),
            plain(Seq::empty()),
        ],
        Item::Comment { by, text, time, kids, .. } => wrapped_of(
            text_or_empty(text),
            WRAP_WIDTH as int,
        ).map_values(|l: Seq<char>| plain(l)) + seq![
            plain(meta_text(text_or_empty(by), stamp_text(time), count_ids(kids))),
            plain(comment_end()),
        ],
        Item::Unsupported => seq![plain("Unsupported item type"@)],
    }
}

/// The lines of a comment from its wrapped body and its metadata line: each
/// body line in the plain weight, then the metadata line, then a closing
/// line of a single space.
pub fn comment_lines(wrapped: Vec<String>, meta: String) -> (r: Vec<Line>)
    ensures
        lines_view(r@) == strings_view(wrapped@).map_values(|l: Seq<char>| plain(l)) + seq![
            plain(meta@),
            plain(comment_end()),
        ],
{
    let mut lines: Vec<Line> = Vec::new();
    let mut i: usize = 0;
    while i < wrapped.len()
        invariant
            i <= wrapped@.len(),
            lines@.len() == i,
            forall|j: int|
                0 <= j < i ==> (#[trigger] lines@[j]).text@ == wrapped@[j]@ && !lines@[j].bold,
        decreases wrapped@.len() - i,
    {
        lines.push(Line { text: wrapped[i].clone(), bold: false });
        i = i + 1;
    }
    let ghost body = lines_view(lines@);
    assert(body =~= strings_view(wrapped@).map_values(|l: Seq<char>| plain(l)));
    proof {
        reveal_strlit(" ");
        assert(" "@ =~= comment_end());
    }
    lines.push(Line { text: meta, bold: false });
    lines.push(Line { text: <String as StringExecFns>::from_str(" "), bold: false });
    assert(lines_view(lines@) =~= body + seq![plain(meta@), plain(comment_end())]);
    lines
}

/// The first moment of the Unix epoch.
pub open spec fn epoch() -> DateTime {
    DateTime { year: 1970, month: 1, day: 1, hour: 0, minute: 0, second: 0 }
}

/// Renders an item as lines of text; see `rendered`. A story created at
/// timestamp 0 shows the epoch's date, with or without a title.
pub fn render(item: &Item) -> (r: Vec<Line>)
    ensures
        lines_view(r@) == rendered(*item),
        *item is Story && item->Story_time == 0 ==> lines_view(r@) == seq![
            (text_or_empty(item->Story_title), true),
            plain(
                meta_text(
                    text_or_empty(item->Story_by),
                    date_text(epoch()),
                    match item->Story_descendants {
                        Some(n) => n as nat,
                        None => 0,
                    },
                ),
            ),
            plain(Seq::<char>::empty()),
        ],
{
    proof {
        reveal_strlit("Unsupported item type");
    }
    match item {
        Item::Story { by, descendants, time, title, .. } => {
            let head = match title {
                Some(t) => t.clone(),
                None => String::new(),
            };
            let count = match descendants {
                Some(n) => *n,
                None => 0,
            };
            let meta = meta_line(by, stamp_line_date(*time), count);
            let mut lines: Vec<Line> = Vec::new();
            lines.push(Line { text: head, bold: true });
            lines.push(Line { text: meta, bold: false });
            lines.push(Line { text: String::new(), bold: false });
            assert(lines_view(lines@) =~= rendered(*item));
            lines
        },
        Item::Comment { by, text, time, kids, .. } => {
            proof {
                reveal_strlit("");
            }
            let body = match text {
                Some(t) => wrap_text(t.as_str(), WRAP_WIDTH),
                None => {
                    assert(""@ =~= Seq::<char>::empty());
                    wrap_text("", WRAP_WIDTH)
                },
            };
            assert(strings_view(body@) == wrapped_of(text_or_empty(*text), WRAP_WIDTH as int));
            let count = match kids {
                Some(v) => v.len(),
                None => 0,
            };
            let meta = meta_line(by, stamp_line_date(*time), count);
            let r = comment_lines(body, meta);
            assert(lines_view(r@) =~= rendered(*item));
            r
        },
        Item::Unsupported => {
            let mut lines: Vec<Line> = Vec::new();
            lines.push(
                Line { text: <String as StringExecFns>::from_str("Unsupported item type"), bold: false },
            );
            assert(lines_view(lines@) =~= rendered(*item));
            lines
        },
    }
}

} // verus!
