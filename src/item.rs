use vstd::prelude::*;
use vstd::string::StringExecFns;

verus! {

/// Why a fetch, or a batch of fetches, failed.
#[derive(Clone, Copy, Debug, PartialEq, Eq, Structural)]
pub enum FetchError {
    /// The request did not complete (network failure, timeout).
    Transport,
    /// The response body was not of the expected shape.
    Decode,
    /// The results of a batch did not account for each of its ids exactly
    /// once.
    Incomplete,
}

/// One node of remote content.
#[derive(Debug, PartialEq, Eq)]
pub enum Item {
    Story {
        /// The username of the story's author.
        by: Option<String>,
        dead: Option<bool>,
        /// The total comment count.
        descendants: Option<usize>,
        id: usize,
        /// The ids of the item's comments, in ranked display order.
        kids: Option<Vec<usize>>,
        score: usize,
        text: Option<String>,
        /// Creation time, in seconds since the Unix epoch.
        time: usize,
        title: Option<String>,
        url: Option<String>,
    },
    Comment {
        /// The username of the comment's author.
        by: Option<String>,
        id: usize,
        /// Either another comment or the story the comment belongs to.
        parent: usize,
        text: Option<String>,
        /// Creation time, in seconds since the Unix epoch.
        time: usize,
        /// The ids of the item's replies, in ranked display order.
        kids: Option<Vec<usize>>,
    },
    /// An item whose kind this engine does not know.
    Unsupported,
}

/// The value of an item, with strings and id lists as sequences.
pub ghost enum ItemModel {
    Story {
        by: Option<Seq<char>>,
        dead: Option<bool>,
        descendants: Option<usize>,
        id: usize,
        kids: Option<Seq<usize>>,
        score: usize,
        text: Option<Seq<char>>,
        time: usize,
        title: Option<Seq<char>>,
        url: Option<Seq<char>>,
    },
    Comment {
        by: Option<Seq<char>>,
        id: usize,
        parent: usize,
        text: Option<Seq<char>>,
        time: usize,
        kids: Option<Seq<usize>>,
    },
    Unsupported,
}

pub open spec fn text_view(s: Option<String>) -> Option<Seq<char>> {
    match s {
        Some(v) => Some(v@),
        None => None,
    }
}

pub open spec fn ids_view(s: Option<Vec<usize>>) -> Option<Seq<usize>> {
    match s {
        Some(v) => Some(v@),
        None => None,
    }
}

/// The child ids of an item as a sequence: empty when absent.
pub open spec fn ids_or_empty(s: Option<Seq<usize>>) -> Seq<usize> {
    match s {
        Some(v) => v,
        None => Seq::empty(),
    }
}

impl View for Item {
    type V = ItemModel;

    open spec fn view(&self) -> ItemModel {
        match self {
            Item::Story { by, dead, descendants, id, kids, score, text, time, title, url } =>
                ItemModel::Story {
                    by: text_view(*by),
                    dead: *dead,
                    descendants: *descendants,
                    id: *id,
                    kids: ids_view(*kids),
                    score: *score,
                    text: text_view(*text),
                    time: *time,
                    title: text_view(*title),
                    url: text_view(*url),
                },
            Item::Comment { by, id, parent, text, time, kids } => ItemModel::Comment {
                by: text_view(*by),
                id: *id,
                parent: *parent,
                text: text_view(*text),
                time: *time,
                kids: ids_view(*kids),
            },
            Item::Unsupported => ItemModel::Unsupported,
        }
    }
}

fn copy_text(s: &Option<String>) -> (r: Option<String>)
    ensures
        r == *s,
{
    match s {
        Some(v) => Some(v.clone()),
        None => None,
    }
}

fn copy_ids(s: &Option<Vec<usize>>) -> (r: Option<Vec<usize>>)
    ensures
        ids_view(r) == ids_view(*s),
{
    match s {
        Some(v) => {
            let c = v.clone();
            assert(c@ =~= v@);
            Some(c)
        },
        None => None,
    }
}

impl Clone for Item {
    fn clone(&self) -> (r: Self)
        ensures
            r@ == self@,
    {
        match self {
            Item::Story { by, dead, descendants, id, kids, score, text, time, title, url } =>
                Item::Story {
                    by: copy_text(by),
                    dead: *dead,
                    descendants: *descendants,
                    id: *id,
                    kids: copy_ids(kids),
                    score: *score,
                    text: copy_text(text),
                    time: *time,
                    title: copy_text(title),
                    url: copy_text(url),
                },
            Item::Comment { by, id, parent, text, time, kids } => Item::Comment {
                by: copy_text(by),
                id: *id,
                parent: *parent,
                text: copy_text(text),
                time: *time,
                kids: copy_ids(kids),
            },
            Item::Unsupported => Item::Unsupported,
        }
    }
}

impl Item {
    /// The ids of the item's direct children, in ranked order.
    pub open spec fn child_ids(&self) -> Seq<usize> {
        match self {
            Item::Story { kids, .. } => ids_or_empty(ids_view(*kids)),
            Item::Comment { kids, .. } => ids_or_empty(ids_view(*kids)),
            Item::Unsupported => Seq::empty(),
        }
    }

    /// The ids of the item's direct children, in ranked order; empty when the
    /// item lists none.
    pub fn kids(&self) -> (r: Vec<usize>)
        ensures
            r@ == self.child_ids(),
    {
        match self {
            Item::Story { kids, .. } | Item::Comment { kids, .. } => match kids {
                Some(v) => {
                    let c = v.clone();
                    assert(c@ =~= v@);
                    c
                },
                None => Vec::new(),
            },
            Item::Unsupported => Vec::new(),
        }
    }
}

/// A remote record as it arrives: a kind tag and every field an item of any
/// kind may carry, each possibly absent.
#[derive(Debug)]
pub struct RawItem {
    pub kind: Option<String>,
    pub by: Option<String>,
    pub dead: Option<bool>,
    pub descendants: Option<usize>,
    pub id: Option<usize>,
    pub kids: Option<Vec<usize>>,
    pub parent: Option<usize>,
    pub score: Option<usize>,
    pub text: Option<String>,
    pub time: Option<usize>,
    pub title: Option<String>,
    pub url: Option<String>,
}

/// The item a raw record decodes to. A known kind needs its required fields;
/// an unknown kind is no error and gives `Unsupported`.
pub open spec fn decoded(raw: RawItem) -> Result<Item, FetchError> {
    match raw.kind {
        None => Err(FetchError::Decode),
        Some(k) => if k@ == "story"@ {
            if raw.id is Some && raw.score is Some && raw.time is Some {
                Ok(
                    Item::Story {
                        by: raw.by,
                        dead: raw.dead,
                        descendants: raw.descendants,
                        id: raw.id.unwrap(),
                        kids: raw.kids,
                        score: raw.score.unwrap(),
                        text: raw.text,
                        time: raw.time.unwrap(),
                        title: raw.title,
                        url: raw.url,
                    },
                )
            } else {
                Err(FetchError::Decode)
            }
        } else if k@ == "comment"@ {
            if raw.id is Some && raw.parent is Some && raw.time is Some {
                Ok(
                    Item::Comment {
                        by: raw.by,
                        id: raw.id.unwrap(),
                        parent: raw.parent.unwrap(),
                        text: raw.text,
                        time: raw.time.unwrap(),
                        kids: raw.kids,
                    },
                )
            } else {
                Err(FetchError::Decode)
            }
        } else {
            Ok(Item::Unsupported)
        },
    }
}

/// A record whose kind tag is present but names neither a story nor a
/// comment decodes to `Unsupported`, never to an error.
pub proof fn unknown_kind_is_unsupported(raw: RawItem)
    requires
        raw.kind is Some,
        raw.kind.unwrap()@ != "story"@,
        raw.kind.unwrap()@ != "comment"@,
    ensures
        decoded(raw) == Ok::<Item, FetchError>(Item::Unsupported),
{
}

impl RawItem {
    /// Decodes the record by its kind tag: `"story"` and `"comment"` need
    /// their required fields, any other tag gives `Unsupported`, and a
    /// missing tag is a decode error.
    pub fn decode(self) -> (r: Result<Item, FetchError>)
        ensures
            r == decoded(self),
    {
        proof {
            reveal_strlit("story");
            reveal_strlit("comment");
        }
        let story = <String as StringExecFns>::from_str("story");
        let comment = <String as StringExecFns>::from_str("comment");
        match self.kind {
            None => Err(FetchError::Decode),
            Some(k) => if k.eq(&story) {
                match (self.id, self.score, self.time) {
                    (Some(id), Some(score), Some(time)) => Ok(
                        Item::Story {
                            by: self.by,
                            dead: self.dead,
                            descendants: self.descendants,
                            id,
                            kids: self.kids,
                            score,
                            text: self.text,
                            time,
                            title: self.title,
                            url: self.url,
                        },
                    ),
                    _ => Err(FetchError::Decode),
                }
            } else if k.eq(&comment) {
                match (self.id, self.parent, self.time) {
                    (Some(id), Some(parent), Some(time)) => Ok(
                        Item::Comment {
                            by: self.by,
                            id,
                            parent,
                            text: self.text,
                            time,
                            kids: self.kids,
                        },
                    ),
                    _ => Err(FetchError::Decode),
                }
            } else {
                Ok(Item::Unsupported)
            },
        }
    }
}

} // verus!
