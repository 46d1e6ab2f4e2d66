use vstd::prelude::*;
use crate::batch::{covers, placed};
use crate::item::{FetchError, Item};

verus! {

/// `c` is a valid cursor for a list of `len` items: absent exactly when the
/// list is empty, and an index into it otherwise.
pub open spec fn cursor_ok(c: Option<usize>, len: nat) -> bool {
    match c {
        None => len == 0,
        Some(i) => i < len,
    }
}

/// The cursor after one step forward (`forward`) or backward, saturating at
/// both ends of a list of `len` items. An absent cursor stays absent.
pub open spec fn stepped(c: Option<usize>, len: nat, forward: bool) -> Option<usize> {
    match c {
        None => None,
        Some(i) => if forward {
            if i + 1 < len {
                Some((i + 1) as usize)
            } else {
                Some(i)
            }
        } else {
            if i > 0 {
                Some((i - 1) as usize)
            } else {
                Some(i)
            }
        },
    }
}

/// Moves a cursor one step, saturating at the ends of the list.
pub fn step_cursor(c: Option<usize>, len: usize, forward: bool) -> (r: Option<usize>)
    requires
        cursor_ok(c, len as nat),
    ensures
        r == stepped(c, len as nat, forward),
        cursor_ok(r, len as nat),
{
    match c {
        None => None,
        Some(i) => if forward {
            if i + 1 < len {
                Some(i + 1)
            } else {
                Some(i)
            }
        } else {
            if i > 0 {
                Some(i - 1)
            } else {
                Some(i)
            }
        },
    }
}

/// A cursor that is moved stays a valid index, and stepping forward from the
/// last index leaves it there, however often it is repeated.
pub proof fn step_stays_in_range(c: Option<usize>, len: usize, forward: bool)
    requires
        cursor_ok(c, len as nat),
    ensures
        cursor_ok(stepped(c, len as nat, forward), len as nat),
        len > 0 && c == Some((len - 1) as usize) && forward ==> stepped(c, len as nat, forward)
            == c,
{
}

/// A key press, as far as the browser tells keys apart.
#[derive(Clone, Copy, Debug, PartialEq, Eq, Structural)]
pub enum Key {
    Char(char),
    Left,
    Right,
    Up,
    Down,
    Other,
}

/// Outside work that a transition asks its caller to do.
#[derive(Clone, Copy, Debug, PartialEq, Eq, Structural)]
pub enum Command {
    /// Nothing to fetch.
    Idle,
    /// Fetch the ranking and its items, then hand them to `apply_stories`.
    Refresh,
    /// Select the story at this index together with its thread: fetch the
    /// children that `thread_request` names for it, then hand them to
    /// `apply_thread` with the same index.
    LoadThread(usize),
}

/// The command that a one-step move of a story cursor asks for: the thread
/// of the story it would land on, or nothing without a cursor.
pub open spec fn move_command(c: Option<usize>, len: nat, forward: bool) -> Command {
    match stepped(c, len, forward) {
        Some(t) => Command::LoadThread(t),
        None => Command::Idle,
    }
}

/// The browser's state: the ranked stories and the thread of the selected
/// story, each with its cursor.
pub struct App {
    pub exit: bool,
    pub story_list: Vec<Item>,
    pub story_cursor: Option<usize>,
    pub thread_list: Vec<Item>,
    pub thread_cursor: Option<usize>,
}

impl App {
    /// Both cursors are valid for their lists, and a thread, when there is
    /// one, starts with the selected story.
    pub open spec fn wf(&self) -> bool {
        &&& cursor_ok(self.story_cursor, self.story_list@.len())
        &&& cursor_ok(self.thread_cursor, self.thread_list@.len())
        &&& self.thread_list@.len() > 0 ==> {
            &&& self.thread_list@[0] is Story
            &&& self.story_cursor is Some
            &&& self.thread_list@[0]@ == self.story_list@[self.story_cursor.unwrap() as int]@
        }
    }

    /// `next` is `self` with the item at `at` selected and `children` loaded
    /// as its thread: that story followed by the children in their order, with
    /// the thread cursor on the story; no thread at all when the item is not a
    /// story.
    pub open spec fn thread_loaded(&self, at: usize, next: App, children: Seq<Item>) -> bool {
        &&& next.exit == self.exit
        &&& next.story_list == self.story_list
        &&& next.story_cursor == Some(at)
        &&& match self.story_list@[at as int] {
            s if s is Story => {
                &&& next.thread_list@.len() == children.len() + 1
                &&& next.thread_list@[0]@ == s@
                &&& next.thread_list@.subrange(1, next.thread_list@.len() as int) == children
                &&& next.thread_cursor == Some(0usize)
            },
            _ => next.thread_list@.len() == 0 && next.thread_cursor is None,
        }
    }

    /// The state before anything is loaded: no stories, no thread.
    pub fn new() -> (r: App)
        ensures
            r.wf(),
            !r.exit,
            r.story_list@.len() == 0,
            r.story_cursor is None,
            r.thread_list@.len() == 0,
            r.thread_cursor is None,
    {
        App {
            exit: false,
            story_list: Vec::new(),
            story_cursor: None,
            thread_list: Vec::new(),
            thread_cursor: None,
        }
    }

    /// Asks for a one-step move of the story cursor, forward (`forward`) or
    /// backward, saturating at the ends: the thread of the story it lands on
    /// is to be loaded, and the cursor moves only when that load succeeds.
    /// Without a cursor nothing is asked.
    pub fn select_story(&self, forward: bool) -> (r: Command)
        requires
            self.wf(),
        ensures
            r == move_command(self.story_cursor, self.story_list@.len(), forward),
            r matches Command::LoadThread(t) ==> t < self.story_list@.len(),
    {
        match step_cursor(self.story_cursor, self.story_list.len(), forward) {
            Some(t) => Command::LoadThread(t),
            None => Command::Idle,
        }
    }

    /// Moves the thread cursor one step forward (`forward`) or backward,
    /// saturating at the ends; nothing else changes and nothing is fetched.
    pub fn select_thread(&mut self, forward: bool)
        requires
            old(self).wf(),
        ensures
            final(self).wf(),
            final(self).thread_cursor == stepped(
                old(self).thread_cursor,
                old(self).thread_list@.len(),
                forward,
            ),
            final(self).exit == old(self).exit,
            final(self).story_list == old(self).story_list,
            final(self).story_cursor == old(self).story_cursor,
            final(self).thread_list == old(self).thread_list,
    {
        self.thread_cursor = step_cursor(self.thread_cursor, self.thread_list.len(), forward);
    }

    /// Reacts to a key: `q` asks to exit, `r` asks for a refresh, left and
    /// right ask for the previous or next story with its thread (see
    /// `select_story`), up and down move the thread cursor. Any other key
    /// changes nothing.
    pub fn handle_key(&mut self, key: Key) -> (r: Command)
        requires
            old(self).wf(),
        ensures
            final(self).wf(),
            final(self).story_list == old(self).story_list,
            final(self).thread_list == old(self).thread_list,
            final(self).exit == (old(self).exit || key == Key::Char('q')),
            final(self).story_cursor == old(self).story_cursor,
            final(self).thread_cursor == match key {
                Key::Up => stepped(old(self).thread_cursor, old(self).thread_list@.len(), false),
                Key::Down => stepped(old(self).thread_cursor, old(self).thread_list@.len(), true),
                _ => old(self).thread_cursor,
            },
            r == match key {
                Key::Char('r') => Command::Refresh,
                Key::Left => move_command(old(self).story_cursor, old(self).story_list@.len(), false),
                Key::Right => move_command(old(self).story_cursor, old(self).story_list@.len(), true),
                _ => Command::Idle,
            },
            r matches Command::LoadThread(t) ==> t < old(self).story_list@.len(),
    {
        match key {
            Key::Char('q') => {
                self.exit = true;
                Command::Idle
            },
            Key::Char('r') => Command::Refresh,
            Key::Left => self.select_story(false),
            Key::Right => self.select_story(true),
            Key::Up => {
                self.select_thread(false);
                Command::Idle
            },
            Key::Down => {
                self.select_thread(true);
                Command::Idle
            },
            _ => Command::Idle,
        }
    }

    /// Replaces the stories with the outcome of a refresh. On success the
    /// cursor goes to the first story (absent if there is none) and the
    /// thread is cleared; on failure nothing changes and the error is handed
    /// back.
    pub fn apply_stories(&mut self, fetched: Result<Vec<Item>, FetchError>) -> (r: Result<
        (),
        FetchError,
    >)
        requires
            old(self).wf(),
        ensures
            final(self).wf(),
            final(self).exit == old(self).exit,
            match fetched {
                Ok(items) => {
                    &&& r is Ok
                    &&& final(self).story_list@ == items@
                    &&& final(self).story_cursor == if items@.len() > 0 {
                        Some(0usize)
                    } else {
                        None
                    }
                    &&& final(self).thread_list@.len() == 0
                    &&& final(self).thread_cursor is None
                },
                Err(e) => r == Err::<(), FetchError>(e) && *final(self) == *old(self),
            },
    {
        match fetched {
            Ok(items) => {
                self.story_cursor = if items.len() > 0 {
                    Some(0)
                } else {
                    None
                };
                self.story_list = items;
                self.thread_list = Vec::new();
                self.thread_cursor = None;
                Ok(())
            },
            Err(e) => Err(e),
        }
    }

    /// The ids of the children to fetch for the thread of the item at `at`,
    /// in ranked order; `None` when that item is not a story.
    pub fn thread_request(&self, at: usize) -> (r: Option<Vec<usize>>)
        requires
            self.wf(),
            at < self.story_list@.len(),
        ensures
            match self.story_list@[at as int] {
                s if s is Story => r is Some && r.unwrap()@ == s.child_ids(),
                _ => r is None,
            },
    {
        let s = &self.story_list[at];
        if let Item::Story { .. } = s {
            Some(s.kids())
        } else {
            None
        }
    }

    /// Selects the item at `at` and replaces the thread with that story
    /// followed by the fetched children, with the thread cursor on the story.
    /// When the item is not a story the thread is cleared. On failure nothing
    /// changes, the story cursor included, and the error is handed back.
    pub fn apply_thread(&mut self, at: usize, fetched: Result<Vec<Item>, FetchError>) -> (r: Result<
        (),
        FetchError,
    >)
        requires
            old(self).wf(),
            at < old(self).story_list@.len(),
        ensures
            final(self).wf(),
            match fetched {
                Ok(children) => r is Ok && old(self).thread_loaded(at, *final(self), children@),
                Err(e) => r == Err::<(), FetchError>(e) && *final(self) == *old(self),
            },
    {
        match fetched {
            Ok(children) => {
                let mut thread: Vec<Item> = Vec::new();
                let mut is_story = false;
                let s = &self.story_list[at];
                if let Item::Story { .. } = s {
                    thread.push(s.clone());
                    is_story = true;
                }
                self.story_cursor = Some(at);
                if is_story {
                    let ghost kids = children@;
                    let mut children = children;
                    thread.append(&mut children);
                    assert(thread@.subrange(1, thread@.len() as int) =~= kids);
                    self.thread_list = thread;
                    self.thread_cursor = Some(0);
                } else {
                    self.thread_list = Vec::new();
                    self.thread_cursor = None;
                }
                Ok(())
            },
            Err(e) => Err(e),
        }
    }
}

/// A thread loaded from a batch of fetches of a story's children selects
/// that story and starts with it, and holds the item of the fetch at position `i`
/// of the batch at `i + 1`, whatever the order in which the fetches
/// completed.
pub proof fn thread_keeps_child_order(
    app: App,
    at: usize,
    next: App,
    children: Seq<Item>,
    done: Seq<(usize, Result<Item, FetchError>)>,
)
    requires
        app.wf(),
        at < app.story_list@.len(),
        app.story_list@[at as int] is Story,
        covers(children.len(), done),
        placed(children, done),
        app.thread_loaded(at, next, children),
    ensures
        next.story_cursor == Some(at),
        next.thread_list@.len() == children.len() + 1,
        next.thread_list@[0]@ == app.story_list@[at as int]@,
        forall|k: int|
            0 <= k < done.len() ==> (#[trigger] done[k]).1 == Ok::<Item, FetchError>(
                next.thread_list@[done[k].0 + 1],
            ),
{
    let tail = next.thread_list@.subrange(1, next.thread_list@.len() as int);
    assert forall|k: int| 0 <= k < done.len() implies (#[trigger] done[k]).1 == Ok::<
        Item,
        FetchError,
    >(next.thread_list@[done[k].0 + 1]) by {
        assert(tail[done[k].0 as int] == next.thread_list@[done[k].0 + 1]);
    }
}

} // verus!
