//! Window handles and the search over the system's list of top-level windows.

use vstd::prelude::*;
use vstd::string::{StrSliceExecFns, StringExecFns};
use crate::capture::{Rect, WindowGeometry};
use crate::window_style::WindowStyle;

verus! {

/// A reference to a native window, by its handle's value. It does not own the
/// window and says nothing about whether the window still exists; two
/// controllers are equal when their handles are.
#[derive(Clone, Copy, Debug, PartialEq, Eq, Structural)]
pub struct WindowController(pub usize);

/// The candidates for which the filter said yes, in the order of the walk.
/// `decisions[i]` is the filter's answer for `candidates[i]`.
pub open spec fn matching(candidates: Seq<WindowController>, decisions: Seq<bool>) -> Seq<
    WindowController,
>
    decreases candidates.len(),
{
    if candidates.len() == 0 || decisions.len() == 0 {
        Seq::empty()
    } else if decisions.last() {
        matching(candidates.drop_last(), decisions.drop_last()).push(candidates.last())
    } else {
        matching(candidates.drop_last(), decisions.drop_last())
    }
}

/// What the matches are after one more window was judged.
pub open spec fn recorded(found: Seq<WindowController>, window: WindowController, matched: bool) -> Seq<
    WindowController,
> {
    if matched {
        found.push(window)
    } else {
        found
    }
}

/// The filter can never say yes.
pub open spec fn never_matches<F: Fn(&WindowController) -> bool>(filter: F) -> bool {
    forall|window: WindowController, answer: bool|
        call_ensures(filter, (&window,), answer) ==> !answer
}

/// How many UTF-16 units of a title are asked of the system; a longer title
/// is cut off.
pub const TITLE_CAPACITY: usize = 255;

/// How many UTF-16 units of an executable's path are asked of the system.
pub const PATH_CAPACITY: u32 = 260;

/// Whether `needle` occurs in `haystack` as a run of consecutive characters.
pub open spec fn contains_text(haystack: Seq<char>, needle: Seq<char>) -> bool {
    exists|start: int|
        0 <= start && start + needle.len() <= haystack.len() && #[trigger] haystack.subrange(
            start,
            start + needle.len(),
        ) == needle
}

/// The character a title shows for one UTF-16 unit: the one whose code is
/// the unit's low byte.
pub open spec fn char_of_unit(unit: u16) -> char {
    ((unit % 256) as u8) as char
}

/// A path separator of either kind.
pub open spec fn is_separator(c: char) -> bool {
    c == '/' || c == '\\'
}

/// `path` with every backslash turned into a forward slash.
pub open spec fn forward_slashes(path: Seq<char>) -> Seq<char> {
    Seq::new(path.len(), |i: int| if path[i] == '\\' { '/' } else { path[i] })
}

/// Where the last node of `path` starts: behind its last separator, or at 0
/// if it has none.
pub open spec fn last_node_start(path: Seq<char>) -> int
    decreases path.len(),
{
    if path.len() == 0 {
        0
    } else if is_separator(path.last()) {
        path.len() as int
    } else {
        last_node_start(path.drop_last())
    }
}

/// What follows the last separator of `path`, with no separator in it.
pub open spec fn last_node(path: Seq<char>) -> Seq<char> {
    path.subrange(last_node_start(path), path.len() as int)
}

/// A window as the system listed it, with the title it had then.
pub struct WindowSnapshot {
    pub window: WindowController,
    pub title: String,
}

/// What asking the system for a window's executable gave.
pub enum ProcessQuery {
    /// The owning process could not be opened.
    OpenFailed,
    /// The process was opened, but its image path could not be had.
    QueryFailed,
    /// The image path, as the system writes it.
    Path(String),
}

/// Why a window's executable is not known.
#[derive(Clone, Copy, Debug, PartialEq, Eq, Structural)]
pub enum ProcessError {
    /// The owning process could not be opened.
    OpenProcess,
    /// The image path could not be had.
    ImagePath,
}

impl ProcessError {
    /// The text of the error.
    pub open spec fn spec_message(&self) -> Seq<char> {
        match self {
            ProcessError::OpenProcess => "Could not open process to find exe path."@,
            ProcessError::ImagePath => "Could not get full process image."@,
        }
    }

    /// The text of the error.
    pub fn message(&self) -> (text: String)
        ensures
            text@ == self.spec_message(),
    {
        match self {
            ProcessError::OpenProcess => String::from_str("Could not open process to find exe path."),
            ProcessError::ImagePath => String::from_str("Could not get full process image."),
        }
    }
}

/// `String::push` of std: the text afterwards is the text before with `c`
/// appended as its last character.
#[verifier::external_body]
fn push_char(text: &mut String, c: char)
    ensures
        final(text)@ == old(text)@.push(c),
{
    text.push(c);
}

/// The characters of a text, one by one.
fn chars_of(text: &str) -> (chars: Vec<char>)
    ensures
        chars@ == text@,
{
    let length: usize = text.unicode_len();
    let mut chars: Vec<char> = Vec::new();
    let mut index: usize = 0;
    while index < length
        invariant
            length == text@.len(),
            index <= length,
            chars@ == text@.take(index as int),
        decreases length - index,
    {
        chars.push(text.get_char(index));
        assert(chars@ =~= text@.take(index as int + 1));
        index += 1;
    }
    assert(text@.take(length as int) =~= text@);
    chars
}

/// Whether `needle` stands in `haystack` at `start`.
fn occurs_at(haystack: &Vec<char>, needle: &Vec<char>, start: usize) -> (occurs: bool)
    requires
        start + needle@.len() <= haystack@.len(),
    ensures
        occurs == (haystack@.subrange(start as int, start + needle@.len()) == needle@),
{
    let ghost window = haystack@.subrange(start as int, start + needle@.len());
    let total: usize = haystack.len();
    let mut offset: usize = 0;
    while offset < needle.len()
        invariant
            start + needle@.len() <= haystack@.len(),
            total == haystack@.len(),
            offset <= needle@.len(),
            window == haystack@.subrange(start as int, start + needle@.len()),
            forall|i: int| 0 <= i < offset ==> window[i] == needle@[i],
        decreases needle@.len() - offset,
    {
        if haystack[start + offset] != needle[offset] {
            assert(window[offset as int] != needle@[offset as int]);
            return false;
        }
        offset += 1;
    }
    assert(window =~= needle@);
    true
}

/// Whether `needle` occurs in `haystack`.
pub fn text_contains(haystack: &str, needle: &str) -> (found: bool)
    ensures
        found == contains_text(haystack@, needle@),
{
    let hay: Vec<char> = chars_of(haystack);
    let pin: Vec<char> = chars_of(needle);
    if pin.len() > hay.len() {
        return false;
    }
    let last: usize = hay.len() - pin.len();
    let mut start: usize = 0;
    loop
        invariant
            hay@ == haystack@,
            pin@ == needle@,
            last + pin@.len() == hay@.len(),
            start <= last,
            forall|s: int|
                0 <= s < start ==> #[trigger] hay@.subrange(s, s + pin@.len()) != pin@,
        decreases last - start,
    {
        if occurs_at(&hay, &pin, start) {
            return true;
        }
        if start == last {
            return false;
        }
        start += 1;
    }
}

/// `path` with every backslash turned into a forward slash.
pub fn with_forward_slashes(path: &str) -> (normal: String)
    ensures
        normal@ == forward_slashes(path@),
{
    let length: usize = path.unicode_len();
    let mut normal: String = String::new();
    let mut index: usize = 0;
    while index < length
        invariant
            length == path@.len(),
            index <= length,
            normal@ == forward_slashes(path@).take(index as int),
        decreases length - index,
    {
        let c: char = path.get_char(index);
        let ghost before = normal@;
        if c == '\\' {
            push_char(&mut normal, '/');
        } else {
            push_char(&mut normal, c);
        }
        assert(normal@ == forward_slashes(path@).take(index as int + 1)) by {
            assert(normal@ =~= forward_slashes(path@).take(index as int + 1));
        }
        index += 1;
    }
    assert(normal@ == forward_slashes(path@)) by {
        assert(forward_slashes(path@).take(length as int) =~= forward_slashes(path@));
    }
    normal
}

/// The last node of a path whose parts are divided by slashes of either kind.
pub fn last_path_node(path: &str) -> (node: String)
    ensures
        node@ == last_node(path@),
        forall|i: int| 0 <= i < node@.len() ==> !is_separator(#[trigger] node@[i]),
{
    let length: usize = path.unicode_len();
    let mut start: usize = 0;
    let mut index: usize = 0;
    while index < length
        invariant
            length == path@.len(),
            index <= length,
            start <= index,
            start == last_node_start(path@.take(index as int)),
            forall|i: int| start <= i < index ==> !is_separator(#[trigger] path@[i]),
        decreases length - index,
    {
        let c: char = path.get_char(index);
        proof {
            let longer = path@.take(index as int + 1);
            assert(longer.drop_last() == path@.take(index as int));
            assert(longer.last() == c);
        }
        index += 1;
        if c == '/' || c == '\\' {
            start = index;
        }
    }
    proof {
        assert(path@.take(length as int) == path@);
    }
    let node: &str = path.substring_char(start, length);
    String::from_str(node)
}

/// One walk over the windows: the filter, whether the walk ends at the first
/// match, and the matches so far. A session belongs to one search and is used
/// up by it.
pub struct EnumerationSession<F> {
    pub filter: F,
    pub stop_after_first: bool,
    pub found: Vec<WindowController>,
}

impl<F: Fn(&WindowController) -> bool> EnumerationSession<F> {
    /// A session that has seen no window yet.
    pub fn new(filter: F, stop_after_first: bool) -> (session: Self)
        ensures
            session.filter == filter,
            session.stop_after_first == stop_after_first,
            session.found@ == Seq::<WindowController>::empty(),
    {
        EnumerationSession { filter, stop_after_first, found: Vec::new() }
    }

    /// Takes note of the filter's answer for one window. A match is appended
    /// to the matches. The result says whether the walk goes on: it ends only
    /// on a match in a session that stops after the first.
    pub fn record(&mut self, window: WindowController, matched: bool) -> (keep_going: bool)
        ensures
            final(self).found@ == recorded(old(self).found@, window, matched),
            final(self).filter == old(self).filter,
            final(self).stop_after_first == old(self).stop_after_first,
            keep_going == !(matched && old(self).stop_after_first),
    {
        if matched {
            self.found.push(window);
            if self.stop_after_first {
                return false;
            }
        }
        true
    }

    /// Judges one window of the walk: asks the filter and records its answer.
    pub fn externally_get_window_controllers(&mut self, hwnd: usize) -> (keep_going: bool)
        requires
            call_requires(old(self).filter, (&WindowController(hwnd),)),
        ensures
            final(self).filter == old(self).filter,
            final(self).stop_after_first == old(self).stop_after_first,
            exists|matched: bool|
                {
                    &&& call_ensures(old(self).filter, (&WindowController(hwnd),), matched)
                    &&& #[trigger] recorded(old(self).found@, WindowController(hwnd), matched)
                        == final(self).found@
                    &&& keep_going == !(matched && old(self).stop_after_first)
                },
    {
        let controller: WindowController = WindowController(hwnd);
        let matched: bool = (self.filter)(&controller);
        let ghost before = self.found@;
        let keep_going: bool = self.record(controller, matched);
        assert(recorded(before, controller, matched) == self.found@);
        keep_going
    }

    /// Ends the session and hands out the matches.
    pub fn finish(self) -> (found: Vec<WindowController>)
        ensures
            found == self.found,
    {
        self.found
    }
}

impl WindowController {
    /// The controller of the window with this handle.
    pub fn from_hwnd(hwnd: usize) -> (window: WindowController)
        ensures
            window == WindowController(hwnd),
    {
        WindowController(hwnd)
    }

    /// The handle.
    pub fn hwnd(&self) -> (hwnd: usize)
        ensures
            hwnd == self.0,
    {
        self.0
    }

    /// A batch of style changes for this window, starting from the style
    /// bits it has.
    pub fn style(&self, style_flags: u32, extended_style_flags: u32) -> (style: WindowStyle)
        ensures
            style.target() == *self,
            style.flags() == style_flags,
            style.extended_flags() == extended_style_flags,
            style.top_request() is None,
    {
        WindowStyle::new(*self, style_flags, extended_style_flags)
    }

    /// Whether this is the foreground window, given which window that is.
    pub fn is_active(&self, foreground: &WindowController) -> (active: bool)
        ensures
            active == (*self == *foreground),
    {
        self.0 == foreground.0
    }

    /// The window's outer position and size on screen as `[x, y, width,
    /// height]`: what a placement at these four numbers would leave as it is.
    pub fn position(&self, geometry: &WindowGeometry) -> (position: [i32; 4])
        requires
            geometry.outer_size_fits(),
        ensures
            position[0] == geometry.window.left,
            position[1] == geometry.window.top,
            position[2] == geometry.window.right - geometry.window.left,
            position[3] == geometry.window.bottom - geometry.window.top,
    {
        [
            geometry.window.left,
            geometry.window.top,
            geometry.window.right - geometry.window.left,
            geometry.window.bottom - geometry.window.top,
        ]
    }

    /// What to ask of the system to bring this window to the front: nothing
    /// where it is the foreground window already, else to show it on top and
    /// give it the focus. The four numbers are the place to show it at, as
    /// `[x, y, width, height]`: the outer position and size it has, so that
    /// it neither moves nor changes its size.
    pub fn activate(&self, foreground: &WindowController, geometry: &WindowGeometry) -> (placement:
        Option<[i32; 4]>)
        requires
            *self != *foreground ==> geometry.outer_size_fits(),
        ensures
            *self == *foreground ==> placement is None,
            *self != *foreground ==> placement is Some && {
                let numbers = placement->Some_0;
                &&& numbers[0] == geometry.window.left
                &&& numbers[1] == geometry.window.top
                &&& numbers[2] == geometry.window.right - geometry.window.left
                &&& numbers[3] == geometry.window.bottom - geometry.window.top
            },
    {
        if self.is_active(foreground) {
            None
        } else {
            Some(self.position(geometry))
        }
    }

    /// The title that the system's UTF-16 units spell: one character for each
    /// unit, taken from the unit's low byte.
    pub fn title(&self, units: &[u16]) -> (title: String)
        ensures
            title@.len() == units@.len(),
            forall|i: int| 0 <= i < units@.len() ==> #[trigger] title@[i] == char_of_unit(units@[i]),
    {
        let mut title: String = String::new();
        let mut index: usize = 0;
        while index < units.len()
            invariant
                index <= units@.len(),
                title@.len() == index,
                forall|i: int| 0 <= i < index ==> #[trigger] title@[i] == char_of_unit(units@[i]),
            decreases units@.len() - index,
        {
            let low: u8 = (units[index] % 256) as u8;
            push_char(&mut title, low as char);
            index += 1;
        }
        title
    }

    /// The path of the window's executable with forward slashes, or the
    /// reason why it is not known.
    pub fn exe_path(&self, query: &ProcessQuery) -> (path: Result<String, ProcessError>)
        ensures
            match *query {
                ProcessQuery::OpenFailed => path == Err::<String, ProcessError>(
                    ProcessError::OpenProcess,
                ),
                ProcessQuery::QueryFailed => path == Err::<String, ProcessError>(
                    ProcessError::ImagePath,
                ),
                ProcessQuery::Path(raw) => path is Ok && path->Ok_0@ == forward_slashes(raw@),
            },
    {
        match query {
            ProcessQuery::OpenFailed => Err(ProcessError::OpenProcess),
            ProcessQuery::QueryFailed => Err(ProcessError::ImagePath),
            ProcessQuery::Path(raw) => Ok(with_forward_slashes(raw.as_str())),
        }
    }

    /// The file name of the window's executable: the last node of its path.
    pub fn process_name(&self, query: &ProcessQuery) -> (name: Result<String, ProcessError>)
        ensures
            match *query {
                ProcessQuery::OpenFailed => name == Err::<String, ProcessError>(
                    ProcessError::OpenProcess,
                ),
                ProcessQuery::QueryFailed => name == Err::<String, ProcessError>(
                    ProcessError::ImagePath,
                ),
                ProcessQuery::Path(raw) => name is Ok && name->Ok_0@ == last_node(
                    forward_slashes(raw@),
                ),
            },
    {
        match self.exe_path(query) {
            Ok(path) => Ok(last_path_node(path.as_str())),
            Err(error) => Err(error),
        }
    }

    /// The first listed window whose title contains `title`.
    pub fn find_by_title(windows: &Vec<WindowSnapshot>, title: &str) -> (found: Option<
        WindowController,
    >)
        ensures
            found is None <==> forall|i: int|
                0 <= i < windows@.len() ==> !contains_text((#[trigger] windows@[i]).title@, title@),
            found is Some ==> exists|first: int|
                {
                    &&& 0 <= first < windows@.len()
                    &&& found->Some_0 == (#[trigger] windows@[first]).window
                    &&& contains_text(windows@[first].title@, title@)
                    &&& forall|i: int|
                        0 <= i < first ==> !contains_text((#[trigger] windows@[i]).title@, title@)
                },
    {
        let mut index: usize = 0;
        while index < windows.len()
            invariant
                index <= windows@.len(),
                forall|i: int|
                    0 <= i < index ==> !contains_text((#[trigger] windows@[i]).title@, title@),
            decreases windows@.len() - index,
        {
            if text_contains(windows[index].title.as_str(), title) {
                return Some(windows[index].window);
            }
            index += 1;
        }
        None
    }

    /// Walks the candidates in order and collects those that the filter
    /// accepts. With `find_one` the walk ends at the first match, and windows
    /// after it are never shown to the filter.
    pub fn find<F: Fn(&WindowController) -> bool>(
        candidates: &Vec<WindowController>,
        filter: F,
        find_one: bool,
    ) -> (found: Vec<WindowController>)
        requires
            forall|i: int|
                0 <= i < candidates@.len() ==> call_requires(filter, (&#[trigger] candidates@[i],)),
        ensures
            !find_one ==> exists|decisions: Seq<bool>|
                {
                    &&& decisions.len() == candidates@.len()
                    &&& forall|i: int|
                        0 <= i < candidates@.len() ==> call_ensures(
                            filter,
                            (&candidates@[i],),
                            #[trigger] decisions[i],
                        )
                    &&& found@ == #[trigger] matching(candidates@, decisions)
                },
            find_one ==> found@.len() <= 1,
            find_one && found@.len() == 0 ==> forall|i: int|
                0 <= i < candidates@.len() ==> call_ensures(
                    filter,
                    (&#[trigger] candidates@[i],),
                    false,
                ),
            find_one && found@.len() == 1 ==> exists|first: int|
                {
                    &&& 0 <= first < candidates@.len()
                    &&& found@[0] == #[trigger] candidates@[first]
                    &&& call_ensures(filter, (&candidates@[first],), true)
                    &&& forall|i: int|
                        0 <= i < first ==> call_ensures(
                            filter,
                            (&#[trigger] candidates@[i],),
                            false,
                        )
                },
            never_matches(filter) ==> found@.len() == 0,
    {
        let mut session: EnumerationSession<F> = EnumerationSession::new(filter, find_one);
        let ghost mut decisions: Seq<bool> = Seq::empty();
        let mut index: usize = 0;
        let mut keep_going: bool = true;
        while keep_going && index < candidates.len()
            invariant
                index <= candidates@.len(),
                session.filter == filter,
                session.stop_after_first == find_one,
                forall|i: int|
                    0 <= i < candidates@.len() ==> call_requires(
                        filter,
                        (&#[trigger] candidates@[i],),
                    ),
                decisions.len() == index,
                forall|i: int|
                    0 <= i < index ==> call_ensures(
                        filter,
                        (&candidates@[i],),
                        #[trigger] decisions[i],
                    ),
                session.found@ == matching(candidates@.take(index as int), decisions),
                keep_going ==> (find_one ==> forall|i: int| 0 <= i < index ==> !#[trigger] decisions[i]),
                keep_going && find_one ==> session.found@.len() == 0,
                !keep_going ==> find_one && index > 0 && decisions[index - 1] && session.found@
                    == seq![candidates@[index - 1]] && forall|i: int|
                    0 <= i < index - 1 ==> !#[trigger] decisions[i],
            decreases (if keep_going { 1int } else { 0int }), candidates@.len() - index,
        {
            let window: WindowController = candidates[index];
            let ghost before = session.found@;
            keep_going = session.externally_get_window_controllers(window.0);
            proof {
                let matched: bool = choose|matched: bool|
                    {
                        &&& call_ensures(filter, (&WindowController(window.0),), matched)
                        &&& #[trigger] recorded(before, WindowController(window.0), matched)
                            == session.found@
                        &&& keep_going == !(matched && find_one)
                    };
                assert(WindowController(window.0) == candidates@[index as int]);
                let longer = decisions.push(matched);
                let prefix = candidates@.take(index as int + 1);
                assert(prefix.drop_last() == candidates@.take(index as int));
                assert(longer.drop_last() == decisions);
                assert(prefix.last() == window);
                decisions = longer;
            }
            index += 1;
        }
        proof {
            if !find_one {
                assert(candidates@.take(index as int) == candidates@);
            } else if session.found@.len() == 0 {
                assert(keep_going);
                assert forall|i: int| 0 <= i < candidates@.len() implies call_ensures(
                    filter,
                    (&#[trigger] candidates@[i],),
                    false,
                ) by {
                    assert(!decisions[i]);
                }
            } else {
                assert(!keep_going);
                let first = index - 1;
                assert(decisions[first]);
                assert forall|i: int| 0 <= i < first implies call_ensures(
                    filter,
                    (&#[trigger] candidates@[i],),
                    false,
                ) by {
                    assert(!decisions[i]);
                }
                assert(session.found@[0] == candidates@[first]);
            }
            if never_matches(filter) {
                if session.found@.len() != 0 {
                    if find_one {
                        assert(decisions[index - 1]);
                    } else {
                        lemma_matching_empty(candidates@, decisions);
                    }
                }
            }
        }
        session.finish()
    }

    /// The first candidate the filter accepts, if it accepts any.
    pub fn find_one<F: Fn(&WindowController) -> bool>(
        candidates: &Vec<WindowController>,
        filter: F,
    ) -> (found: Option<WindowController>)
        requires
            forall|i: int|
                0 <= i < candidates@.len() ==> call_requires(filter, (&#[trigger] candidates@[i],)),
        ensures
            found is None ==> forall|i: int|
                0 <= i < candidates@.len() ==> call_ensures(
                    filter,
                    (&#[trigger] candidates@[i],),
                    false,
                ),
            found is Some ==> exists|first: int|
                {
                    &&& 0 <= first < candidates@.len()
                    &&& found->Some_0 == #[trigger] candidates@[first]
                    &&& call_ensures(filter, (&candidates@[first],), true)
                    &&& forall|i: int|
                        0 <= i < first ==> call_ensures(
                            filter,
                            (&#[trigger] candidates@[i],),
                            false,
                        )
                },
            never_matches(filter) ==> found is None,
    {
        let found: Vec<WindowController> = WindowController::find(candidates, filter, true);
        if found.len() == 0 {
            None
        } else {
            Some(found[0])
        }
    }

    /// Every candidate the filter accepts, in the order of the walk.
    pub fn find_all<F: Fn(&WindowController) -> bool>(
        candidates: &Vec<WindowController>,
        filter: F,
    ) -> (found: Vec<WindowController>)
        requires
            forall|i: int|
                0 <= i < candidates@.len() ==> call_requires(filter, (&#[trigger] candidates@[i],)),
        ensures
            exists|decisions: Seq<bool>|
                {
                    &&& decisions.len() == candidates@.len()
                    &&& forall|i: int|
                        0 <= i < candidates@.len() ==> call_ensures(
                            filter,
                            (&candidates@[i],),
                            #[trigger] decisions[i],
                        )
                    &&& found@ == #[trigger] matching(candidates@, decisions)
                },
            never_matches(filter) ==> found@.len() == 0,
    {
        WindowController::find(candidates, filter, false)
    }
}

/// The last node starts right behind a separator or at the front of the
/// path, and no separator follows its start.
pub proof fn lemma_last_node_start(path: Seq<char>)
    ensures
        0 <= last_node_start(path) <= path.len(),
        last_node_start(path) == 0 || is_separator(path[last_node_start(path) - 1]),
        forall|i: int| last_node_start(path) <= i < path.len() ==> !is_separator(#[trigger] path[i]),
    decreases path.len(),
{
    if path.len() != 0 && !is_separator(path.last()) {
        let front = path.drop_last();
        lemma_last_node_start(front);
        assert forall|i: int| last_node_start(path) <= i < path.len() implies !is_separator(
            #[trigger] path[i],
        ) by {
            if i < front.len() {
                assert(path[i] == front[i]);
            }
        }
        if last_node_start(path) != 0 {
            assert(path[last_node_start(path) - 1] == front[last_node_start(front) - 1]);
        }
    }
}

/// The outer bounds of a window that was placed at `[x, y, width, height]`
/// and took the place as it was given.
pub open spec fn placed_at(position: [i32; 4]) -> Rect {
    Rect {
        left: position[0],
        top: position[1],
        right: (position[0] + position[2]) as i32,
        bottom: (position[1] + position[3]) as i32,
    }
}

/// A window that was placed at four numbers, and has not moved since, has
/// those four numbers as its position, which are also the four that bringing
/// it to the front asks for: it stays where it is.
pub proof fn lemma_position_reads_back_placement(geometry: WindowGeometry, position: [i32; 4])
    requires
        i32::MIN <= position[0] + position[2] <= i32::MAX,
        i32::MIN <= position[1] + position[3] <= i32::MAX,
        geometry.window == placed_at(position),
    ensures
        geometry.outer_size_fits(),
        geometry.window.left == position[0],
        geometry.window.top == position[1],
        geometry.window.right - geometry.window.left == position[2],
        geometry.window.bottom - geometry.window.top == position[3],
{
}

/// Where no answer is yes, nothing matches.
pub proof fn lemma_matching_empty(candidates: Seq<WindowController>, decisions: Seq<bool>)
    requires
        forall|i: int| 0 <= i < decisions.len() ==> !#[trigger] decisions[i],
    ensures
        matching(candidates, decisions) == Seq::<WindowController>::empty(),
    decreases candidates.len(),
{
    if candidates.len() != 0 && decisions.len() != 0 {
        lemma_matching_empty(candidates.drop_last(), decisions.drop_last());
    }
}

} // verus!
