//! Picking one window out of a snapshot: first by the name of its
//! application, then by its title.

use vstd::prelude::*;
use crate::text::{
    is_blank,
    is_substring,
    lemma_equal_texts_match,
    lowercase,
    lowered_match,
    to_lower,
    trimmed,
};
use crate::window::{snapshot_view, WindowDescriptor, WindowView};

verus! {

/// The two ways a window can be matched, in the order they are tried.
#[derive(Clone, Copy, Debug, PartialEq, Eq, Structural)]
pub enum Pass {
    /// By the name of the owning application.
    ByApplication,
    /// By the window's title.
    ByTitle,
}

/// Whether a pass looks at a window at all. The first pass leaves out only
/// windows known to be minimized; the second takes only windows known not
/// to be.
pub open spec fn eligible(pass: Pass, window: WindowView) -> bool {
    match pass {
        Pass::ByApplication => window.is_minimized != Some(true),
        Pass::ByTitle => window.is_minimized == Some(false),
    }
}

/// The text of a window that a pass compares.
pub open spec fn compared_text(pass: Pass, window: WindowView) -> Option<Seq<char>> {
    match pass {
        Pass::ByApplication => window.application_name,
        Pass::ByTitle => window.title,
    }
}

/// A pass accepts a window for a needle that is already in lower case.
pub open spec fn accepts(pass: Pass, window: WindowView, needle_lower: Seq<char>) -> bool {
    &&& eligible(pass, window)
    &&& compared_text(pass, window) matches Some(text)
    &&& is_substring(needle_lower, lowercase(text))
}

/// The first window, in listing order, that a pass accepts.
pub open spec fn first_accepted(windows: Seq<WindowView>, pass: Pass, needle_lower: Seq<char>)
    -> Option<int>
    decreases windows.len(),
{
    if windows.len() == 0 {
        None
    } else {
        match first_accepted(windows.drop_last(), pass, needle_lower) {
            Some(i) => Some(i),
            None => if accepts(pass, windows.last(), needle_lower) {
                Some(windows.len() - 1)
            } else {
                None
            },
        }
    }
}

/// Whether the first pass is run at all: only for a hint that is more than
/// white space.
pub open spec fn application_pass_runs(hint: Seq<char>) -> bool {
    trimmed(hint).len() > 0
}

/// The window that resolving picks: the first that the application pass
/// accepts, if that pass runs and accepts any; else the first that the title
/// pass accepts.
pub open spec fn resolution(windows: Seq<WindowView>, title: Seq<char>, hint: Seq<char>)
    -> Option<int> {
    let by_application = first_accepted(windows, Pass::ByApplication, lowercase(hint));
    if application_pass_runs(hint) && by_application is Some {
        by_application
    } else {
        first_accepted(windows, Pass::ByTitle, lowercase(title))
    }
}

/// `r` is the index that `expected` names.
pub open spec fn is_index(r: Option<usize>, expected: Option<int>) -> bool {
    match expected {
        Some(i) => r == Some(i as usize) && 0 <= i <= usize::MAX,
        None => r is None,
    }
}

/// What `first_accepted` finds is accepted, nothing before it is, and it
/// finds nothing only where nothing is accepted.
pub proof fn lemma_first_accepted(windows: Seq<WindowView>, pass: Pass, needle_lower: Seq<char>)
    ensures
        match first_accepted(windows, pass, needle_lower) {
            Some(i) => {
                &&& 0 <= i < windows.len()
                &&& accepts(pass, windows[i], needle_lower)
                &&& forall|j: int| 0 <= j < i ==> !accepts(pass, #[trigger] windows[j], needle_lower)
            },
            None => forall|j: int|
                0 <= j < windows.len() ==> !accepts(pass, #[trigger] windows[j], needle_lower),
        },
    decreases windows.len(),
{
    if windows.len() > 0 {
        let front = windows.drop_last();
        lemma_first_accepted(front, pass, needle_lower);
        assert(forall|j: int| 0 <= j < front.len() ==> front[j] == windows[j]);
        match first_accepted(front, pass, needle_lower) {
            Some(i) => {
                assert(front[i] == windows[i]);
                assert forall|j: int| 0 <= j < i implies !accepts(
                    pass,
                    #[trigger] windows[j],
                    needle_lower,
                ) by {
                    assert(front[j] == windows[j]);
                }
            },
            None => {
                assert forall|j: int| 0 <= j < front.len() implies !accepts(
                    pass,
                    #[trigger] windows[j],
                    needle_lower,
                ) by {
                    assert(front[j] == windows[j]);
                }
            },
        }
    }
}

/// A window that a pass accepts, with none accepted before it, is the one
/// that `first_accepted` finds.
pub proof fn lemma_first_accepted_is_unique(
    windows: Seq<WindowView>,
    pass: Pass,
    needle_lower: Seq<char>,
    i: int,
)
    requires
        0 <= i < windows.len(),
        accepts(pass, windows[i], needle_lower),
        forall|j: int| 0 <= j < i ==> !accepts(pass, #[trigger] windows[j], needle_lower),
    ensures
        first_accepted(windows, pass, needle_lower) == Some(i),
{
    lemma_first_accepted(windows, pass, needle_lower);
}

/// The application pass comes first: where it runs and accepts a window,
/// the first such window is picked, whatever the titles are and whatever
/// title is looked for.
pub proof fn lemma_application_pass_precedes(
    windows: Seq<WindowView>,
    title: Seq<char>,
    hint: Seq<char>,
    i: int,
)
    requires
        application_pass_runs(hint),
        0 <= i < windows.len(),
        accepts(Pass::ByApplication, windows[i], lowercase(hint)),
        forall|j: int|
            0 <= j < i ==> !accepts(Pass::ByApplication, #[trigger] windows[j], lowercase(hint)),
    ensures
        resolution(windows, title, hint) == Some(i),
{
    lemma_first_accepted_is_unique(windows, Pass::ByApplication, lowercase(hint), i);
}

/// Where the application pass does not run or accepts nothing, the first
/// window that the title pass accepts is picked.
pub proof fn lemma_title_pass_follows(
    windows: Seq<WindowView>,
    title: Seq<char>,
    hint: Seq<char>,
    i: int,
)
    requires
        !application_pass_runs(hint) || forall|j: int|
            0 <= j < windows.len() ==> !accepts(
                Pass::ByApplication,
                #[trigger] windows[j],
                lowercase(hint),
            ),
        0 <= i < windows.len(),
        accepts(Pass::ByTitle, windows[i], lowercase(title)),
        forall|j: int| 0 <= j < i ==> !accepts(Pass::ByTitle, #[trigger] windows[j], lowercase(title)),
    ensures
        resolution(windows, title, hint) == Some(i),
{
    lemma_first_accepted(windows, Pass::ByApplication, lowercase(hint));
    lemma_first_accepted_is_unique(windows, Pass::ByTitle, lowercase(title), i);
}

/// A window whose minimized state is unknown can be picked by the
/// application pass and never by the title pass.
pub proof fn lemma_unknown_state_asymmetry(window: WindowView, needle_lower: Seq<char>)
    requires
        window.is_minimized is None,
    ensures
        eligible(Pass::ByApplication, window),
        !eligible(Pass::ByTitle, window),
        !accepts(Pass::ByTitle, window, needle_lower),
        accepts(Pass::ByApplication, window, needle_lower) <==> (window.application_name matches Some(
            name,
        ) && is_substring(needle_lower, lowercase(name))),
{
}

/// A window known to be minimized is picked by neither pass.
pub proof fn lemma_minimized_is_skipped(window: WindowView, pass: Pass, needle_lower: Seq<char>)
    requires
        window.is_minimized == Some(true),
    ensures
        !accepts(pass, window, needle_lower),
{
}

/// Nothing is picked exactly where the title pass accepts no window and the
/// application pass does not run or accepts none. An empty snapshot is one
/// such case. What is picked is a window of the snapshot.
pub proof fn lemma_no_match_no_window(windows: Seq<WindowView>, title: Seq<char>, hint: Seq<char>)
    ensures
        resolution(windows, title, hint) is None <==> {
            &&& forall|j: int|
                0 <= j < windows.len() ==> !accepts(
                    Pass::ByTitle,
                    #[trigger] windows[j],
                    lowercase(title),
                )
            &&& !application_pass_runs(hint) || forall|j: int|
                0 <= j < windows.len() ==> !accepts(
                    Pass::ByApplication,
                    #[trigger] windows[j],
                    lowercase(hint),
                )
        },
        windows.len() == 0 ==> resolution(windows, title, hint) is None,
        resolution(windows, title, hint) matches Some(i) ==> 0 <= i < windows.len(),
{
    lemma_first_accepted(windows, Pass::ByApplication, lowercase(hint));
    lemma_first_accepted(windows, Pass::ByTitle, lowercase(title));
}

/// Resolving is a function of the snapshot and the hints: two runs on the
/// same snapshot with the same hints pick the same window, and so the same
/// handle.
pub proof fn lemma_resolution_is_stable(
    windows: Seq<WindowDescriptor>,
    title: Seq<char>,
    hint: Seq<char>,
    first: Option<usize>,
    second: Option<usize>,
)
    requires
        is_index(first, resolution(snapshot_view(windows), title, hint)),
        is_index(second, resolution(snapshot_view(windows), title, hint)),
    ensures
        first == second,
        first matches Some(i) ==> second matches Some(j) && windows[i as int].handle
            == windows[j as int].handle,
{
}

/// Tells whether a pass accepts a window, for a needle already in lower
/// case.
pub fn accepts_window(pass: Pass, window: &WindowDescriptor, needle_lower: &str) -> (r: bool)
    ensures
        r == accepts(pass, window@, needle_lower@),
{
    let looked_at = match pass {
        Pass::ByApplication => match window.is_minimized {
            Some(minimized) => !minimized,
            None => true,
        },
        Pass::ByTitle => match window.is_minimized {
            Some(minimized) => !minimized,
            None => false,
        },
    };
    if !looked_at {
        return false;
    }
    let text = match pass {
        Pass::ByApplication => &window.application_name,
        Pass::ByTitle => &window.title,
    };
    match text {
        Some(text) => {
            let text_lower = to_lower(text.as_str());
            proof {
                lemma_equal_texts_match(needle_lower@);
            }
            lowered_match(text_lower.as_str(), needle_lower)
        },
        None => false,
    }
}

/// Walks the snapshot in listing order and returns the first window that the
/// pass accepts.
pub fn scan(windows: &Vec<WindowDescriptor>, pass: Pass, needle_lower: &str) -> (r: Option<usize>)
    ensures
        is_index(r, first_accepted(snapshot_view(windows@), pass, needle_lower@)),
{
    let ghost all = snapshot_view(windows@);
    let mut i: usize = 0;
    while i < windows.len()
        invariant
            i <= windows.len(),
            all == snapshot_view(windows@),
            first_accepted(all.take(i as int), pass, needle_lower@) is None,
        decreases windows.len() - i,
    {
        assert(all.take(i + 1).drop_last() == all.take(i as int));
        assert(all.take(i + 1).last() == windows[i as int]@);
        if accepts_window(pass, &windows[i], needle_lower) {
            proof {
                lemma_found_in_prefix(all, i as int, pass, needle_lower@);
            }
            return Some(i);
        }
        i += 1;
    }
    assert(all.take(i as int) == all);
    None
}

/// What is first in a prefix of the snapshot is first in the snapshot.
proof fn lemma_found_in_prefix(
    windows: Seq<WindowView>,
    i: int,
    pass: Pass,
    needle_lower: Seq<char>,
)
    requires
        0 <= i < windows.len(),
        first_accepted(windows.take(i + 1), pass, needle_lower) == Some(i),
    ensures
        first_accepted(windows, pass, needle_lower) == Some(i),
    decreases windows.len(),
{
    if windows.len() == i + 1 {
        assert(windows.take(i + 1) == windows);
    } else {
        assert(windows.drop_last().take(i + 1) == windows.take(i + 1));
        lemma_found_in_prefix(windows.drop_last(), i, pass, needle_lower);
    }
}

/// Picks the window to capture: by application name if a hint is given and
/// some window answers to it, else by title.
pub fn find_window(windows: &Vec<WindowDescriptor>, window_title: &str, application_name: &str)
    -> (r: Option<usize>)
    ensures
        is_index(r, resolution(snapshot_view(windows@), window_title@, application_name@)),
        r matches Some(i) ==> i < windows.len(),
{
    proof {
        lemma_first_accepted(
            snapshot_view(windows@),
            Pass::ByApplication,
            lowercase(application_name@),
        );
        lemma_first_accepted(snapshot_view(windows@), Pass::ByTitle, lowercase(window_title@));
    }
    if !is_blank(application_name) {
        let hint_lower = to_lower(application_name);
        let found = scan(windows, Pass::ByApplication, hint_lower.as_str());
        if found.is_some() {
            return found;
        }
    }
    let title_lower = to_lower(window_title);
    scan(windows, Pass::ByTitle, title_lower.as_str())
}

/// The window that `find_window` picks, if any.
pub fn resolve<'a>(
    windows: &'a Vec<WindowDescriptor>,
    window_title: &str,
    application_name: &str,
) -> (r: Option<&'a WindowDescriptor>)
    ensures
        match resolution(snapshot_view(windows@), window_title@, application_name@) {
            Some(i) => 0 <= i < windows.len() && r == Some(&windows[i]),
            None => r is None,
        },
{
    match find_window(windows, window_title, application_name) {
        Some(i) => Some(&windows[i]),
        None => None,
    }
}

} // verus!
