//! Navigation history for back/forward support.
use vstd::prelude::*;
use crate::path::{path_eq, same_path};

verus! {

/// Maximum number of entries kept for going back.
pub const MAX_BACK: usize = 100;

/// Abstract state of a navigation history.
pub struct HistoryState {
    /// Past locations, most recent last.
    pub back: Seq<String>,
    /// Locations undone by going back, most recent last.
    pub forward: Seq<String>,
    /// Current location.
    pub current: String,
}

/// A fresh history at `start`.
pub open spec fn new_history(start: String) -> HistoryState {
    HistoryState { back: Seq::empty(), forward: Seq::empty(), current: start }
}

/// Navigating to `path`: nothing changes when it is the current location;
/// otherwise the current location is remembered (the oldest one is dropped
/// past the limit) and the forward history is discarded.
pub open spec fn navigate_spec(s: HistoryState, path: String) -> HistoryState {
    if same_path(path@, s.current@) {
        s
    } else {
        let b = s.back.push(s.current);
        HistoryState {
            back: if b.len() > MAX_BACK { b.drop_first() } else { b },
            forward: Seq::empty(),
            current: path,
        }
    }
}

/// Going back: the last past location becomes current and the current one
/// moves to the forward history.
pub open spec fn go_back_spec(s: HistoryState) -> (Option<String>, HistoryState) {
    if s.back.len() == 0 {
        (None, s)
    } else {
        let prev = s.back.last();
        (
            Some(prev),
            HistoryState { back: s.back.drop_last(), forward: s.forward.push(s.current), current: prev },
        )
    }
}

/// Going forward: the last forward location becomes current and the current
/// one moves to the past.
pub open spec fn go_forward_spec(s: HistoryState) -> (Option<String>, HistoryState) {
    if s.forward.len() == 0 {
        (None, s)
    } else {
        let next = s.forward.last();
        (
            Some(next),
            HistoryState { back: s.back.push(s.current), forward: s.forward.drop_last(), current: next },
        )
    }
}

/// Navigation history with back/forward support.
#[derive(Debug)]
pub struct History {
    /// Past entries (for going back).
    back_stack: Vec<String>,
    /// Future entries (for going forward).
    forward_stack: Vec<String>,
    /// Current location.
    current: String,
    /// Maximum history size.
    max_size: usize,
}

impl History {
    /// The abstract state.
    pub closed spec fn state(&self) -> HistoryState {
        HistoryState { back: self.back_stack@, forward: self.forward_stack@, current: self.current }
    }

    /// The history is well formed: the past and the future together hold at
    /// most `MAX_BACK` locations.
    pub closed spec fn wf(&self) -> bool {
        &&& self.max_size == MAX_BACK
        &&& self.back_stack.len() + self.forward_stack.len() <= MAX_BACK
    }

    /// Create a new history starting at the given path.
    pub fn new(start: String) -> (res: Self)
        ensures
            res.wf(),
            res.state() == new_history(start),
            res.state().back.len() + res.state().forward.len() <= MAX_BACK,
    {
        History { back_stack: Vec::new(), forward_stack: Vec::new(), current: start, max_size: MAX_BACK }
    }

    /// Get the current location.
    pub fn current(&self) -> (res: &String)
        ensures
            *res == self.state().current,
    {
        &self.current
    }

    /// Navigate to a new path, clearing forward history.
    pub fn navigate(&mut self, path: String)
        requires
            old(self).wf(),
        ensures
            final(self).wf(),
            final(self).state() == navigate_spec(old(self).state(), path),
            final(self).state().back.len() <= MAX_BACK,
            final(self).state().back.len() + final(self).state().forward.len() <= MAX_BACK,
    {
        if path_eq(path.as_str(), self.current.as_str()) {
            return;
        }
        self.back_stack.push(self.current.clone());
        if self.back_stack.len() > self.max_size {
            self.back_stack.remove(0);
        }
        self.forward_stack.clear();
        self.current = path;
        assert(self.back_stack@ =~= navigate_spec(old(self).state(), path).back);
    }

    /// Go back in history. Returns the new current path if successful.
    pub fn go_back(&mut self) -> (res: Option<&String>)
        requires
            old(self).wf(),
        ensures
            final(self).wf(),
            final(self).state() == go_back_spec(old(self).state()).1,
            final(self).state().back.len() + final(self).state().forward.len() <= MAX_BACK,
            match res {
                Some(p) => go_back_spec(old(self).state()).0 == Some(*p),
                None => go_back_spec(old(self).state()).0 is None,
            },
    {
        if let Some(prev) = self.back_stack.pop() {
            self.forward_stack.push(self.current.clone());
            self.current = prev;
            Some(&self.current)
        } else {
            None
        }
    }

    /// Go forward in history. Returns the new current path if successful.
    pub fn go_forward(&mut self) -> (res: Option<&String>)
        requires
            old(self).wf(),
        ensures
            final(self).wf(),
            final(self).state() == go_forward_spec(old(self).state()).1,
            final(self).state().back.len() + final(self).state().forward.len() <= MAX_BACK,
            match res {
                Some(p) => go_forward_spec(old(self).state()).0 == Some(*p),
                None => go_forward_spec(old(self).state()).0 is None,
            },
    {
        if let Some(next) = self.forward_stack.pop() {
            self.back_stack.push(self.current.clone());
            self.current = next;
            Some(&self.current)
        } else {
            None
        }
    }

    /// Check if we can go back.
    pub fn can_go_back(&self) -> (res: bool)
        ensures
            res == (self.state().back.len() > 0),
    {
        !self.back_stack.is_empty()
    }

    /// Check if we can go forward.
    pub fn can_go_forward(&self) -> (res: bool)
        ensures
            res == (self.state().forward.len() > 0),
    {
        !self.forward_stack.is_empty()
    }
}

/// Going back right after navigating somewhere new returns to where we were,
/// and the place we left can then be reached by going forward.
pub proof fn law_navigate_then_back(s: HistoryState, path: String)
    requires
        !same_path(path@, s.current@),
    ensures
        go_back_spec(navigate_spec(s, path)).0 == Some(s.current),
        go_back_spec(navigate_spec(s, path)).1.current == s.current,
        go_back_spec(navigate_spec(s, path)).1.forward == seq![path],
        go_forward_spec(go_back_spec(navigate_spec(s, path)).1).0 == Some(path),
{
}

/// Going forward undoes going back exactly.
pub proof fn law_back_then_forward(s: HistoryState)
    requires
        s.back.len() > 0,
    ensures
        go_forward_spec(go_back_spec(s).1).1 == s,
{
    assert(go_forward_spec(go_back_spec(s).1).1.back =~= s.back);
    assert(go_forward_spec(go_back_spec(s).1).1.forward =~= s.forward);
}

/// Going back undoes going forward exactly.
pub proof fn law_forward_then_back(s: HistoryState)
    requires
        s.forward.len() > 0,
    ensures
        go_back_spec(go_forward_spec(s).1).1 == s,
{
    assert(go_back_spec(go_forward_spec(s).1).1.back =~= s.back);
    assert(go_back_spec(go_forward_spec(s).1).1.forward =~= s.forward);
}

/// Navigating somewhere new always leaves nothing to go forward to, and
/// something to go back to.
pub proof fn law_navigate_clears_forward(s: HistoryState, path: String)
    requires
        !same_path(path@, s.current@),
    ensures
        navigate_spec(s, path).forward.len() == 0,
        navigate_spec(s, path).back.len() > 0,
        navigate_spec(s, path).back.last() == s.current,
{
}

/// Navigating to the current location changes nothing.
pub proof fn law_navigate_same_is_noop(s: HistoryState, path: String)
    requires
        same_path(path@, s.current@),
    ensures
        navigate_spec(s, path) == s,
{
}

} // verus!
