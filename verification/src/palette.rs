//! The command palette: canned suggestions, a case-insensitive filter and
//! a wrapping selection.

use vstd::prelude::*;
use crate::text::{contains_ci, contains_seq, lower_seq, views_of};

verus! {

/// The palette's built-in suggestions.
pub open spec fn default_suggestions() -> Seq<Seq<char>> {
    seq![
        "task add --title 'New task' --priority high"@,
        "prep start --exam CET --duration 60"@,
        "blog new --title 'My Blog Post'"@,
        "agent 'help me with...'"@,
        "git status"@,
        "git add ."@,
        "git commit -m 'message'"@,
        "cargo build"@,
        "cargo test"@,
        "ls -la"@,
        "cd .."@,
        "pwd"@,
    ]
}

/// Whether a suggestion survives the filter: the filter text occurs in it,
/// ignoring ASCII case.
pub open spec fn filter_keeps(filter: Seq<char>) -> spec_fn(Seq<char>) -> bool {
    |s: Seq<char>| contains_seq(lower_seq(s), lower_seq(filter))
}

/// Command palette for command suggestions.
#[derive(Clone, Debug)]
pub struct CommandPalette {
    pub suggestions: Vec<String>,
    pub selected_index: usize,
    pub filter: String,
    pub is_visible: bool,
}

impl CommandPalette {
    /// The suggestions that survive the current filter; an empty filter
    /// keeps all of them.
    pub open spec fn filtered_spec(self) -> Seq<Seq<char>> {
        if self.filter@.len() == 0 {
            views_of(self.suggestions@)
        } else {
            views_of(self.suggestions@).filter(filter_keeps(self.filter@))
        }
    }

    pub fn new() -> (r: Self)
        ensures
            views_of(r.suggestions@) == default_suggestions(),
            r.selected_index == 0,
            r.filter@.len() == 0,
            r.is_visible == false,
    {
        let mut suggestions: Vec<String> = Vec::new();
        suggestions.push(String::from_str("task add --title 'New task' --priority high"));
        suggestions.push(String::from_str("prep start --exam CET --duration 60"));
        suggestions.push(String::from_str("blog new --title 'My Blog Post'"));
        suggestions.push(String::from_str("agent 'help me with...'"));
        suggestions.push(String::from_str("git status"));
        suggestions.push(String::from_str("git add ."));
        suggestions.push(String::from_str("git commit -m 'message'"));
        suggestions.push(String::from_str("cargo build"));
        suggestions.push(String::from_str("cargo test"));
        suggestions.push(String::from_str("ls -la"));
        suggestions.push(String::from_str("cd .."));
        suggestions.push(String::from_str("pwd"));
        proof {
            assert(views_of(suggestions@) =~= default_suggestions());
        }
        CommandPalette {
            suggestions,
            selected_index: 0,
            filter: String::new(),
            is_visible: false,
        }
    }

    /// Show or hide the palette; hiding clears the filter and the
    /// selection.
    pub fn toggle(&mut self)
        ensures
            final(self).is_visible == !old(self).is_visible,
            final(self).suggestions == old(self).suggestions,
            final(self).is_visible ==> (final(self).filter == old(self).filter
                && final(self).selected_index == old(self).selected_index),
            !final(self).is_visible ==> (final(self).filter@.len() == 0
                && final(self).selected_index == 0),
    {
        self.is_visible = !self.is_visible;
        if !self.is_visible {
            self.filter = String::new();
            self.selected_index = 0;
        }
    }

    /// Replace the filter text and reset the selection.
    pub fn update_filter(&mut self, filter: String)
        ensures
            final(self).filter@ == filter@,
            final(self).selected_index == 0,
            final(self).suggestions == old(self).suggestions,
            final(self).is_visible == old(self).is_visible,
    {
        self.filter = filter;
        self.selected_index = 0;
    }

    /// The suggestions that survive the current filter.
    pub fn get_filtered_suggestions(&self) -> (r: Vec<String>)
        ensures
            views_of(r@) == self.filtered_spec(),
    {
        if self.filter.as_str().unicode_len() == 0 {
            let r = self.suggestions.clone();
            proof {
                assert(views_of(r@) =~= views_of(self.suggestions@));
            }
            return r;
        }
        let ghost vs = views_of(self.suggestions@);
        let ghost pred = filter_keeps(self.filter@);
        let mut out: Vec<String> = Vec::new();
        let mut i: usize = 0;
        proof {
            reveal(Seq::filter);
            assert(vs.take(0) =~= Seq::<Seq<char>>::empty());
            assert(views_of(out@) =~= vs.take(0).filter(pred));
        }
        while i < self.suggestions.len()
            invariant
                vs == views_of(self.suggestions@),
                pred == filter_keeps(self.filter@),
                0 <= i <= vs.len(),
                views_of(out@) == vs.take(i as int).filter(pred),
            decreases vs.len() - i,
        {
            let keep = contains_ci(self.suggestions[i].as_str(), self.filter.as_str());
            proof {
                assert(vs.take(i + 1) =~= vs.take(i as int).push(vs[i as int]));
                vs.take(i as int).lemma_filter_push(vs[i as int], pred);
                assert(vs.take(i as int).push(vs[i as int]).filter(pred) == if pred(
                    vs[i as int],
                ) {
                    vs.take(i as int).filter(pred).push(vs[i as int])
                } else {
                    vs.take(i as int).filter(pred)
                });
            }
            if keep {
                out.push(self.suggestions[i].clone());
                proof {
                    assert(views_of(out@) =~= views_of(out@.drop_last()).push(
                        vs[i as int],
                    ));
                }
            }
            i = i + 1;
        }
        proof {
            assert(vs.take(vs.len() as int) =~= vs);
        }
        out
    }

    /// Move the selection by one, wrapping around the filtered list; a
    /// positive direction moves down, a negative one up, zero stands
    /// still, and an empty list leaves everything unchanged.
    pub fn move_selection(&mut self, direction: i32)
        requires
            old(self).selected_index < usize::MAX,
        ensures
            final(self).suggestions == old(self).suggestions,
            final(self).filter == old(self).filter,
            final(self).is_visible == old(self).is_visible,
            final(self).selected_index == {
                let count = old(self).filtered_spec().len();
                if count == 0 || direction == 0 {
                    old(self).selected_index as int
                } else if direction > 0 {
                    ((old(self).selected_index + 1) as int) % (count as int)
                } else if old(self).selected_index == 0 {
                    count - 1
                } else {
                    old(self).selected_index - 1
                }
            },
    {
        let filtered = self.get_filtered_suggestions();
        let count = filtered.len();
        if count == 0 {
            return;
        }
        if direction > 0 {
            self.selected_index = (self.selected_index + 1) % count;
        } else if direction < 0 {
            if self.selected_index == 0 {
                self.selected_index = count - 1;
            } else {
                self.selected_index = self.selected_index - 1;
            }
        }
    }

    /// The currently selected suggestion, if the selection is in range of
    /// the filtered list.
    pub fn get_selected_suggestion(&self) -> (r: Option<String>)
        ensures
            match r {
                Some(s) => self.selected_index < self.filtered_spec().len() && s@
                    == self.filtered_spec()[self.selected_index as int],
                None => self.selected_index >= self.filtered_spec().len(),
            },
    {
        let filtered = self.get_filtered_suggestions();
        if self.selected_index < filtered.len() {
            Some(filtered[self.selected_index].clone())
        } else {
            None
        }
    }
}

} // verus!
