//! The viewer of a unit's definition file: its lines, a scroll position and
//! a search over the lines.

use vstd::prelude::*;
use vstd::string::*;
use crate::app::details::scrolled_up;
use crate::app::logs::{lemma_next_in_cycle, lemma_previous_in_cycle, next_match, previous_match};
use crate::app::{App, UnitFileViewer};
use crate::text::{indices_where, is_infix, lowercase_of, str_contains, to_lowercase};

verus! {

/// The indices of the first `n` lines that hold the query, without regard to
/// case.
pub open spec fn line_matches_prefix(lines: Seq<Seq<char>>, query: Seq<char>, n: nat) -> Seq<
    usize,
> {
    indices_where(n, |i: int| is_infix(lowercase_of(query), lowercase_of(lines[i])))
}

/// The indices of the lines that hold the query, without regard to case;
/// none for the empty query.
pub open spec fn line_matches(lines: Seq<Seq<char>>, query: Seq<char>) -> Seq<usize> {
    if query.len() == 0 {
        Seq::empty()
    } else {
        line_matches_prefix(lines, query, lines.len())
    }
}

/// The scroll position after a jump to `line`: the viewer moves to the line
/// unless it starts at or before it and the line is within `visible` lines of
/// the start.
pub open spec fn scroll_showing(scroll: usize, line: usize, visible: usize) -> usize {
    if line < scroll || line >= scroll + visible {
        line
    } else {
        scroll
    }
}

/// The scroll position `amount` lines down in a text of `len` lines: never
/// past the last line, and unchanged in an empty text.
pub open spec fn scrolled_down(scroll: usize, amount: usize, len: nat) -> usize {
    if len == 0 {
        scroll
    } else if scroll + amount < len {
        (scroll + amount) as usize
    } else {
        (len - 1) as usize
    }
}

/// The lines shown for a definition file that could not be read.
pub open spec fn file_error_lines(error: Seq<char>) -> Seq<Seq<char>> {
    seq!["Error: "@ + error]
}

impl UnitFileViewer {
    /// The search of the viewer is empty: no query, no matches, no current
    /// match.
    pub open spec fn search_is_clear(&self) -> bool {
        &&& self.unit_file_search_query@.len() == 0
        &&& self.unit_file_search_matches@.len() == 0
        &&& self.unit_file_search_match_index is None
    }

    /// The viewer is closed and holds nothing.
    pub open spec fn is_closed(&self) -> bool {
        &&& !self.show_unit_file
        &&& self.unit_file_content@.len() == 0
        &&& self.unit_file_scroll == 0
        &&& self.unit_file_unit_name is None
        &&& !self.unit_file_search_mode
        &&& self.search_is_clear()
    }
}

impl App {
    /// Opens the viewer on the definition file of the unit under the cursor,
    /// at its first line and with an empty search. `fetched` is what reading
    /// the file brought: its lines, or the error, which is shown in their
    /// place. Without a unit under the cursor nothing changes.
    pub fn open_unit_file(&mut self, fetched: Result<Vec<String>, String>)
        ensures
            match old(self).units.selected_unit_name() {
                Some(name) => {
                    &&& *final(self) == (App { unit_file: final(self).unit_file, ..*old(self) })
                    &&& final(self).unit_file.show_unit_file
                    &&& final(self).unit_file.unit_file_scroll == 0
                    &&& !final(self).unit_file.unit_file_search_mode
                    &&& final(self).unit_file.search_is_clear()
                    &&& final(self).unit_file.unit_file_unit_name.deep_view() == Some(name)
                    &&& final(self).unit_file.unit_file_content.deep_view() == match fetched {
                        Ok(lines) => lines.deep_view(),
                        Err(e) => file_error_lines(e@),
                    }
                },
                None => *final(self) == *old(self),
            },
    {
        let name = match self.selected_unit() {
            Some(unit) => unit.unit.clone(),
            None => {
                return ;
            },
        };
        match fetched {
            Ok(lines) => {
                self.unit_file.unit_file_content = lines;
            },
            Err(e) => {
                let mut lines: Vec<String> = Vec::new();
                lines.push(String::from_str("Error: ").concat(e.as_str()));
                assert(lines.deep_view() =~= file_error_lines(e@));
                self.unit_file.unit_file_content = lines;
            },
        }
        self.unit_file.unit_file_unit_name = Some(name);
        self.unit_file.unit_file_scroll = 0;
        self.unit_file.unit_file_search_query = String::new();
        self.unit_file.unit_file_search_matches = Vec::new();
        self.unit_file.unit_file_search_match_index = None;
        self.unit_file.unit_file_search_mode = false;
        self.unit_file.show_unit_file = true;
    }

    /// Closes the viewer and forgets the file and the search.
    pub fn close_unit_file(&mut self)
        ensures
            *final(self) == (App { unit_file: final(self).unit_file, ..*old(self) }),
            final(self).unit_file.is_closed(),
    {
        self.unit_file.show_unit_file = false;
        self.unit_file.unit_file_content = Vec::new();
        self.unit_file.unit_file_scroll = 0;
        self.unit_file.unit_file_unit_name = None;
        self.unit_file.unit_file_search_query = String::new();
        self.unit_file.unit_file_search_matches = Vec::new();
        self.unit_file.unit_file_search_match_index = None;
        self.unit_file.unit_file_search_mode = false;
    }

    /// Scrolls the viewer up by `amount` lines, stopping at the first line.
    pub fn scroll_unit_file_up(&mut self, amount: usize)
        ensures
            *final(self) == (App {
                unit_file: UnitFileViewer {
                    unit_file_scroll: scrolled_up(old(self).unit_file.unit_file_scroll, amount),
                    ..old(self).unit_file
                },
                ..*old(self)
            }),
    {
        self.unit_file.unit_file_scroll = if self.unit_file.unit_file_scroll >= amount {
            self.unit_file.unit_file_scroll - amount
        } else {
            0
        };
    }

    /// Scrolls the viewer down by `amount` lines, never past the last line.
    pub fn scroll_unit_file_down(&mut self, amount: usize)
        ensures
            *final(self) == (App {
                unit_file: UnitFileViewer {
                    unit_file_scroll: scrolled_down(
                        old(self).unit_file.unit_file_scroll,
                        amount,
                        old(self).unit_file.unit_file_content@.len(),
                    ),
                    ..old(self).unit_file
                },
                ..*old(self)
            }),
    {
        let len = self.unit_file.unit_file_content.len();
        if len > 0 {
            let scroll = self.unit_file.unit_file_scroll;
            self.unit_file.unit_file_scroll = if scroll < len && amount < len - scroll {
                scroll + amount
            } else {
                len - 1
            };
        }
    }

    /// Moves the viewer to the first line.
    pub fn unit_file_go_to_top(&mut self)
        ensures
            *final(self) == (App {
                unit_file: UnitFileViewer { unit_file_scroll: 0, ..old(self).unit_file },
                ..*old(self)
            }),
    {
        self.unit_file.unit_file_scroll = 0;
    }

    /// Moves the viewer to the last line, if there are lines.
    pub fn unit_file_go_to_bottom(&mut self)
        ensures
            *final(self) == (App {
                unit_file: UnitFileViewer {
                    unit_file_scroll: if old(self).unit_file.unit_file_content@.len() > 0 {
                        (old(self).unit_file.unit_file_content@.len() - 1) as usize
                    } else {
                        old(self).unit_file.unit_file_scroll
                    },
                    ..old(self).unit_file
                },
                ..*old(self)
            }),
    {
        let len = self.unit_file.unit_file_content.len();
        if len > 0 {
            self.unit_file.unit_file_scroll = len - 1;
        }
    }

    /// Searches the lines for the query: computes the matches anew, makes
    /// the first the current match and moves the viewer to it. Without a
    /// match, and for the empty query, no match is current and the viewer
    /// stays.
    pub fn update_unit_file_search(&mut self)
        ensures
            *final(self) == (App { unit_file: final(self).unit_file, ..*old(self) }),
            final(self).unit_file == (UnitFileViewer {
                unit_file_search_matches: final(self).unit_file.unit_file_search_matches,
                unit_file_search_match_index: final(self).unit_file.unit_file_search_match_index,
                unit_file_scroll: final(self).unit_file.unit_file_scroll,
                ..old(self).unit_file
            }),
            final(self).unit_file.unit_file_search_matches@ == line_matches(
                old(self).unit_file.unit_file_content.deep_view(),
                old(self).unit_file.unit_file_search_query@,
            ),
            final(self).unit_file.unit_file_search_matches@.len() == 0 ==> {
                &&& final(self).unit_file.unit_file_search_match_index is None
                &&& final(self).unit_file.unit_file_scroll == old(self).unit_file.unit_file_scroll
            },
            final(self).unit_file.unit_file_search_matches@.len() > 0 ==> {
                &&& final(self).unit_file.unit_file_search_match_index == Some(0usize)
                &&& final(self).unit_file.unit_file_scroll
                    == final(self).unit_file.unit_file_search_matches@[0]
            },
    {
        self.unit_file.unit_file_search_match_index = None;
        let mut found: Vec<usize> = Vec::new();
        if !self.unit_file.unit_file_search_query.as_str().is_empty() {
            let query = to_lowercase(self.unit_file.unit_file_search_query.as_str());
            let ghost lines = self.unit_file.unit_file_content.deep_view();
            let ghost raw = self.unit_file.unit_file_search_query@;
            let mut i: usize = 0;
            while i < self.unit_file.unit_file_content.len()
                invariant
                    i <= self.unit_file.unit_file_content.len(),
                    lines == self.unit_file.unit_file_content.deep_view(),
                    query@ == lowercase_of(raw),
                    found@ == line_matches_prefix(lines, raw, i as nat),
                decreases self.unit_file.unit_file_content.len() - i,
            {
                assert(lines[i as int] == self.unit_file.unit_file_content[i as int]@);
                let line = to_lowercase(self.unit_file.unit_file_content[i].as_str());
                if str_contains(line.as_str(), query.as_str()) {
                    found.push(i);
                }
                i = i + 1;
            }
        }
        if found.len() > 0 {
            self.unit_file.unit_file_search_match_index = Some(0);
            self.unit_file.unit_file_scroll = found[0];
        }
        self.unit_file.unit_file_search_matches = found;
    }

    /// Drops the search of the viewer: query, matches and current match.
    pub fn clear_unit_file_search(&mut self)
        ensures
            *final(self) == (App { unit_file: final(self).unit_file, ..*old(self) }),
            final(self).unit_file == (UnitFileViewer {
                unit_file_search_query: final(self).unit_file.unit_file_search_query,
                unit_file_search_matches: final(self).unit_file.unit_file_search_matches,
                unit_file_search_match_index: None,
                ..old(self).unit_file
            }),
            final(self).unit_file.search_is_clear(),
    {
        self.unit_file.unit_file_search_query = String::new();
        self.unit_file.unit_file_search_matches = Vec::new();
        self.unit_file.unit_file_search_match_index = None;
    }

    /// Makes the match after the current one current, wrapping from the last
    /// to the first, and moves the viewer to its line if that is outside the
    /// `visible_lines` lines shown. Without matches nothing changes.
    pub fn next_unit_file_match(&mut self, visible_lines: usize)
        ensures
            old(self).unit_file.unit_file_search_matches@.len() == 0 ==> *final(self) == *old(
                self,
            ),
            old(self).unit_file.unit_file_search_matches@.len() > 0 ==> {
                let matches = old(self).unit_file.unit_file_search_matches@;
                let position = next_match(
                    old(self).unit_file.unit_file_search_match_index,
                    matches.len(),
                );
                &&& position < matches.len()
                &&& *final(self) == (App {
                    unit_file: UnitFileViewer {
                        unit_file_search_match_index: Some(position),
                        unit_file_scroll: scroll_showing(
                            old(self).unit_file.unit_file_scroll,
                            matches[position as int],
                            visible_lines,
                        ),
                        ..old(self).unit_file
                    },
                    ..*old(self)
                })
            },
    {
        let len = self.unit_file.unit_file_search_matches.len();
        if len == 0 {
            return ;
        }
        let position: usize = match self.unit_file.unit_file_search_match_index {
            Some(i) => {
                proof {
                    lemma_next_in_cycle(i as int, len as int);
                }
                let r: usize = i % len;
                if r + 1 == len {
                    0
                } else {
                    r + 1
                }
            },
            None => 0,
        };
        self.show_unit_file_match(position, visible_lines);
    }

    /// Makes the match before the current one current, wrapping from the
    /// first to the last, and moves the viewer to its line if that is
    /// outside the `visible_lines` lines shown. Without matches nothing
    /// changes.
    pub fn prev_unit_file_match(&mut self, visible_lines: usize)
        ensures
            old(self).unit_file.unit_file_search_matches@.len() == 0 ==> *final(self) == *old(
                self,
            ),
            old(self).unit_file.unit_file_search_matches@.len() > 0 ==> {
                let matches = old(self).unit_file.unit_file_search_matches@;
                let position = previous_match(
                    old(self).unit_file.unit_file_search_match_index,
                    matches.len(),
                );
                &&& position < matches.len()
                &&& *final(self) == (App {
                    unit_file: UnitFileViewer {
                        unit_file_search_match_index: Some(position),
                        unit_file_scroll: scroll_showing(
                            old(self).unit_file.unit_file_scroll,
                            matches[position as int],
                            visible_lines,
                        ),
                        ..old(self).unit_file
                    },
                    ..*old(self)
                })
            },
    {
        let len = self.unit_file.unit_file_search_matches.len();
        if len == 0 {
            return ;
        }
        let position: usize = match self.unit_file.unit_file_search_match_index {
            Some(i) => {
                proof {
                    lemma_previous_in_cycle(i as int, len as int);
                }
                let r: usize = i % len;
                if r == 0 {
                    len - 1
                } else {
                    r - 1
                }
            },
            None => len - 1,
        };
        self.show_unit_file_match(position, visible_lines);
    }

    fn show_unit_file_match(&mut self, position: usize, visible_lines: usize)
        requires
            position < old(self).unit_file.unit_file_search_matches@.len(),
        ensures
            *final(self) == (App {
                unit_file: UnitFileViewer {
                    unit_file_search_match_index: Some(position),
                    unit_file_scroll: scroll_showing(
                        old(self).unit_file.unit_file_scroll,
                        old(self).unit_file.unit_file_search_matches@[position as int],
                        visible_lines,
                    ),
                    ..old(self).unit_file
                },
                ..*old(self)
            }),
    {
        self.unit_file.unit_file_search_match_index = Some(position);
        let line = self.unit_file.unit_file_search_matches[position];
        let scroll = self.unit_file.unit_file_scroll;
        if line < scroll || line - scroll >= visible_lines {
            self.unit_file.unit_file_scroll = line;
        }
    }
}

} // verus!
