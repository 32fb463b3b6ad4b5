//! The details overlay: the fact sheet of one unit, read once per unit and
//! remembered until category or scope change.

use vstd::prelude::*;
use vstd::string::*;
use crate::app::{App, Details};
use crate::service::{empty_properties, PropertiesView, UnitProperties};

verus! {

/// The scroll position `amount` lines up, stopping at the first line.
pub open spec fn scrolled_up(scroll: usize, amount: usize) -> usize {
    if scroll >= amount {
        (scroll - amount) as usize
    } else {
        0
    }
}

/// The scroll position `amount` lines down in a text of `content` lines
/// shown `visible` lines at a time: never past the position that shows the
/// last line at the bottom, and unchanged where the text fits.
pub open spec fn scrolled_down_within(
    scroll: usize,
    amount: usize,
    content: usize,
    visible: usize,
) -> usize {
    if content <= visible {
        scroll
    } else if scroll + amount <= content - visible {
        (scroll + amount) as usize
    } else {
        (content - visible) as usize
    }
}

/// The fact sheet that is shown where none was read: the empty one.
pub open spec fn fetched_or_empty(fetched: Option<UnitProperties>) -> PropertiesView {
    match fetched {
        Some(p) => p@,
        None => empty_properties(),
    }
}

impl App {
    /// The name of the unit whose fact sheet must be read before its details
    /// can be shown: the unit under the cursor, unless its fact sheet is
    /// remembered.
    pub open spec fn details_missing(&self) -> Option<Seq<char>> {
        match self.units.selected_unit_name() {
            Some(name) => if self.details.properties_cache@.contains_key(name) {
                None
            } else {
                Some(name)
            },
            None => None,
        }
    }

    /// The name of the unit whose fact sheet is to be read and handed to
    /// `open_details`, if any.
    pub fn details_to_fetch(&self) -> (r: Option<String>)
        ensures
            r.deep_view() == self.details_missing(),
    {
        match self.selected_unit() {
            Some(unit) => {
                if self.details.properties_cache.get(unit.unit.as_str()).is_some() {
                    None
                } else {
                    Some(unit.unit.clone())
                }
            },
            None => None,
        }
    }

    /// Opens the details overlay for the unit under the cursor, at its first
    /// line. A remembered fact sheet is shown as it is and `fetched` is
    /// ignored. Otherwise `fetched` is shown and remembered; where nothing
    /// was read, that is the empty fact sheet. Without a unit under the
    /// cursor nothing changes.
    pub fn open_details(&mut self, fetched: Option<UnitProperties>)
        ensures
            match old(self).units.selected_unit_name() {
                Some(name) => {
                    &&& *final(self) == (App { details: final(self).details, ..*old(self) })
                    &&& final(self).details == (Details {
                        show_details: true,
                        detail_scroll: 0,
                        detail_properties: final(self).details.detail_properties,
                        detail_unit_name: final(self).details.detail_unit_name,
                        properties_cache: final(self).details.properties_cache,
                        ..old(self).details
                    })
                    &&& final(self).details.detail_unit_name.deep_view() == Some(name)
                    &&& if old(self).details.properties_cache@.contains_key(name) {
                        &&& final(self).details.properties_cache@ == old(
                            self,
                        ).details.properties_cache@
                        &&& final(self).details.detail_properties.deep_view() == Some(
                            old(self).details.properties_cache@[name],
                        )
                    } else {
                        &&& final(self).details.properties_cache@ == old(
                            self,
                        ).details.properties_cache@.insert(name, fetched_or_empty(fetched))
                        &&& final(self).details.detail_properties.deep_view() == Some(
                            fetched_or_empty(fetched),
                        )
                    }
                },
                None => *final(self) == *old(self),
            },
    {
        let name = match self.selected_unit() {
            Some(unit) => unit.unit.clone(),
            None => {
                return ;
            },
        };
        let cached: Option<UnitProperties> = match self.details.properties_cache.get(name.as_str()) {
            Some(p) => Some(p.duplicate()),
            None => None,
        };
        let properties = match cached {
            Some(p) => p,
            None => {
                let read = match fetched {
                    Some(p) => p,
                    None => UnitProperties::default(),
                };
                self.details.properties_cache.insert(name.clone(), read.duplicate());
                read
            },
        };
        self.details.detail_unit_name = Some(name);
        self.details.detail_properties = Some(properties);
        self.details.detail_scroll = 0;
        self.details.show_details = true;
    }

    /// Closes the details overlay and forgets what it showed. The remembered
    /// fact sheets stay.
    pub fn close_details(&mut self)
        ensures
            *final(self) == (App {
                details: Details {
                    show_details: false,
                    detail_properties: None,
                    detail_unit_name: None,
                    detail_scroll: 0,
                    ..old(self).details
                },
                ..*old(self)
            }),
    {
        self.details.show_details = false;
        self.details.detail_properties = None;
        self.details.detail_unit_name = None;
        self.details.detail_scroll = 0;
    }

    /// Scrolls the details up by `amount` lines, stopping at the first line.
    pub fn detail_scroll_up(&mut self, amount: usize)
        ensures
            *final(self) == (App {
                details: Details {
                    detail_scroll: scrolled_up(old(self).details.detail_scroll, amount),
                    ..old(self).details
                },
                ..*old(self)
            }),
    {
        self.details.detail_scroll = if self.details.detail_scroll >= amount {
            self.details.detail_scroll - amount
        } else {
            0
        };
    }

    /// Scrolls the details down by `amount` lines, given the number of lines
    /// of the text and of the overlay.
    pub fn detail_scroll_down(&mut self, amount: usize, content_height: usize, visible_height: usize)
        ensures
            *final(self) == (App {
                details: Details {
                    detail_scroll: scrolled_down_within(
                        old(self).details.detail_scroll,
                        amount,
                        content_height,
                        visible_height,
                    ),
                    ..old(self).details
                },
                ..*old(self)
            }),
    {
        if content_height > visible_height {
            let max_scroll = content_height - visible_height;
            let scroll = self.details.detail_scroll;
            self.details.detail_scroll = if scroll <= max_scroll && amount <= max_scroll - scroll {
                scroll + amount
            } else {
                max_scroll
            };
        }
    }
}

} // verus!
