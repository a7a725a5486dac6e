//! A search session: the cursor follows the matches of a query, and goes back
//! to where it came from when the search is given up.

use crate::cursor::{move_cursor, moved, Direction};
use crate::document::{found_from, Document};
use crate::state::{Key, Position, SearchDirection};
use crate::terminal::Size;
use crate::viewport::{scroll, scrolled};
use vstd::prelude::*;

verus! {

/// A search in progress.
pub struct Search {
    /// Where the cursor stood when the search began.
    pub origin: Position,
    /// Where the cursor stands now.
    pub cursor: Position,
    /// The top left corner of the window now.
    pub offset: Position,
}

/// How a search ended, and where it leaves the cursor and the window.
pub enum SearchOutcome {
    /// The match under the cursor was accepted.
    Accepted { cursor: Position, offset: Position },
    /// The search was given up: the cursor is back where the search began.
    Aborted { cursor: Position, offset: Position },
}

impl Search {
    /// Begins a search with the cursor at `cursor` and the window at
    /// `offset`.
    pub fn begin(cursor: Position, offset: Position) -> (search: Search)
        ensures
            search == (Search { origin: cursor, cursor, offset }),
    {
        Search { origin: cursor, cursor, offset }
    }

    /// The state after a search step that began at `from`: on `hit` the
    /// cursor stands on the match and the window has followed it, else
    /// nothing has moved.
    pub open spec fn after_step(self, hit: Option<(nat, nat)>, window: Size) -> Search {
        match hit {
            Some((x, y)) => {
                let place = Position { x: x as usize, y: y as usize };
                Search {
                    origin: self.origin,
                    cursor: place,
                    offset: scrolled(place, window, self.offset),
                }
            },
            None => self,
        }
    }

    /// Goes to the match that [`found_from`] finds from `from`, if there is
    /// one.
    fn step(
        &mut self,
        document: &Document,
        query: &str,
        from: &Position,
        direction: SearchDirection,
        window: &Size,
    ) -> (hit: bool)
        requires
            document.wf(),
        ensures
            *final(self) == old(self).after_step(
                found_from(document@, query@, from.x as nat, from.y as nat, direction),
                *window,
            ),
            hit == found_from(document@, query@, from.x as nat, from.y as nat, direction) is Some,
    {
        match document.find(query, from, direction) {
            Some(place) => {
                self.offset = scroll(&place, window, &self.offset);
                self.cursor = place;
                true
            },
            None => false,
        }
    }

    /// Looks for `query` from the cursor on, the way `direction` says. On a
    /// match the cursor goes there and the window follows; without one
    /// nothing moves. Says whether there was a match.
    pub fn seek(
        &mut self,
        document: &Document,
        query: &str,
        direction: SearchDirection,
        window: &Size,
    ) -> (hit: bool)
        requires
            document.wf(),
        ensures
            *final(self) == old(self).after_step(
                found_from(
                    document@,
                    query@,
                    old(self).cursor.x as nat,
                    old(self).cursor.y as nat,
                    direction,
                ),
                *window,
            ),
            hit == found_from(
                document@,
                query@,
                old(self).cursor.x as nat,
                old(self).cursor.y as nat,
                direction,
            ) is Some,
    {
        let from = self.cursor;
        self.step(document, query, &from, direction, window)
    }

    /// Looks for the next match after the one under the cursor: searches
    /// forward from one step to the right of the cursor. Without a match
    /// the cursor stays where it was.
    pub fn seek_next(&mut self, document: &Document, query: &str, window: &Size) -> (hit: bool)
        requires
            document.wf(),
        ensures
            ({
                let from = moved(
                    old(self).cursor,
                    Direction::Right,
                    document@,
                    window.height as nat,
                );
                let found = found_from(document@, query@, from.0, from.1, SearchDirection::Forward);
                *final(self) == old(self).after_step(found, *window) && hit == found is Some
            }),
    {
        let from = move_cursor(&self.cursor, Direction::Right, document, window);
        self.step(document, query, &from, SearchDirection::Forward, window)
    }

    /// Takes one key of a search for `query` and searches again as the key
    /// says: right and down go to the next match, as [`Search::seek_next`]
    /// does; left and up go to the match before the cursor; any other key,
    /// one that has changed the query, looks forward from the cursor. Says
    /// whether there was a match.
    pub fn on_key(&mut self, key: Key, document: &Document, query: &str, window: &Size) -> (hit:
        bool)
        requires
            document.wf(),
        ensures
            ({
                let from = match key {
                    Key::Right | Key::Down => moved(
                        old(self).cursor,
                        Direction::Right,
                        document@,
                        window.height as nat,
                    ),
                    _ => (old(self).cursor.x as nat, old(self).cursor.y as nat),
                };
                let direction = match key {
                    Key::Left | Key::Up => SearchDirection::Backward,
                    _ => SearchDirection::Forward,
                };
                let found = found_from(document@, query@, from.0, from.1, direction);
                *final(self) == old(self).after_step(found, *window) && hit == found is Some
            }),
    {
        match key {
            Key::Right | Key::Down => self.seek_next(document, query, window),
            Key::Left | Key::Up => self.seek(document, query, SearchDirection::Backward, window),
            _ => self.seek(document, query, SearchDirection::Forward, window),
        }
    }

    /// Ends the search. An accepted search leaves the cursor on the match;
    /// a search that was given up puts it back where the search began, and
    /// the window follows it there.
    pub fn finish(self, accepted: bool, window: &Size) -> (outcome: SearchOutcome)
        ensures
            outcome == if accepted {
                SearchOutcome::Accepted { cursor: self.cursor, offset: self.offset }
            } else {
                SearchOutcome::Aborted {
                    cursor: self.origin,
                    offset: scrolled(self.origin, *window, self.offset),
                }
            },
    {
        if accepted {
            SearchOutcome::Accepted { cursor: self.cursor, offset: self.offset }
        } else {
            let offset = scroll(&self.origin, window, &self.offset);
            SearchOutcome::Aborted { cursor: self.origin, offset }
        }
    }
}

} // verus!
