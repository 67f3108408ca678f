//! The pasteboard service as a value: what each pasteboard holds, and what
//! each command and query does to it.

use vstd::prelude::*;
use crate::protocol::{CommandView, QueryView};
use crate::types::{spec_is_system_name, PasteboardType};

verus! {

/// The change count after the one given. It starts over behind the largest
/// count.
pub open spec fn advanced(count: u64) -> u64 {
    if count == u64::MAX {
        0
    } else {
        (count + 1) as u64
    }
}

/// What one pasteboard holds.
pub struct BoardState {
    /// The objects held under each type identifier, in the order written.
    pub contents: Map<Seq<char>, Seq<Seq<char>>>,
    /// How often the pasteboard has been emptied.
    pub change_count: u64,
}

impl BoardState {
    /// A pasteboard that holds nothing and was never emptied.
    pub open spec fn empty() -> BoardState {
        BoardState { contents: Map::empty(), change_count: 0 }
    }

    /// Whether the pasteboard holds nothing under any type identifier.
    pub open spec fn is_empty(self) -> bool {
        self.contents == Map::<Seq<char>, Seq<Seq<char>>>::empty()
    }

    /// The objects held under `type_identifier`, in the order written; none
    /// where nothing was stored under it.
    pub open spec fn objects(self, type_identifier: Seq<char>) -> Seq<Seq<char>> {
        if self.contents.dom().contains(type_identifier) {
            self.contents[type_identifier]
        } else {
            Seq::empty()
        }
    }

    /// The string held under `type_identifier`: the first object stored under
    /// it, if there is one.
    pub open spec fn string(self, type_identifier: Seq<char>) -> Option<Seq<char>> {
        if self.objects(type_identifier).len() > 0 {
            Some(self.objects(type_identifier)[0])
        } else {
            None
        }
    }

    /// The pasteboard with `value` as the one object under `type_identifier`.
    pub open spec fn set_string(self, type_identifier: Seq<char>, value: Seq<char>) -> BoardState {
        BoardState { contents: self.contents.insert(type_identifier, seq![value]), ..self }
    }

    /// The URL objects held, in the order written: what is stored under the
    /// identifier of file URLs.
    pub open spec fn urls(self) -> Seq<Seq<char>> {
        self.objects(PasteboardType::FileURL.spec_identifier())
    }

    /// The pasteboard with `urls` as its URL objects and nothing else.
    pub open spec fn write_objects(self, urls: Seq<Seq<char>>) -> BoardState {
        BoardState {
            contents: Map::<Seq<char>, Seq<Seq<char>>>::empty().insert(
                PasteboardType::FileURL.spec_identifier(),
                urls,
            ),
            ..self
        }
    }

    /// The pasteboard emptied, with its change count advanced.
    pub open spec fn clear(self) -> BoardState {
        BoardState { contents: Map::empty(), change_count: advanced(self.change_count) }
    }

    /// The pasteboard after `command`.
    pub open spec fn apply(self, command: CommandView) -> BoardState {
        match command {
            CommandView::SetString { value, type_identifier, .. } => self.set_string(type_identifier, value),
            CommandView::WriteObjects { urls, .. } => self.write_objects(urls),
            CommandView::ClearContents { .. } => self.clear(),
            CommandView::ReleaseGlobally { .. } => self,
        }
    }
}

/// The whole service: its pasteboards by name, and whether it is failing to
/// read them.
pub struct ServiceState {
    /// The pasteboards that a command has reached or that the service has
    /// created under a name of its own, by name.
    pub boards: Map<Seq<char>, BoardState>,
    /// Whether the service answers every query with no data at all.
    pub faulty: bool,
}

impl ServiceState {
    /// A service as it starts: every pasteboard holds nothing, and reads go
    /// without fault.
    pub open spec fn empty() -> ServiceState {
        ServiceState { boards: Map::empty(), faulty: false }
    }

    /// Whether a pasteboard called `name` is live: whether the system keeps
    /// it, a command has reached it, or the service has created it under a
    /// name of its own.
    pub open spec fn is_live(self, name: Seq<char>) -> bool {
        spec_is_system_name(name) || self.boards.dom().contains(name)
    }

    /// What the pasteboard called `name` holds. One that no command has
    /// reached holds nothing.
    pub open spec fn board(self, name: Seq<char>) -> BoardState {
        if self.boards.dom().contains(name) {
            self.boards[name]
        } else {
            BoardState::empty()
        }
    }

    /// The service after `command`: the pasteboard that the command names is
    /// changed as the command says and live from then on, every other one is
    /// as before.
    pub open spec fn perform(self, command: CommandView) -> ServiceState {
        ServiceState {
            boards: self.boards.insert(command.board(), self.board(command.board()).apply(command)),
            ..self
        }
    }

    /// The service's answer to `query`: the URL objects that the pasteboard
    /// holds, or nothing at all while the service is failing.
    pub open spec fn read(self, query: QueryView) -> Option<Seq<Seq<char>>> {
        if self.faulty {
            None
        } else {
            Some(self.board(query.board).urls())
        }
    }

    /// The service after it has given out `name` for a new, empty pasteboard.
    pub open spec fn allocate(self, name: Seq<char>) -> ServiceState {
        ServiceState { boards: self.boards.insert(name, BoardState::empty()), ..self }
    }

    /// The service with its fault switched on or off.
    pub open spec fn with_fault(self, faulty: bool) -> ServiceState {
        ServiceState { faulty, ..self }
    }
}

} // verus!
