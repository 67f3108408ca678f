//! A pasteboard service that keeps every pasteboard in memory.

use vstd::prelude::*;
use vstd::string::StringExecFns;
use vstd::string::StrSliceExecFns;
use crate::model::{BoardState, ServiceState};
use crate::protocol::{reply_texts, texts, Command, Query};
use crate::table::{lemma_table_at, lemma_table_empty, lemma_table_push, lemma_table_update, table};
use crate::text::same_text;
use crate::types::{is_system_name, lemma_system_names_end, spec_is_system_name, PasteboardType};

verus! {

/// The objects stored under one type identifier.
struct Entry {
    type_identifier: String,
    values: Vec<String>,
}

/// One pasteboard: its name, its entries and its change count.
struct Board {
    name: String,
    entries: Vec<Entry>,
    change_count: u64,
}

spec fn entry_keys(entries: Seq<Entry>) -> Seq<Seq<char>> {
    Seq::new(entries.len(), |i: int| entries[i].type_identifier@)
}

spec fn entry_values(entries: Seq<Entry>) -> Seq<Seq<Seq<char>>> {
    Seq::new(entries.len(), |i: int| texts(entries[i].values@))
}

spec fn board_names(boards: Seq<Board>) -> Seq<Seq<char>> {
    Seq::new(boards.len(), |i: int| boards[i].name@)
}

spec fn board_states(boards: Seq<Board>) -> Seq<BoardState> {
    Seq::new(boards.len(), |i: int| boards[i].state())
}

impl Board {
    /// No type identifier has two entries.
    spec fn wf(self) -> bool {
        entry_keys(self.entries@).no_duplicates()
    }

    spec fn state(self) -> BoardState {
        BoardState {
            contents: table(entry_keys(self.entries@), entry_values(self.entries@)),
            change_count: self.change_count,
        }
    }

    fn new(name: String) -> (board: Board)
        ensures
            board.wf(),
            board.name == name,
            board.state() == BoardState::empty(),
    {
        let board = Board { name, entries: Vec::new(), change_count: 0 };
        proof {
            lemma_table_empty::<Seq<char>, Seq<Seq<char>>>();
            assert(entry_keys(board.entries@) =~= Seq::empty());
            assert(entry_values(board.entries@) =~= Seq::empty());
        }
        board
    }

    /// The place of the entry for `type_identifier`, if there is one.
    fn position(&self, type_identifier: &str) -> (found: Option<usize>)
        ensures
            match found {
                Some(i) => i < self.entries@.len() && entry_keys(self.entries@)[i as int]
                    == type_identifier@,
                None => !entry_keys(self.entries@).contains(type_identifier@),
            },
    {
        let mut i: usize = 0;
        while i < self.entries.len()
            invariant
                i <= self.entries@.len(),
                forall|j: int| 0 <= j < i ==> entry_keys(self.entries@)[j] != type_identifier@,
            decreases self.entries.len() - i,
        {
            if same_text(self.entries[i].type_identifier.as_str(), type_identifier) {
                return Some(i);
            }
            i += 1;
        }
        None
    }

    /// Stores `values` under `type_identifier`, in place of what was stored
    /// under it.
    fn store(&mut self, type_identifier: &str, values: Vec<String>)
        requires
            old(self).wf(),
        ensures
            final(self).wf(),
            final(self).name == old(self).name,
            final(self).change_count == old(self).change_count,
            final(self).state().contents == old(self).state().contents.insert(
                type_identifier@,
                texts(values@),
            ),
    {
        let ghost keys = entry_keys(self.entries@);
        let ghost stored = entry_values(self.entries@);
        let entry = Entry { type_identifier: String::from_str(type_identifier), values };
        match self.position(type_identifier) {
            Some(i) => {
                self.entries.set(i, entry);
                proof {
                    assert(entry_keys(self.entries@) =~= keys);
                    assert(entry_values(self.entries@) =~= stored.update(i as int, texts(values@)));
                    lemma_table_update(keys, stored, i as int, texts(values@));
                }
            },
            None => {
                self.entries.push(entry);
                proof {
                    assert(entry_keys(self.entries@) =~= keys.push(type_identifier@));
                    assert(entry_values(self.entries@) =~= stored.push(texts(values@)));
                    lemma_table_push(keys, stored, type_identifier@, texts(values@));
                }
            },
        }
    }

    /// Drops every entry.
    fn empty(&mut self)
        ensures
            final(self).wf(),
            final(self).name == old(self).name,
            final(self).change_count == old(self).change_count,
            final(self).state().contents == Map::<Seq<char>, Seq<Seq<char>>>::empty(),
    {
        self.entries = Vec::new();
        proof {
            lemma_table_empty::<Seq<char>, Seq<Seq<char>>>();
            assert(entry_keys(self.entries@) =~= Seq::empty());
            assert(entry_values(self.entries@) =~= Seq::empty());
        }
    }

    /// Changes the pasteboard as `command` says.
    fn apply(&mut self, command: &Command)
        requires
            old(self).wf(),
        ensures
            final(self).wf(),
            final(self).name == old(self).name,
            final(self).state() == old(self).state().apply(command@),
    {
        match command {
            Command::SetString { value, type_identifier, .. } => {
                let values: Vec<String> = vec![value.clone()];
                assert(texts(values@) =~= seq![value@]);
                self.store(type_identifier.as_str(), values);
            },
            Command::WriteObjects { urls, .. } => {
                let copied = copy_of(urls);
                self.empty();
                self.store(PasteboardType::FileURL.identifier(), copied);
            },
            Command::ClearContents { .. } => {
                self.empty();
                self.change_count = if self.change_count == u64::MAX {
                    0
                } else {
                    self.change_count + 1
                };
            },
            Command::ReleaseGlobally { .. } => {},
        }
    }

    /// The objects stored under `type_identifier`.
    fn objects(&self, type_identifier: &str) -> (values: Vec<String>)
        requires
            self.wf(),
        ensures
            texts(values@) == self.state().objects(type_identifier@),
    {
        match self.position(type_identifier) {
            Some(i) => {
                proof {
                    lemma_table_at(entry_keys(self.entries@), entry_values(self.entries@), i as int);
                }
                copy_of(&self.entries[i].values)
            },
            None => {
                let values: Vec<String> = Vec::new();
                assert(texts(values@) =~= Seq::empty());
                values
            },
        }
    }
}

/// A copy of `items`, string by string.
fn copy_of(items: &Vec<String>) -> (copy: Vec<String>)
    ensures
        texts(copy@) == texts(items@),
{
    let mut copy: Vec<String> = Vec::new();
    let mut i: usize = 0;
    while i < items.len()
        invariant
            i <= items@.len(),
            copy@.len() == i,
            forall|j: int| 0 <= j < i ==> (#[trigger] copy@[j])@ == items@[j]@,
        decreases items.len() - i,
    {
        copy.push(items[i].clone());
        i += 1;
    }
    assert(texts(copy@) =~= texts(items@));
    copy
}

/// A pasteboard service in memory. It answers commands and queries as the
/// model of the service says, and can be made to fail its reads.
pub struct MemoryService {
    boards: Vec<Board>,
    faulty: bool,
}

impl View for MemoryService {
    type V = ServiceState;

    closed spec fn view(&self) -> ServiceState {
        ServiceState {
            boards: table(board_names(self.boards@), board_states(self.boards@)),
            faulty: self.faulty,
        }
    }
}

impl MemoryService {
    /// No name has two pasteboards, and no pasteboard has two entries for one
    /// type identifier.
    #[verifier::type_invariant]
    spec fn wf(self) -> bool {
        &&& board_names(self.boards@).no_duplicates()
        &&& forall|i: int| 0 <= i < self.boards@.len() ==> (#[trigger] self.boards@[i]).wf()
    }

    /// A service as it starts: every pasteboard holds nothing, and reads go
    /// without fault.
    pub fn new() -> (service: MemoryService)
        ensures
            service@ == ServiceState::empty(),
    {
        let service = MemoryService { boards: Vec::new(), faulty: false };
        proof {
            lemma_table_empty::<Seq<char>, BoardState>();
            assert(board_names(service.boards@) =~= Seq::empty());
            assert(board_states(service.boards@) =~= Seq::empty());
        }
        service
    }

    /// Carries out `command`.
    pub fn perform(&mut self, command: &Command)
        ensures
            final(self)@ == old(self)@.perform(command@),
    {
        proof {
            use_type_invariant(&*self);
        }
        let mut boards = self.take();
        let ghost names = board_names(boards@);
        let ghost states = board_states(boards@);
        let name = command.board();
        match position(&boards, name) {
            Some(i) => {
                proof {
                    lemma_table_at(names, states, i as int);
                }
                boards[i].apply(command);
                proof {
                    let next = states[i as int].apply(command@);
                    assert(board_names(boards@) =~= names);
                    assert(board_states(boards@) =~= states.update(i as int, next));
                    lemma_table_update(names, states, i as int, next);
                }
            },
            None => {
                let mut board = Board::new(String::from_str(name));
                board.apply(command);
                boards.push(board);
                proof {
                    let next = BoardState::empty().apply(command@);
                    assert(board_names(boards@) =~= names.push(name@));
                    assert(board_states(boards@) =~= states.push(next));
                    lemma_table_push(names, states, name@, next);
                }
            },
        }
        self.boards = boards;
    }

    /// Answers `query`: with the URL objects that the pasteboard holds, or
    /// with nothing at all while the service is failing.
    pub fn read_objects(&self, query: &Query) -> (reply: Option<Vec<String>>)
        ensures
            reply_texts(reply) == self@.read(query@),
    {
        proof {
            use_type_invariant(self);
        }
        if self.faulty {
            None
        } else {
            Some(self.objects(query.board.as_str(), PasteboardType::FileURL.identifier()))
        }
    }

    /// The string that the pasteboard called `board` holds under
    /// `type_identifier`, if it holds one. The fault does not reach this
    /// read.
    pub fn string(&self, board: &str, type_identifier: &str) -> (found: Option<String>)
        ensures
            match self@.board(board@).string(type_identifier@) {
                Some(text) => found matches Some(value) && value@ == text,
                None => found is None,
            },
    {
        let mut values = self.objects(board, type_identifier);
        if values.len() > 0 {
            Some(values.swap_remove(0))
        } else {
            None
        }
    }

    /// How often the pasteboard called `board` has been emptied.
    pub fn change_count(&self, board: &str) -> (count: u64)
        ensures
            count == self@.board(board@).change_count,
    {
        proof {
            use_type_invariant(self);
        }
        match position(&self.boards, board) {
            Some(i) => {
                proof {
                    lemma_table_at(board_names(self.boards@), board_states(self.boards@), i as int);
                }
                self.boards[i].change_count
            },
            None => 0,
        }
    }

    /// Whether a pasteboard called `name` is live.
    pub fn is_live(&self, name: &str) -> (live: bool)
        ensures
            live == self@.is_live(name@),
    {
        is_system_name(name) || position(&self.boards, name).is_some()
    }

    /// Switches the fault on or off. While it is on, every query is answered
    /// with nothing at all.
    pub fn set_faulty(&mut self, faulty: bool)
        ensures
            final(self)@ == old(self)@.with_fault(faulty),
    {
        proof {
            use_type_invariant(&*self);
        }
        self.faulty = faulty;
    }

    /// Creates an empty pasteboard under a name that no live pasteboard has,
    /// and returns the name.
    ///
    /// The name is the longest name in use with a plus sign behind it. It
    /// differs from every name in use by its length, and from the names that
    /// the system keeps by its last character.
    pub fn unique_name(&mut self) -> (name: String)
        ensures
            !old(self)@.is_live(name@),
            final(self)@ == old(self)@.allocate(name@),
    {
        proof {
            use_type_invariant(&*self);
        }
        let mut boards = self.take();
        let ghost names = board_names(boards@);
        let ghost states = board_states(boards@);
        let mut name = longest_name(&boards);
        name.append("+");
        proof {
            reveal_strlit("+");
            assert(name@.last() == '+');
            if spec_is_system_name(name@) {
                lemma_system_names_end(name@);
            }
            assert forall|i: int| 0 <= i < names.len() implies names[i] != name@ by {
                assert(names[i].len() < name@.len());
            }
        }
        boards.push(Board::new(name.clone()));
        proof {
            assert(board_names(boards@) =~= names.push(name@));
            assert(board_states(boards@) =~= states.push(BoardState::empty()));
            lemma_table_push(names, states, name@, BoardState::empty());
        }
        self.boards = boards;
        name
    }

    /// Moves the pasteboards out of the service, which is left with none
    /// until they are put back.
    fn take(&mut self) -> (boards: Vec<Board>)
        ensures
            boards == old(self).boards,
            final(self).boards@.len() == 0,
            final(self).faulty == old(self).faulty,
    {
        let mut taken = MemoryService { boards: Vec::new(), faulty: self.faulty };
        core::mem::swap(self, &mut taken);
        taken.boards
    }

    /// The objects that the pasteboard called `board` holds under
    /// `type_identifier`.
    fn objects(&self, board: &str, type_identifier: &str) -> (values: Vec<String>)
        ensures
            texts(values@) == self@.board(board@).objects(type_identifier@),
    {
        proof {
            use_type_invariant(self);
        }
        match position(&self.boards, board) {
            Some(i) => {
                proof {
                    lemma_table_at(board_names(self.boards@), board_states(self.boards@), i as int);
                }
                self.boards[i].objects(type_identifier)
            },
            None => {
                let values: Vec<String> = Vec::new();
                assert(texts(values@) =~= Seq::empty());
                values
            },
        }
    }
}

/// A copy of the longest name among `boards`; the empty text where there is
/// no pasteboard.
fn longest_name(boards: &Vec<Board>) -> (longest: String)
    ensures
        forall|i: int| 0 <= i < boards@.len() ==> (#[trigger] board_names(boards@)[i]).len() <= longest@.len(),
{
    let mut best: usize = 0;
    let mut best_len: usize = 0;
    let mut i: usize = 0;
    while i < boards.len()
        invariant
            i <= boards@.len(),
            i == 0 ==> best_len == 0,
            i > 0 ==> best < i && best_len == boards@[best as int].name@.len(),
            forall|j: int| 0 <= j < i ==> (#[trigger] board_names(boards@)[j]).len() <= best_len,
        decreases boards.len() - i,
    {
        let len = boards[i].name.as_str().unicode_len();
        if i == 0 || len > best_len {
            best = i;
            best_len = len;
        }
        i += 1;
    }
    if boards.len() == 0 {
        String::new()
    } else {
        boards[best].name.clone()
    }
}

/// The place of the pasteboard called `name`, if there is one.
fn position(boards: &Vec<Board>, name: &str) -> (found: Option<usize>)
    ensures
        match found {
            Some(i) => i < boards@.len() && board_names(boards@)[i as int] == name@,
            None => !board_names(boards@).contains(name@),
        },
{
    let mut i: usize = 0;
    while i < boards.len()
        invariant
            i <= boards@.len(),
            forall|j: int| 0 <= j < i ==> board_names(boards@)[j] != name@,
        decreases boards.len() - i,
    {
        if same_text(boards[i].name.as_str(), name) {
            return Some(i);
        }
        i += 1;
    }
    None
}

} // verus!
