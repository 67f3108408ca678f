//! What a pasteboard handle asks of the service: commands, which change a
//! pasteboard and are answered with nothing, and queries, which read one.

use vstd::prelude::*;

verus! {

/// The texts that a sequence of strings holds, in order.
pub open spec fn texts(items: Seq<String>) -> Seq<Seq<char>> {
    Seq::new(items.len(), |i: int| items[i]@)
}

/// The service's answer to a query as plain values.
pub open spec fn reply_texts(reply: Option<Vec<String>>) -> Option<Seq<Seq<char>>> {
    match reply {
        Some(values) => Some(texts(values@)),
        None => None,
    }
}

/// A change to one pasteboard. The service carries it out and reports
/// nothing back.
#[derive(Debug, Clone, PartialEq, Eq)]
pub enum Command {
    /// Store `value` under `type_identifier`, in place of what the pasteboard
    /// held under that identifier.
    SetString { board: String, value: String, type_identifier: String },
    /// Store `urls` as a list of URL objects, in place of everything the
    /// pasteboard held.
    WriteObjects { board: String, urls: Vec<String> },
    /// Empty the pasteboard and advance its change count.
    ClearContents { board: String },
    /// Let the service give up what it keeps for the pasteboard beyond its
    /// contents. The contents stay.
    ReleaseGlobally { board: String },
}

/// A [`Command`] as plain values, variant for variant.
pub enum CommandView {
    SetString { board: Seq<char>, value: Seq<char>, type_identifier: Seq<char> },
    WriteObjects { board: Seq<char>, urls: Seq<Seq<char>> },
    ClearContents { board: Seq<char> },
    ReleaseGlobally { board: Seq<char> },
}

impl View for Command {
    type V = CommandView;

    open spec fn view(&self) -> CommandView {
        match self {
            Command::SetString { board, value, type_identifier } => CommandView::SetString {
                board: board@,
                value: value@,
                type_identifier: type_identifier@,
            },
            Command::WriteObjects { board, urls } => CommandView::WriteObjects {
                board: board@,
                urls: texts(urls@),
            },
            Command::ClearContents { board } => CommandView::ClearContents { board: board@ },
            Command::ReleaseGlobally { board } => CommandView::ReleaseGlobally { board: board@ },
        }
    }
}

impl Command {
    /// The name of the pasteboard that the command changes.
    pub fn board(&self) -> (name: &str)
        ensures
            name@ == self@.board(),
    {
        match self {
            Command::SetString { board, .. } => board.as_str(),
            Command::WriteObjects { board, .. } => board.as_str(),
            Command::ClearContents { board } => board.as_str(),
            Command::ReleaseGlobally { board } => board.as_str(),
        }
    }
}

impl CommandView {
    /// The pasteboard that the command changes.
    pub open spec fn board(self) -> Seq<char> {
        match self {
            CommandView::SetString { board, .. } => board,
            CommandView::WriteObjects { board, .. } => board,
            CommandView::ClearContents { board } => board,
            CommandView::ReleaseGlobally { board } => board,
        }
    }
}

/// A request for the URL objects that one pasteboard holds. The service
/// answers with their texts in its own order, or with nothing at all where it
/// cannot read the pasteboard.
#[derive(Debug, Clone, PartialEq, Eq)]
pub struct Query {
    /// The name of the pasteboard to read.
    pub board: String,
}

/// A [`Query`] as plain values.
pub struct QueryView {
    pub board: Seq<char>,
}

impl View for Query {
    type V = QueryView;

    open spec fn view(&self) -> QueryView {
        QueryView { board: self.board@ }
    }
}

} // verus!
