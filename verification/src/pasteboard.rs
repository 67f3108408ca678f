//! The handle to one pasteboard.

use vstd::prelude::*;
use vstd::string::StringExecFns;
use crate::error::{spec_no_data, Error, ErrorView};
use crate::protocol::{reply_texts, texts, Command, CommandView, Query, QueryView};
use crate::types::{PasteboardName, PasteboardType};
use crate::url::{url_texts, Url};

verus! {

/// The texts that a sequence of string slices holds, in order.
pub open spec fn slice_texts(items: Seq<&str>) -> Seq<Seq<char>> {
    Seq::new(items.len(), |i: int| items[i]@)
}

/// The URL of the file at `path`: the path behind the scheme of file URLs.
pub open spec fn spec_file_url(path: Seq<char>) -> Seq<char> {
    "file://"@ + path
}

/// The URLs of the files at `paths`, in the order of the paths.
pub open spec fn spec_file_urls(paths: Seq<Seq<char>>) -> Seq<Seq<char>> {
    Seq::new(paths.len(), |i: int| spec_file_url(paths[i]))
}

/// What a read comes to, given the service's answer: the objects in the
/// service's order, or the error for an answer with no data at all.
pub open spec fn spec_retrieved(reply: Option<Seq<Seq<char>>>) -> Result<Seq<Seq<char>>, ErrorView> {
    match reply {
        Some(values) => Ok(values),
        None => Err(spec_no_data()),
    }
}

/// The outcome of a read as plain values.
pub open spec fn retrieved_texts(found: Result<Vec<Url>, Error>) -> Result<Seq<Seq<char>>, ErrorView> {
    match found {
        Ok(urls) => Ok(url_texts(urls@)),
        Err(error) => Err(error@),
    }
}

/// A handle to one pasteboard of the service, bound by the pasteboard's name.
///
/// The handle holds no contents: those stay with the service, and outlast
/// the handle. Any number of handles may be bound to one pasteboard.
#[derive(Debug, PartialEq, Eq)]
pub struct Pasteboard(pub String);

impl View for Pasteboard {
    type V = Seq<char>;

    /// The name of the pasteboard that the handle is bound to.
    open spec fn view(&self) -> Seq<char> {
        self.0@
    }
}

impl Clone for Pasteboard {
    /// Another handle to the same pasteboard.
    fn clone(&self) -> (board: Pasteboard)
        ensures
            board@ == self@,
    {
        Pasteboard(self.0.clone())
    }
}

impl Default for Pasteboard {
    /// A handle to the general pasteboard.
    fn default() -> (board: Pasteboard)
        ensures
            board@ == PasteboardName::General@,
    {
        Pasteboard(PasteboardName::General.text())
    }
}

impl Pasteboard {
    /// The command that puts `target` on this pasteboard as content of the
    /// kind `copy_type`.
    pub open spec fn spec_copy_clipboard(self, target: Seq<char>, copy_type: PasteboardType) -> CommandView {
        CommandView::SetString {
            board: self@,
            value: target,
            type_identifier: copy_type.spec_identifier(),
        }
    }

    /// The command that puts `text` on this pasteboard as plain text.
    pub open spec fn spec_copy_text(self, text: Seq<char>) -> CommandView {
        self.spec_copy_clipboard(text, PasteboardType::String)
    }

    /// The command that puts the URLs of the files at `paths` on this
    /// pasteboard.
    pub open spec fn spec_copy_files(self, paths: Seq<Seq<char>>) -> CommandView {
        CommandView::WriteObjects { board: self@, urls: spec_file_urls(paths) }
    }

    /// The command that empties this pasteboard.
    pub open spec fn spec_clear_contents(self) -> CommandView {
        CommandView::ClearContents { board: self@ }
    }

    /// The command that lets the service give up what it keeps for this
    /// pasteboard beyond its contents.
    pub open spec fn spec_release_globally(self) -> CommandView {
        CommandView::ReleaseGlobally { board: self@ }
    }

    /// The query for the file URLs on this pasteboard.
    pub open spec fn spec_file_urls_query(self) -> QueryView {
        QueryView { board: self@ }
    }

    /// A handle to the pasteboard called `name`. The service creates the
    /// pasteboard when the first command reaches it.
    pub fn named(name: PasteboardName) -> (board: Pasteboard)
        ensures
            board@ == name@,
    {
        Pasteboard(name.text())
    }

    /// A handle to the pasteboard that the service has just created under
    /// `allocated`, a name of its own choosing that no other live pasteboard
    /// has.
    pub fn unique(allocated: String) -> (board: Pasteboard)
        ensures
            board@ == allocated@,
    {
        Pasteboard(allocated)
    }

    /// A handle to the pasteboard that another part of the program already
    /// refers to by `existing`. Nothing is asked about where the name came
    /// from.
    pub fn with(existing: String) -> (board: Pasteboard)
        ensures
            board@ == existing@,
    {
        Pasteboard(existing)
    }

    /// The command that puts `text` on this pasteboard as plain text, in place
    /// of the plain text it held.
    pub fn copy_text(&self, text: &str) -> (command: Command)
        ensures
            command@ == self.spec_copy_text(text@),
    {
        self.copy_clipboard(text, PasteboardType::String)
    }

    /// The command that puts `target` on this pasteboard as content of the
    /// kind `copy_type`, in place of the content of that kind it held.
    pub fn copy_clipboard(&self, target: &str, copy_type: PasteboardType) -> (command: Command)
        ensures
            command@ == self.spec_copy_clipboard(target@, copy_type),
    {
        Command::SetString {
            board: self.0.clone(),
            value: String::from_str(target),
            type_identifier: String::from_str(copy_type.identifier()),
        }
    }

    /// The command that puts the URLs of the files at `file_urls` on this
    /// pasteboard, in the order given and in place of what it held. With no
    /// paths it puts an empty list there.
    pub fn copy_files(&self, file_urls: Vec<&str>) -> (command: Command)
        ensures
            command@ == self.spec_copy_files(slice_texts(file_urls@)),
    {
        let mut urls: Vec<String> = Vec::new();
        let mut i: usize = 0;
        while i < file_urls.len()
            invariant
                i <= file_urls.len(),
                urls@.len() == i,
                forall|j: int| 0 <= j < i ==> (#[trigger] urls@[j])@ == spec_file_url(file_urls@[j]@),
            decreases file_urls.len() - i,
        {
            let url = String::from_str("file://").concat(file_urls[i]);
            urls.push(url);
            i += 1;
        }
        assert(texts(urls@) =~= spec_file_urls(slice_texts(file_urls@)));
        Command::WriteObjects { board: self.0.clone(), urls }
    }

    /// The command that empties this pasteboard.
    pub fn clear_contents(&self) -> (command: Command)
        ensures
            command@ == self.spec_clear_contents(),
    {
        Command::ClearContents { board: self.0.clone() }
    }

    /// The command that lets the service give up what it keeps for this
    /// pasteboard beyond its contents.
    pub fn release_globally(&self) -> (command: Command)
        ensures
            command@ == self.spec_release_globally(),
    {
        Command::ReleaseGlobally { board: self.0.clone() }
    }

    /// The query that asks the service for the file URLs on this pasteboard.
    pub fn file_urls_query(&self) -> (query: Query)
        ensures
            query@ == self.spec_file_urls_query(),
    {
        Query { board: self.0.clone() }
    }

    /// Reads the file URLs out of the service's answer to
    /// [`Pasteboard::file_urls_query`], keeping the service's order.
    ///
    /// An answer with no data at all is a fault of the service and comes back
    /// as an error; an answer with no objects is an empty list.
    pub fn get_file_urls(&self, reply: Option<Vec<String>>) -> (found: Result<Vec<Url>, Error>)
        ensures
            retrieved_texts(found) == spec_retrieved(reply_texts(reply)),
    {
        match reply {
            None => Err(Error::no_data()),
            Some(values) => {
                let mut urls: Vec<Url> = Vec::new();
                let mut i: usize = 0;
                while i < values.len()
                    invariant
                        i <= values@.len(),
                        urls@.len() == i,
                        forall|j: int| 0 <= j < i ==> (#[trigger] urls@[j])@ == values@[j]@,
                    decreases values.len() - i,
                {
                    urls.push(Url::new(values[i].clone()));
                    i += 1;
                }
                assert(url_texts(urls@) =~= texts(values@));
                Ok(urls)
            },
        }
    }
}

} // verus!
