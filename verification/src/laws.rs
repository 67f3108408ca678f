//! What holds of handles and service together, for every state of the
//! service.

use vstd::prelude::*;
use crate::error::{spec_no_data, ErrorView, NO_DATA_CODE};
use crate::model::{BoardState, ServiceState};
use crate::pasteboard::{spec_file_url, spec_file_urls, spec_retrieved, Pasteboard};
use crate::protocol::{CommandView, QueryView};
use crate::types::{lemma_identifier_injective, spec_is_system_name, PasteboardName, PasteboardType};

verus! {

/// Content copied to a pasteboard under a kind is the string that the
/// pasteboard then holds under that kind's identifier, character for
/// character.
pub proof fn lemma_copy_clipboard_round_trip(
    service: ServiceState,
    board: Pasteboard,
    target: Seq<char>,
    copy_type: PasteboardType,
)
    ensures
        service.perform(board.spec_copy_clipboard(target, copy_type)).board(board@).string(
            copy_type.spec_identifier(),
        ) == Some(target),
{
}

/// Text copied to a pasteboard is the plain text that the pasteboard then
/// holds, character for character.
pub proof fn lemma_copy_text_round_trip(service: ServiceState, board: Pasteboard, text: Seq<char>)
    ensures
        service.perform(board.spec_copy_text(text)).board(board@).string(
            PasteboardType::String.spec_identifier(),
        ) == Some(text),
{
}

/// Files copied to a pasteboard are read back as their URLs, one for each
/// path and in the order of the paths, unless the service is failing.
pub proof fn lemma_copy_files_round_trip(service: ServiceState, board: Pasteboard, paths: Seq<Seq<char>>)
    requires
        !service.faulty,
    ensures
        spec_retrieved(
            service.perform(board.spec_copy_files(paths)).read(board.spec_file_urls_query()),
        ) == Ok::<Seq<Seq<char>>, ErrorView>(spec_file_urls(paths)),
        spec_file_urls(paths).len() == paths.len(),
        forall|i: int| 0 <= i < paths.len() ==> spec_file_urls(paths)[i] == spec_file_url(paths[i]),
{
}

/// With no files copied, the read gives an empty list and no error.
pub proof fn lemma_copy_no_files_round_trip(service: ServiceState, board: Pasteboard)
    requires
        !service.faulty,
    ensures
        spec_retrieved(
            service.perform(board.spec_copy_files(Seq::empty())).read(board.spec_file_urls_query()),
        ) == Ok::<Seq<Seq<char>>, ErrorView>(Seq::empty()),
{
    assert(spec_file_urls(Seq::empty()) =~= Seq::empty());
}

/// A pasteboard is empty after it is emptied, and empty again after it is
/// emptied a second time; a read of file URLs then gives an empty list,
/// unless the service is failing. Each emptying changes the change count.
pub proof fn lemma_clear_contents_twice(service: ServiceState, board: Pasteboard)
    ensures
        ({
            let once = service.perform(board.spec_clear_contents());
            let twice = once.perform(board.spec_clear_contents());
            &&& once.board(board@).is_empty()
            &&& twice.board(board@).is_empty()
            &&& once.board(board@).change_count != service.board(board@).change_count
            &&& twice.board(board@).change_count != once.board(board@).change_count
            &&& !service.faulty ==> spec_retrieved(twice.read(board.spec_file_urls_query()))
                == Ok::<Seq<Seq<char>>, ErrorView>(Seq::empty())
        }),
{
}

/// Content copied under one kind leaves what the pasteboard holds under
/// every other kind as it was.
pub proof fn lemma_kinds_isolated(
    service: ServiceState,
    board: Pasteboard,
    target: Seq<char>,
    copy_type: PasteboardType,
    other: PasteboardType,
)
    requires
        copy_type != other,
    ensures
        service.perform(board.spec_copy_clipboard(target, copy_type)).board(board@).objects(
            other.spec_identifier(),
        ) == service.board(board@).objects(other.spec_identifier()),
{
    if copy_type.spec_identifier() == other.spec_identifier() {
        lemma_identifier_injective(copy_type, other);
    }
}

/// Releasing a pasteboard leaves what it holds as it was.
pub proof fn lemma_release_globally_keeps_contents(service: ServiceState, board: Pasteboard)
    ensures
        service.perform(board.spec_release_globally()).board(board@) == service.board(board@),
{
}

/// A command changes no pasteboard but the one it names: every pasteboard of
/// another name holds what it held, and answers every query as it did.
pub proof fn lemma_boards_isolated(service: ServiceState, command: CommandView, other: Seq<char>)
    requires
        command.board() != other,
    ensures
        service.perform(command).board(other) == service.board(other),
        forall|query: QueryView|
            query.board == other ==> #[trigger] service.perform(command).read(query) == service.read(
                query,
            ),
{
}

/// What is written through a handle to one name is not seen through a
/// handle to another name: the reader's pasteboard holds what it held, and
/// its file URLs read as they did.
pub proof fn lemma_named_boards_isolated(
    service: ServiceState,
    writer: Pasteboard,
    reader: Pasteboard,
    command: CommandView,
)
    requires
        writer@ != reader@,
        command.board() == writer@,
    ensures
        service.perform(command).board(reader@) == service.board(reader@),
        service.perform(command).read(reader.spec_file_urls_query()) == service.read(
            reader.spec_file_urls_query(),
        ),
{
}

/// Two handles to one name are handles to one pasteboard: they give the same
/// commands and the same query, so what is written through one is read
/// through the other.
pub proof fn lemma_handles_share_by_name(first: Pasteboard, second: Pasteboard)
    requires
        first@ == second@,
    ensures
        first.spec_file_urls_query() == second.spec_file_urls_query(),
        first.spec_clear_contents() == second.spec_clear_contents(),
        first.spec_release_globally() == second.spec_release_globally(),
        forall|paths: Seq<Seq<char>>| #[trigger] first.spec_copy_files(paths) == second.spec_copy_files(paths),
        forall|target: Seq<char>, copy_type: PasteboardType| #[trigger]
            first.spec_copy_clipboard(target, copy_type) == second.spec_copy_clipboard(target, copy_type),
{
}

/// While the service is failing, a read ends in the error for an answer
/// with no data at all, whatever the pasteboards hold.
pub proof fn lemma_fault_surfaces(service: ServiceState, query: QueryView)
    requires
        service.faulty,
    ensures
        spec_retrieved(service.read(query)) == Err::<Seq<Seq<char>>, ErrorView>(spec_no_data()),
        spec_no_data().code == NO_DATA_CODE,
        NO_DATA_CODE == 666,
{
}

/// While the service is not failing, a read ends in a list, which is empty
/// where the pasteboard holds no URL objects.
pub proof fn lemma_absent_contents_read_empty(service: ServiceState, query: QueryView)
    requires
        !service.faulty,
        service.board(query.board).urls().len() == 0,
    ensures
        spec_retrieved(service.read(query)) == Ok::<Seq<Seq<char>>, ErrorView>(Seq::empty()),
{
    assert(service.board(query.board).urls() =~= Seq::empty());
}

/// Two names that the service gives out one after the other differ, each
/// names an empty pasteboard, and a command to the first leaves the second
/// empty.
pub proof fn lemma_unique_names_differ(
    service: ServiceState,
    first: Seq<char>,
    second: Seq<char>,
    command: CommandView,
)
    requires
        !service.is_live(first),
        !service.allocate(first).is_live(second),
        command.board() == first,
    ensures
        first != second,
        service.allocate(first).allocate(second).board(first) == BoardState::empty(),
        service.allocate(first).allocate(second).board(second) == BoardState::empty(),
        service.allocate(first).allocate(second).perform(command).board(second) == BoardState::empty(),
{
}

/// A name that the service gives out leaves every pasteboard that was live
/// as it was, and is the name of none that the system keeps.
pub proof fn lemma_allocate_keeps_live_boards(service: ServiceState, name: Seq<char>, other: Seq<char>)
    requires
        !service.is_live(name),
        service.is_live(other),
    ensures
        service.allocate(name).board(other) == service.board(other),
        !spec_is_system_name(name),
        name != PasteboardName::General@,
{
}

} // verus!
