use pasteboard::{Command, Error, Pasteboard, PasteboardName, PasteboardType, Query, Url};

fn texts(urls: &[Url]) -> Vec<String> {
    urls.iter().map(|url| url.as_str().to_string()).collect()
}

#[test]
fn default_is_bound_to_the_general_pasteboard() {
    let board = Pasteboard::default();
    assert_eq!(board.0, "Apple CFPasteboard general");
    assert_eq!(board, Pasteboard::named(PasteboardName::General));
}

#[test]
fn named_is_bound_to_the_name_given() {
    assert_eq!(Pasteboard::named(PasteboardName::Drag).0, "Apple CFPasteboard drag");
    assert_eq!(Pasteboard::named(PasteboardName::Custom("A".to_string())).0, "A");
    assert_ne!(
        Pasteboard::named(PasteboardName::Custom("A".to_string())),
        Pasteboard::named(PasteboardName::Custom("B".to_string()))
    );
}

#[test]
fn with_and_unique_wrap_the_name_handed_in() {
    assert_eq!(Pasteboard::with("from a drag".to_string()).0, "from a drag");
    assert_eq!(Pasteboard::unique("fresh".to_string()).0, "fresh");
}

#[test]
fn copy_text_sets_a_plain_text_string() {
    let board = Pasteboard::default();
    assert_eq!(
        board.copy_text("My message here"),
        Command::SetString {
            board: "Apple CFPasteboard general".to_string(),
            value: "My message here".to_string(),
            type_identifier: "public.utf8-plain-text".to_string(),
        }
    );
}

#[test]
fn copy_text_is_copy_clipboard_with_the_string_type() {
    let board = Pasteboard::named(PasteboardName::Find);
    assert_eq!(board.copy_text("needle"), board.copy_clipboard("needle", PasteboardType::String));
}

#[test]
fn copy_clipboard_resolves_the_type_identifier() {
    let board = Pasteboard::named(PasteboardName::Custom("scratch".to_string()));
    assert_eq!(
        board.copy_clipboard("<b>bold</b>", PasteboardType::HTML),
        Command::SetString {
            board: "scratch".to_string(),
            value: "<b>bold</b>".to_string(),
            type_identifier: "public.html".to_string(),
        }
    );
}

#[test]
fn copy_files_prefixes_each_path_in_order() {
    let board = Pasteboard::default();
    assert_eq!(
        board.copy_files(vec!["/tmp/a.txt", "/tmp/b.txt"]),
        Command::WriteObjects {
            board: "Apple CFPasteboard general".to_string(),
            urls: vec!["file:///tmp/a.txt".to_string(), "file:///tmp/b.txt".to_string()],
        }
    );
}

#[test]
fn copy_files_keeps_the_path_as_it_is() {
    let board = Pasteboard::default();
    assert_eq!(
        board.copy_files(vec!["relative/with space.txt", "", "/tmp/\u{e9}t\u{e9}"]),
        Command::WriteObjects {
            board: "Apple CFPasteboard general".to_string(),
            urls: vec![
                "file://relative/with space.txt".to_string(),
                "file://".to_string(),
                "file:///tmp/\u{e9}t\u{e9}".to_string(),
            ],
        }
    );
}

#[test]
fn copy_files_with_no_paths_writes_an_empty_list() {
    let board = Pasteboard::default();
    assert_eq!(
        board.copy_files(Vec::new()),
        Command::WriteObjects { board: "Apple CFPasteboard general".to_string(), urls: Vec::new() }
    );
}

#[test]
fn clear_contents_and_release_globally_name_the_pasteboard() {
    let board = Pasteboard::named(PasteboardName::Ruler);
    assert_eq!(
        board.clear_contents(),
        Command::ClearContents { board: "Apple CFPasteboard ruler".to_string() }
    );
    assert_eq!(
        board.release_globally(),
        Command::ReleaseGlobally { board: "Apple CFPasteboard ruler".to_string() }
    );
}

#[test]
fn command_board_is_the_pasteboard_changed() {
    let board = Pasteboard::named(PasteboardName::Font);
    assert_eq!(board.copy_text("x").board(), "Apple CFPasteboard font");
    assert_eq!(board.copy_files(vec!["/x"]).board(), "Apple CFPasteboard font");
    assert_eq!(board.clear_contents().board(), "Apple CFPasteboard font");
    assert_eq!(board.release_globally().board(), "Apple CFPasteboard font");
}

#[test]
fn file_urls_query_names_the_pasteboard() {
    let board = Pasteboard::named(PasteboardName::Drag);
    assert_eq!(board.file_urls_query(), Query { board: "Apple CFPasteboard drag".to_string() });
}

#[test]
fn get_file_urls_keeps_the_order_of_the_answer() {
    let board = Pasteboard::default();
    let reply = Some(vec![
        "file:///tmp/b.txt".to_string(),
        "file:///tmp/a.txt".to_string(),
        "file:///tmp/b.txt".to_string(),
    ]);
    let urls = board.get_file_urls(reply).unwrap();
    assert_eq!(texts(&urls), vec!["file:///tmp/b.txt", "file:///tmp/a.txt", "file:///tmp/b.txt"]);
}

#[test]
fn get_file_urls_of_an_empty_answer_is_an_empty_list() {
    let board = Pasteboard::default();
    assert_eq!(board.get_file_urls(Some(Vec::new())), Ok(Vec::new()));
}

#[test]
fn get_file_urls_of_no_answer_is_the_server_error() {
    let board = Pasteboard::default();
    assert_eq!(
        board.get_file_urls(None),
        Err(Error {
            code: 666,
            domain: "com.cacao-rs.pasteboard".to_string(),
            description: "Pasteboard server returned no data.".to_string(),
        })
    );
}

#[test]
fn no_data_error_has_the_fixed_code() {
    let error = Error::no_data();
    assert_eq!(error.code, 666);
    assert_eq!(error.code, pasteboard::error::NO_DATA_CODE);
    assert_eq!(error.domain, "com.cacao-rs.pasteboard");
    assert_eq!(error.description, "Pasteboard server returned no data.");
}

#[test]
fn url_holds_its_text() {
    let url = Url::new("file:///tmp/a.txt".to_string());
    assert_eq!(url.as_str(), "file:///tmp/a.txt");
    assert_eq!(url.clone(), url);
}

#[test]
fn a_cloned_handle_is_bound_to_the_same_pasteboard() {
    let board = Pasteboard::named(PasteboardName::Custom("shared".to_string()));
    let clone = board.clone();
    assert_eq!(clone, board);
    assert_eq!(clone.copy_text("x"), board.copy_text("x"));
    assert_eq!(clone.file_urls_query(), board.file_urls_query());
}

#[test]
fn a_cloned_name_has_the_same_text() {
    let name = PasteboardName::Custom("A".to_string());
    assert_eq!(name.clone().text(), name.text());
    assert_eq!(PasteboardName::Find.clone().text(), "Apple CFPasteboard find");
}
