use pasteboard::text::same_text;
use pasteboard::{PasteboardName, PasteboardType};

#[test]
fn type_identifiers_are_the_canonical_ones() {
    assert_eq!(PasteboardType::URL.identifier(), "public.url");
    assert_eq!(PasteboardType::Color.identifier(), "com.apple.cocoa.pasteboard.color");
    assert_eq!(PasteboardType::FileURL.identifier(), "public.file-url");
    assert_eq!(PasteboardType::Font.identifier(), "com.apple.cocoa.pasteboard.character-formatting");
    assert_eq!(PasteboardType::HTML.identifier(), "public.html");
    assert_eq!(
        PasteboardType::MultipleTextSelection.identifier(),
        "com.apple.cocoa.pasteboard.multiple-text-selection"
    );
    assert_eq!(PasteboardType::PDF.identifier(), "com.adobe.pdf");
    assert_eq!(PasteboardType::PNG.identifier(), "public.png");
    assert_eq!(PasteboardType::RTF.identifier(), "public.rtf");
    assert_eq!(PasteboardType::RTFD.identifier(), "com.apple.flat-rtfd");
    assert_eq!(PasteboardType::Ruler.identifier(), "com.apple.cocoa.pasteboard.paragraph-formatting");
    assert_eq!(PasteboardType::Sound.identifier(), "com.apple.cocoa.pasteboard.sound");
    assert_eq!(PasteboardType::String.identifier(), "public.utf8-plain-text");
    assert_eq!(PasteboardType::TabularText.identifier(), "public.utf8-tab-separated-values-text");
    assert_eq!(PasteboardType::TIFF.identifier(), "public.tiff");
}

#[test]
fn all_lists_every_type_once() {
    let kinds = PasteboardType::all();
    assert_eq!(kinds.len(), 15);
    for (i, left) in kinds.iter().enumerate() {
        for right in kinds.iter().skip(i + 1) {
            assert_ne!(left, right);
            assert_ne!(left.identifier(), right.identifier());
        }
    }
}

#[test]
fn from_identifier_finds_each_type_by_its_identifier() {
    for kind in PasteboardType::all() {
        assert_eq!(PasteboardType::from_identifier(kind.identifier()), Some(kind));
    }
}

#[test]
fn from_identifier_finds_the_string_and_file_types() {
    assert_eq!(PasteboardType::from_identifier("public.utf8-plain-text"), Some(PasteboardType::String));
    assert_eq!(PasteboardType::from_identifier("public.file-url"), Some(PasteboardType::FileURL));
}

#[test]
fn from_identifier_rejects_what_is_no_identifier() {
    assert_eq!(PasteboardType::from_identifier(""), None);
    assert_eq!(PasteboardType::from_identifier("public.file-urls"), None);
    assert_eq!(PasteboardType::from_identifier("PUBLIC.URL"), None);
    assert_eq!(PasteboardType::from_identifier("public.jpeg"), None);
}

#[test]
fn system_names_have_their_texts() {
    assert_eq!(PasteboardName::Drag.text(), "Apple CFPasteboard drag");
    assert_eq!(PasteboardName::Find.text(), "Apple CFPasteboard find");
    assert_eq!(PasteboardName::Font.text(), "Apple CFPasteboard font");
    assert_eq!(PasteboardName::General.text(), "Apple CFPasteboard general");
    assert_eq!(PasteboardName::Ruler.text(), "Apple CFPasteboard ruler");
}

#[test]
fn custom_name_is_its_own_text() {
    assert_eq!(PasteboardName::Custom("A".to_string()).text(), "A");
    assert_eq!(PasteboardName::Custom(String::new()).text(), "");
}

#[test]
fn same_text_compares_by_content() {
    assert!(same_text("", ""));
    assert!(same_text("public.url", "public.url"));
    assert!(!same_text("public.url", "public.urn"));
    assert!(!same_text("public.url", "public.ur"));
    assert!(same_text("\u{65e5}\u{672c}", "\u{65e5}\u{672c}"));
}

#[test]
fn system_names_are_told_from_other_texts() {
    assert!(pasteboard::types::is_system_name("Apple CFPasteboard general"));
    assert!(pasteboard::types::is_system_name(&PasteboardName::Ruler.text()));
    assert!(!pasteboard::types::is_system_name("apple cfpasteboard general"));
    assert!(!pasteboard::types::is_system_name("Apple CFPasteboard general+"));
    assert!(!pasteboard::types::is_system_name("A"));
}
