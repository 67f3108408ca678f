//! The content kinds and the pasteboard names that the service knows, each
//! with the text by which the service calls it.

use vstd::prelude::*;
use vstd::string::StringExecFns;
use crate::text::same_text;

verus! {

/// A kind of content that a pasteboard can hold.
#[derive(Debug, Clone, Copy, PartialEq, Eq, Structural)]
pub enum PasteboardType {
    /// The URL of one file or resource.
    URL,
    /// A colour.
    Color,
    /// The URL of a file on disk.
    FileURL,
    /// Font and character formatting.
    Font,
    /// HTML text.
    HTML,
    /// A selection of several pieces of text.
    MultipleTextSelection,
    /// A PDF document.
    PDF,
    /// A PNG image.
    PNG,
    /// Rich text.
    RTF,
    /// Rich text with attachments, flattened.
    RTFD,
    /// Paragraph formatting.
    Ruler,
    /// A sound.
    Sound,
    /// Plain text.
    String,
    /// Text in fields separated by tabs.
    TabularText,
    /// A TIFF image.
    TIFF,
}

impl PasteboardType {
    /// The identifier by which the service calls this kind.
    pub open spec fn spec_identifier(self) -> Seq<char> {
        match self {
            PasteboardType::URL => "public.url"@,
            PasteboardType::Color => "com.apple.cocoa.pasteboard.color"@,
            PasteboardType::FileURL => "public.file-url"@,
            PasteboardType::Font => "com.apple.cocoa.pasteboard.character-formatting"@,
            PasteboardType::HTML => "public.html"@,
            PasteboardType::MultipleTextSelection => "com.apple.cocoa.pasteboard.multiple-text-selection"@,
            PasteboardType::PDF => "com.adobe.pdf"@,
            PasteboardType::PNG => "public.png"@,
            PasteboardType::RTF => "public.rtf"@,
            PasteboardType::RTFD => "com.apple.flat-rtfd"@,
            PasteboardType::Ruler => "com.apple.cocoa.pasteboard.paragraph-formatting"@,
            PasteboardType::Sound => "com.apple.cocoa.pasteboard.sound"@,
            PasteboardType::String => "public.utf8-plain-text"@,
            PasteboardType::TabularText => "public.utf8-tab-separated-values-text"@,
            PasteboardType::TIFF => "public.tiff"@,
        }
    }

    /// The kind that the service calls by `identifier`, if there is one.
    pub open spec fn spec_from_identifier(identifier: Seq<char>) -> Option<PasteboardType> {
        if exists|kind: PasteboardType| kind.spec_identifier() == identifier {
            Some(choose|kind: PasteboardType| kind.spec_identifier() == identifier)
        } else {
            None
        }
    }

    /// The identifier by which the service calls this kind.
    pub fn identifier(&self) -> (identifier: &'static str)
        ensures
            identifier@ == self.spec_identifier(),
    {
        match self {
            PasteboardType::URL => "public.url",
            PasteboardType::Color => "com.apple.cocoa.pasteboard.color",
            PasteboardType::FileURL => "public.file-url",
            PasteboardType::Font => "com.apple.cocoa.pasteboard.character-formatting",
            PasteboardType::HTML => "public.html",
            PasteboardType::MultipleTextSelection => "com.apple.cocoa.pasteboard.multiple-text-selection",
            PasteboardType::PDF => "com.adobe.pdf",
            PasteboardType::PNG => "public.png",
            PasteboardType::RTF => "public.rtf",
            PasteboardType::RTFD => "com.apple.flat-rtfd",
            PasteboardType::Ruler => "com.apple.cocoa.pasteboard.paragraph-formatting",
            PasteboardType::Sound => "com.apple.cocoa.pasteboard.sound",
            PasteboardType::String => "public.utf8-plain-text",
            PasteboardType::TabularText => "public.utf8-tab-separated-values-text",
            PasteboardType::TIFF => "public.tiff",
        }
    }

    /// Every kind once, in the order of declaration.
    pub fn all() -> (kinds: Vec<PasteboardType>)
        ensures
            kinds@.len() == 15,
            forall|kind: PasteboardType| #[trigger] kinds@[spec_position(kind)] == kind,
    {
        vec![
            PasteboardType::URL,
            PasteboardType::Color,
            PasteboardType::FileURL,
            PasteboardType::Font,
            PasteboardType::HTML,
            PasteboardType::MultipleTextSelection,
            PasteboardType::PDF,
            PasteboardType::PNG,
            PasteboardType::RTF,
            PasteboardType::RTFD,
            PasteboardType::Ruler,
            PasteboardType::Sound,
            PasteboardType::String,
            PasteboardType::TabularText,
            PasteboardType::TIFF,
        ]
    }

    /// The kind that the service calls by `identifier`, or `None` where the
    /// identifier belongs to no kind of this catalogue.
    pub fn from_identifier(identifier: &str) -> (found: Option<PasteboardType>)
        ensures
            found == PasteboardType::spec_from_identifier(identifier@),
    {
        let kinds = PasteboardType::all();
        let mut i: usize = 0;
        while i < kinds.len()
            invariant
                i <= kinds.len(),
                kinds@.len() == 15,
                forall|kind: PasteboardType| #[trigger] kinds@[spec_position(kind)] == kind,
                forall|j: int| 0 <= j < i ==> (#[trigger] kinds@[j]).spec_identifier() != identifier@,
            decreases kinds.len() - i,
        {
            let kind = kinds[i];
            if same_text(kind.identifier(), identifier) {
                proof {
                    let chosen = choose|other: PasteboardType| other.spec_identifier() == identifier@;
                    lemma_identifier_injective(kind, chosen);
                }
                return Some(kind);
            }
            i += 1;
        }
        proof {
            assert forall|kind: PasteboardType| kind.spec_identifier() != identifier@ by {
                assert(kinds@[spec_position(kind)].spec_identifier() != identifier@);
            }
        }
        None
    }
}

/// Place of a kind in the order of declaration.
pub open spec fn spec_position(kind: PasteboardType) -> int {
    match kind {
        PasteboardType::URL => 0,
        PasteboardType::Color => 1,
        PasteboardType::FileURL => 2,
        PasteboardType::Font => 3,
        PasteboardType::HTML => 4,
        PasteboardType::MultipleTextSelection => 5,
        PasteboardType::PDF => 6,
        PasteboardType::PNG => 7,
        PasteboardType::RTF => 8,
        PasteboardType::RTFD => 9,
        PasteboardType::Ruler => 10,
        PasteboardType::Sound => 11,
        PasteboardType::String => 12,
        PasteboardType::TabularText => 13,
        PasteboardType::TIFF => 14,
    }
}

/// What tells two identifiers of the catalogue apart: the length, and the
/// characters at the two places where identifiers of one length differ.
spec fn mark(identifier: Seq<char>) -> (nat, char, char) {
    (
        identifier.len(),
        if identifier.len() > 7 { identifier[7] } else { ' ' },
        if identifier.len() > 27 { identifier[27] } else { ' ' },
    )
}

proof fn lemma_marks(kind: PasteboardType)
    ensures
        mark(kind.spec_identifier()) == match kind {
            PasteboardType::URL => (10nat, 'u', ' '),
            PasteboardType::Color => (32nat, 'l', 'c'),
            PasteboardType::FileURL => (15nat, 'f', ' '),
            PasteboardType::Font => (47nat, 'l', 'c'),
            PasteboardType::HTML => (11nat, 'h', ' '),
            PasteboardType::MultipleTextSelection => (50nat, 'l', 'm'),
            PasteboardType::PDF => (13nat, 'b', ' '),
            PasteboardType::PNG => (10nat, 'p', ' '),
            PasteboardType::RTF => (10nat, 'r', ' '),
            PasteboardType::RTFD => (19nat, 'l', ' '),
            PasteboardType::Ruler => (47nat, 'l', 'p'),
            PasteboardType::Sound => (32nat, 'l', 's'),
            PasteboardType::String => (22nat, 'u', ' '),
            PasteboardType::TabularText => (37nat, 'u', 'a'),
            PasteboardType::TIFF => (11nat, 't', ' '),
        },
{
    reveal_strlit("public.url");
    reveal_strlit("com.apple.cocoa.pasteboard.color");
    reveal_strlit("public.file-url");
    reveal_strlit("com.apple.cocoa.pasteboard.character-formatting");
    reveal_strlit("public.html");
    reveal_strlit("com.apple.cocoa.pasteboard.multiple-text-selection");
    reveal_strlit("com.adobe.pdf");
    reveal_strlit("public.png");
    reveal_strlit("public.rtf");
    reveal_strlit("com.apple.flat-rtfd");
    reveal_strlit("com.apple.cocoa.pasteboard.paragraph-formatting");
    reveal_strlit("com.apple.cocoa.pasteboard.sound");
    reveal_strlit("public.utf8-plain-text");
    reveal_strlit("public.utf8-tab-separated-values-text");
    reveal_strlit("public.tiff");
}

/// No two kinds share an identifier.
pub proof fn lemma_identifier_injective(left: PasteboardType, right: PasteboardType)
    requires
        left.spec_identifier() == right.spec_identifier(),
    ensures
        left == right,
{
    lemma_marks(left);
    lemma_marks(right);
}

/// Looking a kind's own identifier up gives the kind back.
pub proof fn lemma_from_identifier_of_identifier(kind: PasteboardType)
    ensures
        PasteboardType::spec_from_identifier(kind.spec_identifier()) == Some(kind),
{
    let found = choose|other: PasteboardType| other.spec_identifier() == kind.spec_identifier();
    lemma_identifier_injective(found, kind);
}

/// An identifier that is looked up successfully is the identifier of the kind
/// found.
pub proof fn lemma_identifier_of_from_identifier(identifier: Seq<char>, kind: PasteboardType)
    requires
        PasteboardType::spec_from_identifier(identifier) == Some(kind),
    ensures
        kind.spec_identifier() == identifier,
{
}

/// The name of a pasteboard: one of the names that the system keeps, or any
/// other text.
///
/// The service tells pasteboards apart by the text of the name alone: two
/// names with one text are the same name, whichever way they are written.
#[derive(Debug)]
pub enum PasteboardName {
    /// The pasteboard that carries what is being dragged.
    Drag,
    /// The pasteboard that holds the text last searched for.
    Find,
    /// The pasteboard that holds font and character formatting.
    Font,
    /// The general pasteboard, which copy and paste go through.
    General,
    /// The pasteboard that holds paragraph formatting.
    Ruler,
    /// A pasteboard of the caller's own, called by the given text.
    Custom(String),
}

impl View for PasteboardName {
    type V = Seq<char>;

    /// The text by which the service calls the pasteboard.
    open spec fn view(&self) -> Seq<char> {
        match self {
            PasteboardName::Drag => "Apple CFPasteboard drag"@,
            PasteboardName::Find => "Apple CFPasteboard find"@,
            PasteboardName::Font => "Apple CFPasteboard font"@,
            PasteboardName::General => "Apple CFPasteboard general"@,
            PasteboardName::Ruler => "Apple CFPasteboard ruler"@,
            PasteboardName::Custom(text) => text@,
        }
    }
}

impl Clone for PasteboardName {
    fn clone(&self) -> (name: PasteboardName)
        ensures
            name == *self,
    {
        match self {
            PasteboardName::Drag => PasteboardName::Drag,
            PasteboardName::Find => PasteboardName::Find,
            PasteboardName::Font => PasteboardName::Font,
            PasteboardName::General => PasteboardName::General,
            PasteboardName::Ruler => PasteboardName::Ruler,
            PasteboardName::Custom(text) => PasteboardName::Custom(text.clone()),
        }
    }
}

impl PasteboardName {
    /// The text by which the service calls the pasteboard.
    pub fn text(&self) -> (text: String)
        ensures
            text@ == self@,
    {
        match self {
            PasteboardName::Drag => String::from_str("Apple CFPasteboard drag"),
            PasteboardName::Find => String::from_str("Apple CFPasteboard find"),
            PasteboardName::Font => String::from_str("Apple CFPasteboard font"),
            PasteboardName::General => String::from_str("Apple CFPasteboard general"),
            PasteboardName::Ruler => String::from_str("Apple CFPasteboard ruler"),
            PasteboardName::Custom(text) => text.clone(),
        }
    }
}

/// Whether `text` is one of the names that the system keeps.
pub open spec fn spec_is_system_name(text: Seq<char>) -> bool {
    ||| text == PasteboardName::Drag@
    ||| text == PasteboardName::Find@
    ||| text == PasteboardName::Font@
    ||| text == PasteboardName::General@
    ||| text == PasteboardName::Ruler@
}

/// Whether `text` is one of the names that the system keeps.
pub fn is_system_name(text: &str) -> (system: bool)
    ensures
        system == spec_is_system_name(text@),
{
    same_text(text, "Apple CFPasteboard drag")
        || same_text(text, "Apple CFPasteboard find")
        || same_text(text, "Apple CFPasteboard font")
        || same_text(text, "Apple CFPasteboard general")
        || same_text(text, "Apple CFPasteboard ruler")
}

/// None of the names that the system keeps ends in a plus sign.
pub proof fn lemma_system_names_end(text: Seq<char>)
    requires
        spec_is_system_name(text),
    ensures
        text.len() > 0,
        text.last() != '+',
{
    reveal_strlit("Apple CFPasteboard drag");
    reveal_strlit("Apple CFPasteboard find");
    reveal_strlit("Apple CFPasteboard font");
    reveal_strlit("Apple CFPasteboard general");
    reveal_strlit("Apple CFPasteboard ruler");
    assert("Apple CFPasteboard drag"@.len() == 23 && "Apple CFPasteboard drag"@[22] == 'g');
    assert("Apple CFPasteboard find"@.len() == 23 && "Apple CFPasteboard find"@[22] == 'd');
    assert("Apple CFPasteboard font"@.len() == 23 && "Apple CFPasteboard font"@[22] == 't');
    assert("Apple CFPasteboard general"@.len() == 26 && "Apple CFPasteboard general"@[25] == 'l');
    assert("Apple CFPasteboard ruler"@.len() == 24 && "Apple CFPasteboard ruler"@[23] == 'r');
}

/// The names that the system keeps are called by five different texts.
pub proof fn lemma_system_names_distinct(left: PasteboardName, right: PasteboardName)
    requires
        left !is Custom,
        right !is Custom,
        left@ == right@,
    ensures
        left == right,
{
    reveal_strlit("Apple CFPasteboard drag");
    reveal_strlit("Apple CFPasteboard find");
    reveal_strlit("Apple CFPasteboard font");
    reveal_strlit("Apple CFPasteboard general");
    reveal_strlit("Apple CFPasteboard ruler");
    assert("Apple CFPasteboard drag"@.len() == 23);
    assert("Apple CFPasteboard find"@.len() == 23);
    assert("Apple CFPasteboard font"@.len() == 23);
    assert("Apple CFPasteboard general"@.len() == 26);
    assert("Apple CFPasteboard ruler"@.len() == 24);
    assert("Apple CFPasteboard drag"@[19] == 'd');
    assert("Apple CFPasteboard find"@[20] == 'i');
    assert("Apple CFPasteboard font"@[20] == 'o');
    assert("Apple CFPasteboard font"@[19] == 'f');
    assert("Apple CFPasteboard find"@[19] == 'f');
    assert("Apple CFPasteboard drag"@[20] == 'r');
}

} // verus!
