//! Choosing the text that the stylesheet grammar is given.
use vstd::prelude::*;
use crate::repair::{is_clean, lemma_repair_keeps_clean_text, repair, repaired};
use crate::source::is_file_reference;

verus! {

/// The characters of text that may be absent.
pub open spec fn text_view(t: Option<&str>) -> Option<Seq<char>> {
    match t {
        Some(c) => Some(c@),
        None => None,
    }
}

/// The text handed to the stylesheet grammar for embedded `source`: for a
/// file reference, the file's contents as they were read (none while they
/// are not at hand); for inline text, that text repaired.
pub open spec fn grammar_text(source: Seq<char>, contents: Option<Seq<char>>) -> Option<
    Seq<char>,
> {
    if is_file_reference(source) {
        contents
    } else {
        Some(repaired(source))
    }
}

/// The text handed to the stylesheet grammar for embedded `source`, given
/// the contents of the file it references, if it references one.
pub fn css(source: &str, contents: Option<&str>) -> (r: Option<String>)
    ensures
        r matches Some(t) ==> grammar_text(source@, text_view(contents)) == Some(t@),
        r is None ==> grammar_text(source@, text_view(contents)) is None,
{
    if source.unicode_len() > 0 && source.get_char(0) == '"' {
        match contents {
            Some(c) => Some(String::from_str(c)),
            None => None,
        }
    } else {
        Some(repair(source))
    }
}

/// Inline text and a file reference hand the grammar the same text exactly
/// when the inline text repairs to the file's contents. Text written by hand
/// is its own repair, so inline text and a file holding that same text give
/// the grammar the same rules.
pub proof fn lemma_source_mode_agnostic(inline: Seq<char>, reference: Seq<char>, contents: Seq<char>)
    requires
        !is_file_reference(inline),
        is_file_reference(reference),
    ensures
        grammar_text(inline, None) == grammar_text(reference, Some(contents)) <==> repaired(inline)
            == contents,
        is_clean(contents) && !is_file_reference(contents) ==> grammar_text(contents, None)
            == grammar_text(reference, Some(contents)),
{
    if is_clean(contents) {
        lemma_repair_keeps_clean_text(contents);
    }
}

} // verus!
