//! Deciding whether embedded text is inline source or a file reference.
use vstd::prelude::*;

verus! {

/// Embedded text with its provenance.
pub enum SourceUnit {
    /// Source text written in place.
    Inline(String),
    /// A path, relative to the build's working directory, to read the text from.
    FileReference(String),
}

/// Embedded text that starts with `"` is a quoted file path.
pub open spec fn is_file_reference(s: Seq<char>) -> bool {
    s.len() > 0 && s[0] == '"'
}

/// The path inside a quoted file reference: the text without its outer quotes.
pub open spec fn reference_path(s: Seq<char>) -> Seq<char> {
    s.subrange(1, s.len() - 1)
}

/// Embedded text that can be dispatched: not empty, and a file reference
/// holds both of its quotes.
pub open spec fn dispatchable(s: Seq<char>) -> bool {
    s.len() > 0 && (is_file_reference(s) ==> s.len() >= 2)
}

/// What `text` stands for: a file reference when it starts with `"`, inline
/// source otherwise.
pub open spec fn unit_of(unit: SourceUnit, s: Seq<char>) -> bool {
    match unit {
        SourceUnit::Inline(t) => !is_file_reference(s) && t@ == s,
        SourceUnit::FileReference(p) => is_file_reference(s) && p@ == reference_path(s),
    }
}

/// Decides the provenance of embedded text by its first character.
pub fn dispatch(text: &str) -> (r: SourceUnit)
    requires
        dispatchable(text@),
    ensures
        unit_of(r, text@),
{
    let n = text.unicode_len();
    if text.get_char(0) == '"' {
        let path = text.substring_char(1, n - 1);
        SourceUnit::FileReference(String::from_str(path))
    } else {
        SourceUnit::Inline(String::from_str(text))
    }
}

/// Why embedded text cannot name an asset file.
#[derive(PartialEq, Eq, Structural, Debug, Clone, Copy)]
pub enum SourceError {
    /// The text is empty or is not a quoted path.
    NotAFileReference,
}

/// The path that an asset's embedded text names; assets are only ever read
/// from files.
pub fn asset_path(text: &str) -> (r: Result<String, SourceError>)
    ensures
        is_file_reference(text@) && text@.len() >= 2 <==> r is Ok,
        r matches Ok(p) ==> p@ == reference_path(text@),
        r matches Err(e) ==> e == SourceError::NotAFileReference,
{
    let n = text.unicode_len();
    if n >= 2 && text.get_char(0) == '"' {
        Ok(String::from_str(text.substring_char(1, n - 1)))
    } else {
        Err(SourceError::NotAFileReference)
    }
}

/// The step of reading a file that failed.
#[derive(PartialEq, Eq, Structural, Debug, Clone, Copy)]
pub enum IoStep {
    Open,
    Read,
}

/// The words that open the diagnostic for a failed step.
pub open spec fn io_failure_prefix(step: IoStep) -> Seq<char> {
    match step {
        IoStep::Open => "Couldn't open file "@,
        IoStep::Read => "Couldn't read file "@,
    }
}

/// The diagnostic of a failed file read: the step that failed and the
/// resolved path.
pub fn io_failure_message(step: IoStep, resolved_path: &str) -> (r: String)
    ensures
        r@ == io_failure_prefix(step) + resolved_path@,
{
    let mut message = match step {
        IoStep::Open => String::from_str("Couldn't open file "),
        IoStep::Read => String::from_str("Couldn't read file "),
    };
    message.append(resolved_path);
    message
}

} // verus!
