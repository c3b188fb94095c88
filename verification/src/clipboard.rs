//! What is made of a read of the platform's clipboard.

use vstd::prelude::*;
use crate::models::{ClipmError, ClipmErrorView};

verus! {

/// The text that a read of the clipboard gives: the platform's text; an
/// empty text is `EmptyClipboard`; a failure of the platform is `Clipboard`
/// with the platform's words.
pub open spec fn text_read(platform: Result<String, String>) -> Result<Seq<char>, ClipmErrorView> {
    match platform {
        Ok(text) => if text@.len() == 0 {
            Err(ClipmErrorView::EmptyClipboard)
        } else {
            Ok(text@)
        },
        Err(words) => Err(ClipmErrorView::Clipboard(words@)),
    }
}

/// Judges a read of the platform's clipboard: `platform` is the text that the
/// platform handed out, or its words on why it could not.
pub fn read_text(platform: Result<String, String>) -> (r: Result<String, ClipmError>)
    ensures
        match r {
            Ok(text) => text_read(platform) == Ok::<Seq<char>, ClipmErrorView>(text@),
            Err(e) => text_read(platform) == Err::<Seq<char>, ClipmErrorView>(e@),
        },
{
    match platform {
        Ok(text) => {
            if text.as_str().is_empty() {
                Err(ClipmError::EmptyClipboard)
            } else {
                Ok(text)
            }
        },
        Err(words) => Err(ClipmError::Clipboard(words)),
    }
}

} // verus!
