use vstd::prelude::*;
use crate::canvas::{
    append_error,
    append_link,
    append_succeeds,
    canvas_to_update,
    link_appended,
    Canvas,
    LoadedCanvas,
    Node,
    SaveError,
    Timestamp,
};
use crate::url::{is_url, is_url_text};

verus! {

/// What to do with the clipboard's content once the gesture fired: an error
/// where the clipboard could not be read, the text to keep where it is a link,
/// and nothing otherwise.
pub fn link_to_save(clipboard: Option<String>) -> (r: Result<Option<String>, SaveError>)
    ensures
        match clipboard {
            None => r == Err::<Option<String>, SaveError>(SaveError::ClipboardUnavailable),
            Some(t) => match r {
                Ok(Some(u)) => is_url_text(t@) && u@ == t@,
                Ok(None) => !is_url_text(t@),
                Err(_) => false,
            },
        },
{
    match clipboard {
        None => Err(SaveError::ClipboardUnavailable),
        Some(t) => {
            if is_url(t.as_str()) {
                Ok(Some(t))
            } else {
                Ok(None)
            }
        },
    }
}

/// Adds a link of `url` captured at `now` to what reading the day's canvas file
/// gave, and returns the canvas to write back. A file that could not be read or
/// does not parse gives an error and no canvas, so it is never overwritten.
pub fn append_link_to_loaded(loaded: LoadedCanvas, url: &str, now: &Timestamp) -> (r: Result<
    Canvas,
    SaveError,
>)
    ensures
        match loaded {
            LoadedCanvas::Missing => match r {
                Ok(c) => append_succeeds(Seq::<Node>::empty(), *now) && link_appended(
                    Seq::<Node>::empty(),
                    Seq::<serde_json::Value>::empty(),
                    c,
                    url@,
                    *now,
                ),
                Err(e) => !append_succeeds(Seq::<Node>::empty(), *now) && e == append_error(
                    Seq::<Node>::empty(),
                    *now,
                ),
            },
            LoadedCanvas::Parsed(c) => match r {
                Ok(d) => append_succeeds(c.nodes@, *now) && link_appended(
                    c.nodes@,
                    c.edges@,
                    d,
                    url@,
                    *now,
                ),
                Err(e) => !append_succeeds(c.nodes@, *now) && e == append_error(c.nodes@, *now),
            },
            LoadedCanvas::Unparseable => r matches Err(e) && e == SaveError::MalformedCanvasFile,
            LoadedCanvas::Unreadable => r matches Err(e) && e == SaveError::FileSystemError,
        },
{
    let mut canvas = match canvas_to_update(loaded) {
        Ok(c) => c,
        Err(e) => return Err(e),
    };
    match append_link(&mut canvas, url, now) {
        Ok(()) => Ok(canvas),
        Err(e) => Err(e),
    }
}

} // verus!
