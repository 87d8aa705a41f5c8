//! What the window may ask of the backend.

use vstd::prelude::*;
use vstd::string::StringExecFns;
use crate::error::{Cause, Error, ErrorView, Message};
use crate::graph::{cause_of, gunzip, gunzip_of, gzip, gzip_of};
use crate::options::global::{catalogue, option_views, GlobalOptions};
use crate::state::ApplicationState;
use crate::text::{joined, same_text};

verus! {

/// The title of a window whose application is called `base` and that shows
/// `file_name`, if it shows a file.
pub open spec fn title_of(base: Seq<char>, file_name: Option<Seq<char>>) -> Seq<char> {
    match file_name {
        Some(file) => base + " - "@ + file,
        None => base,
    }
}

/// The text of an optional string slice.
pub open spec fn text_of(value: Option<&str>) -> Option<Seq<char>> {
    match value {
        Some(text) => Some(text@),
        None => None,
    }
}

/// All global options, in the catalogue's order.
#[must_use]
pub fn list_global_options(state: &ApplicationState) -> (out: &Vec<GlobalOptions>)
    ensures
        option_views(out@) == catalogue(),
{
    state.global_options_vec()
}

/// What is to be done to the window's title so that it names `file_name`.
///
/// `base` is the title of the first window that the application is set up
/// with; where there is no such window (`base` is `None`) nothing can be
/// done, and that is the error. Otherwise the result is the title that the
/// window must be given, or nothing where `current` is that title already. A
/// window whose title is not known (`current` is `None`) is always given its
/// title.
pub fn set_file_name_to_title(
    base: Option<&str>,
    current: Option<&str>,
    file_name: Option<&str>,
) -> (out: Result<Option<String>, Error>)
    ensures
        match base {
            None => out is Err && out->Err_0@ == (ErrorView {
                message: "failed to get first window config"@,
                errors: Seq::empty(),
            }),
            Some(name) => out is Ok && match out->Ok_0 {
                Some(title) => title@ == title_of(name@, text_of(file_name)) && text_of(current)
                    != Some(title@),
                None => text_of(current) == Some(title_of(name@, text_of(file_name))),
            },
        },
{
    let name = match base.message("failed to get first window config") {
        Ok(name) => name,
        Err(error) => {
            return Err(error);
        },
    };
    let title = match file_name {
        Some(file) => {
            let mut title = joined(name, " - ");
            title.append(file);
            title
        },
        None => String::from_str(name),
    };
    match current {
        Some(shown) => {
            if same_text(shown, title.as_str()) {
                Ok(None)
            } else {
                Ok(Some(title))
            }
        },
        None => Ok(Some(title)),
    }
}

/// What is to be done to the window's title so that it names no file: as
/// [`set_file_name_to_title`] without a file.
pub fn clear_title(base: Option<&str>, current: Option<&str>) -> (out: Result<
    Option<String>,
    Error,
>)
    ensures
        match base {
            None => out is Err && out->Err_0@ == (ErrorView {
                message: "failed to get first window config"@,
                errors: Seq::empty(),
            }),
            Some(name) => out is Ok && match out->Ok_0 {
                Some(title) => title@ == name@ && text_of(current) != Some(name@),
                None => text_of(current) == Some(name@),
            },
        },
{
    set_file_name_to_title(base, current, None)
}

/// The message of the error that is shown when the window's title cannot be
/// set.
pub fn set_title_failure() -> (out: &'static str)
    ensures
        out@ == "failed to set title"@,
{
    "failed to set title"
}

/// The message of the error that is shown when a graph cannot be written as
/// JSON text.
pub fn write_failure() -> (out: &'static str)
    ensures
        out@ == "failed to write graph to encoder"@,
{
    "failed to write graph to encoder"
}

/// The message of the error that is shown when JSON text cannot be made into
/// a graph file.
pub fn encode_failure() -> (out: &'static str)
    ensures
        out@ == "failed to encode graph"@,
{
    "failed to encode graph"
}

/// The message of the error that is shown when a file holds no graph.
pub fn create_failure() -> (out: &'static str)
    ensures
        out@ == "failed to create graph from file"@,
{
    "failed to create graph from file"
}

/// The message of the error that is shown when the file at `file_path` cannot
/// be read.
pub fn open_failure(file_path: &str) -> (out: String)
    ensures
        out@ == "failed to open path "@ + file_path@,
{
    joined("failed to open path ", file_path)
}

/// The message of the error that is shown when the graph cannot be written to
/// `file_path`.
pub fn save_failure(file_path: &str) -> (out: String)
    ensures
        out@ == "failed to save graph to file "@ + file_path@,
{
    joined("failed to save graph to file ", file_path)
}

/// The JSON text of the graph in a graph file with the bytes `file`.
pub fn read_graph(file: &[u8]) -> (out: Result<Vec<u8>, Error>)
    ensures
        match out {
            Ok(json) => gunzip_of(file@) == Some(json@),
            Err(error) => gunzip_of(file@) is None && error@.message
                == "failed to create graph from file"@ && error@.errors.len() == 1,
        },
{
    match gunzip(file) {
        Ok(json) => Ok(json),
        Err(error) => {
            let failed: Result<Vec<u8>, Cause> = Err(cause_of(&error));
            failed.message(create_failure())
        },
    }
}

/// The bytes of the graph file for a graph with the JSON text `json`: the
/// gzip member of the text. Saving fails only where the text has no gzip
/// member.
pub fn save_graph(json: &[u8]) -> (out: Result<Vec<u8>, Error>)
    ensures
        match out {
            Ok(file) => gzip_of(json@) == Some(file@),
            Err(error) => gzip_of(json@) is None && error@.message == "failed to encode graph"@
                && error@.errors.len() == 1,
        },
{
    match gzip(json) {
        Ok(file) => Ok(file),
        Err(error) => {
            let failed: Result<Vec<u8>, Cause> = Err(cause_of(&error));
            failed.message(encode_failure())
        },
    }
}

} // verus!
