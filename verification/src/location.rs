//! Locations of files.

use vstd::prelude::*;

use crate::actions::FileMeta;
use crate::error::{DeltaResult, Error, ErrorView};
use crate::text::opt_str;

verus! {

/// What `url::Url::parse` makes of a text: the URL as it is written out, or why there is none.
pub uninterp spec fn parsed_url(text: Seq<char>) -> Result<Seq<char>, url::ParseError>;

/// Calls `url::Url::parse` and writes the URL out again. What comes back depends on the text alone; the
/// rules by which a URL is read and written are those of the `url` crate and are not stated here.
#[verifier::external_body]
pub(crate) fn parse_url(text: &str) -> (r: Result<String, url::ParseError>)
    ensures
        match r {
            Ok(location) => parsed_url(text@) == Ok::<Seq<char>, url::ParseError>(location@),
            Err(e) => parsed_url(text@) == Err::<Seq<char>, url::ParseError>(e),
        },
{
    match url::Url::parse(text) {
        Ok(location) => Ok(String::from(location)),
        Err(e) => Err(e),
    }
}

/// The location that a path denotes: the URL that the path is, or else the URL of the directory at the path.
pub open spec fn location_of(path: Seq<char>, directory: Option<Seq<char>>) -> Option<Seq<char>> {
    match (parsed_url(path), directory) {
        (Ok(location), _) => Some(location),
        (Err(_), Some(directory)) => match parsed_url(directory) {
            Ok(location) => Some(location),
            Err(_) => None,
        },
        (Err(_), None) => None,
    }
}

/// The location of the table at a path, which is a URL or a local directory. `directory` is the URL of the
/// directory at the path, if there is one.
///
/// # Errors
///
/// That of the path, where it is no text, and [`Error::InvalidTableLocation`] for a path that is neither.
pub fn parse_location(path: DeltaResult<&str>, directory: Option<&str>) -> (r: DeltaResult<String>)
    ensures
        match (path, r) {
            (Ok(path), Ok(location)) => location_of(path@, opt_str(directory)) == Some(location@),
            (Ok(path), Err(error)) => location_of(path@, opt_str(directory)) is None && error@
                == ErrorView::InvalidTableLocation(path@),
            (Err(e), Err(error)) => error == e,
            (Err(_), Ok(_)) => false,
        },
{
    let path = match path {
        Ok(path) => path,
        Err(e) => {
            return Err(e);
        },
    };
    if let Ok(location) = parse_url(path) {
        return Ok(location);
    }
    if let Some(directory) = directory {
        if let Ok(location) = parse_url(directory) {
            return Ok(location);
        }
    }
    Err(Error::InvalidTableLocation(path.to_owned()))
}

/// The file at a location, which may have turned out to be no URL.
pub fn file_at(
    location: Result<String, url::ParseError>,
    last_modified: i64,
    size: u64,
) -> (r: DeltaResult<FileMeta>)
    ensures
        match (location, r) {
            (Ok(location), Ok(file)) => file == (FileMeta { location, last_modified, size }),
            (Err(e), Err(error)) => error@ == ErrorView::InvalidUrl(e),
            _ => false,
        },
{
    match location {
        Ok(location) => Ok(FileMeta { location, last_modified, size }),
        Err(e) => Err(Error::InvalidUrl(e)),
    }
}

} // verus!
