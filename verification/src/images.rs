//! Where the image of a game or a character is kept: the file name is the
//! last path segment of the address it was fetched from.

use vstd::prelude::*;
use crate::text::texts;

verus! {

/// Why no file name could be taken from an address.
#[derive(Clone, Copy, Debug, PartialEq, Eq, Structural)]
pub enum ImageError {
    /// The address is no absolute URL.
    Parse,
    /// The URL has no path made of segments.
    Segments,
    /// The path has no last segment.
    Filename,
}

impl ImageError {
    /// The error in words.
    pub fn message(&self) -> (r: String)
        ensures
            r@ == match self {
                ImageError::Parse => "Failed to parse URL"@,
                ImageError::Segments => "Failed to get segments"@,
                ImageError::Filename => "Failed to get filename"@,
            },
    {
        match self {
            ImageError::Parse => "Failed to parse URL".to_owned(),
            ImageError::Segments => "Failed to get segments".to_owned(),
            ImageError::Filename => "Failed to get filename".to_owned(),
        }
    }
}

/// What the `url` crate makes of an address: `None` where `Url::parse`
/// refuses it, else what `Url::path_segments` yields for the parsed URL,
/// `None` again for a URL that cannot be a base.
pub uninterp spec fn url_path_segments(url: Seq<char>) -> Option<Option<Seq<Seq<char>>>>;

/// What a parsed address holds, as texts.
pub open spec fn segments_view(r: Option<Option<Vec<String>>>) -> Option<Option<Seq<Seq<char>>>> {
    match r {
        None => None,
        Some(None) => Some(None),
        Some(Some(v)) => Some(Some(texts(v@))),
    }
}

/// Calls `url::Url::parse` on `url` and then `Url::path_segments` on the
/// result, collecting the segments in order. The contract only gives the
/// outcome its name: the same address always yields the same segments.
#[verifier::external_body]
fn path_segments(url: &str) -> (r: Option<Option<Vec<String>>>)
    ensures
        segments_view(r) == url_path_segments(url@),
{
    match url::Url::parse(url) {
        Ok(parsed) => Some(parsed.path_segments().map(|segments| segments.map(String::from).collect())),
        Err(_) => None,
    }
}

/// The file name that a parsed address gives: its last path segment.
pub open spec fn image_name_of(parsed: Option<Option<Seq<Seq<char>>>>) -> Result<
    Seq<char>,
    ImageError,
> {
    match parsed {
        None => Err(ImageError::Parse),
        Some(None) => Err(ImageError::Segments),
        Some(Some(segments)) => if segments.len() == 0 {
            Err(ImageError::Filename)
        } else {
            Ok(segments.last())
        },
    }
}

/// What a result of `image_name` holds.
pub open spec fn name_view(r: Result<String, ImageError>) -> Result<Seq<char>, ImageError> {
    match r {
        Ok(name) => Ok(name@),
        Err(e) => Err(e),
    }
}

/// Picks the file name out of a parsed address.
pub fn image_name(parsed: Option<Option<Vec<String>>>) -> (r: Result<String, ImageError>)
    ensures
        name_view(r) == image_name_of(segments_view(parsed)),
{
    match parsed {
        None => Err(ImageError::Parse),
        Some(None) => Err(ImageError::Segments),
        Some(Some(mut segments)) => {
            let ghost all = segments@;
            match segments.pop() {
                None => Err(ImageError::Filename),
                Some(name) => {
                    assert(texts(all).last() == name@);
                    Ok(name)
                },
            }
        },
    }
}

/// Extracts the file name of an image from the address of the image.
pub fn extract_image(url: &str) -> (r: Result<String, ImageError>)
    ensures
        name_view(r) == image_name_of(url_path_segments(url@)),
{
    image_name(path_segments(url))
}

/// Calls `std::path::Path::join` to put `part` behind `base`. Nothing is
/// claimed of the result: the separator is the platform's.
#[verifier::external_body]
fn path_join(base: &str, part: &str) -> (r: String) {
    std::path::Path::new(base).join(part).to_string_lossy().into_owned()
}

/// The place of an image under the application's data directory: the
/// directory `images`, and in it the file name taken from the address. It
/// fails exactly where the address gives no file name.
pub fn construct_image_path(base_path: &str, url: &str) -> (r: Result<String, ImageError>)
    ensures
        match r {
            Ok(_) => image_name_of(url_path_segments(url@)) is Ok,
            Err(e) => image_name_of(url_path_segments(url@)) == Err::<Seq<char>, ImageError>(e),
        },
{
    match extract_image(url) {
        Err(e) => Err(e),
        Ok(name) => {
            let images = path_join(base_path, "images");
            Ok(path_join(images.as_str(), name.as_str()))
        },
    }
}

} // verus!
