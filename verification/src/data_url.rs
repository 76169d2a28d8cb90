//! Data URLs: the body and the content type that one carries.

use crate::decode::{get_source_from_bytes, source_from_bytes, text_view};
use crate::error::{invalid_uri, FetchError, FetchErrorView};
use crate::specifier::Specifier;
use data_url::DataUrl;
use vstd::prelude::*;

verus! {

/// What a data URL carries.
pub struct DataUrlParts {
    /// The media type as the URL names it, with its parameters.
    pub content_type: String,
    /// The `charset` parameter of the media type.
    pub charset: Option<String>,
    /// The body, decoded from base64 or from percent encoding.
    pub bytes: Vec<u8>,
}

/// `DataUrlParts` as a plain value.
pub struct DataUrlView {
    pub content_type: Seq<char>,
    pub charset: Option<Seq<char>>,
    pub bytes: Seq<u8>,
}

impl View for DataUrlParts {
    type V = DataUrlView;

    open spec fn view(&self) -> DataUrlView {
        DataUrlView {
            content_type: self.content_type@,
            charset: text_view(self.charset),
            bytes: self.bytes@,
        }
    }
}

/// What the `data-url` crate makes of `text`: the parts of the data URL, or
/// the name of what is wrong with it.
pub uninterp spec fn data_url_parts(text: Seq<char>) -> Result<DataUrlView, Seq<char>>;

/// The parts of a data URL, or what is wrong with it, as a plain value.
pub open spec fn parts_view(r: Result<DataUrlParts, String>) -> Result<DataUrlView, Seq<char>> {
    match r {
        Ok(parts) => Ok(parts@),
        Err(why) => Err(why@),
    }
}

/// `DataUrl::process` of the `data-url` crate, then of its result the media
/// type as `Display` writes it, the media type's `charset` parameter and
/// `decode_to_vec`. Where processing or decoding fails the error is given as
/// `Debug` writes it. All of it depends on the text alone.
#[verifier::external_body]
fn process_data_url(text: &str) -> (r: Result<DataUrlParts, String>)
    ensures
        parts_view(r) == data_url_parts(text@),
{
    let data_url = match DataUrl::process(text) {
        Ok(data_url) => data_url,
        Err(e) => return Err(format!("{e:?}")),
    };
    let mime = data_url.mime_type();
    let charset = mime.get_parameter("charset").map(String::from);
    match data_url.decode_to_vec() {
        Ok((bytes, _)) => Ok(DataUrlParts { content_type: format!("{mime}"), charset, bytes }),
        Err(e) => Err(format!("{e:?}")),
    }
}

/// The decoded body and the content type of the data URL `text`: the body is
/// decoded in the character encoding that the media type names.
pub open spec fn data_url_source(text: Seq<char>) -> Result<(Seq<char>, Seq<char>), FetchErrorView> {
    match data_url_parts(text) {
        Ok(parts) => match source_from_bytes(parts.bytes, parts.charset) {
            Ok(source) => Ok((source, parts.content_type)),
            Err(e) => Err(e),
        },
        Err(why) => Err(invalid_uri(why)),
    }
}

/// A body with its content type, or the error in place of them, as a plain
/// value.
pub open spec fn source_view(r: Result<(String, String), FetchError>) -> Result<
    (Seq<char>, Seq<char>),
    FetchErrorView,
> {
    match r {
        Ok(pair) => Ok((pair.0@, pair.1@)),
        Err(e) => Err(e@),
    }
}

/// Returns the decoded body and content-type of a provided
/// data URL.
pub fn get_source_from_data_url(specifier: &Specifier) -> (r: Result<(String, String), FetchError>)
    ensures
        source_view(r) == data_url_source(specifier@),
{
    match process_data_url(specifier.as_str()) {
        Ok(parts) => {
            let DataUrlParts { content_type, charset, bytes } = parts;
            match get_source_from_bytes(bytes, charset) {
                Ok(source) => Ok((source, content_type)),
                Err(e) => Err(e),
            }
        },
        Err(why) => Err(FetchError::invalid_uri(why)),
    }
}

} // verus!
