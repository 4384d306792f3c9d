//! The image extractor: from the target of the export link to the bytes of the image.

use vstd::prelude::*;
use crate::error::{DecodeFault, SaveError};

verus! {

/// What processing `href` as a `data:` URL and decoding its body gives: the bytes of
/// the body, or the reason why there are none.
pub uninterp spec fn data_url_decoding(href: Seq<char>) -> Result<Seq<u8>, DecodeFault>;

/// Calls `data_url::DataUrl::process` on `href` and then `decode_to_vec` on the URL
/// it returns. The result is the decoded body, without the fragment, or which of
/// the two calls refused the text: `process` with `NotADataUrl` or `NoComma`,
/// `decode_to_vec` with invalid base64. The contract claims only that this is a
/// function of the text.
#[verifier::external_body]
fn decode_data_url(href: &str) -> (decoding: Result<Vec<u8>, DecodeFault>)
    ensures
        decoding is Ok ==> data_url_decoding(href@) == Ok::<Seq<u8>, DecodeFault>(decoding->Ok_0@),
        decoding is Err ==> data_url_decoding(href@) == Err::<Seq<u8>, DecodeFault>(decoding->Err_0),
{
    match data_url::DataUrl::process(href) {
        Err(data_url::DataUrlError::NotADataUrl) => Err(DecodeFault::NotADataUrl),
        Err(data_url::DataUrlError::NoComma) => Err(DecodeFault::NoComma),
        Ok(url) => match url.decode_to_vec() {
            Ok((body, _)) => Ok(body),
            Err(_) => Err(DecodeFault::InvalidBase64),
        },
    }
}

/// The image that a decoding stands for: its bytes as they are, or a decode failure
/// that keeps the reason.
pub open spec fn image_of(decoding: Result<Seq<u8>, DecodeFault>) -> Result<Seq<u8>, SaveError> {
    match decoding {
        Ok(bytes) => Ok(bytes),
        Err(fault) => Err(SaveError::DecodeFailure(fault)),
    }
}

/// Turns the outcome of decoding a `data:` URL into the image or the error of the
/// save operation. The bytes are handed on unchanged.
pub fn image_from_decoding(decoding: Result<Vec<u8>, DecodeFault>) -> (image: Result<Vec<u8>, SaveError>)
    ensures
        image is Ok <==> decoding is Ok,
        image is Ok ==> image->Ok_0 == decoding->Ok_0,
        image is Err ==> image->Err_0 == SaveError::DecodeFailure(decoding->Err_0),
{
    match decoding {
        Ok(bytes) => Ok(bytes),
        Err(fault) => Err(SaveError::DecodeFailure(fault)),
    }
}

/// Decodes the target of the export link into the bytes of the image.
///
/// Succeeds exactly when the text is a `data:` URL whose body decodes, and then
/// returns the decoded body; otherwise fails with `DecodeFailure` and the reason.
pub fn extract_image(href: &str) -> (image: Result<Vec<u8>, SaveError>)
    ensures
        image is Ok ==> image_of(data_url_decoding(href@)) == Ok::<Seq<u8>, SaveError>(image->Ok_0@),
        image is Err ==> image_of(data_url_decoding(href@)) == Err::<Seq<u8>, SaveError>(image->Err_0),
{
    image_from_decoding(decode_data_url(href))
}

} // verus!
