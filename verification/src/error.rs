//! The ways in which saving a chart as an image fails.

use vstd::prelude::*;

verus! {

/// Why the target of the export link could not be decoded.
#[derive(Clone, Copy, Debug, PartialEq, Eq, Structural)]
pub enum DecodeFault {
    /// The text does not start as a `data:` URL does.
    NotADataUrl,
    /// The `data:` URL has no comma between its header and its body.
    NoComma,
    /// The body is marked as base64 and is not valid base64.
    InvalidBase64,
}

/// The step of the page interaction at which the page did not answer as expected.
#[derive(Clone, Copy, Debug, PartialEq, Eq, Structural)]
pub enum InteractionStep {
    /// Loading the document.
    Navigate,
    /// Waiting for the disclosure element to appear.
    FindDisclosure,
    /// Clicking the disclosure element.
    OpenDisclosure,
    /// Finding the export link in the revealed content.
    FindLink,
    /// Clicking the export link.
    ClickLink,
    /// Finding the export link again after the click.
    RelocateLink,
    /// Reading the target of the export link.
    ReadTarget,
}

/// Why a chart could not be saved as an image. Each variant names the phase that failed.
#[derive(Clone, Copy, Debug, PartialEq, Eq, Structural)]
pub enum SaveError {
    /// The driver process could not be started within the allowed attempts.
    LaunchFailure,
    /// No browser session could be opened within the allowed attempts.
    ConnectionFailure,
    /// The page did not offer what the export needs, at the given step.
    InteractionFailure(InteractionStep),
    /// The export link did not hold a decodable `data:` URL.
    DecodeFailure(DecodeFault),
    /// The document or the image could not be written.
    IoFailure,
}

} // verus!
