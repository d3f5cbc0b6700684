//! What can go wrong between the bridge and the photo backend.

use crate::photo_service::PhotoUID;
use vstd::prelude::*;

verus! {

/// A failure of one operation on the photo backend.
///
/// No failure is retried here, and none ends the process: each belongs to
/// the one upload or the one label that met it.
#[derive(Debug, PartialEq, Eq)]
pub enum PhotoPrismServiceError {
    /// The backend refused the credentials; its answer is attached.
    AuthenticationError(String),
    /// The backend accepted the credentials and named no session.
    XSessionHeaderMissing,
    /// The backend accepted the credentials and its answer names no owner;
    /// the answer is attached.
    UserIDIsMissing(String),
    /// The backend refused the file; its answer is attached.
    UploadFailed { file: String, details: String },
    /// The backend took the file and refused to index it; its answer is
    /// attached.
    IndexingFailed { file: String, details: String },
    /// The file was stored and indexed, and the backend knows no photo with
    /// its content hash.
    CanNotFindPhotoByHash(String),
    /// The backend refused to add the label to the photo.
    AddLabelFailed { label: String, photo_uid: PhotoUID },
    /// A request could not be carried out; the reason is attached.
    PhotoPrismAPIError { err: String },
    /// Anything else that stopped an operation; the reason is attached.
    Other(String),
}

/// The mathematical content of a `PhotoPrismServiceError`.
pub enum ErrorView {
    AuthenticationError(Seq<char>),
    XSessionHeaderMissing,
    UserIDIsMissing(Seq<char>),
    UploadFailed { file: Seq<char>, details: Seq<char> },
    IndexingFailed { file: Seq<char>, details: Seq<char> },
    CanNotFindPhotoByHash(Seq<char>),
    AddLabelFailed { label: Seq<char>, photo_uid: Seq<char> },
    PhotoPrismAPIError { err: Seq<char> },
    Other(Seq<char>),
}

impl View for PhotoPrismServiceError {
    type V = ErrorView;

    open spec fn view(&self) -> ErrorView {
        match self {
            PhotoPrismServiceError::AuthenticationError(answer) => ErrorView::AuthenticationError(
                answer@,
            ),
            PhotoPrismServiceError::XSessionHeaderMissing => ErrorView::XSessionHeaderMissing,
            PhotoPrismServiceError::UserIDIsMissing(answer) => ErrorView::UserIDIsMissing(answer@),
            PhotoPrismServiceError::UploadFailed { file, details } => ErrorView::UploadFailed {
                file: file@,
                details: details@,
            },
            PhotoPrismServiceError::IndexingFailed { file, details } => ErrorView::IndexingFailed {
                file: file@,
                details: details@,
            },
            PhotoPrismServiceError::CanNotFindPhotoByHash(hash) => ErrorView::CanNotFindPhotoByHash(
                hash@,
            ),
            PhotoPrismServiceError::AddLabelFailed { label, photo_uid } => ErrorView::AddLabelFailed {
                label: label@,
                photo_uid: photo_uid@,
            },
            PhotoPrismServiceError::PhotoPrismAPIError { err } => ErrorView::PhotoPrismAPIError {
                err: err@,
            },
            PhotoPrismServiceError::Other(reason) => ErrorView::Other(reason@),
        }
    }
}

impl PhotoPrismServiceError {
    /// A copy of this failure.
    pub fn duplicate(&self) -> (copy: Self)
        ensures
            copy@ == self@,
    {
        match self {
            PhotoPrismServiceError::AuthenticationError(answer) => {
                PhotoPrismServiceError::AuthenticationError(answer.clone())
            },
            PhotoPrismServiceError::XSessionHeaderMissing => {
                PhotoPrismServiceError::XSessionHeaderMissing
            },
            PhotoPrismServiceError::UserIDIsMissing(answer) => {
                PhotoPrismServiceError::UserIDIsMissing(answer.clone())
            },
            PhotoPrismServiceError::UploadFailed { file, details } => {
                PhotoPrismServiceError::UploadFailed { file: file.clone(), details: details.clone() }
            },
            PhotoPrismServiceError::IndexingFailed { file, details } => {
                PhotoPrismServiceError::IndexingFailed {
                    file: file.clone(),
                    details: details.clone(),
                }
            },
            PhotoPrismServiceError::CanNotFindPhotoByHash(hash) => {
                PhotoPrismServiceError::CanNotFindPhotoByHash(hash.clone())
            },
            PhotoPrismServiceError::AddLabelFailed { label, photo_uid } => {
                PhotoPrismServiceError::AddLabelFailed {
                    label: label.clone(),
                    photo_uid: photo_uid.duplicate(),
                }
            },
            PhotoPrismServiceError::PhotoPrismAPIError { err } => {
                PhotoPrismServiceError::PhotoPrismAPIError { err: err.clone() }
            },
            PhotoPrismServiceError::Other(reason) => PhotoPrismServiceError::Other(reason.clone()),
        }
    }
}

} // verus!
