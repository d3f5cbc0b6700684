//! What to do about a message that came in from the chat.

use crate::keyboard::{
    make_tags_keyboard,
    tags_keyboard,
    Selection,
    TagKeyboardData,
    TagsKeyboard,
    NO_BUTTON_ID,
};
use crate::photo_service::PhotoUID;
use crate::text::{text_of, texts};
use vstd::prelude::*;

verus! {

/// What the bridge is set up with.
#[derive(Debug, PartialEq, Eq)]
pub struct ApplicationContext {
    /// The directory that files from the chat are kept in while they are on
    /// their way.
    pub working_dir: String,
    /// Whether media that the chat has compressed are turned away.
    pub disallow_compressed_files: bool,
    /// The tags that the keyboard offers, in the order in which it shows
    /// them.
    pub tags: Vec<String>,
}

impl ApplicationContext {
    /// The setup with these tags, this working directory and this rule for
    /// compressed media.
    pub fn new(tags: Vec<String>, working_dir: String, disallow_compressed_files: bool) -> (context:
        Self)
        ensures
            context.tags@ == tags@,
            context.working_dir@ == working_dir@,
            context.disallow_compressed_files == disallow_compressed_files,
    {
        ApplicationContext { working_dir, disallow_compressed_files, tags }
    }
}

/// The files that a message brings, each by the id under which the chat
/// hands it out.
#[derive(Debug, PartialEq, Eq)]
pub struct MediaMessage {
    /// The file that came attached as a document: it is as it was sent.
    pub document: Option<String>,
    /// The sizes in which the chat offers a photo that it has compressed,
    /// the largest last; empty where the message has no photo.
    pub photo: Vec<String>,
    /// A video that the chat has compressed.
    pub video: Option<String>,
}

/// The file of a message that is worth storing: the document where there is
/// one, else the largest size of the photo, else the video.
pub open spec fn file_id_of(
    document: Option<Seq<char>>,
    photo: Seq<Seq<char>>,
    video: Option<Seq<char>>,
) -> Option<Seq<char>> {
    if document is Some {
        document
    } else if photo.len() > 0 {
        Some(photo.last())
    } else {
        video
    }
}

/// Picks the file of a message that is worth storing.
pub fn get_file_id(message: &MediaMessage) -> (file_id: Option<String>)
    ensures
        text_of(file_id) == file_id_of(
            text_of(message.document),
            texts(message.photo@),
            text_of(message.video),
        ),
{
    match &message.document {
        Some(document) => Some(document.clone()),
        None => {
            let sizes = message.photo.len();
            if sizes > 0 {
                Some(message.photo[sizes - 1].clone())
            } else {
                match &message.video {
                    Some(video) => Some(video.clone()),
                    None => None,
                }
            }
        },
    }
}

/// What is to be done about a message.
#[derive(Debug, PartialEq, Eq)]
pub enum MediaAction {
    /// The message brings compressed media only, and those are turned away:
    /// the sender is asked to attach the file as a document.
    AskForDocument,
    /// The sender is told that the upload begins, and the file with this id
    /// is fetched and stored.
    Upload(String),
    /// The sender is told that the upload begins, and it fails at once: the
    /// message brings no file.
    NoFile,
}

/// The mathematical content of a `MediaAction`.
pub enum MediaActionView {
    AskForDocument,
    Upload(Seq<char>),
    NoFile,
}

impl View for MediaAction {
    type V = MediaActionView;

    open spec fn view(&self) -> MediaActionView {
        match self {
            MediaAction::AskForDocument => MediaActionView::AskForDocument,
            MediaAction::Upload(file_id) => MediaActionView::Upload(file_id@),
            MediaAction::NoFile => MediaActionView::NoFile,
        }
    }
}

/// What is to be done about a message with these files, under this rule for
/// compressed media.
pub open spec fn media_action(
    disallow_compressed_files: bool,
    document: Option<Seq<char>>,
    photo: Seq<Seq<char>>,
    video: Option<Seq<char>>,
) -> MediaActionView {
    if document is None && disallow_compressed_files {
        MediaActionView::AskForDocument
    } else {
        match file_id_of(document, photo, video) {
            Some(file_id) => MediaActionView::Upload(file_id),
            None => MediaActionView::NoFile,
        }
    }
}

/// Decides what is to be done about a message.
pub fn handle_media_message(context: &ApplicationContext, message: &MediaMessage) -> (action:
    MediaAction)
    ensures
        action@ == media_action(
            context.disallow_compressed_files,
            text_of(message.document),
            texts(message.photo@),
            text_of(message.video),
        ),
{
    if message.document.is_none() && context.disallow_compressed_files {
        MediaAction::AskForDocument
    } else {
        match get_file_id(message) {
            Some(file_id) => MediaAction::Upload(file_id),
            None => MediaAction::NoFile,
        }
    }
}

/// The keyboard under a photo that was just stored: every tag is offered
/// and none is selected.
pub fn first_keyboard(photo_uid: &PhotoUID, tags: &[String], save_text: &str) -> (keyboard:
    TagsKeyboard)
    requires
        tags@.len() <= i32::MAX,
    ensures
        keyboard@ == tags_keyboard(
            Selection { id: NO_BUTTON_ID, values: Seq::empty(), photo_uid: photo_uid@ },
            texts(tags@),
            save_text@,
        ),
{
    let data = TagKeyboardData::new(photo_uid);
    make_tags_keyboard(&data, tags, save_text)
}

} // verus!
