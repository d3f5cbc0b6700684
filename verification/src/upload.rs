//! Storing a file at the backend, from the local file to the identifier
//! that the backend gives to the photo.
//!
//! The backend names no identifier when it takes a file. So the file is
//! sent, then indexed, then hashed here, and at last the backend is asked
//! for the photo with that content hash. Each step needs the one before it
//! to have succeeded, and none is tried twice.
//!
//! An `Upload` is the state of that work. It says what to do next; the
//! caller does it and reports what came of it.

use crate::error::{ErrorView, PhotoPrismServiceError};
use crate::photo_service::{
    endpoint_of,
    found_photo,
    hash_query,
    photo_in,
    search_at,
    PhotoPrismPhotoService,
    PhotoUID,
    ServiceView,
};
use crate::request::{
    Method,
    Payload,
    PayloadView,
    Reply,
    ReplyView,
    Request,
    RequestView,
    STATUS_OK,
};
use crate::session::PhotoPrismUser;
use crate::token::{is_upload_token, upload_token};
use vstd::prelude::*;
use vstd::string::*;

verus! {

/// How far an upload has come.
#[derive(Debug, PartialEq, Eq)]
pub enum UploadStage {
    /// The file is to be sent; the answer is awaited.
    Uploading,
    /// The file was taken and is to be indexed; the answer is awaited.
    Indexing,
    /// The file was indexed; its content hash is awaited.
    Hashing,
    /// The backend is asked for the photo with this hash; the answer is
    /// awaited.
    Searching { hash: String },
    /// The backend has named the photo. The upload is over.
    Found(PhotoUID),
    /// A step has failed. The upload is over.
    Failed(PhotoPrismServiceError),
}

/// The mathematical content of an `UploadStage`.
pub enum StageView {
    Uploading,
    Indexing,
    Hashing,
    Searching { hash: Seq<char> },
    Found(Seq<char>),
    Failed(ErrorView),
}

impl View for UploadStage {
    type V = StageView;

    open spec fn view(&self) -> StageView {
        match self {
            UploadStage::Uploading => StageView::Uploading,
            UploadStage::Indexing => StageView::Indexing,
            UploadStage::Hashing => StageView::Hashing,
            UploadStage::Searching { hash } => StageView::Searching { hash: hash@ },
            UploadStage::Found(photo_uid) => StageView::Found(photo_uid@),
            UploadStage::Failed(error) => StageView::Failed(error@),
        }
    }
}

/// What the caller reports to an upload.
#[derive(Debug, PartialEq, Eq)]
pub enum UploadEvent {
    /// The backend has answered the request that was to be sent.
    Replied(Reply),
    /// The file was read to its end; this is its content hash.
    Hashed(String),
    /// What was to be done could not be done: the request did not get
    /// through, or the file could not be read.
    Failed(PhotoPrismServiceError),
}

/// The mathematical content of an `UploadEvent`.
pub enum EventView {
    Replied(ReplyView),
    Hashed(Seq<char>),
    Failed(ErrorView),
}

impl View for UploadEvent {
    type V = EventView;

    open spec fn view(&self) -> EventView {
        match self {
            UploadEvent::Replied(reply) => EventView::Replied(reply@),
            UploadEvent::Hashed(hash) => EventView::Hashed(hash@),
            UploadEvent::Failed(error) => EventView::Failed(error@),
        }
    }
}

/// What an upload asks of the caller.
#[derive(Debug, PartialEq, Eq)]
pub enum UploadAction {
    /// Send this request, in the current session, and report the answer.
    Send(Request),
    /// Compute the content hash of the file at this path and report it.
    HashFile(String),
    /// Nothing more: this is the outcome.
    Done(Result<PhotoUID, PhotoPrismServiceError>),
}

/// The mathematical content of an `UploadAction`.
pub enum ActionView {
    Send(RequestView),
    HashFile(Seq<char>),
    Done(Result<Seq<char>, ErrorView>),
}

impl View for UploadAction {
    type V = ActionView;

    open spec fn view(&self) -> ActionView {
        match self {
            UploadAction::Send(request) => ActionView::Send(request@),
            UploadAction::HashFile(path) => ActionView::HashFile(path@),
            UploadAction::Done(Ok(photo_uid)) => ActionView::Done(Ok(photo_uid@)),
            UploadAction::Done(Err(error)) => ActionView::Done(Err(error@)),
        }
    }
}

/// The upload of one file.
pub struct Upload {
    file: String,
    file_name: String,
    upload_url: String,
    search_url: String,
    stage: UploadStage,
}

/// The mathematical content of an `Upload`.
pub struct UploadView {
    /// The path of the local file.
    pub file: Seq<char>,
    /// The name under which the file is sent.
    pub file_name: Seq<char>,
    /// The address that takes the file and, after it, the call to index it.
    pub upload_url: Seq<char>,
    /// The address that searches photos.
    pub search_url: Seq<char>,
    pub stage: StageView,
}

impl View for Upload {
    type V = UploadView;

    closed spec fn view(&self) -> UploadView {
        UploadView {
            file: self.file@,
            file_name: self.file_name@,
            upload_url: self.upload_url@,
            search_url: self.search_url@,
            stage: self.stage@,
        }
    }
}

/// The name under which a file with the extension `extension` is sent. The
/// file's own name is left behind; the extension stays, for the backend to
/// tell the kind of file by.
pub open spec fn sent_name(extension: Seq<char>) -> Seq<char> {
    "unknown."@ + extension
}

/// The API method that takes the files of the upload `token` of the user
/// `user_uid`.
pub open spec fn upload_method(user_uid: Seq<char>, token: Seq<char>) -> Seq<char> {
    "/users/"@ + user_uid + "/upload/"@ + token
}

/// The upload of `file` for the user `user_uid` under the token `token`,
/// before anything was done.
pub open spec fn started(
    service: ServiceView,
    user_uid: Seq<char>,
    file: Seq<char>,
    extension: Seq<char>,
    token: Seq<char>,
) -> UploadView {
    UploadView {
        file,
        file_name: sent_name(extension),
        upload_url: endpoint_of(service.photoprism_url, upload_method(user_uid, token)),
        search_url: endpoint_of(service.photoprism_url, "/photos"@),
        stage: StageView::Uploading,
    }
}

impl UploadView {
    /// Whether the upload is over.
    pub open spec fn is_over(self) -> bool {
        self.stage is Found || self.stage is Failed
    }

    /// What the upload asks of the caller in its stage.
    pub open spec fn action(self) -> ActionView {
        match self.stage {
            StageView::Uploading => ActionView::Send(
                RequestView {
                    method: Method::Post,
                    url: self.upload_url,
                    session_id: None,
                    payload: PayloadView::File { path: self.file, file_name: self.file_name },
                },
            ),
            StageView::Indexing => ActionView::Send(
                RequestView {
                    method: Method::Put,
                    url: self.upload_url,
                    session_id: None,
                    payload: PayloadView::Albums(Seq::empty()),
                },
            ),
            StageView::Hashing => ActionView::HashFile(self.file),
            StageView::Searching { hash } => ActionView::Send(
                RequestView {
                    method: Method::Get,
                    url: self.search_url,
                    session_id: None,
                    payload: PayloadView::Query(hash_query(hash)),
                },
            ),
            StageView::Found(photo_uid) => ActionView::Done(Ok(photo_uid)),
            StageView::Failed(error) => ActionView::Done(Err(error)),
        }
    }

    /// The stage after `event` was reported.
    ///
    /// An upload that is over stays as it is. A reported failure ends the
    /// upload with that failure. An answer to the file or to the call to
    /// index it moves the upload on if its status is success, and ends it
    /// otherwise, with the answer's body as the details. The hash moves it
    /// on to the search. An answer to the search ends it: with the photo
    /// that the answer names, or, if it names none, with the hash that was
    /// not found. An event that the stage does not wait for changes nothing.
    pub open spec fn stage_after(self, event: EventView) -> StageView {
        match (self.stage, event) {
            (StageView::Found(_), _) => self.stage,
            (StageView::Failed(_), _) => self.stage,
            (_, EventView::Failed(error)) => StageView::Failed(error),
            (StageView::Uploading, EventView::Replied(reply)) => if reply.status == STATUS_OK {
                StageView::Indexing
            } else {
                StageView::Failed(ErrorView::UploadFailed { file: self.file, details: reply.body })
            },
            (StageView::Indexing, EventView::Replied(reply)) => if reply.status == STATUS_OK {
                StageView::Hashing
            } else {
                StageView::Failed(
                    ErrorView::IndexingFailed { file: self.file, details: reply.body },
                )
            },
            (StageView::Hashing, EventView::Hashed(hash)) => StageView::Searching { hash },
            (StageView::Searching { hash }, EventView::Replied(reply)) => match photo_in(
                reply.json,
            ) {
                Some(photo_uid) => StageView::Found(photo_uid),
                None => StageView::Failed(ErrorView::CanNotFindPhotoByHash(hash)),
            },
            _ => self.stage,
        }
    }

    /// The upload after `event` was reported.
    pub open spec fn after(self, event: EventView) -> UploadView {
        UploadView { stage: self.stage_after(event), ..self }
    }
}

impl Upload {
    /// What the upload asks of the caller now.
    pub fn action(&self) -> (action: UploadAction)
        ensures
            action@ == self@.action(),
    {
        match &self.stage {
            UploadStage::Uploading => UploadAction::Send(
                Request {
                    method: Method::Post,
                    url: self.upload_url.clone(),
                    session_id: None,
                    payload: Payload::File {
                        path: self.file.clone(),
                        file_name: self.file_name.clone(),
                    },
                },
            ),
            UploadStage::Indexing => {
                let albums: Vec<String> = Vec::new();
                let request = Request {
                    method: Method::Put,
                    url: self.upload_url.clone(),
                    session_id: None,
                    payload: Payload::Albums(albums),
                };
                assert(request@.payload->Albums_0 =~= Seq::<Seq<char>>::empty());
                UploadAction::Send(request)
            },
            UploadStage::Hashing => UploadAction::HashFile(self.file.clone()),
            UploadStage::Searching { hash } => UploadAction::Send(
                search_at(self.search_url.clone(), hash.as_str()),
            ),
            UploadStage::Found(photo_uid) => UploadAction::Done(Ok(photo_uid.duplicate())),
            UploadStage::Failed(error) => UploadAction::Done(Err(error.duplicate())),
        }
    }

    /// Takes in what the caller reports and says what to do next.
    pub fn step(&mut self, event: UploadEvent) -> (action: UploadAction)
        ensures
            final(self)@ == old(self)@.after(event@),
            action@ == final(self)@.action(),
    {
        let next: Option<UploadStage> = match (&self.stage, event) {
            (UploadStage::Found(_), _) => None,
            (UploadStage::Failed(_), _) => None,
            (_, UploadEvent::Failed(error)) => Some(UploadStage::Failed(error)),
            (UploadStage::Uploading, UploadEvent::Replied(reply)) => if reply.status == STATUS_OK {
                Some(UploadStage::Indexing)
            } else {
                Some(
                    UploadStage::Failed(
                        PhotoPrismServiceError::UploadFailed {
                            file: self.file.clone(),
                            details: reply.body,
                        },
                    ),
                )
            },
            (UploadStage::Indexing, UploadEvent::Replied(reply)) => if reply.status == STATUS_OK {
                Some(UploadStage::Hashing)
            } else {
                Some(
                    UploadStage::Failed(
                        PhotoPrismServiceError::IndexingFailed {
                            file: self.file.clone(),
                            details: reply.body,
                        },
                    ),
                )
            },
            (UploadStage::Hashing, UploadEvent::Hashed(hash)) => Some(
                UploadStage::Searching { hash },
            ),
            (UploadStage::Searching { hash }, UploadEvent::Replied(reply)) => match found_photo(
                &reply,
            ) {
                Some(photo_uid) => Some(UploadStage::Found(photo_uid)),
                None => Some(
                    UploadStage::Failed(PhotoPrismServiceError::CanNotFindPhotoByHash(hash.clone())),
                ),
            },
            _ => None,
        };
        match next {
            Some(stage) => {
                self.stage = stage;
            },
            None => {},
        }
        self.action()
    }
}

impl PhotoPrismPhotoService {
    /// Begins the upload of `file`, whose extension is `extension`, for the
    /// user of the session `user`, under the token `token`.
    pub fn start_upload(
        &self,
        user: &PhotoPrismUser,
        file: &str,
        extension: &str,
        token: &str,
    ) -> (upload: Upload)
        ensures
            upload@ == started(self@, user@.uid, file@, extension@, token@),
    {
        let mut file_name = "unknown.".to_string();
        file_name.append(extension);
        let mut api_method = "/users/".to_string();
        api_method.append(user.uid.as_str());
        api_method.append("/upload/");
        api_method.append(token);
        Upload {
            file: file.to_string(),
            file_name,
            upload_url: self.endpoint(api_method.as_str()),
            search_url: self.endpoint("/photos"),
            stage: UploadStage::Uploading,
        }
    }

    /// Begins the upload of `file` under a token drawn for it.
    pub fn upload_photo(&self, user: &PhotoPrismUser, file: &str, extension: &str) -> (upload:
        Upload)
        ensures
            exists|token: Seq<char>|
                is_upload_token(token) && #[trigger] started(
                    self@,
                    user@.uid,
                    file@,
                    extension@,
                    token,
                ) == upload@,
    {
        let token = upload_token();
        self.start_upload(user, file, extension, token.as_str())
    }
}

/// How many steps of an upload lie behind a stage.
pub open spec fn steps_done(stage: StageView) -> nat {
    match stage {
        StageView::Uploading => 0,
        StageView::Indexing => 1,
        StageView::Hashing => 2,
        StageView::Searching { .. } => 3,
        StageView::Found(_) => 4,
        StageView::Failed(_) => 4,
    }
}

/// An upload that is over stays as it is, whatever is reported to it: its
/// outcome does not change and it asks for nothing more.
pub proof fn lemma_over_stays_over(upload: UploadView, event: EventView)
    requires
        upload.is_over(),
    ensures
        upload.after(event) == upload,
        upload.after(event).action() is Done,
{
}

/// No step is skipped and none is taken back: an event leaves the upload
/// where it is, takes it one step on, or ends it with a failure.
pub proof fn lemma_one_step_at_a_time(upload: UploadView, event: EventView)
    ensures
        ({
            let before = steps_done(upload.stage);
            let after = steps_done(upload.after(event).stage);
            ||| upload.after(event).stage == upload.stage
            ||| after == before + 1
            ||| upload.after(event).stage is Failed
        }),
        upload.after(event).file == upload.file,
        upload.after(event).file_name == upload.file_name,
        upload.after(event).upload_url == upload.upload_url,
        upload.after(event).search_url == upload.search_url,
{
}

/// An upload whose every step succeeds ends with the photo that the search
/// names. Let the answers to the file and to the call to index it be
/// successes, and let the answer to the search name a photo. Then the upload
/// has asked for the photo with the reported hash, and it ends with the
/// photo that the answer names.
pub proof fn lemma_success_names_the_photo(
    upload: UploadView,
    sent: ReplyView,
    indexed: ReplyView,
    hash: Seq<char>,
    searched: ReplyView,
)
    requires
        upload.stage is Uploading,
        sent.status == STATUS_OK,
        indexed.status == STATUS_OK,
        photo_in(searched.json) is Some,
    ensures
        ({
            let hashed = upload.after(EventView::Replied(sent)).after(
                EventView::Replied(indexed),
            ).after(EventView::Hashed(hash));
            &&& hashed.action() == ActionView::Send(
                RequestView {
                    method: Method::Get,
                    url: upload.search_url,
                    session_id: None,
                    payload: PayloadView::Query(hash_query(hash)),
                },
            )
            &&& hashed.after(EventView::Replied(searched)).action() == ActionView::Done(
                Ok(photo_in(searched.json)->Some_0),
            )
        }),
{
}

/// The identifier of a photo is the backend's word, never made up here. An
/// upload comes to name a photo in one way only: it was searching, and the
/// answer to the search names that photo.
pub proof fn lemma_photo_is_the_backends(upload: UploadView, event: EventView)
    requires
        !(upload.stage is Found),
        upload.after(event).stage is Found,
    ensures
        upload.stage is Searching,
        event is Replied,
        photo_in(event->Replied_0.json) == Some(upload.after(event).stage->Found_0),
{
}

/// The upload after the events of `events` were reported, one after the
/// other.
pub open spec fn after_all(upload: UploadView, events: Seq<EventView>) -> UploadView
    decreases events.len(),
{
    if events.len() == 0 {
        upload
    } else {
        after_all(upload.after(events[0]), events.drop_first())
    }
}

/// An upload that is over stays as it is through any run of events.
proof fn lemma_over_stays_over_for_good(upload: UploadView, events: Seq<EventView>)
    requires
        upload.is_over(),
    ensures
        after_all(upload, events) == upload,
    decreases events.len(),
{
    if events.len() > 0 {
        lemma_over_stays_over_for_good(upload, events.drop_first());
    }
}

/// Whatever is reported to an upload, and in whatever order, the photo that
/// it comes to name was named by the backend: one of the reported events is
/// an answer that names that photo.
pub proof fn lemma_named_photo_was_answered(upload: UploadView, events: Seq<EventView>)
    requires
        !(upload.stage is Found),
        after_all(upload, events).stage is Found,
    ensures
        exists|i: int|
            0 <= i < events.len() && (#[trigger] events[i]) is Replied && photo_in(
                events[i]->Replied_0.json,
            ) == Some(after_all(upload, events).stage->Found_0),
    decreases events.len(),
{
    let next = upload.after(events[0]);
    let rest = events.drop_first();
    if next.stage is Found {
        lemma_photo_is_the_backends(upload, events[0]);
        lemma_over_stays_over_for_good(next, rest);
    } else {
        lemma_named_photo_was_answered(next, rest);
        let i = choose|i: int|
            0 <= i < rest.len() && (#[trigger] rest[i]) is Replied && photo_in(
                rest[i]->Replied_0.json,
            ) == Some(after_all(next, rest).stage->Found_0);
        assert(events[i + 1] == rest[i]);
    }
}

/// No upload names a photo before every step is behind it: from a stage
/// with `done` steps behind it, at least `4 - done` events lead to the photo.
/// A new upload takes four: the answer to the file, the answer to the call
/// to index it, the hash, and the answer to the search.
pub proof fn lemma_every_step_is_needed(upload: UploadView, events: Seq<EventView>)
    requires
        !(upload.stage is Found),
        after_all(upload, events).stage is Found,
    ensures
        events.len() >= 4 - steps_done(upload.stage),
        !(upload.stage is Failed),
    decreases events.len(),
{
    if upload.stage is Failed {
        lemma_over_stays_over_for_good(upload, events);
    } else {
        let next = upload.after(events[0]);
        lemma_one_step_at_a_time(upload, events[0]);
        if next.stage is Found {
            lemma_photo_is_the_backends(upload, events[0]);
        } else {
            lemma_every_step_is_needed(next, events.drop_first());
        }
    }
}

/// A search that finds nothing ends the upload, and the failure names the
/// hash that was searched. Nothing is asked of the backend after it.
pub proof fn lemma_nothing_found_is_final(upload: UploadView, reply: ReplyView)
    requires
        upload.stage is Searching,
        photo_in(reply.json) is None,
    ensures
        upload.after(EventView::Replied(reply)).stage == StageView::Failed(
            ErrorView::CanNotFindPhotoByHash(upload.stage->Searching_hash),
        ),
        upload.after(EventView::Replied(reply)).action() == ActionView::Done(
            Err(ErrorView::CanNotFindPhotoByHash(upload.stage->Searching_hash)),
        ),
{
}

} // verus!
