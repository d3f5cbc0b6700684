//! The photo backend: which requests the bridge makes of it, and what its
//! answers mean.
//!
//! `PhotoPrismPhotoService` knows the backend's address and credentials and
//! keeps the current session. It performs nothing: each operation comes as a
//! function that gives the request to make and a function that reads the
//! answer.

use crate::error::{ErrorView, PhotoPrismServiceError};
use crate::json::Json;
use crate::request::{
    LabelView,
    Label,
    Method,
    Payload,
    PayloadView,
    Reply,
    Request,
    RequestView,
    LABEL_PRIORITY,
    STATUS_OK,
};
use crate::session::{session_of, user_from_reply, SessionCache, SessionCacheView, UserView};
use vstd::prelude::*;
use vstd::string::*;

pub use crate::session::PhotoPrismUser;

verus! {

/// The identifier that the photo backend gives to a stored photo.
///
/// One is never made up here: it is read from an answer of the backend.
#[derive(Debug, Clone, PartialEq, Eq)]
pub struct PhotoUID(pub String);

impl View for PhotoUID {
    type V = Seq<char>;

    open spec fn view(&self) -> Seq<char> {
        self.0@
    }
}

impl PhotoUID {
    /// A copy of this identifier.
    pub fn duplicate(&self) -> (copy: Self)
        ensures
            copy@ == self@,
    {
        PhotoUID(self.0.clone())
    }
}

/// The bridge's side of one photo backend.
pub struct PhotoPrismPhotoService {
    photoprism_url: String,
    username: String,
    password: String,
    user_cache: SessionCache,
}

/// The mathematical content of a `PhotoPrismPhotoService`.
pub struct ServiceView {
    pub photoprism_url: Seq<char>,
    pub username: Seq<char>,
    pub password: Seq<char>,
    pub user_cache: SessionCacheView,
}

impl View for PhotoPrismPhotoService {
    type V = ServiceView;

    closed spec fn view(&self) -> ServiceView {
        ServiceView {
            photoprism_url: self.photoprism_url@,
            username: self.username@,
            password: self.password@,
            user_cache: self.user_cache@,
        }
    }
}

/// The address of the API method `api_method` of the backend at `url`.
pub open spec fn endpoint_of(url: Seq<char>, api_method: Seq<char>) -> Seq<char> {
    url + "/api/v1"@ + api_method
}

/// The request that opens a session.
pub open spec fn session_request(service: ServiceView) -> RequestView {
    RequestView {
        method: Method::Post,
        url: endpoint_of(service.photoprism_url, "/session"@),
        session_id: None,
        payload: PayloadView::Credentials {
            username: service.username,
            password: service.password,
        },
    }
}

/// The request with the session `session_id` attached.
pub open spec fn in_session(request: RequestView, session_id: Seq<char>) -> RequestView {
    RequestView { session_id: Some(session_id), ..request }
}

/// The query that finds the photo with the content hash `file_hash`: the
/// hash with the qualifier `quality:-100`, the newest first, one at most.
pub open spec fn hash_query(file_hash: Seq<char>) -> Seq<(Seq<char>, Seq<char>)> {
    seq![
        ("q"@, "quality:-100 hash:"@ + file_hash),
        ("count"@, "1"@),
        ("order"@, "newest"@),
    ]
}

/// The request that searches the photo with the content hash `file_hash`.
pub open spec fn search_request(service: ServiceView, file_hash: Seq<char>) -> RequestView {
    RequestView {
        method: Method::Get,
        url: endpoint_of(service.photoprism_url, "/photos"@),
        session_id: None,
        payload: PayloadView::Query(hash_query(file_hash)),
    }
}

/// The photo that an answer to a search names: the string at `UID` of the
/// first item of its document, an array.
pub open spec fn photo_in(json: Option<Json>) -> Option<Seq<char>> {
    match json {
        Some(document) => match document.items() {
            Some(photos) => if photos.len() == 0 {
                None
            } else {
                match photos[0].member("UID"@) {
                    Some(uid) => uid.text(),
                    None => None,
                }
            },
            None => None,
        },
        None => None,
    }
}

/// An answer to a search whose document is an empty list names no photo.
pub proof fn lemma_empty_list_names_no_photo(json: Option<Json>)
    requires
        json is Some,
        json->Some_0.items() == Some(Seq::<Json>::empty()),
    ensures
        photo_in(json) is None,
{
}

/// The request that adds the label `label` to the photo `photo_uid`.
pub open spec fn label_request(
    service: ServiceView,
    photo_uid: Seq<char>,
    label: Seq<char>,
) -> RequestView {
    RequestView {
        method: Method::Post,
        url: endpoint_of(service.photoprism_url, "/photos/"@ + photo_uid + "/label"@),
        session_id: None,
        payload: PayloadView::Label(LabelView { name: label, priority: LABEL_PRIORITY }),
    }
}

/// What an answer to a label request means: any status but success is a
/// failure, which names the label and the photo.
pub open spec fn label_outcome(status: u16, photo_uid: Seq<char>, label: Seq<char>) -> Result<
    (),
    ErrorView,
> {
    if status == STATUS_OK {
        Ok(())
    } else {
        Err(ErrorView::AddLabelFailed { label, photo_uid })
    }
}

/// What has to happen before the session can be used.
#[derive(Debug, PartialEq, Eq)]
pub enum SessionStep {
    /// The cache gives this session out.
    Ready(PhotoPrismUser),
    /// The cache gives none out: this request opens one, and its answer goes
    /// to `authenticated`.
    Authenticate(Request),
}

/// What has to happen to a request that is to be sent.
#[derive(Debug, PartialEq, Eq)]
pub enum Dispatch {
    /// The request, with the current session attached, is ready to go.
    Send(Request),
    /// No session is at hand. `session` opens one, and its answer goes to
    /// `authenticated`; `pending` is the request as it was handed in, to be
    /// sent in the session that was opened.
    Authenticate { session: Request, pending: Request },
}

/// The request that searches, at the address `url`, the photo with the
/// content hash `file_hash`.
pub fn search_at(url: String, file_hash: &str) -> (request: Request)
    ensures
        request@ == (RequestView {
            method: Method::Get,
            url: url@,
            session_id: None,
            payload: PayloadView::Query(hash_query(file_hash@)),
        }),
{
    let mut q = "quality:-100 hash:".to_string();
    q.append(file_hash);
    let mut query: Vec<(String, String)> = Vec::new();
    query.push(("q".to_string(), q));
    query.push(("count".to_string(), "1".to_string()));
    query.push(("order".to_string(), "newest".to_string()));
    let request = Request {
        method: Method::Get,
        url,
        session_id: None,
        payload: Payload::Query(query),
    };
    assert(request@.payload->Query_0 =~= hash_query(file_hash@));
    request
}

/// Attaches the session `user` to `request`, in place of any session that
/// the request came with.
pub fn attach_session(request: Request, user: &PhotoPrismUser) -> (ready: Request)
    ensures
        ready@ == in_session(request@, user@.session_id),
{
    let Request { method, url, session_id: _, payload } = request;
    Request { method, url, session_id: Some(user.session_id.clone()), payload }
}

impl PhotoPrismPhotoService {
    /// The bridge's side of the backend at `photoprism_url`, for the given
    /// credentials. A session is used for `session_refresh_sec` seconds and
    /// then replaced; none is open yet.
    pub fn new(
        photoprism_url: String,
        username: String,
        password: String,
        session_refresh_sec: u64,
    ) -> (service: Self)
        ensures
            service@ == (ServiceView {
                photoprism_url: photoprism_url@,
                username: username@,
                password: password@,
                user_cache: SessionCacheView { time_to_live: session_refresh_sec, entry: None },
            }),
    {
        PhotoPrismPhotoService {
            photoprism_url,
            username,
            password,
            user_cache: SessionCache::new(session_refresh_sec),
        }
    }

    /// The address of the API method `api_method`.
    pub fn endpoint(&self, api_method: &str) -> (url: String)
        ensures
            url@ == endpoint_of(self@.photoprism_url, api_method@),
    {
        let mut url = self.photoprism_url.clone();
        url.append("/api/v1");
        url.append(api_method);
        url
    }

    /// The request that opens a session.
    pub fn authentication(&self) -> (request: Request)
        ensures
            request@ == session_request(self@),
    {
        Request {
            method: Method::Post,
            url: self.endpoint("/session"),
            session_id: None,
            payload: Payload::Credentials {
                username: self.username.clone(),
                password: self.password.clone(),
            },
        }
    }

    /// The current session, or the request that opens one.
    ///
    /// While the cache gives a session out, that session is the answer and
    /// nothing is asked of the backend.
    pub fn get_user(&self, now: u64) -> (step: SessionStep)
        ensures
            match step {
                SessionStep::Ready(user) => self@.user_cache.live_at(now) == Some(user@),
                SessionStep::Authenticate(request) => {
                    &&& self@.user_cache.live_at(now) is None
                    &&& request@ == session_request(self@)
                },
            },
    {
        match self.user_cache.get(now) {
            Some(user) => SessionStep::Ready(user.duplicate()),
            None => SessionStep::Authenticate(self.authentication()),
        }
    }

    /// Reads the answer to the session request. The session that it opens
    /// becomes the current one, stored at `now`; an answer that opens none
    /// leaves the cache as it was.
    pub fn authenticated(&mut self, reply: &Reply, now: u64) -> (result: Result<
        PhotoPrismUser,
        PhotoPrismServiceError,
    >)
        ensures
            match result {
                Ok(user) => {
                    &&& session_of(reply@) == Ok::<UserView, ErrorView>(user@)
                    &&& final(self)@ == (ServiceView {
                        user_cache: old(self)@.user_cache.with(user@, now),
                        ..old(self)@
                    })
                },
                Err(error) => {
                    &&& session_of(reply@) == Err::<UserView, ErrorView>(error@)
                    &&& final(self)@ == old(self)@
                },
            },
    {
        match user_from_reply(reply) {
            Ok(user) => {
                self.user_cache.insert(user.duplicate(), now);
                Ok(user)
            },
            Err(error) => Err(error),
        }
    }

    /// Prepares `request` for sending: the current session is attached to
    /// it. Where the cache gives no session out, one has to be opened first.
    ///
    /// Nothing else is decided here: what the answer's status means is up to
    /// the operation that made the request, and nothing is sent twice.
    pub fn send(&self, request: Request, now: u64) -> (dispatch: Dispatch)
        ensures
            match dispatch {
                Dispatch::Send(ready) => {
                    &&& self@.user_cache.live_at(now) is Some
                    &&& ready@ == in_session(
                        request@,
                        self@.user_cache.live_at(now)->Some_0.session_id,
                    )
                },
                Dispatch::Authenticate { session, pending } => {
                    &&& self@.user_cache.live_at(now) is None
                    &&& session@ == session_request(self@)
                    &&& pending@ == request@
                },
            },
    {
        match self.user_cache.get(now) {
            Some(user) => Dispatch::Send(attach_session(request, user)),
            None => Dispatch::Authenticate { session: self.authentication(), pending: request },
        }
    }

    /// The request that searches the photo with the content hash
    /// `file_hash`.
    pub fn search_photo_by_hash(&self, file_hash: &str) -> (request: Request)
        ensures
            request@ == search_request(self@, file_hash@),
    {
        search_at(self.endpoint("/photos"), file_hash)
    }

    /// The request that adds the label `label` to the photo `photo_uid`.
    pub fn add_label(&self, photo_uid: &PhotoUID, label: &str) -> (request: Request)
        ensures
            request@ == label_request(self@, photo_uid@, label@),
    {
        let mut api_method = "/photos/".to_string();
        api_method.append(photo_uid.0.as_str());
        api_method.append("/label");
        Request {
            method: Method::Post,
            url: self.endpoint(api_method.as_str()),
            session_id: None,
            payload: Payload::Label(Label::new(label)),
        }
    }
}

/// Reads the photo that an answer to a search names.
pub fn found_photo(reply: &Reply) -> (found: Option<PhotoUID>)
    ensures
        match found {
            Some(photo_uid) => photo_in(reply@.json) == Some(photo_uid@),
            None => photo_in(reply@.json) is None,
        },
{
    match &reply.json {
        Some(document) => match document.as_array() {
            Some(photos) => if photos.len() == 0 {
                None
            } else {
                match photos[0].get("UID") {
                    Some(uid) => match uid.as_str() {
                        Some(text) => Some(PhotoUID(text.to_string())),
                        None => None,
                    },
                    None => None,
                }
            },
            None => None,
        },
        None => None,
    }
}

/// Reads the answer to the request that adds `label` to `photo_uid`.
///
/// A refusal is reported once, with the label and the photo; nothing is
/// tried again.
pub fn label_added(reply: &Reply, photo_uid: &PhotoUID, label: &str) -> (result: Result<
    (),
    PhotoPrismServiceError,
>)
    ensures
        match result {
            Ok(()) => label_outcome(reply@.status, photo_uid@, label@) == Ok::<(), ErrorView>(()),
            Err(error) => label_outcome(reply@.status, photo_uid@, label@) == Err::<
                (),
                ErrorView,
            >(error@),
        },
{
    if reply.status != STATUS_OK {
        Err(
            PhotoPrismServiceError::AddLabelFailed {
                label: label.to_string(),
                photo_uid: photo_uid.duplicate(),
            },
        )
    } else {
        Ok(())
    }
}

} // verus!
