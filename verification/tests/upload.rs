use telegram2photoprism::error::PhotoPrismServiceError;
use telegram2photoprism::hash::ContentHasher;
use telegram2photoprism::json::Json;
use telegram2photoprism::callback::{handle_callback_message, CallbackAction};
use telegram2photoprism::keyboard::TagKeyboardData;
use telegram2photoprism::media::first_keyboard;
use telegram2photoprism::photo_service::{
    label_added, Dispatch, PhotoPrismPhotoService, SessionStep,
};
use telegram2photoprism::request::{Header, Method, Payload, Reply, Request};
use telegram2photoprism::session::PhotoPrismUser;
use telegram2photoprism::upload::{Upload, UploadAction, UploadEvent};
use telegram2photoprism::PhotoUID;

const URL: &str = "http://127.0.0.1:2342";
const ABC_HASH: &str = "a9993e364706816aba3e25717850c26c9cd0d89d";

fn service() -> PhotoPrismPhotoService {
    PhotoPrismPhotoService::new(
        URL.to_string(),
        "admin".to_string(),
        "insecure".to_string(),
        3600,
    )
}

fn user() -> PhotoPrismUser {
    PhotoPrismUser { session_id: "s1".to_string(), uid: "u7".to_string() }
}

fn started() -> Upload {
    service().start_upload(&user(), "/work/photo.jpg", "jpg", "Ab3dE9")
}

fn object(members: Vec<(&str, Json)>) -> Json {
    Json::Object(members.into_iter().map(|(name, value)| (name.to_string(), value)).collect())
}

fn text(text: &str) -> Json {
    Json::Text(text.to_string())
}

fn replied(status: u16, body: &str) -> UploadEvent {
    UploadEvent::Replied(Reply {
        status,
        session_id: Header::Missing,
        body: body.to_string(),
        json: None,
    })
}

fn photos(uids: &[&str]) -> UploadEvent {
    UploadEvent::Replied(Reply {
        status: 200,
        session_id: Header::Missing,
        body: "[...]".to_string(),
        json: Some(Json::Array(uids.iter().map(|uid| object(vec![("UID", text(uid))])).collect())),
    })
}

fn hashed(hash: &str) -> UploadEvent {
    UploadEvent::Hashed(hash.to_string())
}

fn upload_request() -> Request {
    Request {
        method: Method::Post,
        url: "http://127.0.0.1:2342/api/v1/users/u7/upload/Ab3dE9".to_string(),
        session_id: None,
        payload: Payload::File {
            path: "/work/photo.jpg".to_string(),
            file_name: "unknown.jpg".to_string(),
        },
    }
}

fn index_request() -> Request {
    Request {
        method: Method::Put,
        url: "http://127.0.0.1:2342/api/v1/users/u7/upload/Ab3dE9".to_string(),
        session_id: None,
        payload: Payload::Albums(vec![]),
    }
}

fn search_request(hash: &str) -> Request {
    Request {
        method: Method::Get,
        url: "http://127.0.0.1:2342/api/v1/photos".to_string(),
        session_id: None,
        payload: Payload::Query(vec![
            ("q".to_string(), format!("quality:-100 hash:{}", hash)),
            ("count".to_string(), "1".to_string()),
            ("order".to_string(), "newest".to_string()),
        ]),
    }
}

fn searching(hash: &str) -> Upload {
    let mut upload = started();
    upload.step(replied(200, ""));
    upload.step(replied(200, ""));
    upload.step(hashed(hash));
    upload
}

#[test]
fn an_upload_begins_with_the_file() {
    assert_eq!(started().action(), UploadAction::Send(upload_request()));
}

#[test]
fn the_sent_name_keeps_the_extension_only() {
    let upload = service().start_upload(&user(), "/work/IMG_0042.final.HEIC", "HEIC", "tok123");
    match upload.action() {
        UploadAction::Send(request) => assert_eq!(
            request.payload,
            Payload::File {
                path: "/work/IMG_0042.final.HEIC".to_string(),
                file_name: "unknown.HEIC".to_string(),
            }
        ),
        other => panic!("no request: {:?}", other),
    }
}

#[test]
fn the_steps_follow_one_another() {
    let mut upload = started();
    assert_eq!(upload.step(replied(200, "ok")), UploadAction::Send(index_request()));
    assert_eq!(upload.step(replied(200, "ok")), UploadAction::HashFile("/work/photo.jpg".to_string()));
    assert_eq!(upload.step(hashed(ABC_HASH)), UploadAction::Send(search_request(ABC_HASH)));
    assert_eq!(
        upload.step(photos(&["abc123"])),
        UploadAction::Done(Ok(PhotoUID("abc123".to_string())))
    );
}

#[test]
fn action_repeats_what_step_said() {
    let mut upload = started();
    let said = upload.step(replied(200, "ok"));
    assert_eq!(upload.action(), said);
    assert_eq!(upload.action(), said);
}

#[test]
fn a_refused_file_ends_the_upload() {
    for status in [400, 401, 500, 201] {
        let mut upload = started();
        assert_eq!(
            upload.step(replied(status, "disk full")),
            UploadAction::Done(Err(PhotoPrismServiceError::UploadFailed {
                file: "/work/photo.jpg".to_string(),
                details: "disk full".to_string(),
            }))
        );
    }
}

#[test]
fn a_refused_index_call_ends_the_upload() {
    let mut upload = started();
    upload.step(replied(200, ""));
    assert_eq!(
        upload.step(replied(409, "busy")),
        UploadAction::Done(Err(PhotoPrismServiceError::IndexingFailed {
            file: "/work/photo.jpg".to_string(),
            details: "busy".to_string(),
        }))
    );
}

#[test]
fn a_search_without_result_ends_the_upload() {
    let mut upload = searching(ABC_HASH);
    assert_eq!(
        upload.step(photos(&[])),
        UploadAction::Done(Err(PhotoPrismServiceError::CanNotFindPhotoByHash(ABC_HASH.to_string())))
    );
}

#[test]
fn a_search_answer_that_is_no_list_ends_the_upload() {
    let mut upload = searching(ABC_HASH);
    assert_eq!(
        upload.step(replied(200, "<html>")),
        UploadAction::Done(Err(PhotoPrismServiceError::CanNotFindPhotoByHash(ABC_HASH.to_string())))
    );
}

#[test]
fn the_search_takes_the_first_photo() {
    let mut upload = searching(ABC_HASH);
    assert_eq!(
        upload.step(photos(&["newest", "older"])),
        UploadAction::Done(Ok(PhotoUID("newest".to_string())))
    );
}

#[test]
fn a_reported_failure_ends_the_upload_at_any_step() {
    let failure = || PhotoPrismServiceError::PhotoPrismAPIError { err: "connection reset".to_string() };
    let mut upload = started();
    assert_eq!(upload.step(UploadEvent::Failed(failure())), UploadAction::Done(Err(failure())));

    let mut upload = started();
    upload.step(replied(200, ""));
    assert_eq!(upload.step(UploadEvent::Failed(failure())), UploadAction::Done(Err(failure())));

    let mut upload = started();
    upload.step(replied(200, ""));
    upload.step(replied(200, ""));
    let unreadable = || PhotoPrismServiceError::Other("permission denied".to_string());
    assert_eq!(upload.step(UploadEvent::Failed(unreadable())), UploadAction::Done(Err(unreadable())));

    let mut upload = searching(ABC_HASH);
    assert_eq!(upload.step(UploadEvent::Failed(failure())), UploadAction::Done(Err(failure())));
}

#[test]
fn an_upload_that_is_over_stays_as_it_is() {
    let mut found = searching(ABC_HASH);
    let outcome = found.step(photos(&["abc123"]));
    assert_eq!(found.step(photos(&["other"])), outcome);
    assert_eq!(found.step(replied(500, "late")), outcome);
    assert_eq!(found.step(hashed("ffff")), outcome);
    assert_eq!(
        found.step(UploadEvent::Failed(PhotoPrismServiceError::Other("late".to_string()))),
        outcome
    );

    let mut failed = started();
    let outcome = failed.step(replied(500, "first"));
    assert_eq!(failed.step(replied(200, "second")), outcome);
    assert_eq!(failed.step(photos(&["abc123"])), outcome);
    assert_eq!(failed.step(hashed(ABC_HASH)), outcome);
}

#[test]
fn an_event_that_is_not_awaited_changes_nothing() {
    let mut upload = started();
    assert_eq!(upload.step(hashed(ABC_HASH)), UploadAction::Send(upload_request()));
    upload.step(replied(200, ""));
    assert_eq!(upload.step(hashed(ABC_HASH)), UploadAction::Send(index_request()));
    upload.step(replied(200, ""));
    assert_eq!(upload.step(replied(200, "")), UploadAction::HashFile("/work/photo.jpg".to_string()));
    assert_eq!(upload.step(photos(&["abc123"])), UploadAction::HashFile("/work/photo.jpg".to_string()));
    upload.step(hashed(ABC_HASH));
    assert_eq!(upload.step(hashed("0000")), UploadAction::Send(search_request(ABC_HASH)));
}

#[test]
fn the_search_asks_for_the_hash_of_the_files_bytes() {
    let mut hasher = ContentHasher::new();
    hasher.update(b"abc");
    let hash = hasher.finish();
    assert_eq!(hash, ABC_HASH);

    let mut upload = started();
    upload.step(replied(200, ""));
    upload.step(replied(200, ""));
    match upload.step(UploadEvent::Hashed(hash)) {
        UploadAction::Send(request) => {
            assert_eq!(request.method, Method::Get);
            assert_eq!(
                request.payload,
                Payload::Query(vec![
                    (
                        "q".to_string(),
                        "quality:-100 hash:a9993e364706816aba3e25717850c26c9cd0d89d".to_string()
                    ),
                    ("count".to_string(), "1".to_string()),
                    ("order".to_string(), "newest".to_string()),
                ])
            );
        }
        other => panic!("no search: {:?}", other),
    }
    assert_eq!(
        upload.step(photos(&[])),
        UploadAction::Done(Err(PhotoPrismServiceError::CanNotFindPhotoByHash(ABC_HASH.to_string())))
    );
}

#[test]
fn upload_photo_draws_a_token_for_the_address() {
    let upload = service().upload_photo(&user(), "/work/photo.jpg", "jpg");
    match upload.action() {
        UploadAction::Send(request) => {
            let prefix = "http://127.0.0.1:2342/api/v1/users/u7/upload/";
            assert!(request.url.starts_with(prefix));
            let token = &request.url[prefix.len()..];
            assert_eq!(token.len(), 6);
            assert!(token.chars().all(|c| c.is_ascii_alphanumeric()));
            assert_eq!(request.method, Method::Post);
            assert_eq!(
                request.payload,
                Payload::File {
                    path: "/work/photo.jpg".to_string(),
                    file_name: "unknown.jpg".to_string(),
                }
            );
        }
        other => panic!("no request: {:?}", other),
    }
}

#[test]
fn the_index_call_goes_to_the_address_that_took_the_file() {
    let mut upload = service().upload_photo(&user(), "/work/photo.jpg", "jpg");
    let first = match upload.action() {
        UploadAction::Send(request) => request.url,
        other => panic!("no request: {:?}", other),
    };
    match upload.step(replied(200, "")) {
        UploadAction::Send(request) => assert_eq!(request.url, first),
        other => panic!("no request: {:?}", other),
    }
}

/// A backend that lives in memory: it knows one user, takes files at the
/// upload address, and keeps the labels of its photos.
struct Backend {
    files: Vec<(String, Vec<u8>)>,
    indexed: Vec<String>,
    labels: Vec<(String, String)>,
    sessions: usize,
}

impl Backend {
    fn new() -> Self {
        Backend { files: Vec::new(), indexed: Vec::new(), labels: Vec::new(), sessions: 0 }
    }

    fn hash(bytes: &[u8]) -> String {
        let mut hasher = ContentHasher::new();
        hasher.update(bytes);
        hasher.finish()
    }

    fn answer(&mut self, request: &Request, file: &[u8]) -> Reply {
        let plain = |status: u16| Reply {
            status,
            session_id: Header::Missing,
            body: String::new(),
            json: None,
        };
        let path = request.url.strip_prefix(URL).unwrap().strip_prefix("/api/v1").unwrap();
        if path == "/session" {
            return match &request.payload {
                Payload::Credentials { username, password }
                    if username == "admin" && password == "insecure" =>
                {
                    self.sessions += 1;
                    Reply {
                        status: 200,
                        session_id: Header::Text(format!("session-{}", self.sessions)),
                        body: "{\"user\":{\"UID\":\"u7\"}}".to_string(),
                        json: Some(object(vec![("user", object(vec![("UID", text("u7"))]))])),
                    }
                }
                _ => Reply { body: "Invalid credentials".to_string(), ..plain(401) },
            };
        }
        if request.session_id != Some(format!("session-{}", self.sessions)) {
            return plain(401);
        }
        match (request.method, &request.payload) {
            (Method::Post, Payload::File { file_name, .. }) if path.starts_with("/users/u7/upload/") => {
                assert_eq!(file_name, "unknown.jpg");
                self.files.push((path.to_string(), file.to_vec()));
                plain(200)
            }
            (Method::Put, Payload::Albums(albums)) if path.starts_with("/users/u7/upload/") => {
                assert!(albums.is_empty());
                self.indexed.push(path.to_string());
                plain(200)
            }
            (Method::Get, Payload::Query(query)) if path == "/photos" => {
                let q = &query.iter().find(|(name, _)| name == "q").unwrap().1;
                let hash = q.strip_prefix("quality:-100 hash:").unwrap();
                let found = self
                    .files
                    .iter()
                    .any(|(path, bytes)| self.indexed.contains(path) && Self::hash(bytes) == hash);
                let photos = if found { vec![object(vec![("UID", text("abc123"))])] } else { vec![] };
                Reply { json: Some(Json::Array(photos)), ..plain(200) }
            }
            (Method::Post, Payload::Label(label)) if path == "/photos/abc123/label" => {
                assert_eq!(label.priority, 10);
                self.labels.push(("abc123".to_string(), label.name.clone()));
                plain(200)
            }
            _ => plain(404),
        }
    }
}

/// Sends `request` in the current session, opening one first where the
/// service asks for it.
fn send(
    service: &mut PhotoPrismPhotoService,
    backend: &mut Backend,
    request: Request,
    file: &[u8],
    now: u64,
) -> Reply {
    match service.send(request, now) {
        Dispatch::Send(ready) => backend.answer(&ready, file),
        Dispatch::Authenticate { session, pending } => {
            let reply = backend.answer(&session, file);
            service.authenticated(&reply, now).unwrap();
            match service.send(pending, now) {
                Dispatch::Send(ready) => backend.answer(&ready, file),
                other => panic!("no session after authentication: {:?}", other),
            }
        }
    }
}

fn upload(
    service: &mut PhotoPrismPhotoService,
    backend: &mut Backend,
    file: &[u8],
    now: u64,
) -> Result<PhotoUID, PhotoPrismServiceError> {
    let user = match service.get_user(now) {
        SessionStep::Ready(user) => user,
        SessionStep::Authenticate(request) => {
            let reply = backend.answer(&request, file);
            service.authenticated(&reply, now)?
        }
    };
    let mut upload = service.upload_photo(&user, "/work/photo.jpg", "jpg");
    let mut action = upload.action();
    loop {
        action = match action {
            UploadAction::Send(request) => {
                let reply = send(service, backend, request, file, now);
                upload.step(UploadEvent::Replied(reply))
            }
            UploadAction::HashFile(path) => {
                assert_eq!(path, "/work/photo.jpg");
                let mut hasher = ContentHasher::new();
                for piece in file.chunks(3) {
                    hasher.update(piece);
                }
                upload.step(UploadEvent::Hashed(hasher.finish()))
            }
            UploadAction::Done(outcome) => return outcome,
        }
    }
}

#[test]
fn a_photo_is_stored_and_labelled() {
    let mut service = service();
    let mut backend = Backend::new();
    let file = b"the bytes of photo.jpg";

    let photo_uid = upload(&mut service, &mut backend, file, 1000).unwrap();
    assert_eq!(photo_uid, PhotoUID("abc123".to_string()));
    assert_eq!(backend.files.len(), 1);
    assert_eq!(backend.files[0].1, file);
    assert_eq!(backend.indexed, vec![backend.files[0].0.clone()]);

    for label in ["Han", "Luke", "Vader"] {
        let request = service.add_label(&photo_uid, label);
        let reply = send(&mut service, &mut backend, request, file, 1001);
        assert_eq!(label_added(&reply, &photo_uid, label), Ok(()));
    }
    let labels: Vec<&str> = backend
        .labels
        .iter()
        .filter(|(photo, _)| photo == "abc123")
        .map(|(_, label)| label.as_str())
        .collect();
    assert_eq!(labels, vec!["Han", "Luke", "Vader"]);
    assert_eq!(backend.sessions, 1);
}

#[test]
fn a_photo_is_tagged_through_the_keyboard() {
    let mut service = service();
    let mut backend = Backend::new();
    let file = b"the bytes of photo.jpg";
    let tags = vec!["Han".to_string(), "Luke".to_string(), "Vader".to_string()];

    let photo_uid = upload(&mut service, &mut backend, file, 1000).unwrap();
    let mut keyboard = first_keyboard(&photo_uid, &tags, "Save");
    for (row, column) in [(0, 0), (0, 1), (0, 2), (0, 1)] {
        let pressed: &TagKeyboardData = &keyboard.rows[row][column].callback_data;
        keyboard = match handle_callback_message(pressed, &tags, "Save").unwrap() {
            CallbackAction::ShowKeyboard(next) => next,
            other => panic!("no keyboard: {:?}", other),
        };
    }
    let save = &keyboard.rows.last().unwrap()[0].callback_data;
    match handle_callback_message(save, &tags, "Save").unwrap() {
        CallbackAction::SaveTags { photo_uid, tags } => {
            assert_eq!(tags, vec!["Han", "Vader"]);
            for tag in &tags {
                let request = service.add_label(&photo_uid, tag);
                let reply = send(&mut service, &mut backend, request, file, 1002);
                assert_eq!(label_added(&reply, &photo_uid, tag), Ok(()));
            }
        }
        other => panic!("no save: {:?}", other),
    }
    assert_eq!(
        backend.labels,
        vec![("abc123".to_string(), "Han".to_string()), ("abc123".to_string(), "Vader".to_string())]
    );
}

#[test]
fn wrong_credentials_stop_the_upload_before_it_begins() {
    let mut service = PhotoPrismPhotoService::new(
        URL.to_string(),
        "admin".to_string(),
        "wrong".to_string(),
        3600,
    );
    let mut backend = Backend::new();
    assert_eq!(
        upload(&mut service, &mut backend, b"bytes", 1000),
        Err(PhotoPrismServiceError::AuthenticationError("Invalid credentials".to_string()))
    );
    assert!(backend.files.is_empty());
    assert!(backend.labels.is_empty());
}

#[test]
fn a_photo_that_the_backend_cannot_find_gets_no_labels() {
    let mut service = service();
    let mut backend = Backend::new();
    let user = match service.get_user(1000) {
        SessionStep::Authenticate(request) => {
            let reply = backend.answer(&request, b"");
            service.authenticated(&reply, 1000).unwrap()
        }
        other => panic!("a session before any was opened: {:?}", other),
    };
    let mut upload = service.upload_photo(&user, "/work/photo.jpg", "jpg");
    let mut action = upload.action();
    let outcome = loop {
        action = match action {
            UploadAction::Send(request) => {
                let reply = send(&mut service, &mut backend, request, b"what was sent", 1000);
                upload.step(UploadEvent::Replied(reply))
            }
            UploadAction::HashFile(_) => upload.step(UploadEvent::Hashed(Backend::hash(b"abc"))),
            UploadAction::Done(outcome) => break outcome,
        }
    };
    assert_eq!(outcome, Err(PhotoPrismServiceError::CanNotFindPhotoByHash(ABC_HASH.to_string())));
    assert!(backend.labels.is_empty());
}

#[test]
fn the_session_is_opened_again_after_it_has_run_out() {
    let mut service = PhotoPrismPhotoService::new(
        URL.to_string(),
        "admin".to_string(),
        "insecure".to_string(),
        1,
    );
    let mut backend = Backend::new();
    let before = match service.get_user(10) {
        SessionStep::Authenticate(request) => {
            let reply = backend.answer(&request, b"");
            service.authenticated(&reply, 10).unwrap()
        }
        other => panic!("a session before any was opened: {:?}", other),
    };
    let after = match service.get_user(11) {
        SessionStep::Authenticate(request) => {
            let reply = backend.answer(&request, b"");
            service.authenticated(&reply, 11).unwrap()
        }
        SessionStep::Ready(user) => user,
    };
    assert_ne!(before.session_id, after.session_id);
    assert_eq!(backend.sessions, 2);
}
