//! Sessions at the photo backend: how one is read from the backend's
//! answer, and the cache that keeps the current one for a while.
//!
//! The cache has room for one session and gives it out for a set number of
//! seconds after it was stored. Time is what the caller says it is: every
//! operation takes the current time, in seconds on a clock that does not run
//! backwards.

use crate::error::{ErrorView, PhotoPrismServiceError};
use crate::json::Json;
use crate::request::{Header, HeaderView, Reply, ReplyView, STATUS_OK};
use vstd::prelude::*;

verus! {

/// An authenticated session at the photo backend.
#[derive(Debug, PartialEq, Eq)]
pub struct PhotoPrismUser {
    /// The token that every request of the session carries.
    pub session_id: String,
    /// The backend's identifier of the user whose session it is.
    pub uid: String,
}

/// The mathematical content of a `PhotoPrismUser`.
pub struct UserView {
    pub session_id: Seq<char>,
    pub uid: Seq<char>,
}

impl View for PhotoPrismUser {
    type V = UserView;

    open spec fn view(&self) -> UserView {
        UserView { session_id: self.session_id@, uid: self.uid@ }
    }
}

impl PhotoPrismUser {
    /// A copy of this session.
    pub fn duplicate(&self) -> (copy: Self)
        ensures
            copy@ == self@,
    {
        PhotoPrismUser { session_id: self.session_id.clone(), uid: self.uid.clone() }
    }
}

/// The owner that an answer to the session request names: the string at
/// `user.UID` of its document.
pub open spec fn owner_uid(json: Option<Json>) -> Option<Seq<char>> {
    match json {
        Some(document) => match document.member("user"@) {
            Some(user) => match user.member("UID"@) {
                Some(uid) => uid.text(),
                None => None,
            },
            None => None,
        },
        None => None,
    }
}

/// The session that an answer to the session request opens, or why it opens
/// none. Any status but success means that the credentials were refused.
/// After that the session header counts, and then the owner.
pub open spec fn session_of(reply: ReplyView) -> Result<UserView, ErrorView> {
    if reply.status != STATUS_OK {
        Err(ErrorView::AuthenticationError(reply.body))
    } else {
        match reply.session_id {
            HeaderView::Missing => Err(ErrorView::XSessionHeaderMissing),
            HeaderView::Unreadable(reason) => Err(ErrorView::Other(reason)),
            HeaderView::Text(session_id) => match owner_uid(reply.json) {
                Some(uid) => Ok(UserView { session_id, uid }),
                None => Err(ErrorView::UserIDIsMissing(reply.body)),
            },
        }
    }
}

/// Reads the owner from the document of an answer to the session request.
fn read_owner_uid(json: &Option<Json>) -> (uid: Option<String>)
    ensures
        match uid {
            Some(uid) => owner_uid(*json) == Some(uid@),
            None => owner_uid(*json) is None,
        },
{
    match json {
        Some(document) => match document.get("user") {
            Some(user) => match user.get("UID") {
                Some(uid) => match uid.as_str() {
                    Some(text) => Some(text.to_string()),
                    None => None,
                },
                None => None,
            },
            None => None,
        },
        None => None,
    }
}

/// Reads the session that an answer to the session request opens.
pub fn user_from_reply(reply: &Reply) -> (result: Result<PhotoPrismUser, PhotoPrismServiceError>)
    ensures
        match result {
            Ok(user) => session_of(reply@) == Ok::<UserView, ErrorView>(user@),
            Err(error) => session_of(reply@) == Err::<UserView, ErrorView>(error@),
        },
{
    if reply.status != STATUS_OK {
        return Err(PhotoPrismServiceError::AuthenticationError(reply.body.clone()));
    }
    match &reply.session_id {
        Header::Missing => Err(PhotoPrismServiceError::XSessionHeaderMissing),
        Header::Unreadable(reason) => Err(PhotoPrismServiceError::Other(reason.clone())),
        Header::Text(session_id) => match read_owner_uid(&reply.json) {
            Some(uid) => Ok(PhotoPrismUser { session_id: session_id.clone(), uid }),
            None => Err(PhotoPrismServiceError::UserIDIsMissing(reply.body.clone())),
        },
    }
}

/// A cache with room for one session.
pub struct SessionCache {
    time_to_live: u64,
    user: Option<PhotoPrismUser>,
    stored_at: u64,
}

/// The mathematical content of a `SessionCache`: for how many seconds a
/// session is given out, and the stored session with the time of storing.
pub struct SessionCacheView {
    pub time_to_live: u64,
    pub entry: Option<(UserView, u64)>,
}

impl View for SessionCache {
    type V = SessionCacheView;

    closed spec fn view(&self) -> SessionCacheView {
        SessionCacheView {
            time_to_live: self.time_to_live,
            entry: match self.user {
                Some(user) => Some((user@, self.stored_at)),
                None => None,
            },
        }
    }
}

impl SessionCacheView {
    /// The session that the cache gives out at `now`: the stored one, from
    /// the second in which it was stored until `time_to_live` seconds have
    /// passed.
    pub open spec fn live_at(self, now: u64) -> Option<UserView> {
        match self.entry {
            Some((user, stored_at)) => if stored_at <= now && now - stored_at < self.time_to_live {
                Some(user)
            } else {
                None
            },
            None => None,
        }
    }

    /// The cache after `user` was stored at `now`: it takes the place of
    /// whatever was stored.
    pub open spec fn with(self, user: UserView, now: u64) -> SessionCacheView {
        SessionCacheView { time_to_live: self.time_to_live, entry: Some((user, now)) }
    }

    /// The cache after one call at `now` that asks for the session and
    /// authenticates only if the cache gives none out; `fresh` is the session
    /// that an authentication would open.
    pub open spec fn after_call(self, now: u64, fresh: UserView) -> SessionCacheView {
        if self.live_at(now) is Some {
            self
        } else {
            self.with(fresh, now)
        }
    }
}

impl SessionCache {
    /// An empty cache that gives a session out for `time_to_live` seconds.
    pub fn new(time_to_live: u64) -> (cache: Self)
        ensures
            cache@ == (SessionCacheView { time_to_live, entry: None }),
    {
        SessionCache { time_to_live, user: None, stored_at: 0 }
    }

    /// The session that the cache gives out at `now`, if it gives one out.
    pub fn get(&self, now: u64) -> (found: Option<&PhotoPrismUser>)
        ensures
            match found {
                Some(user) => self@.live_at(now) == Some(user@),
                None => self@.live_at(now) is None,
            },
    {
        match &self.user {
            Some(user) => if self.stored_at <= now && now - self.stored_at < self.time_to_live {
                Some(user)
            } else {
                None
            },
            None => None,
        }
    }

    /// Stores `user` at `now`, in place of whatever was stored.
    pub fn insert(&mut self, user: PhotoPrismUser, now: u64)
        ensures
            final(self)@ == old(self)@.with(user@, now),
    {
        self.user = Some(user);
        self.stored_at = now;
    }
}

/// The session that a call at `now` ends with: the one that the cache gives
/// out, or, where it gives none out, the session `fresh` that the call's
/// authentication opens.
pub open spec fn session_at(cache: SessionCacheView, now: u64, fresh: UserView) -> UserView {
    match cache.live_at(now) {
        Some(user) => user,
        None => fresh,
    }
}

/// Callers that find the cache empty one after the other share one
/// authentication. Let a call find no session and open one, and let a second
/// call follow before the time-to-live has passed. Then the second call does
/// not authenticate, and it ends with the session that the first call
/// opened.
pub proof fn lemma_callers_share_the_session(
    cache: SessionCacheView,
    first: u64,
    opened: UserView,
    second: u64,
    other: UserView,
)
    requires
        cache.live_at(first) is None,
        first <= second,
        second - first < cache.time_to_live,
    ensures
        session_at(cache, first, opened) == opened,
        cache.after_call(first, opened).live_at(second) == Some(opened),
        session_at(cache.after_call(first, opened), second, other) == opened,
        cache.after_call(first, opened).after_call(second, other) == cache.after_call(
            first,
            opened,
        ),
{
}

/// The number of authentications in a run of calls: the calls come at
/// `times`, one after the other, each asks for the session and
/// authenticates only if the cache gives none out, and the authentication of
/// call `i` opens the session `fresh[i]`.
pub open spec fn authentications(
    cache: SessionCacheView,
    times: Seq<u64>,
    fresh: Seq<UserView>,
) -> nat
    decreases times.len(),
{
    if times.len() == 0 {
        0
    } else {
        let first: nat = if cache.live_at(times[0]) is None {
            1
        } else {
            0
        };
        first + authentications(
            cache.after_call(times[0], fresh[0]),
            times.drop_first(),
            fresh.drop_first(),
        )
    }
}

/// The cache after the run of calls that `authentications` counts.
pub open spec fn after_calls(
    cache: SessionCacheView,
    times: Seq<u64>,
    fresh: Seq<UserView>,
) -> SessionCacheView
    decreases times.len(),
{
    if times.len() == 0 {
        cache
    } else {
        after_calls(
            cache.after_call(times[0], fresh[0]),
            times.drop_first(),
            fresh.drop_first(),
        )
    }
}

/// The times do not run backwards.
pub open spec fn in_order(times: Seq<u64>) -> bool {
    forall|i: int, j: int| 0 <= i <= j < times.len() ==> times[i] <= times[j]
}

/// While the stored session is given out, no call authenticates.
proof fn lemma_no_authentication_while_live(
    cache: SessionCacheView,
    times: Seq<u64>,
    fresh: Seq<UserView>,
)
    requires
        in_order(times),
        times.len() == fresh.len(),
        times.len() > 0,
        cache.live_at(times[0]) is Some,
        cache.live_at(times.last()) is Some,
    ensures
        authentications(cache, times, fresh) == 0,
        after_calls(cache, times, fresh) == cache,
    decreases times.len(),
{
    let rest = times.drop_first();
    if rest.len() > 0 {
        lemma_rest_in_order(times);
        lemma_no_authentication_while_live(cache, rest, fresh.drop_first());
    } else {
        assert(authentications(cache, rest, fresh.drop_first()) == 0);
        assert(after_calls(cache, rest, fresh.drop_first()) == cache);
    }
}

/// What follows the first of a run of times is in order as the run is, and
/// lies between the run's first and last.
proof fn lemma_rest_in_order(times: Seq<u64>)
    requires
        in_order(times),
        times.len() > 1,
    ensures
        in_order(times.drop_first()),
        times[0] <= times.drop_first()[0],
        times.drop_first()[0] <= times.last(),
        times.drop_first().last() == times.last(),
{
}

/// Calls within one time-to-live authenticate at most once. Let the calls
/// come in order, the last one less than `time_to_live` seconds after the
/// first. Then, whatever the cache held before, at most one of them
/// authenticates.
pub proof fn lemma_one_authentication_per_window(
    cache: SessionCacheView,
    times: Seq<u64>,
    fresh: Seq<UserView>,
)
    requires
        in_order(times),
        times.len() == fresh.len(),
        times.len() > 0 ==> times.last() - times[0] < cache.time_to_live,
    ensures
        authentications(cache, times, fresh) <= 1,
    decreases times.len(),
{
    if times.len() > 0 {
        let rest = times.drop_first();
        let next = cache.after_call(times[0], fresh[0]);
        if rest.len() > 0 {
            lemma_rest_in_order(times);
            if cache.live_at(times[0]) is None {
                lemma_no_authentication_while_live(next, rest, fresh.drop_first());
            } else {
                lemma_one_authentication_per_window(next, rest, fresh.drop_first());
            }
        } else {
            assert(authentications(next, rest, fresh.drop_first()) == 0);
        }
    }
}

/// A run with one more call at its end counts the run's authentications and
/// one more if the cache gives no session out at that call.
proof fn lemma_authentications_of_one_more(
    cache: SessionCacheView,
    times: Seq<u64>,
    fresh: Seq<UserView>,
    now: u64,
    user: UserView,
)
    requires
        times.len() == fresh.len(),
    ensures
        authentications(cache, times.push(now), fresh.push(user)) == authentications(
            cache,
            times,
            fresh,
        ) + if after_calls(cache, times, fresh).live_at(now) is None {
            1nat
        } else {
            0nat
        },
        after_calls(cache, times.push(now), fresh.push(user)) == after_calls(
            cache,
            times,
            fresh,
        ).after_call(now, user),
    decreases times.len(),
{
    let more = times.push(now);
    let more_fresh = fresh.push(user);
    if times.len() == 0 {
        let next = cache.after_call(now, user);
        assert(authentications(next, more.drop_first(), more_fresh.drop_first()) == 0);
        assert(after_calls(next, more.drop_first(), more_fresh.drop_first()) == next);
    } else {
        assert(more.drop_first() =~= times.drop_first().push(now));
        assert(more_fresh.drop_first() =~= fresh.drop_first().push(user));
        lemma_authentications_of_one_more(
            cache.after_call(times[0], fresh[0]),
            times.drop_first(),
            fresh.drop_first(),
            now,
            user,
        );
    }
}

/// A call after the time-to-live has run out authenticates exactly once
/// more. Let a run of calls leave a session in the cache, stored at some
/// time. One more call, `time_to_live` seconds or more after that time,
/// makes the number of authentications one higher, and the session that it
/// opens is the one given out from then on.
pub proof fn lemma_authentication_after_expiry(
    cache: SessionCacheView,
    times: Seq<u64>,
    fresh: Seq<UserView>,
    now: u64,
    user: UserView,
)
    requires
        times.len() == fresh.len(),
        match after_calls(cache, times, fresh).entry {
            Some((_, stored_at)) => now - stored_at >= cache.time_to_live,
            None => true,
        },
    ensures
        authentications(cache, times.push(now), fresh.push(user)) == authentications(
            cache,
            times,
            fresh,
        ) + 1,
        after_calls(cache, times.push(now), fresh.push(user)).entry == Some((user, now)),
{
    lemma_time_to_live_stays(cache, times, fresh);
    lemma_authentications_of_one_more(cache, times, fresh, now, user);
}

/// No call changes for how long the cache gives a session out.
proof fn lemma_time_to_live_stays(cache: SessionCacheView, times: Seq<u64>, fresh: Seq<UserView>)
    requires
        times.len() == fresh.len(),
    ensures
        after_calls(cache, times, fresh).time_to_live == cache.time_to_live,
    decreases times.len(),
{
    if times.len() > 0 {
        lemma_time_to_live_stays(
            cache.after_call(times[0], fresh[0]),
            times.drop_first(),
            fresh.drop_first(),
        );
    }
}

} // verus!
