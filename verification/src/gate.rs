use vstd::prelude::*;
use crate::account::{Account, AccountDB, AccountView, spec_valid_creds};
use crate::hashing::new_session_id;
use crate::session::SessionRegistry;

verus! {

/// The terminal outcome of gating one request. The surrounding server acts
/// on it: `Forward` calls the wrapped handler and returns its response
/// verbatim; `LoginForward` first registers `session_id` as the response
/// cookie value, then forwards; `Reject` short-circuits with an
/// unauthenticated status and a static login page, never invoking the
/// handler.
pub enum AuthOutcome {
    Forward,
    LoginForward { session_id: String },
    Reject,
}

/// The view of an optional request datum (a cookie value or a header) as an
/// optional character sequence.
pub open spec fn opt_view(o: Option<&String>) -> Option<Seq<char>> {
    match o {
        Some(s) => Some(s@),
        None => None,
    }
}

/// The fast path applies: the request carried a session cookie whose value
/// is a currently-valid session.
pub open spec fn cookie_hit(sessions: Set<Seq<char>>, cookie: Option<Seq<char>>) -> bool {
    cookie matches Some(c) && sessions.contains(c)
}

/// A login attempt succeeds: both credential headers are present and the
/// candidate password verifies against the account store.
pub open spec fn login_ok(
    db: Map<Seq<char>, AccountView>,
    username: Option<Seq<char>>,
    password: Option<Seq<char>>,
) -> bool {
    &&& username matches Some(u)
    &&& password matches Some(p)
    &&& spec_valid_creds(db, username->0, password->0)
}

/// The request-gating middleware state: shared access to one account store
/// and one session registry, both created once at process start and never
/// replaced.
pub struct AppState<A> {
    pub active_sessions: SessionRegistry,
    pub accounts: A,
}

impl<A: AccountDB> AppState<A> {
    /// Builds the middleware state around a bootstrapped store, with no
    /// session valid yet.
    pub fn new(accounts: A) -> (s: AppState<A>)
        ensures
            s.active_sessions@ == Set::<Seq<char>>::empty(),
            s.accounts == accounts,
    {
        AppState { active_sessions: SessionRegistry::new(), accounts }
    }

    /// Gates one request, given the session cookie value and the two
    /// credential headers the request carried, if any.
    ///
    /// A valid cookie forwards at once and changes nothing. Otherwise a
    /// login is attempted: if both headers are present and the password
    /// verifies, a fresh opaque session identifier is drawn, registered, and
    /// handed back for the response cookie. Every other request is rejected,
    /// with no session state created or consumed. The account store is
    /// read-only throughout.
    pub fn handle(
        &mut self,
        cookie: Option<&String>,
        username: Option<&String>,
        password: Option<&String>,
    ) -> (o: AuthOutcome)
        ensures
            final(self).accounts == old(self).accounts,
            cookie_hit(old(self).active_sessions@, opt_view(cookie)) ==> o is Forward
                && final(self).active_sessions@ == old(self).active_sessions@,
            !cookie_hit(old(self).active_sessions@, opt_view(cookie)) && login_ok(
                old(self).accounts.db_view(),
                opt_view(username),
                opt_view(password),
            ) ==> (o matches AuthOutcome::LoginForward { session_id }
                && final(self).active_sessions@ == old(self).active_sessions@.insert(
                session_id@,
            )),
            !cookie_hit(old(self).active_sessions@, opt_view(cookie)) && !login_ok(
                old(self).accounts.db_view(),
                opt_view(username),
                opt_view(password),
            ) ==> o is Reject && final(self).active_sessions@ == old(self).active_sessions@,
    {
        if let Some(id) = cookie {
            if self.active_sessions.contains(id) {
                // The client's session is known to the server: forward the
                // request unmodified.
                return AuthOutcome::Forward;
            }
        }
        // The cookie did not validate the request: attempt a login from the
        // credential headers.
        if let Some(u) = username {
            if let Some(p) = password {
                if Account::is_valid_creds(&self.accounts, u.as_str(), p.as_str()) {
                    let session_id = new_session_id();
                    self.active_sessions.insert(session_id.clone());
                    return AuthOutcome::LoginForward { session_id };
                }
            }
        }
        // The request could not be validated in any way: reject it.
        AuthOutcome::Reject
    }
}

/// A session identifier issued by a successful login hits the fast path of
/// any later request that presents it as its cookie, once the login's
/// insertion is in the registry.
pub proof fn lemma_issued_cookie_reused(sessions: Set<Seq<char>>, id: Seq<char>)
    ensures
        cookie_hit(sessions.insert(id), Some(id)),
{
}

/// A request that carries no valid session and no complete credential pair
/// is always rejected: a missing cookie and an unregistered cookie both miss
/// the fast path, and a missing header makes every login attempt fail.
pub proof fn lemma_unauthenticated_misses_both_paths(
    sessions: Set<Seq<char>>,
    db: Map<Seq<char>, AccountView>,
    cookie: Option<Seq<char>>,
    username: Option<Seq<char>>,
    password: Option<Seq<char>>,
)
    ensures
        !cookie_hit(sessions, None),
        (cookie matches Some(c) && !sessions.contains(c)) ==> !cookie_hit(sessions, cookie),
        username is None ==> !login_ok(db, username, password),
        password is None ==> !login_ok(db, username, password),
{
}

} // verus!
