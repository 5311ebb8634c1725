use vstd::prelude::*;
use vstd::string::StringExecFns;
use crate::error::{ApiError, ErrorKind};

verus! {

/// What a session waits for.
#[derive(Clone, Copy, Debug, PartialEq, Eq, Structural)]
pub enum Awaited {
    /// The token of a fresh login.
    Login,
    /// The answer to a fetch with the token in use.
    Fetch,
    /// Nothing: the session is over.
    Nothing,
}

/// What the caller of a session is to do next.
pub enum RetryAction {
    /// Log in and report the token.
    Login,
    /// Fetch with this token and report how it went.
    Fetch(String),
    /// Give up with this error.
    Failed(ApiError),
}

/// What a `RetryAction` says.
pub enum RetryStep {
    Login,
    Fetch(Seq<char>),
    Failed(ErrorKind, Seq<char>),
}

impl RetryAction {
    /// What this action says.
    pub open spec fn model(&self) -> RetryStep {
        match *self {
            RetryAction::Login => RetryStep::Login,
            RetryAction::Fetch(token) => RetryStep::Fetch(token@),
            RetryAction::Failed(e) => RetryStep::Failed(e.kind(), e.message()),
        }
    }
}

/// How far a session has come: the token in use, whether a token was
/// rejected before, and what is awaited.
pub struct RetryModel {
    pub token: Option<Seq<char>>,
    pub relogged: bool,
    pub awaited: Awaited,
}

/// The start of a session: with a cached token the fetch is made with it, and
/// without one a login comes first.
pub open spec fn retry_started(cached: Option<Seq<char>>) -> (RetryModel, RetryStep) {
    match cached {
        Some(token) => (
            RetryModel { token: Some(token), relogged: false, awaited: Awaited::Fetch },
            RetryStep::Fetch(token),
        ),
        None => (
            RetryModel { token: None, relogged: false, awaited: Awaited::Login },
            RetryStep::Login,
        ),
    }
}

/// After a login the fetch is made with the new token.
pub open spec fn retry_logged_in(m: RetryModel, token: Seq<char>) -> (RetryModel, RetryStep) {
    (
        RetryModel { token: Some(token), relogged: m.relogged, awaited: Awaited::Fetch },
        RetryStep::Fetch(token),
    )
}

/// The error of a session whose token was rejected right after a fresh login.
pub open spec fn expired_at_once(source: Seq<char>) -> RetryStep {
    RetryStep::Failed(ErrorKind::Auth, source + " access expired immediately"@)
}

/// After the source has rejected the token: the first time the token is
/// dropped and a fresh login is asked for, the second time the session fails.
pub open spec fn retry_rejected(m: RetryModel, source: Seq<char>) -> (RetryModel, RetryStep) {
    if m.relogged {
        (
            RetryModel { token: None, relogged: true, awaited: Awaited::Nothing },
            expired_at_once(source),
        )
    } else {
        (RetryModel { token: None, relogged: true, awaited: Awaited::Login }, RetryStep::Login)
    }
}

/// After a fetch that went well the session is over, and the token stays in
/// use.
pub open spec fn retry_fetched(m: RetryModel) -> RetryModel {
    RetryModel { token: m.token, relogged: m.relogged, awaited: Awaited::Nothing }
}

/// How many actions a session can still ask for.
pub open spec fn actions_left(m: RetryModel) -> nat {
    match (m.awaited, m.relogged) {
        (Awaited::Login, false) => 4,
        (Awaited::Fetch, false) => 3,
        (Awaited::Login, true) => 2,
        (Awaited::Fetch, true) => 1,
        (Awaited::Nothing, _) => 0,
    }
}

/// The login-and-retry protocol of a source that hands out session tokens.
pub struct RefreshRetry {
    token: Option<String>,
    relogged: bool,
    awaited: Awaited,
}

impl RefreshRetry {
    /// How far the session has come.
    pub closed spec fn model(&self) -> RetryModel {
        RetryModel {
            token: match self.token {
                Some(token) => Some(token@),
                None => None,
            },
            relogged: self.relogged,
            awaited: self.awaited,
        }
    }

    /// Begins a session with the token that is cached, if one is.
    pub fn start(cached_token: Option<String>) -> (r: (RefreshRetry, RetryAction))
        ensures
            (r.0.model(), r.1.model()) == retry_started(
                match cached_token {
                    Some(token) => Some(token@),
                    None => None,
                },
            ),
    {
        match cached_token {
            Some(token) => {
                let action = RetryAction::Fetch(token.clone());
                (RefreshRetry { token: Some(token), relogged: false, awaited: Awaited::Fetch }, action)
            },
            None => (
                RefreshRetry { token: None, relogged: false, awaited: Awaited::Login },
                RetryAction::Login,
            ),
        }
    }

    /// What the session waits for.
    pub fn awaits(&self) -> (awaited: Awaited)
        ensures
            awaited == self.model().awaited,
    {
        self.awaited
    }

    /// Whether a token was rejected in this session.
    pub fn has_relogged(&self) -> (relogged: bool)
        ensures
            relogged == self.model().relogged,
    {
        self.relogged
    }

    /// The token in use, if there is one.
    pub fn token(&self) -> (token: Option<String>)
        ensures
            match token {
                Some(token) => self.model().token == Some(token@),
                None => self.model().token is None,
            },
    {
        match &self.token {
            Some(token) => Some(token.clone()),
            None => None,
        }
    }

    /// Takes the token of the login that was asked for.
    pub fn logged_in(&mut self, token: String) -> (action: RetryAction)
        requires
            old(self).model().awaited == Awaited::Login,
        ensures
            (final(self).model(), action.model()) == retry_logged_in(old(self).model(), token@),
    {
        let action = RetryAction::Fetch(token.clone());
        self.token = Some(token);
        self.awaited = Awaited::Fetch;
        action
    }

    /// Takes note that the source rejected the token in use; `source` names
    /// the source in the error of a session that fails.
    pub fn token_rejected(&mut self, source: &str) -> (action: RetryAction)
        requires
            old(self).model().awaited == Awaited::Fetch,
        ensures
            (final(self).model(), action.model()) == retry_rejected(old(self).model(), source@),
    {
        self.token = None;
        if self.relogged {
            self.awaited = Awaited::Nothing;
            RetryAction::Failed(
                ApiError::describe(ErrorKind::Auth, source, " access expired immediately"),
            )
        } else {
            self.relogged = true;
            self.awaited = Awaited::Login;
            RetryAction::Login
        }
    }

    /// Takes note that the fetch went well.
    pub fn fetched(&mut self)
        requires
            old(self).model().awaited == Awaited::Fetch,
        ensures
            final(self).model() == retry_fetched(old(self).model()),
    {
        self.awaited = Awaited::Nothing;
    }
}

/// A session without a cached token logs in first and then fetches with the
/// token of that login; a session with a cached token fetches with it at once.
pub proof fn lemma_login_comes_first(cached: Option<Seq<char>>, token: Seq<char>)
    ensures
        cached is None ==> retry_started(cached).1 == RetryStep::Login && retry_logged_in(
            retry_started(cached).0,
            token,
        ).1 == RetryStep::Fetch(token),
        cached is Some ==> retry_started(cached).1 == RetryStep::Fetch(cached->0),
{
}

/// A rejected token leads to one fresh login and one more fetch, and no
/// further: where the source rejects the token of the fresh login too, the
/// session fails with an authentication error.
pub proof fn lemma_one_relogin_one_retry(m: RetryModel, source: Seq<char>, token: Seq<char>)
    requires
        m.awaited == Awaited::Fetch,
        !m.relogged,
    ensures
        retry_rejected(m, source).1 == RetryStep::Login,
        retry_logged_in(retry_rejected(m, source).0, token).1 == RetryStep::Fetch(token),
        retry_rejected(retry_logged_in(retry_rejected(m, source).0, token).0, source).1
            == expired_at_once(source),
        retry_rejected(
            retry_logged_in(retry_rejected(m, source).0, token).0,
            source,
        ).0.awaited == Awaited::Nothing,
{
}

/// No session goes on for ever: each step leaves fewer actions to ask for,
/// at most four from the start.
pub proof fn lemma_session_is_bounded(m: RetryModel, source: Seq<char>, token: Seq<char>)
    ensures
        actions_left(m) <= 4,
        m.awaited == Awaited::Login ==> actions_left(retry_logged_in(m, token).0) < actions_left(m),
        m.awaited == Awaited::Fetch ==> actions_left(retry_rejected(m, source).0) < actions_left(m),
        m.awaited == Awaited::Fetch ==> actions_left(retry_fetched(m)) < actions_left(m),
{
}

} // verus!
