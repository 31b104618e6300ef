//! The session boundary: one flag per client that says whether the client
//! has logged in, and the guard that lets a request through on it.

use vstd::prelude::*;

verus! {

/// What reading the flag from a client's session gave.
#[derive(Debug, Clone, Copy, PartialEq, Eq, Structural)]
pub enum SessionRead {
    /// The session was read; the flag is absent or has this value.
    Flag(Option<bool>),
    /// The session could not be read.
    Broken,
}

/// What the guard does with a request.
#[derive(Debug, Clone, Copy, PartialEq, Eq, Structural)]
pub enum Access {
    /// The request goes on to its handler.
    Granted,
    /// The request is answered as unauthorized and reaches no handler.
    Unauthorized,
    /// The request is answered as an internal failure and reaches no handler.
    Failed,
}

/// The session of one client.
#[derive(Debug, Clone, Copy, PartialEq, Eq, Structural)]
pub struct Session {
    pub authenticated: Option<bool>,
}

/// The guard in front of every operation that needs a login: a request
/// passes only when the flag is present and true.
pub open spec fn guard(read: SessionRead) -> Access {
    match read {
        SessionRead::Flag(Some(true)) => Access::Granted,
        SessionRead::Flag(_) => Access::Unauthorized,
        SessionRead::Broken => Access::Failed,
    }
}

/// Decides whether a request that needs a login goes on to its handler.
pub fn decide(read: SessionRead) -> (access: Access)
    ensures
        access == guard(read),
        access == Access::Granted <==> read == SessionRead::Flag(Some(true)),
        access == Access::Failed <==> read == SessionRead::Broken,
{
    match read {
        SessionRead::Flag(Some(true)) => Access::Granted,
        SessionRead::Flag(_) => Access::Unauthorized,
        SessionRead::Broken => Access::Failed,
    }
}

impl Session {
    /// Whether the flag is present and true.
    pub open spec fn is_authenticated(self) -> bool {
        self.authenticated == Some(true)
    }

    /// The session of a client that has not logged in.
    pub fn new() -> (session: Session)
        ensures
            session.authenticated is None,
            !session.is_authenticated(),
    {
        Session { authenticated: None }
    }

    /// The session after a login attempt: an accepted password sets the
    /// flag, a refused one leaves the session as it was.
    pub open spec fn after_login(self, accepted: bool) -> Session {
        if accepted {
            Session { authenticated: Some(true) }
        } else {
            self
        }
    }

    /// Records the outcome of a login attempt.
    pub fn login(&mut self, accepted: bool)
        ensures
            *final(self) == old(self).after_login(accepted),
            accepted ==> final(self).is_authenticated(),
            !accepted ==> *final(self) == *old(self),
    {
        if accepted {
            self.authenticated = Some(true);
        }
    }

    /// Removes the flag.
    pub fn logout(&mut self)
        ensures
            final(self).authenticated is None,
    {
        self.authenticated = None;
    }

    /// Whether the client is logged in; an absent flag counts as no.
    pub fn logged_in(&self) -> (yes: bool)
        ensures
            yes == self.is_authenticated(),
    {
        match self.authenticated {
            Some(flag) => flag,
            None => false,
        }
    }

    /// What reading this session gives.
    pub fn read(&self) -> (read: SessionRead)
        ensures
            read == SessionRead::Flag(self.authenticated),
    {
        SessionRead::Flag(self.authenticated)
    }

    /// What the guard does with a request of this client.
    pub fn access(&self) -> (access: Access)
        ensures
            access == guard(SessionRead::Flag(self.authenticated)),
            access == Access::Granted <==> self.is_authenticated(),
            access != Access::Granted ==> access == Access::Unauthorized,
    {
        decide(self.read())
    }
}

/// A client whose flag is absent or false is turned away at the guard. A
/// login that was accepted opens it, whatever the session held before; a
/// login that was refused opens nothing.
pub proof fn login_opens_the_guard(session: Session)
    ensures
        !session.is_authenticated() ==> guard(SessionRead::Flag(session.authenticated))
            == Access::Unauthorized,
        guard(SessionRead::Flag(session.after_login(true).authenticated)) == Access::Granted,
        guard(SessionRead::Flag(session.after_login(false).authenticated)) == guard(
            SessionRead::Flag(session.authenticated),
        ),
{
}

} // verus!
