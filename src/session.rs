use vstd::prelude::*;

verus! {

/// Name of the response cookie that carries the session token.
pub const SESSION_COOKIE: &'static str = "XSRF-TOKEN";

/// Name of the request header that echoes the session token back.
pub const SESSION_HEADER: &'static str = "x-xsrf-token";

/// The slot holding the current session token. It starts empty and is only
/// ever replaced as a whole.
pub struct SessionToken {
    token: Option<String>,
}

impl View for SessionToken {
    type V = Option<Seq<char>>;

    closed spec fn view(&self) -> Option<Seq<char>> {
        match self.token {
            Some(t) => Some(t@),
            None => None,
        }
    }
}

impl SessionToken {
    /// An empty slot: no session has been established yet.
    pub fn new() -> (r: Self)
        ensures
            r@ is None,
    {
        SessionToken { token: None }
    }

    /// The token to attach to the next request, if any.
    pub fn read(&self) -> (r: Option<String>)
        ensures
            r is None <==> self@ is None,
            r matches Some(t) ==> self@ == Some(t@),
    {
        match &self.token {
            Some(t) => Some(t.clone()),
            None => None,
        }
    }

    /// Replace the token with a freshly issued one.
    pub fn replace(&mut self, token: String)
        ensures
            final(self)@ == Some(token@),
    {
        self.token = Some(token);
    }
}

} // verus!
