//! The state of a cookie session during one request: what the cookie holds,
//! and whether the response has to set or remove it.

use vstd::prelude::*;

verus! {

/// What a request did to its session.
#[derive(Debug, Clone, Copy, PartialEq, Eq, Structural)]
pub enum SessionStatus {
    Changed,
    Unchanged,
    Removed,
}

/// What the cookie of a session holds.
#[derive(Debug)]
pub struct CookieData {
    pub data: String,
    /// The age after which the cookie expires, in seconds, or zero for a
    /// cookie that lasts as long as the browser's session.
    pub max_age: i32,
}

/// The session of one request.
#[derive(Debug)]
pub struct Session {
    state: String,
    max_age: Option<i64>,
    status: SessionStatus,
}

/// The age that a cookie stores for a session: zero where the session has
/// none.
pub open spec fn stored_max_age(max_age: Option<i64>) -> i32 {
    match max_age {
        Some(secs) => if i32::MIN <= secs <= i32::MAX {
            secs as i32
        } else if secs < 0 {
            i32::MIN
        } else {
            i32::MAX
        },
        None => 0,
    }
}

/// The age of a session whose cookie stores `stored`: none for zero.
pub open spec fn loaded_max_age(stored: i32) -> Option<i64> {
    if stored == 0 {
        None
    } else {
        Some(stored as i64)
    }
}

impl Session {
    /// The data of the session.
    pub closed spec fn data(&self) -> Seq<char> {
        self.state@
    }

    /// The age after which the cookie of the session expires, in seconds.
    pub closed spec fn age(&self) -> Option<i64> {
        self.max_age
    }

    /// What the request did to the session so far.
    pub closed spec fn status(&self) -> SessionStatus {
        self.status
    }

    /// The session of a request without a cookie.
    pub fn new() -> (session: Session)
        ensures
            session.data().len() == 0,
            session.age() is None,
            session.status() == SessionStatus::Unchanged,
    {
        Session { state: String::new(), max_age: None, status: SessionStatus::Unchanged }
    }

    /// The session of a request with the cookie `cookie`.
    pub fn load(cookie: CookieData) -> (session: Session)
        ensures
            session.data() == cookie.data@,
            session.age() == loaded_max_age(cookie.max_age),
            session.status() == SessionStatus::Unchanged,
    {
        let max_age = if cookie.max_age == 0 {
            None
        } else {
            Some(cookie.max_age as i64)
        };
        Session { state: cookie.data, max_age, status: SessionStatus::Unchanged }
    }

    pub fn get(&self) -> (data: &str)
        ensures
            data@ == self.data(),
    {
        self.state.as_str()
    }

    /// Gives the session new data, unless it was deleted.
    pub fn set(&mut self, data: String)
        ensures
            final(self).age() == old(self).age(),
            if old(self).status() == SessionStatus::Removed {
                final(self).status() == SessionStatus::Removed && final(self).data() == old(
                    self,
                ).data()
            } else {
                final(self).status() == SessionStatus::Changed && final(self).data() == data@
            },
    {
        if self.status != SessionStatus::Removed {
            self.status = SessionStatus::Changed;
            self.state = data;
        }
    }

    /// Gives the session a new age, unless it was deleted.
    pub fn set_max_age(&mut self, max_age: Option<i64>)
        ensures
            final(self).data() == old(self).data(),
            if old(self).status() == SessionStatus::Removed {
                final(self).status() == SessionStatus::Removed && final(self).age() == old(
                    self,
                ).age()
            } else {
                final(self).status() == SessionStatus::Changed && final(self).age() == max_age
            },
    {
        if self.status != SessionStatus::Removed {
            self.status = SessionStatus::Changed;
            self.max_age = max_age;
        }
    }

    /// Has the cookie of the session set again, unless the session was
    /// deleted.
    pub fn renew(&mut self)
        ensures
            final(self).data() == old(self).data(),
            final(self).age() == old(self).age(),
            final(self).status() == if old(self).status() == SessionStatus::Removed {
                SessionStatus::Removed
            } else {
                SessionStatus::Changed
            },
    {
        if self.status != SessionStatus::Removed {
            self.status = SessionStatus::Changed;
        }
    }

    /// Deletes the session.
    pub fn delete(&mut self)
        ensures
            final(self).data() == old(self).data(),
            final(self).age() == old(self).age(),
            final(self).status() == SessionStatus::Removed,
    {
        self.status = SessionStatus::Removed;
    }

    /// What the response has to do about the cookie: set it to the cookie
    /// that is returned where the session changed, remove it where the
    /// session was deleted, and nothing else.
    pub fn get_changes(self) -> (res: (SessionStatus, Option<CookieData>))
        ensures
            res.0 == self.status(),
            match self.status() {
                SessionStatus::Changed => res.1 matches Some(cookie) && cookie.data@ == self.data()
                    && cookie.max_age == stored_max_age(self.age()),
                _ => res.1 is None,
            },
    {
        match self.status {
            SessionStatus::Changed => {
                let max_age: i32 = match self.max_age {
                    Some(secs) => {
                        if secs < i32::MIN as i64 {
                            i32::MIN
                        } else if secs > i32::MAX as i64 {
                            i32::MAX
                        } else {
                            secs as i32
                        }
                    },
                    None => 0,
                };
                (SessionStatus::Changed, Some(CookieData { data: self.state, max_age }))
            },
            SessionStatus::Unchanged => (SessionStatus::Unchanged, None),
            SessionStatus::Removed => (SessionStatus::Removed, None),
        }
    }
}

} // verus!
