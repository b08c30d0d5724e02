//! Sessions, found by the `sessionid` cookie.
use vstd::prelude::*;
use crate::keyed::{find_key, has_key, index_of, keyed_view, keys_unique, upsert, value_of, lemma_upsert_keeps_unique,
    lemma_upsert_value};
use crate::model::{LoginStatus, LoginView};
use crate::pay::{is_nonce, new_nonce};
use crate::text::text_eq;

verus! {

/// What a session holds: the login status stored in it, if any.
pub struct Session {
    pub data: Option<LoginStatus>,
    pub expire: u32,
}

/// The model of a session.
pub struct SessionView {
    pub data: Option<LoginView>,
    pub expire: u32,
}

impl View for Session {
    type V = SessionView;

    open spec fn view(&self) -> SessionView {
        SessionView {
            data: match self.data { Some(l) => Some(l@), None => None },
            expire: self.expire,
        }
    }
}

/// The cookies of a request as name and value, in order; `None` when it has no `Cookie` header.
pub type Cookies = Option<Vec<(String, String)>>;

/// The value of the first cookie with the given name.
pub open spec fn first_cookie(c: Seq<(String, String)>, name: Seq<char>) -> Option<Seq<char>>
    decreases c.len(),
{
    if c.len() == 0 {
        None
    } else if c[0].0@ == name {
        Some(c[0].1@)
    } else {
        first_cookie(c.drop_first(), name)
    }
}

/// The session id a request names: the value of its first `sessionid` cookie.
pub open spec fn session_id(cookies: Cookies) -> Option<Seq<char>> {
    match cookies {
        Some(c) => first_cookie(c@, "sessionid"@),
        None => None,
    }
}

/// Whether a request with cookies names a session. A request with a `Cookie` header but no
/// `sessionid` cookie names none, and the lookup would fail on it.
pub open spec fn cookies_usable(cookies: Cookies) -> bool {
    cookies is Some ==> session_id(cookies) is Some
}

/// The value of the first cookie named `sessionid`.
pub fn find_session_id(cookies: &Vec<(String, String)>) -> (res: Option<&String>)
    ensures
        match res {
            Some(v) => first_cookie(cookies@, "sessionid"@) == Some(v@),
            None => first_cookie(cookies@, "sessionid"@) is None,
        },
{
    let n = cookies.len();
    let mut i: usize = 0;
    assert(cookies@.skip(0) =~= cookies@);
    while i < n
        invariant
            n == cookies@.len(),
            i <= n,
            first_cookie(cookies@, "sessionid"@) == first_cookie(cookies@.skip(i as int), "sessionid"@),
        decreases n - i,
    {
        assert(cookies@.skip(i as int)[0] == cookies@[i as int]);
        if text_eq(cookies[i].0.as_str(), "sessionid") {
            return Some(&cookies[i].1);
        }
        assert(cookies@.skip(i as int).drop_first() =~= cookies@.skip(i + 1));
        i = i + 1;
    }
    None
}

/// All sessions by id.
pub struct SessionContext {
    sessions: Vec<(String, Session)>,
}

impl View for SessionContext {
    type V = Seq<(Seq<char>, SessionView)>;

    closed spec fn view(&self) -> Seq<(Seq<char>, SessionView)> {
        self.sessions@.map_values(|p: (String, Session)| (p.0@, p.1@))
    }
}

/// The session a request names.
pub open spec fn named_session(sessions: Seq<(Seq<char>, SessionView)>, cookies: Cookies) -> Option<SessionView> {
    match session_id(cookies) {
        Some(id) => value_of(sessions, id),
        None => None,
    }
}

/// The login status in the session a request names.
pub open spec fn named_login(sessions: Seq<(Seq<char>, SessionView)>, cookies: Cookies) -> Option<LoginView> {
    match named_session(sessions, cookies) {
        Some(s) => s.data,
        None => None,
    }
}

impl SessionContext {
    #[verifier::type_invariant]
    closed spec fn well_formed(self) -> bool {
        keys_unique(self@)
    }

    /// No sessions.
    pub fn new() -> (res: SessionContext)
        ensures
            res@ == Seq::<(Seq<char>, SessionView)>::empty(),
            keys_unique(res@),
    {
        let res = SessionContext { sessions: Vec::new() };
        assert(res@ =~= Seq::<(Seq<char>, SessionView)>::empty());
        res
    }

    fn find(&self, id: &str) -> (res: Option<usize>)
        ensures
            match res {
                Some(i) => i < self@.len() && has_key(self@, id@) && i == index_of(self@, id@),
                None => !has_key(self@, id@),
            },
    {
        proof { use_type_invariant(self); }
        let ghost e = self@;
        match find_key(&self.sessions, id) {
            Some(i) => {
                proof {
                    assert(keys_unique(keyed_view(self.sessions@))) by {
                        assert forall|a: int, b: int| 0 <= a < b < keyed_view(self.sessions@).len()
                            implies #[trigger] keyed_view(self.sessions@)[a].0 != #[trigger] keyed_view(self.sessions@)[b].0 by {
                            assert(e[a].0 != e[b].0);
                        }
                    }
                    assert(e[i as int].0 == id@);
                    assert(has_key(e, id@));
                    let j = index_of(e, id@);
                    if j != i as int {
                        if j < i as int { assert(e[j].0 != e[i as int].0); } else { assert(e[i as int].0 != e[j].0); }
                    }
                }
                Some(i)
            },
            None => {
                proof {
                    if has_key(e, id@) {
                        let j = index_of(e, id@);
                        assert(keyed_view(self.sessions@)[j].0 == e[j].0);
                    }
                }
                None
            },
        }
    }

    /// The session a request names, if it exists.
    pub fn get_session(&self, cookies: &Cookies) -> (res: Option<&Session>)
        requires
            cookies_usable(*cookies),
        ensures
            match res {
                Some(s) => named_session(self@, *cookies) == Some(s@),
                None => named_session(self@, *cookies) is None,
            },
    {
        match cookies {
            Some(c) => {
                let id = find_session_id(c);
                match id {
                    Some(v) => match self.find(v.as_str()) {
                        Some(i) => Some(&self.sessions[i].1),
                        None => None,
                    },
                    None => None,
                }
            },
            None => None,
        }
    }

    fn store(&mut self, id: String, s: Session)
        ensures
            final(self)@ == upsert(old(self)@, id@, s@),
            keys_unique(final(self)@),
    {
        proof { use_type_invariant(&*self); }
        let ghost e = self@;
        proof { lemma_upsert_keeps_unique(e, id@, s@); }
        let mut sessions: Vec<(String, Session)> = Vec::new();
        std::mem::swap(&mut sessions, &mut self.sessions);
        assert(sessions@.map_values(|p: (String, Session)| (p.0@, p.1@)) == e);
        match find_key(&sessions, id.as_str()) {
            Some(i) => {
                proof {
                    assert(keys_unique(keyed_view(sessions@))) by {
                        assert forall|a: int, b: int| 0 <= a < b < keyed_view(sessions@).len()
                            implies #[trigger] keyed_view(sessions@)[a].0 != #[trigger] keyed_view(sessions@)[b].0 by {
                            assert(e[a].0 != e[b].0);
                        }
                    }
                    assert(e[i as int].0 == id@);
                    assert(has_key(e, id@));
                    let j = index_of(e, id@);
                    if j != i as int {
                        if j < i as int { assert(e[j].0 != e[i as int].0); } else { assert(e[i as int].0 != e[j].0); }
                    }
                }
                sessions.set(i, (id, s));
                assert(sessions@.map_values(|p: (String, Session)| (p.0@, p.1@)) =~= upsert(e, id@, s@));
                self.sessions = sessions;
            },
            None => {
                proof {
                    if has_key(e, id@) {
                        let j = index_of(e, id@);
                        assert(keyed_view(sessions@)[j].0 == e[j].0);
                    }
                }
                sessions.push((id, s));
                assert(sessions@.map_values(|p: (String, Session)| (p.0@, p.1@)) =~= upsert(e, id@, s@));
                self.sessions = sessions;
            },
        }
    }

    /// Opens an empty session under a fresh random id, and gives the id (to send back in a
    /// `sessionid` cookie with path `/`).
    pub fn new_session(&mut self) -> (res: String)
        ensures
            is_nonce(res@),
            final(self)@ == upsert(old(self)@, res@, SessionView { data: None, expire: 0 }),
            keys_unique(final(self)@),
    {
        let uid = new_nonce();
        let session = Session { data: None, expire: 0 };
        self.store(uid.clone(), session);
        uid
    }

    /// Makes sure a request has a session: when the session it names does not exist, a new one
    /// is opened and its id given.
    pub fn ensure_session(&mut self, cookies: &Cookies) -> (res: Option<String>)
        requires
            cookies_usable(*cookies),
        ensures
            keys_unique(final(self)@),
            match res {
                None => named_session(old(self)@, *cookies) is Some && final(self)@ == old(self)@,
                Some(id) => named_session(old(self)@, *cookies) is None && is_nonce(id@)
                    && final(self)@ == upsert(old(self)@, id@, SessionView { data: None, expire: 0 }),
            },
    {
        proof { use_type_invariant(&*self); }
        let has = match self.get_session(cookies) {
            Some(_) => true,
            None => false,
        };
        if has {
            None
        } else {
            Some(self.new_session())
        }
    }

    /// The login status stored in the session a request names.
    pub fn get_login(&self, cookies: &Cookies) -> (res: Option<LoginStatus>)
        requires
            cookies_usable(*cookies),
        ensures
            match res {
                Some(l) => named_login(self@, *cookies) == Some(l@),
                None => named_login(self@, *cookies) is None,
            },
    {
        match self.get_session(cookies) {
            Some(s) => match &s.data {
                Some(l) => Some(l.duplicate()),
                None => None,
            },
            None => None,
        }
    }

    /// Stores a login status in the session a request names; when that session does not exist,
    /// a new one is opened for it and its id given.
    pub fn set_login(&mut self, cookies: &Cookies, value: LoginStatus) -> (res: Option<String>)
        requires
            cookies_usable(*cookies),
        ensures
            keys_unique(final(self)@),
            match res {
                None => named_session(old(self)@, *cookies) matches Some(s)
                    && final(self)@ == upsert(old(self)@, session_id(*cookies)->0, SessionView { data: Some(value@), ..s }),
                Some(id) => named_session(old(self)@, *cookies) is None && is_nonce(id@)
                    && final(self)@ == upsert(old(self)@, id@, SessionView { data: Some(value@), expire: 0 }),
            },
    {
        let found: Option<(String, u32)> = match cookies {
            Some(c) => match find_session_id(c) {
                Some(v) => match self.find(v.as_str()) {
                    Some(i) => Some((v.clone(), self.sessions[i].1.expire)),
                    None => None,
                },
                None => None,
            },
            None => None,
        };
        match found {
            Some((id, expire)) => {
                self.store(id, Session { data: Some(value), expire });
                None
            },
            None => {
                let uid = new_nonce();
                self.store(uid.clone(), Session { data: Some(value), expire: 0 });
                Some(uid)
            },
        }
    }
}


/// A login status stored in the session a request names is what a later read with the same
/// cookies gives back; every other session keeps what it held.
pub proof fn lemma_login_read_after_write(sessions: Seq<(Seq<char>, SessionView)>, cookies: Cookies, value: LoginView,
    s: SessionView, other: Seq<char>)
    requires
        keys_unique(sessions),
        session_id(cookies) is Some,
    ensures
        named_login(upsert(sessions, session_id(cookies)->0, SessionView { data: Some(value), ..s }), cookies) == Some(value),
        other != session_id(cookies)->0 ==> value_of(upsert(sessions, session_id(cookies)->0, SessionView { data: Some(value), ..s }), other)
            == value_of(sessions, other),
{
    lemma_upsert_value(sessions, session_id(cookies)->0, SessionView { data: Some(value), ..s }, other);
}

/// A session opened for a login status holds it under the new id; every other session keeps
/// what it held.
pub proof fn lemma_new_session_holds_login(sessions: Seq<(Seq<char>, SessionView)>, id: Seq<char>, value: LoginView,
    other: Seq<char>)
    requires
        keys_unique(sessions),
    ensures
        value_of(upsert(sessions, id, SessionView { data: Some(value), expire: 0 }), id)
            == Some(SessionView { data: Some(value), expire: 0 }),
        other != id ==> value_of(upsert(sessions, id, SessionView { data: Some(value), expire: 0 }), other)
            == value_of(sessions, other),
{
    lemma_upsert_value(sessions, id, SessionView { data: Some(value), expire: 0 }, other);
}

} // verus!
