//! Who may use the proxy: the methods a client may authenticate by, and the
//! users that a server knows.
use vstd::prelude::*;

use crate::net::SocketAddress;

verus! {

/// How a client proves who it is.
#[derive(Clone, Copy, Debug, PartialEq, Eq, Structural, Hash)]
pub enum AuthenticationMethod {
    NoAuthentication,
    UsernamePassword,
}

/// What a client presents to be let in.
#[derive(Clone, Debug)]
pub enum Authentication {
    UsernamePassword { user_name: Vec<u8>, password: Vec<u8> },
    Token { token: Vec<u8> },
}

/// The users a server knows, each with a password; no user name is listed
/// twice (see [`AuthenticationManager::names_once`]).
#[derive(Debug)]
pub struct AuthenticationManager {
    user_list: Vec<(Vec<u8>, Vec<u8>)>,
}

/// The password that a list of users gives a user name: that of its first
/// entry with that name, none where it has no such entry.
pub open spec fn password_in(list: Seq<(Seq<u8>, Seq<u8>)>, user: Seq<u8>) -> Option<Seq<u8>>
    decreases list.len(),
{
    if list.len() == 0 {
        None
    } else if list[0].0 == user {
        Some(list[0].1)
    } else {
        password_in(list.drop_first(), user)
    }
}

/// Whether a manager whose users have the passwords that `password_of` gives
/// lets in the bearer of `auth`: a user name with its own password, never a
/// token.
pub open spec fn accepts(
    password_of: spec_fn(Seq<u8>) -> Option<Seq<u8>>,
    auth: Authentication,
) -> bool {
    match auth {
        Authentication::UsernamePassword { user_name, password } => password_of(user_name@)
            == Some(password@),
        Authentication::Token { .. } => false,
    }
}

/// Whether two byte strings are equal.
fn bytes_eq(a: &[u8], b: &[u8]) -> (r: bool)
    ensures
        r == (a@ == b@),
{
    if a.len() != b.len() {
        return false;
    }
    let mut i: usize = 0;
    while i < a.len()
        invariant
            a@.len() == b@.len(),
            i <= a@.len(),
            forall|j: int| 0 <= j < i ==> a@[j] == b@[j],
        decreases a@.len() - i,
    {
        if a[i] != b[i] {
            return false;
        }
        i = i + 1;
    }
    assert(a@ =~= b@);
    true
}

impl AuthenticationManager {
    /// The users and their passwords, in order.
    pub closed spec fn users(self) -> Seq<(Seq<u8>, Seq<u8>)> {
        self.user_list@.map_values(|e: (Vec<u8>, Vec<u8>)| (e.0@, e.1@))
    }

    /// No user name is listed twice.
    pub open spec fn names_once(self) -> bool {
        forall|i: int, j: int|
            0 <= i < j < self.users().len() ==> #[trigger] self.users()[i].0 != #[trigger] self.users()[j].0
    }

    /// The password of a user; none for a user the manager does not know.
    pub open spec fn password_of(self) -> spec_fn(Seq<u8>) -> Option<Seq<u8>> {
        |user: Seq<u8>| password_in(self.users(), user)
    }

    /// A manager that knows no user.
    pub fn new() -> (r: AuthenticationManager)
        ensures
            r.users() == Seq::<(Seq<u8>, Seq<u8>)>::empty(),
            r.names_once(),
    {
        let r = AuthenticationManager { user_list: Vec::new() };
        assert(r.users() =~= Seq::<(Seq<u8>, Seq<u8>)>::empty());
        r
    }

    /// The method a client from `_addr` is asked to authenticate by: none is
    /// asked of any client.
    pub fn supported_method(&self, _addr: &SocketAddress) -> (r: AuthenticationMethod)
        ensures
            r == AuthenticationMethod::NoAuthentication,
    {
        AuthenticationMethod::NoAuthentication
    }

    /// Whether the bearer of `auth` is let in: a user name is, with the
    /// password the manager has for it; a token never is.
    pub fn authenticate(&self, auth: Authentication) -> (r: bool)
        ensures
            r == accepts(self.password_of(), auth),
    {
        match auth {
            Authentication::UsernamePassword { user_name, password } => {
                let mut i: usize = 0;
                assert(self.users().skip(0) =~= self.users());
                assert(self.password_of()(user_name@) == password_in(self.users(), user_name@));
                while i < self.user_list.len()
                    invariant
                        i <= self.user_list@.len(),
                        auth == (Authentication::UsernamePassword { user_name, password }),
                        self.password_of()(user_name@) == password_in(self.users(), user_name@),
                        password_in(self.users(), user_name@) == password_in(
                            self.users().skip(i as int),
                            user_name@,
                        ),
                    decreases self.user_list@.len() - i,
                {
                    let entry = &self.user_list[i];
                    let ghost rest = self.users().skip(i as int);
                    assert(rest[0] == (entry.0@, entry.1@));
                    if bytes_eq(entry.0.as_slice(), user_name.as_slice()) {
                        assert(password_in(rest, user_name@) == Some(entry.1@));
                        return bytes_eq(entry.1.as_slice(), password.as_slice());
                    }
                    assert(rest.drop_first() =~= self.users().skip(i + 1));
                    i = i + 1;
                }
                assert(self.users().skip(i as int).len() == 0);
                false
            },
            Authentication::Token { .. } => false,
        }
    }
}

impl Default for AuthenticationManager {
    fn default() -> (r: AuthenticationManager)
        ensures
            r.users() == Seq::<(Seq<u8>, Seq<u8>)>::empty(),
            r.names_once(),
    {
        AuthenticationManager::new()
    }
}

/// A manager that knows no user lets nobody in.
pub proof fn law_no_users_no_entry(m: AuthenticationManager, auth: Authentication)
    requires
        m.users().len() == 0,
    ensures
        !accepts(m.password_of(), auth),
{
}

/// A user is let in with the password of its first entry, and with no other.
pub proof fn law_first_entry_password(
    m: AuthenticationManager,
    i: int,
    user_name: Vec<u8>,
    password: Vec<u8>,
)
    requires
        0 <= i < m.users().len(),
        m.users()[i].0 == user_name@,
        forall|j: int| 0 <= j < i ==> m.users()[j].0 != user_name@,
    ensures
        accepts(
            m.password_of(),
            Authentication::UsernamePassword { user_name, password },
        ) <==> password@ == m.users()[i].1,
    decreases i,
{
    lemma_password_at(m.users(), i, user_name@);
}

proof fn lemma_password_at(list: Seq<(Seq<u8>, Seq<u8>)>, i: int, user: Seq<u8>)
    requires
        0 <= i < list.len(),
        list[i].0 == user,
        forall|j: int| 0 <= j < i ==> list[j].0 != user,
    ensures
        password_in(list, user) == Some(list[i].1),
    decreases i,
{
    if i > 0 {
        assert(list[0].0 != user);
        lemma_password_at(list.drop_first(), i - 1, user);
    }
}

} // verus!
