//! User accounts: creation with a unique user name, lookup, listing and
//! deletion.
use vstd::prelude::*;
use crate::error::{id_unavailable, outcome, AppError, AppResult, ErrorView};
use crate::model::User;
use crate::system::{is_hyphenated_id, new_id};
use crate::table::{Record, Table};

verus! {

/// Some user in `users` has the user name `name`.
pub open spec fn username_taken(users: Map<Seq<char>, User>, name: Seq<char>) -> bool {
    exists|k: Seq<char>| users.contains_key(k) && #[trigger] users[k].username@ == name
}

/// No two users in `users` share a user name.
pub open spec fn usernames_unique(users: Map<Seq<char>, User>) -> bool {
    forall|a: Seq<char>, b: Seq<char>|
        users.contains_key(a) && users.contains_key(b) && a != b ==> #[trigger] users[a].username@
            != #[trigger] users[b].username@
}

/// Why a new user with these names is refused, if it is.
pub open spec fn create_user_refusal(
    users: Map<Seq<char>, User>,
    username: Seq<char>,
    email: Seq<char>,
) -> Option<ErrorView> {
    if username.len() == 0 {
        Some(ErrorView::BadRequest("Username cannot be empty"@))
    } else if email.len() == 0 {
        Some(ErrorView::BadRequest("Email cannot be empty"@))
    } else if username_taken(users, username) {
        Some(ErrorView::BadRequest("Username '"@ + username + "' already exists"@))
    } else {
        None
    }
}

/// Creating a user under the identifier `id`: the answer, and the users
/// afterwards.
pub open spec fn create_user_step(
    users: Map<Seq<char>, User>,
    username: String,
    email: String,
    id: String,
) -> (Result<User, ErrorView>, Map<Seq<char>, User>) {
    match create_user_refusal(users, username@, email@) {
        Some(e) => (Err(e), users),
        None => {
            let u = User { id, username, email };
            (Ok(u), users.insert(id@, u))
        },
    }
}

/// Looking up the user `id`.
pub open spec fn get_user_step(users: Map<Seq<char>, User>, id: Seq<char>) -> Result<
    User,
    ErrorView,
> {
    if users.contains_key(id) {
        Ok(users[id])
    } else {
        Err(ErrorView::NotFound("User not found: "@ + id))
    }
}

/// Deleting the user `id`: the answer, and the users afterwards.
pub open spec fn delete_user_step(users: Map<Seq<char>, User>, id: Seq<char>) -> (
    Result<(), ErrorView>,
    Map<Seq<char>, User>,
) {
    if users.contains_key(id) {
        (Ok(()), users.remove(id))
    } else {
        (Err(ErrorView::NotFound("User not found: "@ + id)), users)
    }
}

/// The user accounts, each under its identifier.
pub struct UserService {
    users: Table<User>,
}

impl View for UserService {
    type V = Map<Seq<char>, User>;

    closed spec fn view(&self) -> Map<Seq<char>, User> {
        self.users@
    }
}

impl UserService {
    /// The users in the order `get_users` lists them.
    pub closed spec fn listing(&self) -> Seq<User> {
        self.users.entries()
    }

    /// The service's invariant: each user sits under its own identifier,
    /// and no two users share a user name.
    pub closed spec fn wf(&self) -> bool {
        self.users.wf() && usernames_unique(self@)
    }

    /// The listing holds every user once, each under its identifier.
    pub proof fn lemma_listing_is_view(&self)
        requires
            self.wf(),
        ensures
            forall|i: int|
                0 <= i < self.listing().len() ==> #[trigger] self@.contains_key(
                    self.listing()[i].id@,
                ) && self@[self.listing()[i].id@] == self.listing()[i],
            forall|i: int, j: int|
                0 <= i < self.listing().len() && 0 <= j < self.listing().len() && i != j
                    ==> self.listing()[i].id@ != self.listing()[j].id@,
            forall|k: Seq<char>|
                #[trigger] self@.contains_key(k) ==> exists|i: int|
                    0 <= i < self.listing().len() && #[trigger] self.listing()[i].id@ == k,
            self.listing().len() == self@.len(),
    {
        self.users.lemma_entries_are_view();
        let s = self.listing();
        assert forall|i: int| 0 <= i < s.len() implies #[trigger] self@.contains_key(s[i].id@)
            && self@[s[i].id@] == s[i] by {
            assert(s[i].key() == s[i].id@);
        }
        assert forall|k: Seq<char>| #[trigger] self@.contains_key(k) implies exists|i: int|
            0 <= i < s.len() && #[trigger] s[i].id@ == k by {
            let i = choose|i: int| 0 <= i < s.len() && #[trigger] s[i].key() == k;
            assert(s[i].id@ == k);
        }
    }

    /// A service with no users.
    pub fn new() -> (s: Self)
        ensures
            s.wf(),
            s@ == Map::<Seq<char>, User>::empty(),
    {
        UserService { users: Table::new() }
    }

    /// Whether some user already has the user name `name`.
    fn has_username(&self, name: &String) -> (r: bool)
        requires
            self.wf(),
        ensures
            r == username_taken(self@, name@),
    {
        let rows = self.users.rows();
        let mut i: usize = 0;
        while i < rows.len()
            invariant
                self.wf(),
                rows@ == self.users.entries(),
                i <= rows@.len(),
                forall|j: int| 0 <= j < i ==> #[trigger] rows@[j].username@ != name@,
            decreases rows@.len() - i,
        {
            if rows[i].username.eq(name) {
                proof {
                    self.lemma_listing_is_view();
                    assert(self.listing()[i as int] == rows@[i as int]);
                    assert(self@.contains_key(rows@[i as int].id@));
                    assert(self@[rows@[i as int].id@].username@ == name@);
                }
                return true;
            }
            i = i + 1;
        }
        proof {
            self.lemma_listing_is_view();
            if username_taken(self@, name@) {
                let k = choose|k: Seq<char>| self@.contains_key(k) && #[trigger] self@[k].username@
                    == name@;
                let j = choose|j: int| 0 <= j < rows@.len() && #[trigger] rows@[j].id@ == k;
                assert(rows@[j].username@ == name@);
            }
        }
        false
    }

    /// The refusal, if any, of a new user with these names.
    fn check_new_user(&self, username: &String, email: &String) -> (r: Option<AppError>)
        requires
            self.wf(),
        ensures
            match r {
                Some(e) => create_user_refusal(self@, username@, email@) == Some(e@),
                None => create_user_refusal(self@, username@, email@) is None,
            },
    {
        if username.as_str().is_empty() {
            return Some(AppError::bad_request("Username cannot be empty"));
        }
        if email.as_str().is_empty() {
            return Some(AppError::bad_request("Email cannot be empty"));
        }
        if self.has_username(username) {
            let mut m = String::from_str("Username '");
            m.append(username.as_str());
            m.append("' already exists");
            return Some(AppError::BadRequest(m));
        }
        None
    }

    /// Stores a user that `check_new_user` admitted.
    fn add_user(&mut self, username: String, email: String, id: String) -> (r: AppResult<User>)
        requires
            old(self).wf(),
            create_user_refusal(old(self)@, username@, email@) is None,
        ensures
            final(self).wf(),
            (outcome(r), final(self)@) == create_user_step(old(self)@, username, email, id),
    {
        let ghost pre = self@;
        let ghost u = User { id, username, email };
        let user = User { id, username, email };
        let copy = user.duplicate();
        self.users.insert(user);
        proof {
            let post = self@;
            assert(post == pre.insert(u.id@, u));
            assert forall|a: Seq<char>, b: Seq<char>|
                post.contains_key(a) && post.contains_key(b) && a != b implies #[trigger] post[a].username@
                != #[trigger] post[b].username@ by {
                if a == u.id@ {
                    assert(pre.contains_key(b));
                } else if b == u.id@ {
                    assert(pre.contains_key(a));
                } else {
                }
            }
        }
        Ok(copy)
    }

    /// Creates a user with these names under the identifier `id`.
    ///
    /// The user name and the e-mail address must not be empty, and no user
    /// may have the same user name.  A user already stored under `id` is
    /// replaced.
    pub fn create_user_with_id(&mut self, username: String, email: String, id: String) -> (r:
        AppResult<User>)
        requires
            old(self).wf(),
        ensures
            final(self).wf(),
            (outcome(r), final(self)@) == create_user_step(old(self)@, username, email, id),
    {
        match self.check_new_user(&username, &email) {
            Some(e) => Err(e),
            None => self.add_user(username, email, id),
        }
    }

    /// Creates a user with these names under a fresh random identifier.
    ///
    /// The same checks as `create_user_with_id` apply; the identifier is
    /// drawn only once they have passed.  When no identifier can be drawn
    /// the answer is the internal error [`id_unavailable`] and nothing is
    /// stored.
    pub fn create_user(&mut self, username: String, email: String) -> (r: AppResult<User>)
        requires
            old(self).wf(),
        ensures
            final(self).wf(),
            match r {
                Ok(u) => is_hyphenated_id(u.id@) && (outcome(r), final(self)@) == create_user_step(
                    old(self)@,
                    username,
                    email,
                    u.id,
                ),
                Err(e) => final(self)@ == old(self)@ && (create_user_refusal(
                    old(self)@,
                    username@,
                    email@,
                ) == Some(e@) || (create_user_refusal(old(self)@, username@, email@) is None
                    && e@ == id_unavailable())),
            },
    {
        match self.check_new_user(&username, &email) {
            Some(e) => Err(e),
            None => match new_id() {
                Some(id) => self.add_user(username, email, id),
                None => Err(AppError::no_id()),
            },
        }
    }

    /// The user `id`.
    pub fn get_user(&self, id: &str) -> (r: AppResult<User>)
        requires
            self.wf(),
        ensures
            outcome(r) == get_user_step(self@, id@),
    {
        let key = String::from_str(id);
        match self.users.get(&key) {
            Some(u) => Ok(u.duplicate()),
            None => Err(AppError::not_found("User not found: ", id)),
        }
    }

    /// All users, in the service's order.
    pub fn get_users(&self) -> (r: AppResult<Vec<User>>)
        requires
            self.wf(),
        ensures
            match r {
                Ok(v) => v@ == self.listing(),
                Err(_) => false,
            },
    {
        Ok(self.users.copy_all())
    }

    /// Deletes the user `id`.
    pub fn delete_user(&mut self, id: &str) -> (r: AppResult<()>)
        requires
            old(self).wf(),
        ensures
            final(self).wf(),
            (outcome(r), final(self)@) == delete_user_step(old(self)@, id@),
    {
        let key = String::from_str(id);
        match self.users.remove(&key) {
            Some(_) => {
                proof {
                    let post = self@;
                    assert forall|a: Seq<char>, b: Seq<char>|
                        post.contains_key(a) && post.contains_key(b) && a != b implies #[trigger] post[a].username@
                        != #[trigger] post[b].username@ by {
                        assert(old(self)@.contains_key(a) && old(self)@.contains_key(b));
                    }
                }
                Ok(())
            },
            None => Err(AppError::not_found("User not found: ", id)),
        }
    }
}

/// A user that was just created can be read back under its identifier.
pub proof fn law_created_user_is_found(
    users: Map<Seq<char>, User>,
    username: String,
    email: String,
    id: String,
)
    requires
        create_user_step(users, username, email, id).0 is Ok,
    ensures
        get_user_step(create_user_step(users, username, email, id).1, id@) == create_user_step(
            users,
            username,
            email,
            id,
        ).0,
{
}

/// A refused creation leaves the users as they were.
pub proof fn law_refused_creation_changes_nothing(
    users: Map<Seq<char>, User>,
    username: String,
    email: String,
    id: String,
)
    requires
        create_user_step(users, username, email, id).0 is Err,
    ensures
        create_user_step(users, username, email, id).1 == users,
{
}

/// Once a user name is registered, a second user with that name is refused,
/// whatever its e-mail address and identifier.
pub proof fn law_username_registered_once(
    users: Map<Seq<char>, User>,
    username: String,
    email: String,
    id: String,
    again: String,
    email2: String,
    id2: String,
)
    requires
        create_user_step(users, username, email, id).0 is Ok,
        again@ == username@,
        email2@.len() > 0,
    ensures
        create_user_step(create_user_step(users, username, email, id).1, again, email2, id2).0
            == Err::<User, ErrorView>(
            ErrorView::BadRequest("Username '"@ + username@ + "' already exists"@),
        ),
{
    let after = create_user_step(users, username, email, id).1;
    assert(after.contains_key(id@) && after[id@].username@ == again@);
    assert(username_taken(after, again@));
}

/// Creating a user keeps user names unique.
pub proof fn law_creation_keeps_usernames_unique(
    users: Map<Seq<char>, User>,
    username: String,
    email: String,
    id: String,
)
    requires
        usernames_unique(users),
    ensures
        usernames_unique(create_user_step(users, username, email, id).1),
{
    let post = create_user_step(users, username, email, id).1;
    if create_user_refusal(users, username@, email@) is None {
        assert forall|a: Seq<char>, b: Seq<char>|
            post.contains_key(a) && post.contains_key(b) && a != b implies #[trigger] post[a].username@
            != #[trigger] post[b].username@ by {
            if a == id@ {
                assert(users.contains_key(b));
            } else if b == id@ {
                assert(users.contains_key(a));
            }
        }
    }
}

/// Deleting a user keeps user names unique.
pub proof fn law_deletion_keeps_usernames_unique(users: Map<Seq<char>, User>, id: Seq<char>)
    requires
        usernames_unique(users),
    ensures
        usernames_unique(delete_user_step(users, id).1),
{
}

/// A deleted user can no longer be found.
pub proof fn law_deleted_user_is_gone(users: Map<Seq<char>, User>, id: Seq<char>)
    requires
        delete_user_step(users, id).0 is Ok,
    ensures
        get_user_step(delete_user_step(users, id).1, id) == Err::<User, ErrorView>(
            ErrorView::NotFound("User not found: "@ + id),
        ),
{
}

/// Deleting a user that was just created under a new identifier gives back
/// the users as they were.
pub proof fn law_deletion_undoes_creation(
    users: Map<Seq<char>, User>,
    username: String,
    email: String,
    id: String,
)
    requires
        !users.contains_key(id@),
        create_user_step(users, username, email, id).0 is Ok,
    ensures
        delete_user_step(create_user_step(users, username, email, id).1, id@) == (
            Ok::<(), ErrorView>(()),
            users,
        ),
{
    let after = create_user_step(users, username, email, id).1;
    assert(after.remove(id@) =~= users);
}

/// A user is created exactly when the user name and the e-mail address are
/// not empty and no stored user has that user name; the new user carries
/// the given identifier, user name and e-mail address, is stored under the
/// identifier, and every other user stays as it was.
pub proof fn law_creation_accepts_exactly_new_names(
    users: Map<Seq<char>, User>,
    username: String,
    email: String,
    id: String,
)
    ensures
        create_user_step(users, username, email, id).0 is Ok <==> username@.len() > 0
            && email@.len() > 0 && !(exists|k: Seq<char>|
            users.contains_key(k) && #[trigger] users[k].username@ == username@),
        create_user_step(users, username, email, id).0 matches Ok(u) ==> {
            &&& u.id == id
            &&& u.username == username
            &&& u.email == email
            &&& create_user_step(users, username, email, id).1.contains_key(id@)
            &&& create_user_step(users, username, email, id).1[id@] == u
            &&& forall|k: Seq<char>|
                users.contains_key(k) && k != id@ ==> #[trigger] create_user_step(
                    users,
                    username,
                    email,
                    id,
                ).1[k] == users[k]
        },
{
}

/// Deleting a user removes exactly that user: it succeeds exactly when the
/// user is stored, and every other user stays as it was.
pub proof fn law_deletion_removes_one_user(users: Map<Seq<char>, User>, id: Seq<char>)
    ensures
        delete_user_step(users, id).0 is Ok <==> users.contains_key(id),
        delete_user_step(users, id).1.dom() == users.dom().remove(id),
        forall|k: Seq<char>|
            users.contains_key(k) && k != id ==> #[trigger] delete_user_step(users, id).1[k]
                == users[k],
{
    assert(delete_user_step(users, id).1.dom() =~= users.dom().remove(id));
}

/// Looking a user up finds exactly the stored users, and finds them as
/// stored.
pub proof fn law_lookup_finds_stored_users(users: Map<Seq<char>, User>, id: Seq<char>)
    ensures
        get_user_step(users, id) is Ok <==> users.contains_key(id),
        get_user_step(users, id) matches Ok(u) ==> u == users[id],
{
}

/// The refusals of a new user, in the order they are tested: an empty user
/// name first, then an empty e-mail address, then a taken user name, each
/// with its message; a refused creation stores nothing.
pub proof fn law_creation_refusal_messages(
    users: Map<Seq<char>, User>,
    username: String,
    email: String,
    id: String,
)
    ensures
        username@.len() == 0 ==> create_user_step(users, username, email, id) == (
            Err::<User, ErrorView>(ErrorView::BadRequest("Username cannot be empty"@)),
            users,
        ),
        username@.len() > 0 && email@.len() == 0 ==> create_user_step(users, username, email, id)
            == (Err::<User, ErrorView>(ErrorView::BadRequest("Email cannot be empty"@)), users),
        username@.len() > 0 && email@.len() > 0 && (exists|k: Seq<char>|
            users.contains_key(k) && #[trigger] users[k].username@ == username@)
            ==> create_user_step(users, username, email, id) == (
            Err::<User, ErrorView>(
                ErrorView::BadRequest("Username '"@ + username@ + "' already exists"@),
            ),
            users,
        ),
{
}

/// Looking up or deleting a user that is not stored answers `NotFound`
/// with the message "User not found: " and the identifier.
pub proof fn law_missing_user_messages(users: Map<Seq<char>, User>, id: Seq<char>)
    requires
        !users.contains_key(id),
    ensures
        get_user_step(users, id) == Err::<User, ErrorView>(
            ErrorView::NotFound("User not found: "@ + id),
        ),
        delete_user_step(users, id) == (
            Err::<(), ErrorView>(ErrorView::NotFound("User not found: "@ + id)),
            users,
        ),
{
}

} // verus!
