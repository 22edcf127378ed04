use vstd::prelude::*;
use vstd::string::StrSliceExecFns;

use crate::account::bytes_eq;

verus! {

/// One health checkup: an identifier chosen by the caller (in practice a
/// generated UUID), a host-supplied date, an opaque payload, and a publication
/// flag that can only ever go from private to public.
pub struct HealthCheckup<D> {
    pub id: String,
    pub date: u64,
    pub data: D,
    pub is_public: bool,
}

/// One registered user. The parts the store's logic reads — identity, name,
/// reward count, checkups — are plain values; body measurements and the like
/// travel in the opaque `body` payload.
pub struct User<P, D> {
    pub id: Vec<u8>,
    pub full_name: String,
    pub age: u32,
    pub gender: String,
    pub body: P,
    pub allergies: Option<String>,
    pub chronic_diseases: Option<String>,
    pub total_rewards: u64,
    pub health_data: Vec<HealthCheckup<D>>,
}

/// Every way a record-store operation can fail.
#[derive(Debug, Clone, Copy, PartialEq, Eq, Structural)]
pub enum RecordError {
    AlreadyRegistered,
    UserNotFound,
    CheckupNotFound,
    AlreadyPublished,
    EmptyName,
}

impl RecordError {
    /// The human-readable message of this error.
    pub fn message(&self) -> (r: String)
        ensures
            self is AlreadyRegistered ==> r@ == "User already registered"@,
            self is UserNotFound ==> r@ == "User not found"@,
            self is CheckupNotFound ==> r@ == "Checkup not found"@,
            self is AlreadyPublished ==> r@ == "Checkup already published"@,
            self is EmptyName ==> r@ == "Full name cannot be empty"@,
    {
        match self {
            RecordError::AlreadyRegistered => "User already registered".to_owned(),
            RecordError::UserNotFound => "User not found".to_owned(),
            RecordError::CheckupNotFound => "Checkup not found".to_owned(),
            RecordError::AlreadyPublished => "Checkup already published".to_owned(),
            RecordError::EmptyName => "Full name cannot be empty".to_owned(),
        }
    }
}

/// Whether some user in `s` carries the identity `id`.
pub open spec fn has_user<P, D>(s: Seq<User<P, D>>, id: Seq<u8>) -> bool {
    exists|i: int| 0 <= i < s.len() && s[i].id@ == id
}

/// The position of the first user carrying `id`.
pub open spec fn user_first_index<P, D>(s: Seq<User<P, D>>, id: Seq<u8>) -> int
    decreases s.len(),
{
    if s.len() == 0 {
        0
    } else if s[0].id@ == id {
        0
    } else {
        1 + user_first_index(s.skip(1), id)
    }
}

/// Whether some checkup in `cs` carries the identifier `id`.
pub open spec fn has_checkup<D>(cs: Seq<HealthCheckup<D>>, id: Seq<char>) -> bool {
    exists|j: int| 0 <= j < cs.len() && cs[j].id@ == id
}

/// The position of the first checkup carrying `id`.
pub open spec fn checkup_first_index<D>(cs: Seq<HealthCheckup<D>>, id: Seq<char>) -> int
    decreases cs.len(),
{
    if cs.len() == 0 {
        0
    } else if cs[0].id@ == id {
        0
    } else {
        1 + checkup_first_index(cs.skip(1), id)
    }
}

/// A position whose entry matches and before which nothing matches is the
/// first matching position.
pub proof fn lemma_user_first_index<P, D>(s: Seq<User<P, D>>, id: Seq<u8>, i: int)
    requires
        0 <= i < s.len(),
        s[i].id@ == id,
        forall|k: int| 0 <= k < i ==> s[k].id@ != id,
    ensures
        user_first_index(s, id) == i,
    decreases i,
{
    if i > 0 {
        assert(s[0].id@ != id);
        assert forall|k: int| 0 <= k < i - 1 implies s.skip(1)[k].id@ != id by {
            assert(s.skip(1)[k] == s[k + 1]);
        }
        assert(s.skip(1)[i - 1] == s[i]);
        lemma_user_first_index(s.skip(1), id, i - 1);
    }
}

/// The same, for checkups.
pub proof fn lemma_checkup_first_index<D>(cs: Seq<HealthCheckup<D>>, id: Seq<char>, j: int)
    requires
        0 <= j < cs.len(),
        cs[j].id@ == id,
        forall|k: int| 0 <= k < j ==> cs[k].id@ != id,
    ensures
        checkup_first_index(cs, id) == j,
    decreases j,
{
    if j > 0 {
        assert(cs[0].id@ != id);
        assert forall|k: int| 0 <= k < j - 1 implies cs.skip(1)[k].id@ != id by {
            assert(cs.skip(1)[k] == cs[k + 1]);
        }
        assert(cs.skip(1)[j - 1] == cs[j]);
        lemma_checkup_first_index(cs.skip(1), id, j - 1);
    }
}

/// Two users agreeing on everything but reward count and checkups.
pub open spec fn same_profile<P, D>(a: User<P, D>, b: User<P, D>) -> bool {
    &&& a.id@ == b.id@
    &&& a.full_name@ == b.full_name@
    &&& a.age == b.age
    &&& a.gender@ == b.gender@
    &&& a.body == b.body
    &&& a.allergies == b.allergies
    &&& a.chronic_diseases == b.chronic_diseases
}

/// Two checkups agreeing on everything but the publication flag.
pub open spec fn same_checkup_core<D>(a: HealthCheckup<D>, b: HealthCheckup<D>) -> bool {
    &&& a.id@ == b.id@
    &&& a.date == b.date
    &&& a.data == b.data
}

/// The publicly visible checkups of one user, in log order.
pub open spec fn public_checkups_of<D>(cs: Seq<HealthCheckup<D>>) -> Seq<HealthCheckup<D>>
    decreases cs.len(),
{
    if cs.len() == 0 {
        Seq::empty()
    } else if cs.last().is_public {
        public_checkups_of(cs.drop_last()).push(cs.last())
    } else {
        public_checkups_of(cs.drop_last())
    }
}

/// Every publicly visible checkup of every user, users in store order.
pub open spec fn all_public<P, D>(s: Seq<User<P, D>>) -> Seq<HealthCheckup<D>>
    decreases s.len(),
{
    if s.len() == 0 {
        Seq::empty()
    } else {
        all_public(s.drop_last()) + public_checkups_of(s.last().health_data@)
    }
}

/// Keyed storage for users and their checkup histories: create-if-absent,
/// read-by-key, append-child-record, publish-once, and reward accounting.
/// Lookups find the first entry under a key; the operations only ever create
/// a key once.
pub struct RecordStore<P, D> {
    pub users: Vec<User<P, D>>,
}

impl<P, D> RecordStore<P, D> {
    /// An empty store.
    pub fn new() -> (r: RecordStore<P, D>)
        ensures
            r.users@ == Seq::<User<P, D>>::empty(),
    {
        let r = RecordStore { users: Vec::new() };
        proof {
            assert(r.users@ =~= Seq::<User<P, D>>::empty());
        }
        r
    }

    /// The position of the first user carrying `id`, if any does.
    fn find_user(&self, id: &Vec<u8>) -> (r: Option<usize>)
        ensures
            match r {
                Some(i) => {
                    &&& has_user(self.users@, id@)
                    &&& i as int == user_first_index(self.users@, id@)
                    &&& i < self.users@.len()
                    &&& self.users@[i as int].id@ == id@
                },
                None => !has_user(self.users@, id@),
            },
    {
        let mut i: usize = 0;
        while i < self.users.len()
            invariant
                i <= self.users@.len(),
                forall|k: int| 0 <= k < i ==> self.users@[k].id@ != id@,
            decreases self.users@.len() - i,
        {
            if bytes_eq(&self.users[i].id, id) {
                proof {
                    lemma_user_first_index(self.users@, id@, i as int);
                }
                return Some(i);
            }
            i += 1;
        }
        None
    }

    /// Register a new user with no rewards and no checkups; fails with
    /// `AlreadyRegistered` exactly when the identity is already present, and
    /// then changes nothing.
    pub fn register_user(
        &mut self,
        id: Vec<u8>,
        full_name: String,
        age: u32,
        gender: String,
        body: P,
        allergies: Option<String>,
        chronic_diseases: Option<String>,
    ) -> (r: Result<(), RecordError>)
        ensures
            match r {
                Ok(()) => {
                    &&& !has_user(old(self).users@, id@)
                    &&& final(self).users@.len() == old(self).users@.len() + 1
                    &&& final(self).users@.drop_last() == old(self).users@
                    &&& final(self).users@.last().id@ == id@
                    &&& final(self).users@.last().full_name@ == full_name@
                    &&& final(self).users@.last().age == age
                    &&& final(self).users@.last().gender@ == gender@
                    &&& final(self).users@.last().body == body
                    &&& final(self).users@.last().allergies == allergies
                    &&& final(self).users@.last().chronic_diseases == chronic_diseases
                    &&& final(self).users@.last().total_rewards == 0
                    &&& final(self).users@.last().health_data@.len() == 0
                },
                Err(e) => {
                    &&& e == RecordError::AlreadyRegistered
                    &&& has_user(old(self).users@, id@)
                    &&& *final(self) == *old(self)
                },
            },
    {
        match self.find_user(&id) {
            Some(_) => Err(RecordError::AlreadyRegistered),
            None => {
                let ghost s0 = self.users@;
                let user = User {
                    id,
                    full_name,
                    age,
                    gender,
                    body,
                    allergies,
                    chronic_diseases,
                    total_rewards: 0,
                    health_data: Vec::new(),
                };
                self.users.push(user);
                proof {
                    assert(self.users@.drop_last() =~= s0);
                }
                Ok(())
            },
        }
    }

    /// The profile of the named user; fails with `UserNotFound` exactly when
    /// the identity is absent.
    pub fn get_user_profile(&self, principal: &Vec<u8>) -> (r: Result<&User<P, D>, RecordError>)
        ensures
            match r {
                Ok(u) => {
                    &&& has_user(self.users@, principal@)
                    &&& *u == self.users@[user_first_index(self.users@, principal@)]
                },
                Err(e) => {
                    &&& e == RecordError::UserNotFound
                    &&& !has_user(self.users@, principal@)
                },
            },
    {
        match self.find_user(principal) {
            Some(i) => Ok(&self.users[i]),
            None => Err(RecordError::UserNotFound),
        }
    }

    /// The full checkup history of the named user; fails with `UserNotFound`
    /// exactly when the identity is absent.
    pub fn get_user_history(&self, principal: &Vec<u8>) -> (r: Result<
        &Vec<HealthCheckup<D>>,
        RecordError,
    >)
        ensures
            match r {
                Ok(v) => {
                    &&& has_user(self.users@, principal@)
                    &&& v@ == self.users@[user_first_index(self.users@, principal@)].health_data@
                },
                Err(e) => {
                    &&& e == RecordError::UserNotFound
                    &&& !has_user(self.users@, principal@)
                },
            },
    {
        match self.find_user(principal) {
            Some(i) => Ok(&self.users[i].health_data),
            None => Err(RecordError::UserNotFound),
        }
    }

    /// The same history, offered under the read-with-credential name.
    pub fn get_private_data(&self, principal: &Vec<u8>) -> (r: Result<
        &Vec<HealthCheckup<D>>,
        RecordError,
    >)
        ensures
            match r {
                Ok(v) => {
                    &&& has_user(self.users@, principal@)
                    &&& v@ == self.users@[user_first_index(self.users@, principal@)].health_data@
                },
                Err(e) => {
                    &&& e == RecordError::UserNotFound
                    &&& !has_user(self.users@, principal@)
                },
            },
    {
        self.get_user_history(principal)
    }

    /// Append a private checkup to the named user's history; fails with
    /// `UserNotFound` exactly when the identity is absent, and then changes
    /// nothing. The identifier and the date come from the caller, who owns
    /// the entropy and the clock.
    pub fn add_checkup(&mut self, principal: &Vec<u8>, checkup_id: String, date: u64, data: D) -> (r:
        Result<(), RecordError>)
        ensures
            match r {
                Ok(()) => {
                    let s0 = old(self).users@;
                    let i = user_first_index(s0, principal@);
                    &&& has_user(s0, principal@)
                    &&& final(self).users@.len() == s0.len()
                    &&& forall|k: int|
                        0 <= k < s0.len() && k != i ==> final(self).users@[k] == s0[k]
                    &&& same_profile(final(self).users@[i], s0[i])
                    &&& final(self).users@[i].total_rewards == s0[i].total_rewards
                    &&& final(self).users@[i].health_data@.len() == s0[i].health_data@.len() + 1
                    &&& final(self).users@[i].health_data@.drop_last() == s0[i].health_data@
                    &&& final(self).users@[i].health_data@.last().id@ == checkup_id@
                    &&& final(self).users@[i].health_data@.last().date == date
                    &&& final(self).users@[i].health_data@.last().data == data
                    &&& final(self).users@[i].health_data@.last().is_public == false
                },
                Err(e) => {
                    &&& e == RecordError::UserNotFound
                    &&& !has_user(old(self).users@, principal@)
                    &&& *final(self) == *old(self)
                },
            },
    {
        match self.find_user(principal) {
            Some(i) => {
                let u = &mut self.users[i];
                let ghost h0 = u.health_data@;
                u.health_data.push(HealthCheckup { id: checkup_id, date, data, is_public: false });
                proof {
                    assert(u.health_data@.drop_last() =~= h0);
                }
                Ok(())
            },
            None => Err(RecordError::UserNotFound),
        }
    }

    /// Add reward points to the named user; fails with `UserNotFound` exactly
    /// when the identity is absent, and then changes nothing. The caller
    /// answers for the reward count still fitting its type.
    pub fn reward_user(&mut self, principal: &Vec<u8>, points: u64) -> (r: Result<
        (),
        RecordError,
    >)
        requires
            has_user(old(self).users@, principal@) ==> old(self).users@[user_first_index(
                old(self).users@,
                principal@,
            )].total_rewards + points <= u64::MAX,
        ensures
            match r {
                Ok(()) => {
                    let s0 = old(self).users@;
                    let i = user_first_index(s0, principal@);
                    &&& has_user(s0, principal@)
                    &&& final(self).users@.len() == s0.len()
                    &&& forall|k: int|
                        0 <= k < s0.len() && k != i ==> final(self).users@[k] == s0[k]
                    &&& same_profile(final(self).users@[i], s0[i])
                    &&& final(self).users@[i].health_data@ == s0[i].health_data@
                    &&& final(self).users@[i].total_rewards == s0[i].total_rewards + points
                },
                Err(e) => {
                    &&& e == RecordError::UserNotFound
                    &&& !has_user(old(self).users@, principal@)
                    &&& *final(self) == *old(self)
                },
            },
    {
        match self.find_user(principal) {
            Some(i) => {
                let u = &mut self.users[i];
                u.total_rewards = u.total_rewards + points;
                Ok(())
            },
            None => Err(RecordError::UserNotFound),
        }
    }

    /// Publish the named checkup, once and irreversibly, and reward the user
    /// with ten points. Fails with `UserNotFound`, `CheckupNotFound`, or
    /// `AlreadyPublished`, each exactly on its own condition, and then
    /// changes nothing. The caller answers for the reward count still
    /// fitting its type.
    #[verifier::loop_isolation(false)]
    pub fn publish_checkup(&mut self, principal: &Vec<u8>, checkup_id: &String) -> (r: Result<
        (),
        RecordError,
    >)
        requires
            ({
                let s0 = old(self).users@;
                let i = user_first_index(s0, principal@);
                (has_user(s0, principal@) && has_checkup(s0[i].health_data@, checkup_id@)
                    && !s0[i].health_data@[checkup_first_index(
                    s0[i].health_data@,
                    checkup_id@,
                )].is_public) ==> s0[i].total_rewards + 10 <= u64::MAX
            }),
        ensures
            match r {
                Ok(()) => {
                    let s0 = old(self).users@;
                    let i = user_first_index(s0, principal@);
                    let h0 = s0[i].health_data@;
                    let j = checkup_first_index(h0, checkup_id@);
                    &&& has_user(s0, principal@)
                    &&& has_checkup(h0, checkup_id@)
                    &&& !h0[j].is_public
                    &&& final(self).users@.len() == s0.len()
                    &&& forall|k: int|
                        0 <= k < s0.len() && k != i ==> final(self).users@[k] == s0[k]
                    &&& same_profile(final(self).users@[i], s0[i])
                    &&& final(self).users@[i].total_rewards == s0[i].total_rewards + 10
                    &&& final(self).users@[i].health_data@.len() == h0.len()
                    &&& forall|k: int|
                        0 <= k < h0.len() && k != j ==> final(self).users@[i].health_data@[k]
                            == h0[k]
                    &&& same_checkup_core(final(self).users@[i].health_data@[j], h0[j])
                    &&& final(self).users@[i].health_data@[j].is_public == true
                },
                Err(e) => {
                    let s0 = old(self).users@;
                    let i = user_first_index(s0, principal@);
                    let h0 = s0[i].health_data@;
                    let j = checkup_first_index(h0, checkup_id@);
                    &&& final(self).users@ == old(self).users@
                    &&& match e {
                        RecordError::UserNotFound => !has_user(s0, principal@),
                        RecordError::CheckupNotFound => has_user(s0, principal@) && !has_checkup(
                            h0,
                            checkup_id@,
                        ),
                        RecordError::AlreadyPublished => has_user(s0, principal@) && has_checkup(
                            h0,
                            checkup_id@,
                        ) && h0[j].is_public,
                        _ => false,
                    }
                },
            },
    {
        let i = match self.find_user(principal) {
            Some(i) => i,
            None => {
                return Err(RecordError::UserNotFound);
            },
        };
        let ghost h0 = self.users@[i as int].health_data@;
        let n = self.users[i].health_data.len();
        let mut j: usize = 0;
        while j < n
            invariant
                self.users@ == old(self).users@,
                i < self.users@.len(),
                i as int == user_first_index(self.users@, principal@),
                self.users@[i as int].id@ == principal@,
                has_user(self.users@, principal@),
                n == h0.len(),
                h0 == self.users@[i as int].health_data@,
                j <= n,
                forall|k: int| 0 <= k < j ==> h0[k].id@ != checkup_id@,
            decreases n - j,
        {
            if self.users[i].health_data[j].id == *checkup_id {
                proof {
                    lemma_checkup_first_index(h0, checkup_id@, j as int);
                    assert(h0[j as int].id@ == checkup_id@);
                    assert(has_checkup(h0, checkup_id@));
                }
                if self.users[i].health_data[j].is_public {
                    return Err(RecordError::AlreadyPublished);
                }
                let u = &mut self.users[i];
                let c = &mut u.health_data[j];
                c.is_public = true;
                u.total_rewards = u.total_rewards + 10;
                return Ok(());
            }
            j += 1;
        }
        proof {
            assert(!has_checkup(h0, checkup_id@)) by {
                if has_checkup(h0, checkup_id@) {
                    let w = choose|k: int| 0 <= k < h0.len() && h0[k].id@ == checkup_id@;
                    assert(h0[w].id@ != checkup_id@);
                }
            }
        }
        Err(RecordError::CheckupNotFound)
    }

    /// Replace every profile field of the named user, leaving rewards and
    /// history alone. Fails with `UserNotFound` when the identity is absent
    /// and with `EmptyName` when the new name is blank, and then changes
    /// nothing.
    pub fn update_profile_user(
        &mut self,
        principal: &Vec<u8>,
        full_name: String,
        age: u32,
        gender: String,
        body: P,
        allergies: Option<String>,
        chronic_diseases: Option<String>,
    ) -> (r: Result<(), RecordError>)
        ensures
            match r {
                Ok(()) => {
                    let s0 = old(self).users@;
                    let i = user_first_index(s0, principal@);
                    &&& has_user(s0, principal@)
                    &&& !spec_is_blank(full_name@)
                    &&& final(self).users@.len() == s0.len()
                    &&& forall|k: int|
                        0 <= k < s0.len() && k != i ==> final(self).users@[k] == s0[k]
                    &&& final(self).users@[i].id@ == s0[i].id@
                    &&& final(self).users@[i].full_name@ == full_name@
                    &&& final(self).users@[i].age == age
                    &&& final(self).users@[i].gender@ == gender@
                    &&& final(self).users@[i].body == body
                    &&& final(self).users@[i].allergies == allergies
                    &&& final(self).users@[i].chronic_diseases == chronic_diseases
                    &&& final(self).users@[i].total_rewards == s0[i].total_rewards
                    &&& final(self).users@[i].health_data@ == s0[i].health_data@
                },
                Err(e) => {
                    &&& *final(self) == *old(self)
                    &&& match e {
                        RecordError::UserNotFound => !has_user(old(self).users@, principal@),
                        RecordError::EmptyName => has_user(old(self).users@, principal@)
                            && spec_is_blank(full_name@),
                        _ => false,
                    }
                },
            },
    {
        let i = match self.find_user(principal) {
            Some(i) => i,
            None => {
                return Err(RecordError::UserNotFound);
            },
        };
        if is_blank(full_name.as_str()) {
            return Err(RecordError::EmptyName);
        }
        let u = &mut self.users[i];
        u.full_name = full_name;
        u.age = age;
        u.gender = gender;
        u.body = body;
        u.allergies = allergies;
        u.chronic_diseases = chronic_diseases;
        Ok(())
    }

    /// Every published checkup of every user, users in store order and each
    /// history in its own order.
    pub fn get_public_data(&self) -> (r: Vec<&HealthCheckup<D>>)
        ensures
            r@.map_values(|c: &HealthCheckup<D>| *c) == all_public(self.users@),
    {
        let mut out: Vec<&HealthCheckup<D>> = Vec::new();
        let mut i: usize = 0;
        proof {
            assert(self.users@.take(0) =~= Seq::<User<P, D>>::empty());
            assert(out@.map_values(|c: &HealthCheckup<D>| *c) =~= all_public(
                self.users@.take(0),
            ));
        }
        while i < self.users.len()
            invariant
                i <= self.users@.len(),
                out@.map_values(|c: &HealthCheckup<D>| *c) == all_public(
                    self.users@.take(i as int),
                ),
            decreases self.users@.len() - i,
        {
            let cs = &self.users[i].health_data;
            let mut j: usize = 0;
            proof {
                assert(cs@.take(0) =~= Seq::<HealthCheckup<D>>::empty());
            }
            while j < cs.len()
                invariant
                    i < self.users@.len(),
                    cs@ == self.users@[i as int].health_data@,
                    j <= cs@.len(),
                    out@.map_values(|c: &HealthCheckup<D>| *c) == all_public(
                        self.users@.take(i as int),
                    ) + public_checkups_of(cs@.take(j as int)),
                decreases cs@.len() - j,
            {
                let ghost out0 = out@;
                if cs[j].is_public {
                    out.push(&cs[j]);
                    proof {
                        assert(out@.map_values(|c: &HealthCheckup<D>| *c) =~= out0.map_values(
                            |c: &HealthCheckup<D>| *c,
                        ).push(cs@[j as int]));
                    }
                }
                proof {
                    assert(cs@.take(j + 1).drop_last() =~= cs@.take(j as int));
                    assert(cs@.take(j + 1).last() == cs@[j as int]);
                    assert(out@.map_values(|c: &HealthCheckup<D>| *c) =~= all_public(
                        self.users@.take(i as int),
                    ) + public_checkups_of(cs@.take(j + 1)));
                }
                j += 1;
            }
            proof {
                assert(cs@.take(cs@.len() as int) =~= cs@);
                assert(self.users@.take(i + 1).drop_last() =~= self.users@.take(i as int));
                assert(self.users@.take(i + 1).last() == self.users@[i as int]);
                assert(out@.map_values(|c: &HealthCheckup<D>| *c) =~= all_public(
                    self.users@.take(i + 1),
                ));
            }
            i += 1;
        }
        proof {
            assert(self.users@.take(self.users@.len() as int) =~= self.users@);
        }
        out
    }
}

/// Whether `c` is Unicode white space.
pub open spec fn is_space_char(c: char) -> bool {
    ||| c == ' '
    ||| c == '\t'
    ||| c == '\n'
    ||| c == '\r'
    ||| c == '\u{000B}'
    ||| c == '\u{000C}'
    ||| c == '\u{0085}'
    ||| c == '\u{00A0}'
    ||| c == '\u{1680}'
    ||| (0x2000 <= c as u32 && c as u32 <= 0x200A)
    ||| c == '\u{2028}'
    ||| c == '\u{2029}'
    ||| c == '\u{202F}'
    ||| c == '\u{205F}'
    ||| c == '\u{3000}'
}

/// Whether the string is empty or all white space — exactly when trimming
/// would leave nothing.
pub open spec fn spec_is_blank(s: Seq<char>) -> bool {
    forall|i: int| 0 <= i < s.len() ==> is_space_char(s[i])
}

/// Whether `c` is Unicode white space.
fn char_is_space(c: char) -> (r: bool)
    ensures
        r == is_space_char(c),
{
    let u = c as u32;
    c == ' ' || c == '\t' || c == '\n' || c == '\r' || c == '\u{000B}' || c == '\u{000C}' || c
        == '\u{0085}' || c == '\u{00A0}' || c == '\u{1680}' || (0x2000 <= u && u <= 0x200A) || c
        == '\u{2028}' || c == '\u{2029}' || c == '\u{202F}' || c == '\u{205F}' || c == '\u{3000}'
}

/// Whether the string is empty or all white space.
pub fn is_blank(s: &str) -> (r: bool)
    ensures
        r == spec_is_blank(s@),
{
    let n = s.unicode_len();
    let mut i: usize = 0;
    while i < n
        invariant
            n == s@.len(),
            i <= n,
            forall|j: int| 0 <= j < i ==> is_space_char(s@[j]),
        decreases n - i,
    {
        if !char_is_space(s.get_char(i)) {
            return false;
        }
        i += 1;
    }
    true
}

} // verus!
