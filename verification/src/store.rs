//! The identity store and resolver: the durable link between provider
//! identities and local user accounts, and the atomic find-or-create that
//! the callback runs.
//!
//! The store's well-formedness captures what the storage layer's
//! constraints guarantee: ids are unique and below the next free id, every
//! profile's owner exists, `(provider_type, provider_id)` identifies at
//! most one profile, and every user owns a profile of its default provider.
//! `resolve` preserves all of it and either finds the existing owner or
//! creates the user and its profile together — never one without the other.

use vstd::prelude::*;

use crate::profile::UserSocialProfileData;
use crate::provider::SocialProviderType;
use crate::strutil::str_eq;

verus! {

/// A stored user row.
pub struct UserRecord {
    pub id: i32,
    pub default_social_profile: SocialProviderType,
}

/// A stored social-profile row: one provider identity linked to one user.
pub struct SocialProfileRecord {
    pub id: i32,
    pub user_id: i32,
    pub provider_type: SocialProviderType,
    pub provider_id: String,
    pub provider_username: String,
    pub provider_avatar: Option<String>,
}

/// The mathematical value of a user row.
pub struct UserView {
    pub id: int,
    pub default_social_profile: SocialProviderType,
}

/// The mathematical value of a social-profile row.
pub struct ProfileView {
    pub id: int,
    pub user_id: int,
    pub provider_type: SocialProviderType,
    pub provider_id: Seq<char>,
    pub provider_username: Seq<char>,
    pub provider_avatar: Option<Seq<char>>,
}

impl View for UserRecord {
    type V = UserView;

    open spec fn view(&self) -> UserView {
        UserView { id: self.id as int, default_social_profile: self.default_social_profile }
    }
}

impl View for SocialProfileRecord {
    type V = ProfileView;

    open spec fn view(&self) -> ProfileView {
        ProfileView {
            id: self.id as int,
            user_id: self.user_id as int,
            provider_type: self.provider_type,
            provider_id: self.provider_id@,
            provider_username: self.provider_username@,
            provider_avatar: match self.provider_avatar {
                Some(a) => Some(a@),
                None => None,
            },
        }
    }
}

/// The mathematical value of the whole store.
pub struct StoreView {
    pub users: Seq<UserView>,
    pub profiles: Seq<ProfileView>,
    pub next_user_id: int,
    pub next_profile_id: int,
}

pub open spec fn profile_matches(p: ProfileView, pt: SocialProviderType, pid: Seq<char>) -> bool {
    p.provider_type == pt && p.provider_id == pid
}

pub open spec fn user_id_exists(users: Seq<UserView>, id: int) -> bool {
    exists|i: int| 0 <= i < users.len() && users[i].id == id
}

impl StoreView {
    /// What the storage layer's constraints guarantee of the store at all
    /// times.
    pub open spec fn wf(self) -> bool {
        &&& 0 < self.next_user_id <= i32::MAX
        &&& 0 < self.next_profile_id <= i32::MAX
        &&& (forall|i: int|
            0 <= i < self.users.len() ==> 0 < #[trigger] self.users[i].id < self.next_user_id)
        &&& (forall|i: int, j: int|
            0 <= i < j < self.users.len() ==> self.users[i].id != self.users[j].id)
        &&& (forall|i: int|
            0 <= i < self.profiles.len() ==> 0 < #[trigger] self.profiles[i].id
                < self.next_profile_id)
        &&& (forall|i: int, j: int|
            0 <= i < j < self.profiles.len() ==> self.profiles[i].id != self.profiles[j].id)
        &&& (forall|i: int|
            0 <= i < self.profiles.len() ==> user_id_exists(
                self.users,
                (#[trigger] self.profiles[i]).user_id,
            ))
        &&& (forall|i: int, j: int|
            0 <= i < j < self.profiles.len() ==> !(profile_matches(
                self.profiles[i],
                self.profiles[j].provider_type,
                self.profiles[j].provider_id,
            )))
        &&& (forall|i: int|
            0 <= i < self.users.len() ==> exists|j: int|
                0 <= j < self.profiles.len() && (#[trigger] self.profiles[j]).user_id
                    == (#[trigger] self.users[i]).id && self.profiles[j].provider_type
                    == self.users[i].default_social_profile)
    }
}

/// The first stored profile carrying a provider identity, if any.
pub open spec fn spec_find_profile(
    profiles: Seq<ProfileView>,
    pt: SocialProviderType,
    pid: Seq<char>,
) -> Option<ProfileView>
    decreases profiles.len(),
{
    if profiles.len() == 0 {
        None
    } else if profile_matches(profiles[0], pt, pid) {
        Some(profiles[0])
    } else {
        spec_find_profile(profiles.drop_first(), pt, pid)
    }
}

/// A lookup misses exactly when no stored profile carries the identity.
pub proof fn lemma_find_none_iff_no_match(
    profiles: Seq<ProfileView>,
    pt: SocialProviderType,
    pid: Seq<char>,
)
    ensures
        spec_find_profile(profiles, pt, pid) is None <==> (forall|i: int|
            0 <= i < profiles.len() ==> !profile_matches(#[trigger] profiles[i], pt, pid)),
    decreases profiles.len(),
{
    if profiles.len() > 0 {
        let rest = profiles.drop_first();
        lemma_find_none_iff_no_match(rest, pt, pid);
        if spec_find_profile(profiles, pt, pid) is None {
            assert forall|i: int|
                0 <= i < profiles.len() implies !profile_matches(
                #[trigger] profiles[i],
                pt,
                pid,
            ) by {
                if i > 0 {
                    assert(rest[i - 1] == profiles[i]);
                    assert(!profile_matches(rest[i - 1], pt, pid));
                }
            }
        } else {
            if profile_matches(profiles[0], pt, pid) {
                assert(!(forall|i: int|
                    0 <= i < profiles.len() ==> !profile_matches(
                        #[trigger] profiles[i],
                        pt,
                        pid,
                    )));
            } else {
                assert(spec_find_profile(rest, pt, pid) is Some);
                let w = choose|i: int|
                    0 <= i < rest.len() && profile_matches(#[trigger] rest[i], pt, pid);
                assert(profiles[w + 1] == rest[w]);
                assert(profile_matches(profiles[w + 1], pt, pid));
            }
        }
    }
}

/// A hit is a stored profile and carries the identity it was looked up by.
pub proof fn lemma_find_some_is_match(
    profiles: Seq<ProfileView>,
    pt: SocialProviderType,
    pid: Seq<char>,
)
    requires
        spec_find_profile(profiles, pt, pid) is Some,
    ensures
        exists|i: int|
            0 <= i < profiles.len() && #[trigger] profiles[i] == spec_find_profile(
                profiles,
                pt,
                pid,
            )->Some_0,
        profile_matches(spec_find_profile(profiles, pt, pid)->Some_0, pt, pid),
    decreases profiles.len(),
{
    if profiles.len() > 0 && !profile_matches(profiles[0], pt, pid) {
        lemma_find_some_is_match(profiles.drop_first(), pt, pid);
        let p = spec_find_profile(profiles, pt, pid)->Some_0;
        let i = choose|i: int|
            0 <= i < profiles.drop_first().len() && #[trigger] profiles.drop_first()[i] == p;
        assert(profiles[i + 1] == p);
    }
}

/// Appending a profile that carries a so-far-unknown identity makes the
/// lookup of that identity find exactly it.
pub proof fn lemma_find_after_push(
    profiles: Seq<ProfileView>,
    pt: SocialProviderType,
    pid: Seq<char>,
    p: ProfileView,
)
    requires
        spec_find_profile(profiles, pt, pid) is None,
        profile_matches(p, pt, pid),
    ensures
        spec_find_profile(profiles.push(p), pt, pid) == Some(p),
    decreases profiles.len(),
{
    if profiles.len() == 0 {
        assert(profiles.push(p)[0] == p);
    } else {
        lemma_find_after_push(profiles.drop_first(), pt, pid, p);
        assert(profiles.push(p).drop_first() =~= profiles.drop_first().push(p));
    }
}

/// Storage failing the caller: a broken consistency expectation or an
/// exhausted id sequence, surfaced as one generic internal error.
#[derive(Debug)]
pub struct StorageFailure;

/// The store after creating a user and its linked profile in one step.
pub open spec fn spec_create(
    s: StoreView,
    pt: SocialProviderType,
    pid: Seq<char>,
    uname: Seq<char>,
) -> StoreView {
    StoreView {
        users: s.users.push(UserView { id: s.next_user_id, default_social_profile: pt }),
        profiles: s.profiles.push(
            ProfileView {
                id: s.next_profile_id,
                user_id: s.next_user_id,
                provider_type: pt,
                provider_id: pid,
                provider_username: uname,
                provider_avatar: None,
            },
        ),
        next_user_id: s.next_user_id + 1,
        next_profile_id: s.next_profile_id + 1,
    }
}

/// Find-or-create on the store's value: the store afterwards, and the
/// resolved user id (`None` exactly when the id sequences are exhausted).
pub open spec fn spec_resolve(
    s: StoreView,
    pt: SocialProviderType,
    pid: Seq<char>,
    uname: Seq<char>,
) -> (StoreView, Option<int>) {
    match spec_find_profile(s.profiles, pt, pid) {
        Some(p) => (s, Some(p.user_id)),
        None => if s.next_user_id < i32::MAX && s.next_profile_id < i32::MAX {
            (spec_create(s, pt, pid, uname), Some(s.next_user_id))
        } else {
            (s, None)
        },
    }
}

/// Creating a user and its profile together preserves every storage
/// constraint.
pub proof fn lemma_create_preserves_wf(
    s: StoreView,
    pt: SocialProviderType,
    pid: Seq<char>,
    uname: Seq<char>,
)
    requires
        s.wf(),
        spec_find_profile(s.profiles, pt, pid) is None,
        s.next_user_id < i32::MAX,
        s.next_profile_id < i32::MAX,
    ensures
        spec_create(s, pt, pid, uname).wf(),
{
    let t = spec_create(s, pt, pid, uname);
    lemma_find_none_iff_no_match(s.profiles, pt, pid);
    let nu = t.users.len() - 1;
    let np = t.profiles.len() - 1;
    assert(t.users[nu].id == s.next_user_id);
    assert(t.profiles[np].user_id == s.next_user_id);
    assert forall|i: int|
        0 <= i < t.profiles.len() implies user_id_exists(
        t.users,
        (#[trigger] t.profiles[i]).user_id,
    ) by {
        if i < np {
            assert(t.profiles[i] == s.profiles[i]);
            assert(user_id_exists(s.users, s.profiles[i].user_id));
            let w = choose|w: int|
                0 <= w < s.users.len() && s.users[w].id == s.profiles[i].user_id;
            assert(t.users[w] == s.users[w]);
        } else {
            assert(t.users[nu].id == t.profiles[i].user_id);
        }
    }
    assert forall|i: int, j: int|
        0 <= i < j < t.profiles.len() implies !(profile_matches(
        t.profiles[i],
        t.profiles[j].provider_type,
        t.profiles[j].provider_id,
    )) by {
        if j < np {
            assert(t.profiles[i] == s.profiles[i]);
            assert(t.profiles[j] == s.profiles[j]);
        } else {
            assert(t.profiles[i] == s.profiles[i]);
            assert(!profile_matches(s.profiles[i], pt, pid));
        }
    }
    assert forall|i: int|
        0 <= i < t.users.len() implies exists|j: int|
        0 <= j < t.profiles.len() && (#[trigger] t.profiles[j]).user_id == (#[trigger] t.users[i]).id
            && t.profiles[j].provider_type == t.users[i].default_social_profile by {
        if i < nu {
            assert(t.users[i] == s.users[i]);
            let w = choose|j: int|
                0 <= j < s.profiles.len() && (#[trigger] s.profiles[j]).user_id == s.users[i].id
                    && s.profiles[j].provider_type == s.users[i].default_social_profile;
            assert(t.profiles[w] == s.profiles[w]);
            assert(t.profiles[w].user_id == t.users[i].id && t.profiles[w].provider_type
                == t.users[i].default_social_profile);
        } else {
            assert(t.profiles[np].user_id == t.users[i].id && t.profiles[np].provider_type
                == t.users[i].default_social_profile);
        }
    }
}

/// The identity store: the user and social-profile rows this core reads
/// and writes, with the next free id of each sequence.
pub struct IdentityStore {
    users: Vec<UserRecord>,
    profiles: Vec<SocialProfileRecord>,
    next_user_id: i32,
    next_profile_id: i32,
}

impl View for IdentityStore {
    type V = StoreView;

    closed spec fn view(&self) -> StoreView {
        StoreView {
            users: self.users@.map_values(|u: UserRecord| u@),
            profiles: self.profiles@.map_values(|p: SocialProfileRecord| p@),
            next_user_id: self.next_user_id as int,
            next_profile_id: self.next_profile_id as int,
        }
    }
}

impl IdentityStore {
    /// An empty store whose id sequences start at 1.
    pub fn new() -> (r: IdentityStore)
        ensures
            r@.users.len() == 0,
            r@.profiles.len() == 0,
            r@.next_user_id == 1,
            r@.next_profile_id == 1,
            r@.wf(),
    {
        IdentityStore { users: Vec::new(), profiles: Vec::new(), next_user_id: 1, next_profile_id: 1 }
    }

    /// An empty store whose id sequences start at the given values, as a
    /// storage layer's sequences may.
    pub fn with_start_ids(next_user_id: i32, next_profile_id: i32) -> (r: IdentityStore)
        requires
            next_user_id > 0,
            next_profile_id > 0,
        ensures
            r@.users.len() == 0,
            r@.profiles.len() == 0,
            r@.next_user_id == next_user_id as int,
            r@.next_profile_id == next_profile_id as int,
            r@.wf(),
    {
        IdentityStore { users: Vec::new(), profiles: Vec::new(), next_user_id, next_profile_id }
    }

    pub fn user_count(&self) -> (n: usize)
        ensures
            n == self@.users.len(),
    {
        self.users.len()
    }

    pub fn profile_count(&self) -> (n: usize)
        ensures
            n == self@.profiles.len(),
    {
        self.profiles.len()
    }

    /// Looks a profile up by its provider-scoped identity.
    pub fn find_by_provider_identity(
        &self,
        provider_type: SocialProviderType,
        provider_id: &String,
    ) -> (r: Option<&SocialProfileRecord>)
        ensures
            match r {
                Some(p) => spec_find_profile(self@.profiles, provider_type, provider_id@)
                    == Some(p@),
                None => spec_find_profile(self@.profiles, provider_type, provider_id@) is None,
            },
    {
        let n = self.profiles.len();
        let mut i: usize = 0;
        proof {
            assert(self@.profiles.skip(0) =~= self@.profiles);
        }
        while i < n
            invariant
                0 <= i <= n == self@.profiles.len(),
                spec_find_profile(self@.profiles.skip(i as int), provider_type, provider_id@)
                    == spec_find_profile(self@.profiles, provider_type, provider_id@),
            decreases n - i,
        {
            let sp = &self.profiles[i];
            proof {
                assert(self@.profiles.skip(i as int)[0] == self@.profiles[i as int]);
            }
            if sp.provider_type == provider_type && str_eq(
                sp.provider_id.as_str(),
                provider_id.as_str(),
            ) {
                proof {
                    assert(profile_matches(self@.profiles[i as int], provider_type, provider_id@));
                }
                return Some(sp);
            }
            proof {
                assert(!profile_matches(self@.profiles[i as int], provider_type, provider_id@));
                assert(self@.profiles.skip(i as int).drop_first() =~= self@.profiles.skip(
                    i as int + 1,
                ));
            }
            i += 1;
        }
        proof {
            assert(self@.profiles.skip(n as int) =~= Seq::<ProfileView>::empty());
        }
        None
    }

    /// The position of the user row with an id, if it exists.
    fn find_user_index(&self, id: i32) -> (r: Option<usize>)
        ensures
            r is Some <==> user_id_exists(self@.users, id as int),
            r is Some ==> r->Some_0 < self@.users.len() && self@.users[r->Some_0 as int].id
                == id as int,
    {
        let n = self.users.len();
        let mut i: usize = 0;
        while i < n
            invariant
                0 <= i <= n == self@.users.len(),
                forall|j: int| 0 <= j < i ==> (#[trigger] self@.users[j]).id != id as int,
            decreases n - i,
        {
            if self.users[i].id == id {
                return Some(i);
            }
            i += 1;
        }
        None
    }

    /// The one transaction of this core: inserts a user row and the profile
    /// row referencing it, both or neither.  Fails only when an id sequence
    /// is exhausted, and then changes nothing.
    pub fn create_user_with_profile(
        &mut self,
        provider_type: SocialProviderType,
        provider_id: String,
        provider_username: String,
    ) -> (r: Result<i32, StorageFailure>)
        requires
            old(self)@.wf(),
            spec_find_profile(old(self)@.profiles, provider_type, provider_id@) is None,
        ensures
            final(self)@.wf(),
            r is Ok <==> (old(self)@.next_user_id < i32::MAX && old(self)@.next_profile_id
                < i32::MAX),
            r is Ok ==> final(self)@ == spec_create(
                old(self)@,
                provider_type,
                provider_id@,
                provider_username@,
            ) && r->Ok_0 == old(self)@.next_user_id,
            r is Err ==> final(self)@ == old(self)@,
    {
        if self.next_user_id == i32::MAX || self.next_profile_id == i32::MAX {
            return Err(StorageFailure);
        }
        let user_id = self.next_user_id;
        let profile_id = self.next_profile_id;
        self.users.push(UserRecord { id: user_id, default_social_profile: provider_type });
        self.profiles.push(
            SocialProfileRecord {
                id: profile_id,
                user_id,
                provider_type,
                provider_id,
                provider_username,
                provider_avatar: None,
            },
        );
        self.next_user_id = user_id + 1;
        self.next_profile_id = profile_id + 1;
        proof {
            let ghost target = spec_create(
                old(self)@,
                provider_type,
                self.profiles@.last().provider_id@,
                self.profiles@.last().provider_username@,
            );
            assert(self@.users =~= target.users);
            assert(self@.profiles =~= target.profiles);
            lemma_create_preserves_wf(
                old(self)@,
                provider_type,
                self.profiles@.last().provider_id@,
                self.profiles@.last().provider_username@,
            );
        }
        Ok(user_id)
    }

    /// Find-or-create: resolves a canonical profile to the id of its linked
    /// user, creating the user and the linkage together when the identity
    /// is unseen.  A hit whose owner row is missing would be a broken
    /// consistency expectation and is reported as a failure, never papered
    /// over by creating a user — the store's well-formedness rules it out.
    pub fn resolve(
        &mut self,
        profile_data: &UserSocialProfileData,
        provider_type: SocialProviderType,
    ) -> (r: Result<i32, StorageFailure>)
        requires
            old(self)@.wf(),
        ensures
            final(self)@.wf(),
            final(self)@ == spec_resolve(
                old(self)@,
                provider_type,
                profile_data.provider_id@,
                profile_data.provider_username@,
            ).0,
            r is Ok <==> spec_resolve(
                old(self)@,
                provider_type,
                profile_data.provider_id@,
                profile_data.provider_username@,
            ).1 is Some,
            r is Ok ==> Some(r->Ok_0 as int) == spec_resolve(
                old(self)@,
                provider_type,
                profile_data.provider_id@,
                profile_data.provider_username@,
            ).1,
            r is Ok ==> r->Ok_0 > 0,
    {
        let found = match self.find_by_provider_identity(provider_type, &profile_data.provider_id) {
            Some(sp) => Some(sp.user_id),
            None => None,
        };
        match found {
            Some(owner_id) => {
                proof {
                    lemma_find_some_is_match(
                        self@.profiles,
                        provider_type,
                        profile_data.provider_id@,
                    );
                }
                match self.find_user_index(owner_id) {
                    Some(w) => {
                        proof {
                            let ghost uw = choose|k: int|
                                0 <= k < self@.users.len() && self@.users[k].id == owner_id as int;
                        }
                        Ok(owner_id)
                    }
                    None => Err(StorageFailure),
                }
            }
            None => self.create_user_with_profile(
                provider_type,
                profile_data.provider_id.clone(),
                profile_data.provider_username.clone(),
            ),
        }
    }
}

/// In a well-formed store a provider identity belongs to at most one
/// profile row: two rows carrying the same `(provider_type, provider_id)`
/// are the same row.
pub proof fn lemma_identity_unique(s: StoreView, pt: SocialProviderType, pid: Seq<char>, i: int, j: int)
    requires
        s.wf(),
        0 <= i < s.profiles.len(),
        0 <= j < s.profiles.len(),
        profile_matches(s.profiles[i], pt, pid),
        profile_matches(s.profiles[j], pt, pid),
    ensures
        i == j,
{
}

/// Resolving an identity the store already links answers the existing
/// owner and changes nothing at all.
pub proof fn lemma_resolve_finds_existing(
    s: StoreView,
    pt: SocialProviderType,
    pid: Seq<char>,
    uname: Seq<char>,
)
    requires
        s.wf(),
        spec_find_profile(s.profiles, pt, pid) is Some,
    ensures
        spec_resolve(s, pt, pid, uname) == (
            s,
            Some(spec_find_profile(s.profiles, pt, pid)->Some_0.user_id),
        ),
{
}

/// Resolution is idempotent: once a resolve of an identity has succeeded,
/// resolving the same `(provider_type, provider_id)` again answers the same
/// user id and changes nothing, and the two calls together added at most
/// one user row.
pub proof fn lemma_resolve_idempotent(
    s: StoreView,
    pt: SocialProviderType,
    pid: Seq<char>,
    uname1: Seq<char>,
    uname2: Seq<char>,
)
    requires
        s.wf(),
        spec_resolve(s, pt, pid, uname1).1 is Some,
    ensures
        ({
            let (s1, r1) = spec_resolve(s, pt, pid, uname1);
            let (s2, r2) = spec_resolve(s1, pt, pid, uname2);
            &&& s2 == s1
            &&& r2 == r1
            &&& s1.users.len() <= s.users.len() + 1
        }),
{
    let (s1, r1) = spec_resolve(s, pt, pid, uname1);
    match spec_find_profile(s.profiles, pt, pid) {
        Some(p) => {
            assert(s1 == s);
        }
        None => {
            let p = ProfileView {
                id: s.next_profile_id,
                user_id: s.next_user_id,
                provider_type: pt,
                provider_id: pid,
                provider_username: uname1,
                provider_avatar: None,
            };
            lemma_find_after_push(s.profiles, pt, pid, p);
            assert(s1.profiles == s.profiles.push(p));
            assert(spec_find_profile(s1.profiles, pt, pid) == Some(p));
        }
    }
}

} // verus!
