//! The user route's answer: the signed-in user's default provider identity.

use vstd::prelude::*;
use vstd::string::StringExecFns;

use crate::provider::provider_key;
use crate::provider::spec_provider_key;
use crate::provider::SocialProviderType;
use crate::responses::ErrorResponse;
use crate::status::spec_reason;
use crate::status::Status;
use crate::store::ProfileView;
use crate::store::SocialProfileRecord;
use crate::store::UserRecord;

verus! {

/// The answer of the user route: the default provider's tag, and that
/// profile's display name and avatar.
#[derive(Debug)]
pub struct FoundUserData {
    pub provider_type: String,
    pub username: String,
    pub avatar: Option<String>,
}

/// The first profile of a list whose provider tag is the given one.
pub open spec fn spec_find_default(profiles: Seq<ProfileView>, d: SocialProviderType) -> Option<
    ProfileView,
>
    decreases profiles.len(),
{
    if profiles.len() == 0 {
        None
    } else if profiles[0].provider_type == d {
        Some(profiles[0])
    } else {
        spec_find_default(profiles.drop_first(), d)
    }
}

/// The first of a user's profiles carrying the provider tag.
pub fn find_default_profile(
    profiles: &Vec<SocialProfileRecord>,
    default_provider: SocialProviderType,
) -> (r: Option<&SocialProfileRecord>)
    ensures
        match r {
            Some(p) => spec_find_default(
                profiles@.map_values(|q: SocialProfileRecord| q@),
                default_provider,
            ) == Some(p@),
            None => spec_find_default(
                profiles@.map_values(|q: SocialProfileRecord| q@),
                default_provider,
            ) is None,
        },
{
    let ghost views = profiles@.map_values(|q: SocialProfileRecord| q@);
    let n = profiles.len();
    let mut i: usize = 0;
    proof {
        assert(views.skip(0) =~= views);
    }
    while i < n
        invariant
            0 <= i <= n == profiles@.len(),
            views == profiles@.map_values(|q: SocialProfileRecord| q@),
            spec_find_default(views.skip(i as int), default_provider) == spec_find_default(
                views,
                default_provider,
            ),
        decreases n - i,
    {
        proof {
            assert(views.skip(i as int)[0] == views[i as int]);
        }
        if profiles[i].provider_type == default_provider {
            return Some(&profiles[i]);
        }
        proof {
            assert(views.skip(i as int).drop_first() =~= views.skip(i as int + 1));
        }
        i += 1;
    }
    proof {
        assert(views.skip(n as int) =~= Seq::<ProfileView>::empty());
    }
    None
}

/// Builds the user route's answer from the user row and its profiles: the
/// default provider's tag with that profile's name and avatar.  A user
/// without a profile of its default provider would break the store's
/// invariant; it is answered as an internal error, exactly like a storage
/// fault.
pub fn user_get_response(user: &UserRecord, profiles: &Vec<SocialProfileRecord>) -> (r: Result<
    FoundUserData,
    ErrorResponse,
>)
    ensures
        ({
            let found = spec_find_default(
                profiles@.map_values(|q: SocialProfileRecord| q@),
                user.default_social_profile,
            );
            &&& (r is Ok <==> found is Some)
            &&& (r is Ok ==> ({
                let data = r->Ok_0;
                &&& data.provider_type@ == spec_provider_key(user.default_social_profile)
                &&& data.username@ == found->Some_0.provider_username
                &&& (match (data.avatar, found->Some_0.provider_avatar) {
                    (None, None) => true,
                    (Some(a), Some(b)) => a@ == b,
                    _ => false,
                })
            }))
            &&& (r is Err ==> r->Err_0.status == Status::InternalServerError
                && r->Err_0.body.error@ == spec_reason(Status::InternalServerError))
        }),
{
    match find_default_profile(profiles, user.default_social_profile) {
        None => Err(ErrorResponse::new(None, Status::InternalServerError)),
        Some(default_social_profile) => Ok(
            FoundUserData {
                provider_type: provider_key(user.default_social_profile).to_owned(),
                username: default_social_profile.provider_username.clone(),
                avatar: match &default_social_profile.provider_avatar {
                    Some(a) => Some(a.clone()),
                    None => None,
                },
            },
        ),
    }
}

} // verus!
