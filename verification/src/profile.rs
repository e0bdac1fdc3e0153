//! The profile normalizer: maps each provider's raw profile shape to the
//! canonical `(provider_id, provider_username)` pair.

use vstd::prelude::*;

verus! {

/// The canonical profile: the provider-issued subject identifier and a
/// display name (empty when the provider does not expose one).
pub struct UserSocialProfileData {
    pub provider_id: String,
    pub provider_username: String,
}

/// A provider's raw profile answer, reduced to the fields this core reads.
/// A `None` field was missing or mistyped in the decoded answer.
pub enum RawProfile {
    Discord { id: Option<String>, username: Option<String> },
    Google { sub: Option<String> },
}

/// What normalization yields: Discord's `id`/`username` pair, Google's
/// `sub` with an empty username, and nothing when a required field is
/// missing.
pub open spec fn spec_normalize(raw: RawProfile) -> Option<(Seq<char>, Seq<char>)> {
    match raw {
        RawProfile::Discord { id: Some(id), username: Some(username) } => Some((id@, username@)),
        RawProfile::Discord { .. } => None,
        RawProfile::Google { sub: Some(sub) } => Some((sub@, Seq::<char>::empty())),
        RawProfile::Google { .. } => None,
    }
}

/// Canonicalizes a raw profile.  Fails exactly when a required field is
/// missing, which the caller reports like any other profile-fetch failure.
pub fn normalize_profile(raw: RawProfile) -> (r: Option<UserSocialProfileData>)
    ensures
        r is Some <==> spec_normalize(raw) is Some,
        r is Some ==> (r->Some_0.provider_id@, r->Some_0.provider_username@)
            == spec_normalize(raw)->Some_0,
{
    match raw {
        RawProfile::Discord { id: Some(id), username: Some(username) } => Some(
            UserSocialProfileData { provider_id: id, provider_username: username },
        ),
        RawProfile::Discord { .. } => None,
        RawProfile::Google { sub: Some(sub) } => Some(
            UserSocialProfileData { provider_id: sub, provider_username: String::new() },
        ),
        RawProfile::Google { .. } => None,
    }
}

/// Normalization keeps the provider's subject identifier whole: whenever
/// the required fields are present, it succeeds and the canonical
/// `provider_id` is exactly the provider's `id` (Discord) or `sub`
/// (Google); in particular a non-empty subject yields a non-empty
/// `provider_id`.
pub proof fn lemma_normalize_keeps_subject(raw: RawProfile, subject: Seq<char>)
    requires
        match raw {
            RawProfile::Discord { id, username } => id is Some && username is Some
                && id->Some_0@ == subject,
            RawProfile::Google { sub } => sub is Some && sub->Some_0@ == subject,
        },
    ensures
        spec_normalize(raw) is Some,
        spec_normalize(raw)->Some_0.0 == subject,
        subject.len() > 0 ==> spec_normalize(raw)->Some_0.0.len() > 0,
{
}

} // verus!
