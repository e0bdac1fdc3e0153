use backend::profile::UserSocialProfileData;
use backend::provider::SocialProviderType;
use backend::store::IdentityStore;

fn profile(id: &str, name: &str) -> UserSocialProfileData {
    UserSocialProfileData {
        provider_id: id.to_string(),
        provider_username: name.to_string(),
    }
}

#[test]
fn resolve_creates_then_finds() {
    let mut store = IdentityStore::new();
    let first = store.resolve(&profile("d-1", "alex"), SocialProviderType::Discord).unwrap();
    assert_eq!(first, 1);
    assert_eq!(store.user_count(), 1);
    assert_eq!(store.profile_count(), 1);

    let second = store.resolve(&profile("d-1", "alex"), SocialProviderType::Discord).unwrap();
    assert_eq!(second, first);
    assert_eq!(store.user_count(), 1);
    assert_eq!(store.profile_count(), 1);
}

#[test]
fn resolve_is_idempotent_over_many_calls() {
    let mut store = IdentityStore::new();
    let mut seen = Vec::new();
    for _ in 0..5 {
        seen.push(store.resolve(&profile("g-9", ""), SocialProviderType::Google).unwrap());
    }
    assert!(seen.iter().all(|&id| id == seen[0]));
    assert_eq!(store.user_count(), 1);
}

#[test]
fn second_sign_in_of_same_account_reuses_user() {
    let mut store = IdentityStore::new();
    let first = store.resolve(&profile("discord-314", "pat"), SocialProviderType::Discord).unwrap();
    let users_after_first = store.user_count();
    let second =
        store.resolve(&profile("discord-314", "pat"), SocialProviderType::Discord).unwrap();
    assert_eq!(second, first);
    assert_eq!(store.user_count(), users_after_first);
}

#[test]
fn same_provider_id_under_different_providers_stays_distinct() {
    let mut store = IdentityStore::new();
    let discord = store.resolve(&profile("314", "pat"), SocialProviderType::Discord).unwrap();
    let google = store.resolve(&profile("314", ""), SocialProviderType::Google).unwrap();
    assert_ne!(discord, google);
    assert_eq!(store.user_count(), 2);
    assert_eq!(store.profile_count(), 2);
}

#[test]
fn distinct_identities_get_distinct_users() {
    let mut store = IdentityStore::new();
    let a = store.resolve(&profile("a", "a"), SocialProviderType::Discord).unwrap();
    let b = store.resolve(&profile("b", "b"), SocialProviderType::Discord).unwrap();
    let c = store.resolve(&profile("c", ""), SocialProviderType::Google).unwrap();
    assert_eq!((a, b, c), (1, 2, 3));
    assert_eq!(store.user_count(), 3);
}

#[test]
fn exhausted_id_sequence_fails_and_changes_nothing() {
    let mut store = IdentityStore::with_start_ids(i32::MAX, i32::MAX);
    assert!(store.resolve(&profile("d-1", "alex"), SocialProviderType::Discord).is_err());
    assert_eq!(store.user_count(), 0);
    assert_eq!(store.profile_count(), 0);
}

#[test]
fn start_ids_carry_into_created_users() {
    let mut store = IdentityStore::with_start_ids(42, 17);
    let id = store.resolve(&profile("d-42", "alex"), SocialProviderType::Discord).unwrap();
    assert_eq!(id, 42);
}

#[test]
fn find_by_provider_identity_is_provider_scoped() {
    let mut store = IdentityStore::new();
    store.resolve(&profile("x-1", "xan"), SocialProviderType::Discord).unwrap();

    let hit = store
        .find_by_provider_identity(SocialProviderType::Discord, &"x-1".to_string())
        .unwrap();
    assert_eq!(hit.provider_id, "x-1");
    assert_eq!(hit.provider_username, "xan");
    assert_eq!(hit.user_id, 1);
    assert!(matches!(hit.provider_type, SocialProviderType::Discord));
    assert_eq!(hit.provider_avatar, None);

    assert!(store
        .find_by_provider_identity(SocialProviderType::Google, &"x-1".to_string())
        .is_none());
    assert!(store
        .find_by_provider_identity(SocialProviderType::Discord, &"x-2".to_string())
        .is_none());
}

#[test]
fn created_user_keeps_default_provider_profile() {
    let mut store = IdentityStore::new();
    let id = store.resolve(&profile("g-1", ""), SocialProviderType::Google).unwrap();
    let linked = store
        .find_by_provider_identity(SocialProviderType::Google, &"g-1".to_string())
        .unwrap();
    assert_eq!(linked.user_id, id);
    assert_eq!(linked.provider_username, "");
}
