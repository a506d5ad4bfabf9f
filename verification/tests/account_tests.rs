use pixivarchive::cookie::normalize_cookie;
use pixivarchive::domain::{DbError, PixivAccountState, PixivErrorClass};
use pixivarchive::pixiv_accounts::{
    AccountAction, AccountActivation, AccountEvent, AccountPhase, AccountServiceError,
    DisabledPixivAccountCommandPort, PixivAccountAdminError, PixivAccountRecord, PixivCookieCipher,
    PixivCookieCipherError, PixivCookieKeyConfig, PixivCookieKeyringConfig, PixivCredentialEnvelope,
    PixivEndpoint, UpdatePixivAccountRequest, cookie_aad, cookie_update_step, probe_state,
    revalidate_step, validate_request_check,
};

#[test]
fn pixiv_cookie_cipher_binds_ciphertext_to_the_account() {
    let cipher = PixivCookieCipher::new(PixivCookieKeyringConfig::new(PixivCookieKeyConfig::new(
        "primary", [7; 32],
    )))
    .unwrap();
    let encrypted = cipher.encrypt(10_001, "PHPSESSID=secret").unwrap();
    let mut record = PixivAccountRecord {
        id: uuid::Uuid::now_v7().as_u128(),
        pixiv_user_id: 10_001,
        display_name: "test".to_owned(),
        avatar_url: None,
        state: PixivAccountState::Normal,
        credential: Some(PixivCredentialEnvelope {
            key_id: encrypted.key_id,
            nonce: encrypted.nonce.to_vec(),
            ciphertext: encrypted.ciphertext,
        }),
        user_agent: "test-agent".to_owned(),
        bookmark_writeback_enabled: false,
        last_validated_at: None,
        revision: 1,
    };

    assert_eq!(cipher.decrypt(&record).unwrap(), "PHPSESSID=secret");
    record.pixiv_user_id += 1;
    assert_eq!(cipher.decrypt(&record).unwrap_err(), PixivCookieCipherError::InvalidCredential);
}

#[test]
fn pixiv_cookie_accepts_a_value_or_cookie_header_and_extracts_the_user_id() {
    for input in [
        "10001_session-value",
        "PHPSESSID=10001_session-value",
        "other=ignored; PHPSESSID=10001_session-value; locale=zh",
    ] {
        let (user_id, cookie) = normalize_cookie(input).unwrap();
        assert_eq!(user_id, 10_001);
        assert_eq!(cookie, "PHPSESSID=10001_session-value");
    }
    for input in ["", "PHPSESSID=", "PHPSESSID=no-id", "PHPSESSID=0_value"] {
        assert!(normalize_cookie(input).is_err());
    }
}

#[test]
fn cookie_aad_is_the_prefix_and_the_big_endian_user_id() {
    let aad = cookie_aad(0x0102_0304_0506_0708);
    let mut expected = b"PixivArchive:pixiv-cookie:v1:".to_vec();
    expected.extend_from_slice(&[1, 2, 3, 4, 5, 6, 7, 8]);
    assert_eq!(aad, expected);
}

#[test]
fn keyring_with_duplicate_or_blank_ids_is_refused() {
    let blank = PixivCookieCipher::new(PixivCookieKeyringConfig::new(PixivCookieKeyConfig::new("  ", [1; 32])));
    assert!(matches!(blank, Err(PixivCookieCipherError::InvalidKeyring)));
    let duplicate = PixivCookieCipher::new(
        PixivCookieKeyringConfig::new(PixivCookieKeyConfig::new("a", [1; 32]))
            .with_previous(vec![PixivCookieKeyConfig::new("a", [2; 32])]),
    );
    assert!(matches!(duplicate, Err(PixivCookieCipherError::InvalidKeyring)));
}

#[test]
fn a_previous_key_still_decrypts_after_rotation() {
    let old = PixivCookieCipher::new(PixivCookieKeyringConfig::new(PixivCookieKeyConfig::new("old", [3; 32]))).unwrap();
    let sealed = old.encrypt(42, "PHPSESSID=42_x").unwrap();
    let rotated = PixivCookieCipher::new(
        PixivCookieKeyringConfig::new(PixivCookieKeyConfig::new("new", [4; 32]))
            .with_previous(vec![PixivCookieKeyConfig::new("old", [3; 32])]),
    )
    .unwrap();
    let record = PixivAccountRecord {
        id: 1,
        pixiv_user_id: 42,
        display_name: String::new(),
        avatar_url: None,
        state: PixivAccountState::Normal,
        credential: Some(PixivCredentialEnvelope { key_id: sealed.key_id, nonce: sealed.nonce, ciphertext: sealed.ciphertext }),
        user_agent: String::new(),
        bookmark_writeback_enabled: false,
        last_validated_at: None,
        revision: 1,
    };
    assert_eq!(rotated.decrypt(&record).unwrap(), "PHPSESSID=42_x");
}

#[test]
fn probe_failures_map_to_account_states() {
    assert_eq!(probe_state(None), Ok(PixivAccountState::Normal));
    assert_eq!(probe_state(Some((PixivErrorClass::AgeRestrictedDisabled, None))), Ok(PixivAccountState::Restricted));
    assert_eq!(probe_state(Some((PixivErrorClass::Network, None))), Ok(PixivAccountState::Validating));
    assert_eq!(
        probe_state(Some((PixivErrorClass::CredentialInvalid, Some(PixivEndpoint::Other)))),
        Err(AccountServiceError::Validation { class: PixivErrorClass::CredentialInvalid, endpoint: Some(PixivEndpoint::Other) })
    );
}

#[test]
fn revalidation_blocks_a_foreign_or_refused_credential() {
    let (phase, action) = revalidate_step(7, PixivAccountState::Normal, true, AccountPhase::Validating { existing: None }, AccountEvent::Validated { pixiv_user_id: 8 });
    assert_eq!(phase, AccountPhase::Blocking);
    assert_eq!(action, AccountAction::BlockAccount);
    let (_, action) = revalidate_step(7, PixivAccountState::Normal, true, AccountPhase::Validating { existing: None },
        AccountEvent::ValidationFailed { class: PixivErrorClass::CredentialInvalid, endpoint: None });
    assert_eq!(action, AccountAction::BlockAccount);
    let (_, action) = revalidate_step(7, PixivAccountState::Normal, true, AccountPhase::Validating { existing: None },
        AccountEvent::ValidationFailed { class: PixivErrorClass::AgeRestrictedDisabled, endpoint: None });
    assert_eq!(action, AccountAction::SetState(PixivAccountState::Restricted));
}

#[test]
fn revalidation_recovers_jobs_of_an_account_that_was_not_normal() {
    let (phase, action) = revalidate_step(7, PixivAccountState::Validating, true,
        AccountPhase::CheckingSubscriptions { existing: None }, AccountEvent::R18Subscriptions { enabled: false });
    assert_eq!(phase, AccountPhase::Persisting);
    assert_eq!(action, AccountAction::Persist(AccountActivation {
        state: PixivAccountState::Normal,
        recover_waiting_jobs: true,
        validated_now: true,
    }));
    let (_, action) = revalidate_step(7, PixivAccountState::Validating, false,
        AccountPhase::CheckingSubscriptions { existing: None }, AccountEvent::R18Subscriptions { enabled: false });
    assert_eq!(action, AccountAction::RejectMissingCredential);
}

#[test]
fn cookie_of_another_user_is_refused_on_the_profile_request() {
    let (_, action) = cookie_update_step(5, AccountPhase::Validating { existing: None }, AccountEvent::Validated { pixiv_user_id: 6 });
    assert_eq!(action, AccountAction::Complete(Err(AccountServiceError::Validation {
        class: PixivErrorClass::CredentialInvalid,
        endpoint: Some(PixivEndpoint::Profile),
    })));
    let (_, action) = cookie_update_step(5, AccountPhase::Validating { existing: None }, AccountEvent::Validated { pixiv_user_id: 5 });
    assert_eq!(action, AccountAction::Persist(AccountActivation {
        state: PixivAccountState::Normal,
        recover_waiting_jobs: false,
        validated_now: true,
    }));
}

#[test]
fn validate_request_requires_the_seen_configured_account() {
    assert_eq!(validate_request_check(None, None), Err(PixivAccountAdminError::NotConfigured));
    assert_eq!(
        validate_request_check(Some((1, PixivAccountState::Normal)), Some(2)),
        Err(PixivAccountAdminError::Storage(DbError::RevisionConflict))
    );
    assert_eq!(validate_request_check(Some((1, PixivAccountState::Unconfigured)), Some(1)), Err(PixivAccountAdminError::NotConfigured));
    assert_eq!(validate_request_check(Some((1, PixivAccountState::Normal)), None), Ok(()));
}

#[test]
fn service_errors_convert_to_admin_errors() {
    let e: PixivAccountAdminError = AccountServiceError::Storage(DbError::NotFound).into();
    assert_eq!(e, PixivAccountAdminError::Storage(DbError::NotFound));
}

#[test]
fn disabled_account_port_is_unavailable() {
    let port = DisabledPixivAccountCommandPort;
    assert_eq!(port.update(UpdatePixivAccountRequest { cookie: "x".to_owned() }), Err(PixivAccountAdminError::Unavailable));
    assert_eq!(port.validate(None), Err(PixivAccountAdminError::Unavailable));
}

#[test]
fn a_cookie_sealed_with_a_given_nonce_keeps_it_and_opens_again() {
    let cipher = PixivCookieCipher::new(PixivCookieKeyringConfig::new(PixivCookieKeyConfig::new(
        "primary", [7; 32],
    )))
    .unwrap();
    let sealed = cipher.seal_cookie(10_001, "PHPSESSID=secret", vec![9u8; 24]).unwrap();
    assert_eq!(sealed.key_id, "primary");
    assert_eq!(sealed.nonce.to_vec(), vec![9u8; 24]);
    assert_ne!(sealed.ciphertext, b"PHPSESSID=secret".to_vec());
    assert_eq!(sealed.ciphertext.len(), "PHPSESSID=secret".len() + 16);
    let again = cipher.seal_cookie(10_001, "PHPSESSID=secret", vec![9u8; 24]).unwrap();
    assert_eq!(again.ciphertext, sealed.ciphertext);
    let other_nonce = cipher.seal_cookie(10_001, "PHPSESSID=secret", vec![8u8; 24]).unwrap();
    assert_ne!(other_nonce.ciphertext, sealed.ciphertext);
    let record = PixivAccountRecord {
        id: 1,
        pixiv_user_id: 10_001,
        display_name: "test".to_owned(),
        avatar_url: None,
        state: PixivAccountState::Normal,
        credential: Some(PixivCredentialEnvelope {
            key_id: sealed.key_id,
            nonce: sealed.nonce.to_vec(),
            ciphertext: sealed.ciphertext,
        }),
        user_agent: "test-agent".to_owned(),
        bookmark_writeback_enabled: false,
        last_validated_at: None,
        revision: 1,
    };
    assert_eq!(cipher.decrypt(&record).unwrap(), "PHPSESSID=secret");
}
