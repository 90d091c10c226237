use rustls_cng::ids;
use rustls_cng::{
    check_key_algorithm, hash_algorithm, is_rsa_algorithm, pin_bytes, pin_parameter,
    signature_from_provider, wipe, CngError, LegacyCspKey, SignCall, SignReply, SignSession,
    SignStep,
};
use windows_sys::Win32::Security::Cryptography::{
    AT_KEYEXCHANGE, AT_SIGNATURE, CALG_DSS_SIGN, CALG_RSA_KEYX, CALG_RSA_SIGN, CALG_SHA_256,
    CALG_SHA_384, CALG_SHA_512, HP_HASHVAL, KP_ALGID, PP_KEYEXCHANGE_PIN, PP_SIGNATURE_PIN,
};

#[test]
fn pin_bytes_are_ascii_and_nul_terminated() {
    assert_eq!(pin_bytes("1234"), Some(b"1234\0".to_vec()));
    assert_eq!(pin_bytes(""), Some(b"\0".to_vec()));
}

#[test]
fn pin_bytes_reject_non_ascii_and_embedded_nul() {
    assert_eq!(pin_bytes("pīn"), None);
    assert_eq!(pin_bytes("one\0two"), None);
}

#[test]
fn hash_algorithm_support_is_limited_to_sha2_digest_sizes() {
    assert_eq!(hash_algorithm(32), Some(CALG_SHA_256));
    assert_eq!(hash_algorithm(48), Some(CALG_SHA_384));
    assert_eq!(hash_algorithm(64), Some(CALG_SHA_512));
    assert_eq!(hash_algorithm(20), None);
}

#[test]
fn only_rsa_key_algorithms_are_accepted_for_their_key_specs() {
    assert!(is_rsa_algorithm(AT_SIGNATURE, CALG_RSA_SIGN));
    assert!(is_rsa_algorithm(AT_KEYEXCHANGE, CALG_RSA_KEYX));
    assert!(!is_rsa_algorithm(AT_SIGNATURE, CALG_DSS_SIGN));
    assert!(!is_rsa_algorithm(AT_KEYEXCHANGE, CALG_RSA_SIGN));
}

#[test]
fn identifiers_match_the_windows_bindings() {
    assert_eq!(ids::AT_SIGNATURE, AT_SIGNATURE);
    assert_eq!(ids::AT_KEYEXCHANGE, AT_KEYEXCHANGE);
    assert_eq!(ids::CALG_SHA_256, CALG_SHA_256);
    assert_eq!(ids::CALG_SHA_384, CALG_SHA_384);
    assert_eq!(ids::CALG_SHA_512, CALG_SHA_512);
    assert_eq!(ids::CALG_RSA_SIGN, CALG_RSA_SIGN);
    assert_eq!(ids::CALG_RSA_KEYX, CALG_RSA_KEYX);
    assert_eq!(ids::CALG_DSS_SIGN, CALG_DSS_SIGN);
    assert_eq!(ids::PP_SIGNATURE_PIN, PP_SIGNATURE_PIN);
    assert_eq!(ids::PP_KEYEXCHANGE_PIN, PP_KEYEXCHANGE_PIN);
    assert_eq!(ids::HP_HASHVAL, HP_HASHVAL);
    assert_eq!(ids::KP_ALGID, KP_ALGID);
}

#[test]
fn hash_algorithm_refuses_neighbouring_lengths() {
    for len in [0usize, 1, 20, 28, 31, 33, 47, 49, 63, 65, 128, usize::MAX] {
        assert_eq!(hash_algorithm(len), None, "length {len}");
    }
}

#[test]
fn unknown_key_specs_accept_no_algorithm() {
    for spec in [0u32, 3, u32::MAX] {
        assert!(!is_rsa_algorithm(spec, CALG_RSA_SIGN));
        assert!(!is_rsa_algorithm(spec, CALG_RSA_KEYX));
        assert_eq!(pin_parameter(spec), None);
    }
    assert!(!is_rsa_algorithm(AT_SIGNATURE, CALG_RSA_KEYX));
}

#[test]
fn pin_parameters_follow_key_specs() {
    assert_eq!(pin_parameter(AT_SIGNATURE), Some(PP_SIGNATURE_PIN));
    assert_eq!(pin_parameter(AT_KEYEXCHANGE), Some(PP_KEYEXCHANGE_PIN));
}

#[test]
fn pin_bytes_reject_nul_at_either_end_and_high_characters() {
    assert_eq!(pin_bytes("\0"), None);
    assert_eq!(pin_bytes("\01"), None);
    assert_eq!(pin_bytes("1\0"), None);
    assert_eq!(pin_bytes("caf\u{e9}"), None);
    assert_eq!(pin_bytes("\u{7f}"), Some(vec![0x7f, 0]));
    assert_eq!(pin_bytes(" ~!"), Some(b" ~!\0".to_vec()));
}

#[test]
fn wipe_zeroes_every_byte() {
    let mut bytes = b"secret\0".to_vec();
    wipe(&mut bytes);
    assert_eq!(bytes, vec![0u8; 7]);
    let mut empty: Vec<u8> = Vec::new();
    wipe(&mut empty);
    assert!(empty.is_empty());
}

#[test]
fn key_reports_what_it_was_built_with() {
    let key = LegacyCspKey::new(0x1234, AT_SIGNATURE, true);
    assert_eq!(key.key_spec(), AT_SIGNATURE);
    assert_eq!(key.handle(), 0x1234);
    assert!(key.caller_free());
    assert!(!LegacyCspKey::new(1, AT_KEYEXCHANGE, false).caller_free());
}

#[test]
fn prepare_pin_chooses_the_parameter_of_the_key_spec() {
    let key = LegacyCspKey::new(1, AT_SIGNATURE, false);
    let request = key.prepare_pin("0000").unwrap();
    assert_eq!(request.parameter(), PP_SIGNATURE_PIN);
    assert_eq!(request.pin_bytes(), b"0000\0");

    let key = LegacyCspKey::new(1, AT_KEYEXCHANGE, false);
    let request = key.prepare_pin("9").unwrap();
    assert_eq!(request.parameter(), PP_KEYEXCHANGE_PIN);
    assert_eq!(request.pin_bytes(), b"9\0");
}

#[test]
fn prepare_pin_refuses_bad_pins_before_bad_key_specs() {
    let key = LegacyCspKey::new(1, AT_SIGNATURE, false);
    assert_eq!(key.prepare_pin("bad\0pin").err(), Some(CngError::InvalidPinEncoding));
    let unsupported = LegacyCspKey::new(1, 0, false);
    assert_eq!(unsupported.prepare_pin("pīn").err(), Some(CngError::InvalidPinEncoding));
    assert_eq!(unsupported.prepare_pin("1234").err(), Some(CngError::UnsupportedKeyProvider));
}

#[test]
fn finishing_a_pin_request_wipes_it_whatever_the_outcome() {
    let key = LegacyCspKey::new(1, AT_SIGNATURE, false);
    let mut request = key.prepare_pin("1234").unwrap();
    assert_eq!(request.finish(Ok(())), Ok(()));
    assert_eq!(request.pin_bytes(), &[0u8; 5]);
    assert_eq!(request.parameter(), PP_SIGNATURE_PIN);

    let mut request = key.prepare_pin("42").unwrap();
    assert_eq!(request.finish(Err(0x8009_0016)), Err(CngError::WindowsError(0x8009_0016)));
    assert_eq!(request.pin_bytes(), &[0u8; 3]);
}

#[test]
fn validate_rsa_key_checks_the_algorithm_read() {
    let key = LegacyCspKey::new(1, AT_SIGNATURE, false);
    assert_eq!(key.validate_rsa_key(Ok(CALG_RSA_SIGN)), Ok(()));
    assert_eq!(key.validate_rsa_key(Ok(CALG_DSS_SIGN)), Err(CngError::UnsupportedKeyProvider));
    assert_eq!(key.validate_rsa_key(Err(5)), Err(CngError::WindowsError(5)));
    assert_eq!(check_key_algorithm(AT_KEYEXCHANGE, Ok(CALG_RSA_KEYX)), Ok(()));
    assert_eq!(
        check_key_algorithm(AT_KEYEXCHANGE, Ok(CALG_RSA_SIGN)),
        Err(CngError::UnsupportedKeyProvider)
    );
}

#[test]
fn provider_signature_is_cut_and_reversed() {
    assert_eq!(signature_from_provider(vec![1, 2, 3, 4, 0, 0], 4), vec![4, 3, 2, 1]);
    assert_eq!(signature_from_provider(vec![1, 2, 3], 3), vec![3, 2, 1]);
    assert_eq!(signature_from_provider(vec![1, 2, 3], 9), vec![3, 2, 1]);
    assert_eq!(signature_from_provider(vec![7, 8, 9], 0), Vec::<u8>::new());
    assert_eq!(signature_from_provider(Vec::new(), 0), Vec::<u8>::new());
}

#[test]
fn reversing_a_signature_gives_back_the_provider_order() {
    let provider: Vec<u8> = (1..=9).collect();
    let mut signature = signature_from_provider(provider.clone(), 9);
    assert_ne!(signature, provider);
    signature.reverse();
    assert_eq!(signature, provider);
}

fn expect_call(step: SignStep) -> (SignSession, SignCall) {
    match step {
        SignStep::Call(session, call) => (session, call),
        SignStep::Done(result) => panic!("session ended early: {result:?}"),
    }
}

fn expect_done(step: SignStep) -> Result<Vec<u8>, CngError> {
    match step {
        SignStep::Call(_, call) => panic!("session still waits for {call:?}"),
        SignStep::Done(result) => result,
    }
}

#[test]
fn signing_asks_for_the_calls_in_order_and_reverses_the_signature() {
    let key = LegacyCspKey::new(1, AT_SIGNATURE, false);
    let digest = [0xabu8; 48];
    let (session, call) = expect_call(key.begin_sign(&digest));
    assert_eq!(call, SignCall::OpenUserKey { key_spec: AT_SIGNATURE });
    let (session, call) = expect_call(session.step(SignReply::Completed));
    assert_eq!(call, SignCall::ReadKeyAlgorithm);
    let (session, call) = expect_call(session.step(SignReply::Value(CALG_RSA_SIGN)));
    assert_eq!(call, SignCall::CreateHash { algorithm: CALG_SHA_384 });
    let (session, call) = expect_call(session.step(SignReply::Completed));
    assert_eq!(call, SignCall::SetHashValue);
    assert_eq!(session.digest(), &digest[..]);
    let (session, call) = expect_call(session.step(SignReply::Completed));
    assert_eq!(call, SignCall::QuerySignatureLength { key_spec: AT_SIGNATURE });
    let (session, call) = expect_call(session.step(SignReply::Value(6)));
    assert_eq!(call, SignCall::Sign { key_spec: AT_SIGNATURE, capacity: 6 });
    let result = expect_done(session.step(SignReply::Signature {
        buffer: vec![0x10, 0x20, 0x30, 0x40, 0, 0],
        length: 4,
    }));
    assert_eq!(result, Ok(vec![0x40, 0x30, 0x20, 0x10]));
}

#[test]
fn signing_with_a_key_exchange_key_uses_its_key_spec() {
    let key = LegacyCspKey::new(1, AT_KEYEXCHANGE, false);
    let (session, call) = expect_call(key.begin_sign(&[0u8; 64]));
    assert_eq!(call, SignCall::OpenUserKey { key_spec: AT_KEYEXCHANGE });
    let (session, _) = expect_call(session.step(SignReply::Completed));
    let (session, call) = expect_call(session.step(SignReply::Value(CALG_RSA_KEYX)));
    assert_eq!(call, SignCall::CreateHash { algorithm: CALG_SHA_512 });
    let (session, _) = expect_call(session.step(SignReply::Completed));
    let (_, call) = expect_call(session.step(SignReply::Completed));
    assert_eq!(call, SignCall::QuerySignatureLength { key_spec: AT_KEYEXCHANGE });
}

#[test]
fn signing_refuses_other_digest_lengths_before_any_call() {
    let key = LegacyCspKey::new(1, AT_SIGNATURE, false);
    for len in [0usize, 20, 31, 33, 65] {
        let digest = vec![0u8; len];
        assert_eq!(expect_done(key.begin_sign(&digest)), Err(CngError::InvalidHashLength));
    }
}

#[test]
fn signing_refuses_keys_that_are_not_rsa() {
    let key = LegacyCspKey::new(1, AT_SIGNATURE, false);
    let (session, _) = expect_call(key.begin_sign(&[0u8; 32]));
    let (session, _) = expect_call(session.step(SignReply::Completed));
    assert_eq!(
        expect_done(session.step(SignReply::Value(CALG_DSS_SIGN))),
        Err(CngError::UnsupportedKeyProvider)
    );

    let key = LegacyCspKey::new(1, 7, false);
    let (session, call) = expect_call(key.begin_sign(&[0u8; 32]));
    assert_eq!(call, SignCall::OpenUserKey { key_spec: 7 });
    let (session, _) = expect_call(session.step(SignReply::Completed));
    assert_eq!(
        expect_done(session.step(SignReply::Value(CALG_RSA_SIGN))),
        Err(CngError::UnsupportedKeyProvider)
    );
}

#[test]
fn a_failed_call_ends_signing_with_its_error_code() {
    let replies = |failing_at: usize| -> Result<Vec<u8>, CngError> {
        let key = LegacyCspKey::new(1, AT_SIGNATURE, false);
        let mut step = key.begin_sign(&[1u8; 32]);
        let mut index = 0usize;
        loop {
            let (session, call) = match step {
                SignStep::Done(result) => return result,
                SignStep::Call(session, call) => (session, call),
            };
            let reply = if index == failing_at {
                SignReply::Failed(100 + index as u32)
            } else {
                match call {
                    SignCall::ReadKeyAlgorithm => SignReply::Value(CALG_RSA_SIGN),
                    SignCall::QuerySignatureLength { .. } => SignReply::Value(2),
                    SignCall::Sign { .. } => SignReply::Signature { buffer: vec![1, 2], length: 2 },
                    _ => SignReply::Completed,
                }
            };
            index += 1;
            step = session.step(reply);
        }
    };
    for failing_at in 0..6usize {
        assert_eq!(replies(failing_at), Err(CngError::WindowsError(100 + failing_at as u32)));
    }
    assert_eq!(replies(6), Ok(vec![2, 1]));
}

#[test]
fn a_reply_that_does_not_answer_the_call_leaves_the_session_waiting() {
    let key = LegacyCspKey::new(1, AT_SIGNATURE, false);
    let (session, call) = expect_call(key.begin_sign(&[0u8; 32]));
    let (session, again) = expect_call(session.step(SignReply::Value(3)));
    assert_eq!(again, call);
    let (session, call) = expect_call(session.step(SignReply::Completed));
    assert_eq!(call, SignCall::ReadKeyAlgorithm);
    let (session, again) = expect_call(session.step(SignReply::Completed));
    assert_eq!(again, SignCall::ReadKeyAlgorithm);
    let (session, again) = expect_call(session.step(SignReply::Signature { buffer: vec![1], length: 1 }));
    assert_eq!(again, SignCall::ReadKeyAlgorithm);
    let (_, call) = expect_call(session.step(SignReply::Value(CALG_RSA_SIGN)));
    assert_eq!(call, SignCall::CreateHash { algorithm: CALG_SHA_256 });
}

#[test]
fn a_signing_run_answers_at_most_six_calls() {
    let key = LegacyCspKey::new(1, AT_KEYEXCHANGE, false);
    let mut step = key.begin_sign(&[9u8; 64]);
    let mut calls = 0usize;
    loop {
        let (session, call) = match step {
            SignStep::Done(result) => {
                assert_eq!(result, Ok(vec![3, 2, 1]));
                break;
            }
            SignStep::Call(session, call) => (session, call),
        };
        calls += 1;
        let reply = match call {
            SignCall::ReadKeyAlgorithm => SignReply::Value(CALG_RSA_KEYX),
            SignCall::QuerySignatureLength { .. } => SignReply::Value(3),
            SignCall::Sign { capacity, .. } => {
                assert_eq!(capacity, 3);
                SignReply::Signature { buffer: vec![1, 2, 3], length: 3 }
            }
            _ => SignReply::Completed,
        };
        step = session.step(reply);
    }
    assert_eq!(calls, 6);
}

#[test]
fn the_hash_value_is_the_digest_given_to_begin_sign() {
    let key = LegacyCspKey::new(1, AT_SIGNATURE, false);
    let digest: Vec<u8> = (0..32u8).collect();
    let (session, _) = expect_call(key.begin_sign(&digest));
    assert_eq!(session.digest(), &digest[..]);
    let (session, _) = expect_call(session.step(SignReply::Value(1)));
    assert_eq!(session.digest(), &digest[..]);
    let (session, _) = expect_call(session.step(SignReply::Completed));
    let (session, _) = expect_call(session.step(SignReply::Value(CALG_RSA_SIGN)));
    let (session, call) = expect_call(session.step(SignReply::Completed));
    assert_eq!(call, SignCall::SetHashValue);
    assert_eq!(session.digest(), &digest[..]);
}

#[test]
fn a_copied_key_keeps_its_key_spec() {
    let key = LegacyCspKey::new(3, AT_KEYEXCHANGE, true);
    let copy = key;
    let clone = key.clone();
    let _ = key.prepare_pin("1");
    let _ = key.begin_sign(&[0u8; 32]);
    assert_eq!(copy.key_spec(), AT_KEYEXCHANGE);
    assert_eq!(clone.key_spec(), AT_KEYEXCHANGE);
    assert_eq!(key.key_spec(), AT_KEYEXCHANGE);
    assert_eq!(clone.handle(), 3);
}

#[test]
fn encodable_pins_are_ascii_without_nul() {
    assert!(rustls_cng::is_encodable_pin("1234"));
    assert!(rustls_cng::is_encodable_pin(""));
    assert!(!rustls_cng::is_encodable_pin("p\u{12b}n"));
    assert!(!rustls_cng::is_encodable_pin("one\0two"));
}
