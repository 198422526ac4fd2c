use gouda::bridge::Emoji;
use gouda::chat::{VerificationEndEvent, VerificationEndResult};
use gouda::sas::{
    decimals_string, present_sas, process_action, process_state_change, CrossSigningMethod, SasState,
    SasStep, VerificationAction, VerificationCode,
};

#[test]
fn sas_decimals() {
    assert_eq!(decimals_string(1234, 0, 65535), "1234 0 65535");
    assert_eq!(decimals_string(7, 10, 909), "7 10 909");
}

#[test]
fn sas_present_numbers_and_emojis() {
    let e = present_sas("flow".to_owned(), None, 1, 22, 333);
    assert_eq!(e.selected_method, CrossSigningMethod::SasString.to_i32());
    assert_eq!(e.verification_code, Some(VerificationCode::StringCode("1 22 333".to_owned())));
    let emojis = vec![Emoji { symbol: "🐱".to_owned(), description: "Cat".to_owned() }];
    let e = present_sas("flow".to_owned(), Some(emojis), 1, 2, 3);
    assert_eq!(e.selected_method, CrossSigningMethod::SasSymbol.to_i32());
    match e.verification_code {
        Some(VerificationCode::Symbols(s)) => assert_eq!(s.symbols[0].description, Some("Cat".to_owned())),
        _ => panic!("expected symbols"),
    }
}

#[test]
fn sas_state_changes() {
    assert_eq!(process_state_change("f".to_owned(), SasState::Started), SasStep::Continue);
    assert_eq!(
        process_state_change("f".to_owned(), SasState::Done),
        SasStep::End(VerificationEndEvent {
            verification_flow_id: Some("f".to_owned()),
            result: Some(VerificationEndResult::Successful(true)),
        })
    );
    assert_eq!(
        process_state_change("f".to_owned(), SasState::Cancelled),
        SasStep::End(VerificationEndEvent {
            verification_flow_id: Some("f".to_owned()),
            result: Some(VerificationEndResult::Successful(false)),
        })
    );
    assert!(matches!(
        process_state_change("f".to_owned(), SasState::KeysExchanged(None, 1, 2, 3)),
        SasStep::Present(_)
    ));
}

#[test]
fn sas_actions() {
    assert_eq!(process_action(None), SasStep::Stop);
    assert_eq!(process_action(Some(VerificationAction::Cancel)), SasStep::Cancel);
    assert_eq!(process_action(Some(VerificationAction::Confirm)), SasStep::Confirm);
    assert_eq!(process_action(Some(VerificationAction::Other)), SasStep::Continue);
}
