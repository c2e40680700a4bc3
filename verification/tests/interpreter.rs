use deip_client::develop;
use deip_client::dispatch::{
    ArithmeticError, DispatchError, Failure, InterpretError, SystemError, TokenError,
};
use deip_client::event::{
    ChainEvent, DispatchClass, DispatchInfo, Pays, Record, SudoEvent, SystemEvent,
};
use deip_client::interpreter::{display, interpret_event, interpret_events, Rejection};
use deip_client::master;
use deip_client::pallet::{Pallet, PalletRegistry, Runtime};

fn registry() -> PalletRegistry {
    PalletRegistry::new(vec![
        "System".to_string(),
        "Timestamp".to_string(),
        "Balances".to_string(),
    ])
}

fn info(weight: u64) -> DispatchInfo {
    DispatchInfo { weight, class: DispatchClass::Normal, pays_fee: Pays::Yes }
}

fn failed(error: DispatchError) -> ChainEvent {
    ChainEvent::System(SystemEvent::ExtrinsicFailed(error, info(1)))
}

#[test]
fn success_event_yields_one_success_record_with_its_info() {
    let x = DispatchInfo { weight: 193_268_000, class: DispatchClass::Operational, pays_fee: Pays::No };
    let events = vec![ChainEvent::System(SystemEvent::ExtrinsicSuccess(x))];
    let out = interpret_events(Runtime::Master, &events, &registry());
    assert_eq!(out, Ok(vec![Record::Success(x)]));
    let records = out.unwrap();
    assert_eq!(
        records[0].line(),
        "Success::DispatchInfo { weight: 193268000, class: Operational, pays_fee: No }"
    );
}

#[test]
fn failed_event_with_system_error_three_names_pallet_and_error() {
    let events = vec![failed(DispatchError::Module { pallet_index: 0, error_code: 3 })];
    let out = interpret_events(Runtime::Master, &events, &registry());
    let expected = Record::Failure(Failure::Module {
        pallet: "System".to_string(),
        error: SystemError::NonDefaultComposite,
    });
    assert_eq!(out, Ok(vec![expected]));
    assert_eq!(out.unwrap()[0].line(), "System::Err::NonDefaultComposite");
}

#[test]
fn every_valid_system_code_resolves_to_its_name() {
    let names = [
        "InvalidSpecName",
        "SpecVersionNeedsToIncrease",
        "FailedToExtractRuntimeVersion",
        "NonDefaultComposite",
        "NonZeroRefCount",
        "CallFiltered",
    ];
    for code in 0u8..6 {
        let line = master::decode_module_error(0, code, &registry());
        assert_eq!(line, Ok(format!("System::Err::{}", names[code as usize])));
        let line = develop::decode_module_error(0, code, &registry());
        assert_eq!(line, Ok(format!("System::Err::{}", names[code as usize])));
    }
}

#[test]
fn module_error_uses_the_name_the_registry_gives() {
    let registry = PalletRegistry::new(vec!["Frame".to_string()]);
    assert_eq!(
        master::decode_module_error(0, 5, &registry),
        Ok("Frame::Err::CallFiltered".to_string())
    );
}

#[test]
fn invalid_system_code_is_rejected() {
    for code in [6u8, 7, 100, 255] {
        assert_eq!(
            master::decode_module_error(0, code, &registry()),
            Err(InterpretError::InvalidErrorCode { index: 0, code })
        );
    }
}

#[test]
fn pallet_index_outside_the_registry_is_rejected() {
    for index in [3u8, 4, 200, 255] {
        for code in [0u8, 3, 255] {
            assert_eq!(
                master::decode_module_error(index, code, &registry()),
                Err(InterpretError::UnknownPallet { index })
            );
            let event = failed(DispatchError::Module { pallet_index: index, error_code: code });
            assert_eq!(
                interpret_event(Runtime::Develop, &event, &registry()),
                Err(InterpretError::UnknownPallet { index })
            );
        }
    }
}

#[test]
fn empty_registry_knows_no_pallet() {
    let empty = PalletRegistry::new(Vec::new());
    assert_eq!(empty.len(), 0);
    assert!(!empty.contains(0));
    assert_eq!(empty.name(0), None);
    assert_eq!(
        master::decode_module_error(0, 0, &empty),
        Err(InterpretError::UnknownPallet { index: 0 })
    );
}

#[test]
fn registry_lookup_is_by_position() {
    let r = registry();
    assert_eq!(r.len(), 3);
    assert_eq!(r.name(0), Some(&"System".to_string()));
    assert_eq!(r.name(2), Some(&"Balances".to_string()));
    assert_eq!(r.name(3), None);
    assert!(r.contains(2));
    assert!(!r.contains(3));
}

#[test]
fn known_pallet_without_decoder_is_rejected_as_undecodable() {
    for index in [1u8, 2] {
        assert_eq!(
            master::decode_module_error(index, 0, &registry()),
            Err(InterpretError::UndecodablePallet { index })
        );
    }
}

#[test]
fn token_error_is_rendered_directly() {
    let event = failed(DispatchError::Token(TokenError::NoFunds));
    assert_eq!(
        interpret_event(Runtime::Master, &event, &registry()),
        Ok(Some(Record::Failure(Failure::Token(TokenError::NoFunds))))
    );
    assert_eq!(
        master::display_event(&event, &registry()),
        Ok(Some("System::Failed::Token::NoFunds".to_string()))
    );
    let reasons = [
        (TokenError::NoFunds, "NoFunds"),
        (TokenError::WouldDie, "WouldDie"),
        (TokenError::BelowMinimum, "BelowMinimum"),
        (TokenError::CannotCreate, "CannotCreate"),
        (TokenError::UnknownAsset, "UnknownAsset"),
        (TokenError::Frozen, "Frozen"),
        (TokenError::Unsupported, "Unsupported"),
    ];
    for (reason, name) in reasons {
        assert_eq!(reason.name(), name);
        assert_eq!(
            Failure::Token(reason).line(),
            format!("System::Failed::Token::{}", name)
        );
    }
}

#[test]
fn other_dispatch_errors_are_unsupported() {
    let errors = [
        DispatchError::Other,
        DispatchError::CannotLookup,
        DispatchError::BadOrigin,
        DispatchError::ConsumerRemaining,
        DispatchError::NoProviders,
        DispatchError::Arithmetic(ArithmeticError::Overflow),
        DispatchError::Arithmetic(ArithmeticError::Underflow),
        DispatchError::Arithmetic(ArithmeticError::DivisionByZero),
    ];
    for error in errors {
        assert_eq!(
            interpret_event(Runtime::Master, &failed(error), &registry()),
            Err(InterpretError::UnsupportedError(error))
        );
        let sudid = ChainEvent::Sudo(SudoEvent::Sudid { sudo_result: Err(error) });
        assert_eq!(
            interpret_event(Runtime::Master, &sudid, &registry()),
            Err(InterpretError::UnsupportedError(error))
        );
    }
}

#[test]
fn code_updated_yields_the_fixed_marker() {
    let event = ChainEvent::System(SystemEvent::CodeUpdated);
    assert_eq!(
        interpret_event(Runtime::Master, &event, &registry()),
        Ok(Some(Record::CodeUpdated))
    );
    assert_eq!(Record::CodeUpdated.line(), "CodeUpdated");
    assert_eq!(develop::display_event(&event, &registry()), Ok(Some("CodeUpdated".to_string())));
}

#[test]
fn successful_sudo_yields_no_record() {
    let event = ChainEvent::Sudo(SudoEvent::Sudid { sudo_result: Ok(()) });
    assert_eq!(interpret_event(Runtime::Master, &event, &registry()), Ok(None));
    assert_eq!(master::display_event(&event, &registry()), Ok(None));
}

#[test]
fn failed_sudo_is_resolved_like_a_failed_extrinsic() {
    let module = DispatchError::Module { pallet_index: 0, error_code: 1 };
    let event = ChainEvent::Sudo(SudoEvent::Sudid { sudo_result: Err(module) });
    assert_eq!(
        master::display_event(&event, &registry()),
        Ok(Some("System::Err::SpecVersionNeedsToIncrease".to_string()))
    );
    let token = ChainEvent::Sudo(SudoEvent::Sudid {
        sudo_result: Err(DispatchError::Token(TokenError::Frozen)),
    });
    assert_eq!(
        master::display_event(&token, &registry()),
        Ok(Some("System::Failed::Token::Frozen".to_string()))
    );
    let unknown = ChainEvent::Sudo(SudoEvent::Sudid {
        sudo_result: Err(DispatchError::Module { pallet_index: 9, error_code: 0 }),
    });
    assert_eq!(
        master::display_event(&unknown, &registry()),
        Err(InterpretError::UnknownPallet { index: 9 })
    );
}

#[test]
fn payload_events_are_shown_under_their_pallet() {
    let r = registry();
    let balances = ChainEvent::Balances("Transfer { amount: 5 }".to_string());
    let assets = ChainEvent::Assets("Created { asset_id: 7 }".to_string());
    let uniques = ChainEvent::Uniques("Burned".to_string());
    assert_eq!(
        interpret_event(Runtime::Master, &balances, &r),
        Ok(Some(Record::Rendered {
            pallet: Pallet::Balances,
            rendering: "Transfer { amount: 5 }".to_string()
        }))
    );
    assert_eq!(
        master::display_event(&balances, &r),
        Ok(Some("Balances::Transfer { amount: 5 }".to_string()))
    );
    assert_eq!(
        master::display_event(&assets, &r),
        Ok(Some("Assets::Created { asset_id: 7 }".to_string()))
    );
    assert_eq!(master::display_event(&uniques, &r), Ok(Some("Uniques::Burned".to_string())));
    let empty = ChainEvent::Balances(String::new());
    assert_eq!(master::display_event(&empty, &r), Ok(Some("Balances::".to_string())));
}

#[test]
fn new_account_is_shown_as_it_is() {
    let event = ChainEvent::System(SystemEvent::NewAccount("NewAccount(5Grw)".to_string()));
    assert_eq!(
        interpret_event(Runtime::Master, &event, &registry()),
        Ok(Some(Record::System("NewAccount(5Grw)".to_string())))
    );
    assert_eq!(
        master::display_event(&event, &registry()),
        Ok(Some("NewAccount(5Grw)".to_string()))
    );
}

#[test]
fn events_without_handler_are_rejected_with_their_pallet() {
    let cases = [
        (ChainEvent::System(SystemEvent::KilledAccount), Pallet::System),
        (ChainEvent::System(SystemEvent::Remarked), Pallet::System),
        (ChainEvent::Sudo(SudoEvent::KeyChanged), Pallet::Sudo),
        (ChainEvent::Sudo(SudoEvent::SudoAsDone), Pallet::Sudo),
        (ChainEvent::OctopusAppchain, Pallet::OctopusAppchain),
        (ChainEvent::OctopusLpos, Pallet::OctopusLpos),
        (ChainEvent::OctopusUpwardMessages, Pallet::OctopusUpwardMessages),
        (ChainEvent::Session, Pallet::Session),
        (ChainEvent::Grandpa, Pallet::Grandpa),
        (ChainEvent::ImOnline, Pallet::ImOnline),
        (ChainEvent::Multisig, Pallet::Multisig),
        (ChainEvent::Utility, Pallet::Utility),
        (ChainEvent::Deip, Pallet::Deip),
        (ChainEvent::DeipProposal, Pallet::DeipProposal),
        (ChainEvent::DeipDao, Pallet::DeipDao),
        (ChainEvent::DeipVesting, Pallet::DeipVesting),
        (ChainEvent::DeipInvestmentOpportunity, Pallet::DeipInvestmentOpportunity),
    ];
    for (event, pallet) in cases {
        assert_eq!(event.pallet(), pallet);
        for runtime in [Runtime::Master, Runtime::Develop] {
            assert_eq!(
                interpret_event(runtime, &event, &registry()),
                Err(InterpretError::UnsupportedEvent { pallet })
            );
            assert_eq!(
                display(runtime, &event, &registry()),
                Err(InterpretError::UnsupportedEvent { pallet })
            );
        }
    }
}

#[test]
fn token_pallet_event_is_foreign_to_master_and_unsupported_on_develop() {
    let event = ChainEvent::DeipFNFT;
    assert!(!Runtime::Master.supports(Pallet::DeipFNFT));
    assert!(Runtime::Develop.supports(Pallet::DeipFNFT));
    assert!(Runtime::Master.supports(Pallet::System));
    assert_eq!(
        master::display_event(&event, &registry()),
        Err(InterpretError::ForeignEvent { pallet: Pallet::DeipFNFT })
    );
    assert_eq!(
        develop::display_event(&event, &registry()),
        Err(InterpretError::UnsupportedEvent { pallet: Pallet::DeipFNFT })
    );
}

#[test]
fn one_record_per_handled_event_in_input_order() {
    let events = vec![
        ChainEvent::Balances("Withdraw".to_string()),
        ChainEvent::Assets("Created".to_string()),
        ChainEvent::System(SystemEvent::CodeUpdated),
        failed(DispatchError::Module { pallet_index: 0, error_code: 0 }),
        ChainEvent::Uniques("Issued".to_string()),
        ChainEvent::System(SystemEvent::ExtrinsicSuccess(info(42))),
    ];
    let records = master::interpret_block(&events, &registry()).unwrap();
    assert_eq!(records.len(), events.len());
    let lines: Vec<String> = records.iter().map(|r| r.line()).collect();
    assert_eq!(
        lines,
        vec![
            "Balances::Withdraw".to_string(),
            "Assets::Created".to_string(),
            "CodeUpdated".to_string(),
            "System::Err::InvalidSpecName".to_string(),
            "Uniques::Issued".to_string(),
            "Success::DispatchInfo { weight: 42, class: Normal, pays_fee: Yes }".to_string(),
        ]
    );
    for (event, record) in events.iter().zip(records.iter()) {
        assert_eq!(
            interpret_event(Runtime::Master, event, &registry()),
            Ok(Some(record.clone()))
        );
    }
}

#[test]
fn successful_sudo_adds_nothing_between_records() {
    let events = vec![
        ChainEvent::System(SystemEvent::CodeUpdated),
        ChainEvent::Sudo(SudoEvent::Sudid { sudo_result: Ok(()) }),
        ChainEvent::System(SystemEvent::ExtrinsicSuccess(info(7))),
    ];
    assert_eq!(
        develop::interpret_block(&events, &registry()),
        Ok(vec![Record::CodeUpdated, Record::Success(info(7))])
    );
}

#[test]
fn empty_block_yields_no_record() {
    assert_eq!(interpret_events(Runtime::Master, &Vec::new(), &registry()), Ok(Vec::new()));
}

#[test]
fn first_rejected_event_ends_the_interpretation() {
    let events = vec![
        ChainEvent::Balances("Deposit".to_string()),
        ChainEvent::Sudo(SudoEvent::Sudid { sudo_result: Ok(()) }),
        ChainEvent::Session,
        ChainEvent::Grandpa,
        ChainEvent::System(SystemEvent::CodeUpdated),
    ];
    assert_eq!(
        interpret_events(Runtime::Master, &events, &registry()),
        Err(Rejection {
            index: 2,
            error: InterpretError::UnsupportedEvent { pallet: Pallet::Session },
            emitted: vec![Record::Rendered {
                pallet: Pallet::Balances,
                rendering: "Deposit".to_string()
            }],
        })
    );
}

#[test]
fn rejection_at_the_first_event_has_emitted_nothing() {
    let events = vec![failed(DispatchError::BadOrigin), ChainEvent::System(SystemEvent::CodeUpdated)];
    assert_eq!(
        interpret_events(Runtime::Develop, &events, &registry()),
        Err(Rejection {
            index: 0,
            error: InterpretError::UnsupportedError(DispatchError::BadOrigin),
            emitted: Vec::new(),
        })
    );
}

#[test]
fn interpreting_twice_gives_the_same_outcome() {
    let accepted = vec![
        ChainEvent::System(SystemEvent::ExtrinsicSuccess(info(3))),
        failed(DispatchError::Token(TokenError::WouldDie)),
        ChainEvent::Assets("Destroyed".to_string()),
    ];
    let rejected = vec![ChainEvent::Uniques("Created".to_string()), ChainEvent::Utility];
    for events in [accepted, rejected] {
        let first = interpret_events(Runtime::Master, &events, &registry());
        let second = interpret_events(Runtime::Master, &events, &registry());
        assert_eq!(first, second);
    }
}

#[test]
fn error_descriptions_name_what_was_rejected() {
    assert_eq!(InterpretError::UnknownPallet { index: 7 }.description(), "Unknown index: 7");
    assert_eq!(InterpretError::UnknownPallet { index: 255 }.description(), "Unknown index: 255");
    assert_eq!(
        InterpretError::UndecodablePallet { index: 12 }.description(),
        "No error decoder for pallet index: 12"
    );
    assert_eq!(
        InterpretError::InvalidErrorCode { index: 0, code: 200 }.description(),
        "Invalid error code 200 of pallet index: 0"
    );
    assert_eq!(
        InterpretError::UnsupportedError(DispatchError::BadOrigin).description(),
        "Unsupported dispatch error: BadOrigin"
    );
    assert_eq!(
        InterpretError::UnsupportedError(DispatchError::Arithmetic(ArithmeticError::Overflow))
            .description(),
        "Unsupported dispatch error: Arithmetic"
    );
    assert_eq!(
        InterpretError::UnsupportedEvent { pallet: Pallet::Grandpa }.description(),
        "Unsupported event of pallet: Grandpa"
    );
    assert_eq!(
        InterpretError::ForeignEvent { pallet: Pallet::DeipFNFT }.description(),
        "Event of a pallet that the runtime lacks: DeipFNFT"
    );
}

#[test]
fn dispatch_error_kinds_have_their_names() {
    assert_eq!(DispatchError::Other.name(), "Other");
    assert_eq!(DispatchError::CannotLookup.name(), "CannotLookup");
    assert_eq!(DispatchError::Module { pallet_index: 1, error_code: 2 }.name(), "Module");
    assert_eq!(DispatchError::ConsumerRemaining.name(), "ConsumerRemaining");
    assert_eq!(DispatchError::NoProviders.name(), "NoProviders");
    assert_eq!(DispatchError::Token(TokenError::Frozen).name(), "Token");
}

#[test]
fn system_error_codes_round_trip() {
    for code in 0u8..=255 {
        match SystemError::from_code(code) {
            Some(error) => {
                assert!(code <= 5);
                assert_eq!(error.code(), code);
            }
            None => assert!(code > 5),
        }
    }
    assert_eq!(SystemError::from_code(4), Some(SystemError::NonZeroRefCount));
    assert_eq!(SystemError::NonZeroRefCount.name(), "NonZeroRefCount");
}

#[test]
fn pallet_names_are_spelled_as_on_chain() {
    assert_eq!(Pallet::System.name(), "System");
    assert_eq!(Pallet::OctopusUpwardMessages.name(), "OctopusUpwardMessages");
    assert_eq!(Pallet::DeipInvestmentOpportunity.name(), "DeipInvestmentOpportunity");
    assert_eq!(Pallet::DeipFNFT.name(), "DeipFNFT");
}

#[test]
fn dispatch_info_rendering_names_every_field() {
    let i = DispatchInfo { weight: 0, class: DispatchClass::Mandatory, pays_fee: Pays::Yes };
    assert_eq!(i.rendering(), "DispatchInfo { weight: 0, class: Mandatory, pays_fee: Yes }");
    let i = DispatchInfo { weight: u64::MAX, class: DispatchClass::Normal, pays_fee: Pays::No };
    assert_eq!(
        i.rendering(),
        "DispatchInfo { weight: 18446744073709551615, class: Normal, pays_fee: No }"
    );
    assert_eq!(DispatchClass::Operational.name(), "Operational");
    assert_eq!(Pays::No.name(), "No");
}

#[test]
fn missing_handlers_are_told_from_invalid_data() {
    assert!(InterpretError::UndecodablePallet { index: 2 }.is_unsupported());
    assert!(InterpretError::UnsupportedError(DispatchError::Other).is_unsupported());
    assert!(InterpretError::UnsupportedEvent { pallet: Pallet::Session }.is_unsupported());
    assert!(!InterpretError::UnknownPallet { index: 40 }.is_unsupported());
    assert!(!InterpretError::InvalidErrorCode { index: 0, code: 9 }.is_unsupported());
    assert!(!InterpretError::ForeignEvent { pallet: Pallet::DeipFNFT }.is_unsupported());
}
