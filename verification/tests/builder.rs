use epcgen::{
    Builder, CharacterSet, Epc, EpcError, Identification, Purpose, Remittance, ServiceTag, Version,
};

#[test]
fn builder_works() {
    let builder = Builder::new();
    assert_eq!(builder.service_tag, ServiceTag::Bcd);
    let builder = builder.version(Version::V1);
    assert_eq!(builder.version, Some(Version::V1));
    let builder = builder.character_set(CharacterSet::UTF8);
    assert_eq!(builder.character_set, Some(CharacterSet::UTF8));
    let builder = builder.identification(Identification::Sct);
    assert_eq!(builder.identification, Some(Identification::Sct));
    let bic = "GENODEF1SLR";
    let builder = builder.bic(bic);
    assert_eq!(builder.bic, Some(bic));
    let beneficiary = "Codeberg e.V.";
    let builder = builder.beneficiary(beneficiary);
    assert_eq!(builder.beneficiary, Some(beneficiary));
    let builder = builder.iban("DE90 8306 5408 0004 1042 42");
    assert_eq!(builder.iban, Some("DE90830654080004104242".to_string()));
    let builder = builder.amount("999999999.99");
    assert_eq!(builder.amount, Some("999999999.99"));
    let builder = builder.purpose(Purpose::Bene);
    assert_eq!(builder.purpose, Some(Purpose::Bene));
    let builder = builder.remittance(Remittance::Text(
        "cash rules everything around me".to_string(),
    ));
    assert_eq!(
        builder.remittance,
        Some(Remittance::Text(
            "cash rules everything around me".to_string()
        ))
    );
    let builder = builder.information("thanks");
    assert_eq!(builder.information, Some("thanks"));
    let epc = builder.build();
    assert!(epc.is_ok());
    let epc = epc.unwrap();
    assert_eq!(
        "BCD\n001\n1\nSCT\nGENODEF1SLR\nCodeberg e.V.\nDE90830654080004104242\n999999999.99\nBENE\n\ncash rules everything around me\nthanks",
        epc.to_string()
    );
}

#[test]
fn missing_version_should_fail() {
    let builder = Epc::builder()
        .character_set(CharacterSet::UTF8)
        .identification(Identification::Sct)
        .bic("GENODEF1SLR")
        .beneficiary("Codeberg e.V.")
        .iban("DE90 8306 5408 0004 1042 42")
        .remittance(Remittance::Text("1234567890".to_string()));
    let r = builder.build();
    assert_eq!(r, Result::Err(EpcError::MissingVersion));
}

#[test]
fn missing_character_set_should_fail() {
    let builder = Epc::builder()
        .version(Version::V2)
        .identification(Identification::Sct)
        .bic("GENODEF1SLR")
        .beneficiary("Codeberg e.V.")
        .iban("DE90 8306 5408 0004 1042 42")
        .remittance(Remittance::Text("1234567890".to_string()));
    let r = builder.build();
    assert_eq!(r, Result::Err(EpcError::MissingCharacterSet));
}

#[test]
fn missing_identification_should_fail() {
    let builder = Epc::builder()
        .version(Version::V2)
        .character_set(CharacterSet::UTF8)
        .bic("GENODEF1SLR")
        .beneficiary("Codeberg e.V.")
        .iban("DE90 8306 5408 0004 1042 42")
        .remittance(Remittance::Text("1234567890".to_string()));
    let r = builder.build();
    assert_eq!(r, Result::Err(EpcError::MissingIdentification));
}

#[test]
fn missing_bic_in_version1_should_fail() {
    let builder = Epc::builder()
        .version(Version::V1)
        .character_set(CharacterSet::UTF8)
        .identification(Identification::Sct)
        .beneficiary("Codeberg e.V.")
        .iban("DE90 8306 5408 0004 1042 42")
        .remittance(Remittance::Reference("RF471234567890".to_string()));
    let r = builder.build();
    assert_eq!(r, Result::Err(EpcError::BICRequiredInConfiguredVersion));
}

#[test]
fn missing_bic_in_version2_should_succeed() {
    let builder = Epc::builder()
        .version(Version::V2)
        .character_set(CharacterSet::UTF8)
        .identification(Identification::Sct)
        .beneficiary("Codeberg e.V.")
        .iban("DE90 8306 5408 0004 1042 42")
        .remittance(Remittance::Reference("RF471234567890".to_string()));
    assert!(builder.build().is_ok());
}

#[test]
fn missing_beneficiary_should_fail() {
    let builder = Epc::builder()
        .version(Version::V2)
        .character_set(CharacterSet::UTF8)
        .identification(Identification::Sct)
        .iban("DE90 8306 5408 0004 1042 42")
        .remittance(Remittance::Reference("RF471234567890".to_string()));
    let r = builder.build();
    assert_eq!(r, Result::Err(EpcError::MissingBeneficiary));
}

#[test]
fn missing_iban_should_fail() {
    let builder = Epc::builder()
        .version(Version::V2)
        .character_set(CharacterSet::UTF8)
        .identification(Identification::Sct)
        .beneficiary("Codeberg e.V.")
        .remittance(Remittance::Reference("RF471234567890".to_string()));
    let r = builder.build();
    assert_eq!(r, Result::Err(EpcError::MissingIBAN));
}

#[test]
fn invalid_iban_should_fail() {
    let builder = Epc::builder()
        .version(Version::V2)
        .character_set(CharacterSet::UTF8)
        .identification(Identification::Sct)
        .iban("DE90 8306 5408 0004 1042 43")
        .beneficiary("Codeberg e.V.")
        .remittance(Remittance::Reference("RF471234567890".to_string()));
    let r = builder.build();
    assert_eq!(r, Result::Err(EpcError::InvalidIBAN));
}

#[test]
fn invalid_amount_should_fail() {
    let builder = Epc::builder()
        .version(Version::V2)
        .character_set(CharacterSet::UTF8)
        .identification(Identification::Sct)
        .iban("DE90 8306 5408 0004 1042 42")
        .amount("-0.01")
        .beneficiary("Codeberg e.V.")
        .remittance(Remittance::Text("foo".to_string()));
    let r = builder.build();
    assert_eq!(r, Result::Err(EpcError::InvalidAmount));

    let builder = builder.amount("0.00");
    let r = builder.build();
    assert_eq!(r, Result::Err(EpcError::InvalidAmount));

    let builder = builder.amount("1.000");
    let r = builder.build();
    assert_eq!(r, Result::Err(EpcError::InvalidAmount));

    let builder = builder.amount("1..00");
    let r = builder.build();
    assert_eq!(r, Result::Err(EpcError::InvalidAmount));

    let builder = builder.amount("9999999990.99");
    let r = builder.build();
    assert_eq!(r, Result::Err(EpcError::InvalidAmount));
}

#[test]
fn invalid_purpose_should_fail() {
    let builder = Epc::builder()
        .version(Version::V2)
        .character_set(CharacterSet::UTF8)
        .identification(Identification::Sct)
        .beneficiary("Codeberg e.V.")
        .iban("DE90 8306 5408 0004 1042 42")
        .purpose(Purpose::Custom("ABCDE".to_string()))
        .remittance(Remittance::Text("foo".to_string()));
    let r = builder.build();
    assert_eq!(r, Result::Err(EpcError::InvalidPurpose));

    let builder = builder.purpose(Purpose::Custom("ABC".to_string()));
    let r = builder.build();
    assert_eq!(r, Result::Err(EpcError::InvalidPurpose));

    let builder = builder.purpose(Purpose::Custom("ABC1".to_string()));
    let r = builder.build();
    assert_eq!(r, Result::Err(EpcError::InvalidPurpose));
}

#[test]
fn invalid_remittance_reference_should_fail() {
    let builder = Epc::builder()
        .version(Version::V1)
        .character_set(CharacterSet::UTF8)
        .identification(Identification::Sct)
        .bic("GENODEF1SLR")
        .beneficiary("Codeberg e.V.")
        .iban("DE90 8306 5408 0004 1042 42")
        .remittance(Remittance::Reference(
            "123456789012345678901234567890123456".to_string(),
        ));
    let r = builder.build();
    assert_eq!(r, Result::Err(EpcError::InvalidRemittanceReference));
}
