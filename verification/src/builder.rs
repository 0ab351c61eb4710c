//! Collecting the fields of a payload and checking them in one pass.

use crate::amount;
use crate::epc::{opt_view, Epc, EpcView};
use crate::error::EpcError;
use crate::fields::{
    CharacterSet, Identification, Purpose, PurposeView, Remittance, RemittanceView, ServiceTag,
    Version,
};
use crate::iban;
use vstd::prelude::*;

verus! {

/// Collects the fields of a payload. Each setter takes the builder and
/// gives it back with one field set; setting a field again replaces what
/// it held. Nothing is checked before [`Builder::build`].
pub struct Builder<'a> {
    /// The service tag, always BCD.
    pub service_tag: ServiceTag,
    /// The version of the format.
    pub version: Option<Version>,
    /// The character set.
    pub character_set: Option<CharacterSet>,
    /// The kind of transfer.
    pub identification: Option<Identification>,
    /// The BIC of the beneficiary's bank.
    pub bic: Option<&'a str>,
    /// The name of the beneficiary.
    pub beneficiary: Option<&'a str>,
    /// The IBAN of the beneficiary's account, without spaces.
    pub iban: Option<String>,
    /// The amount in euros.
    pub amount: Option<&'a str>,
    /// The purpose of the transfer.
    pub purpose: Option<Purpose>,
    /// The remittance information.
    pub remittance: Option<Remittance>,
    /// A note from the beneficiary to the payer.
    pub information: Option<&'a str>,
}

/// What a builder holds, as plain values.
pub struct BuilderView {
    pub version: Option<Version>,
    pub character_set: Option<CharacterSet>,
    pub identification: Option<Identification>,
    pub bic: Option<Seq<char>>,
    pub beneficiary: Option<Seq<char>>,
    pub iban: Option<Seq<char>>,
    pub amount: Option<Seq<char>>,
    pub purpose: Option<PurposeView>,
    pub remittance: Option<RemittanceView>,
    pub information: Option<Seq<char>>,
}

impl BuilderView {
    /// The builder in which nothing is set.
    pub open spec fn empty() -> BuilderView {
        BuilderView {
            version: None,
            character_set: None,
            identification: None,
            bic: None,
            beneficiary: None,
            iban: None,
            amount: None,
            purpose: None,
            remittance: None,
            information: None,
        }
    }

    /// The first rule that the fields break, if any. The rules are tried in
    /// this order: version, character set and identification are set; a BIC
    /// is set where the version asks for one; a beneficiary is set and not
    /// empty; an IBAN is set; it is valid as it stands; the amount, the
    /// purpose and the remittance are well formed where they are set.
    pub open spec fn first_error(self) -> Option<EpcError> {
        if self.version is None {
            Some(EpcError::MissingVersion)
        } else if self.character_set is None {
            Some(EpcError::MissingCharacterSet)
        } else if self.identification is None {
            Some(EpcError::MissingIdentification)
        } else if self.bic is None && self.version->0.requires_bic() {
            Some(EpcError::BICRequiredInConfiguredVersion)
        } else if self.beneficiary is None || self.beneficiary->0.len() == 0 {
            Some(EpcError::MissingBeneficiary)
        } else if self.iban is None {
            Some(EpcError::MissingIBAN)
        } else if !iban::valid_compact(self.iban->0) {
            Some(EpcError::InvalidIBAN)
        } else if self.amount is Some && !amount::valid(self.amount->0) {
            Some(EpcError::InvalidAmount)
        } else if self.purpose is Some && !self.purpose->0.valid() {
            Some(EpcError::InvalidPurpose)
        } else if self.remittance is Some && !self.remittance->0.valid() {
            Some(
                match self.remittance->0 {
                    RemittanceView::Reference(_) => EpcError::InvalidRemittanceReference,
                    RemittanceView::Text(_) => EpcError::RemittanceTextTooLong,
                },
            )
        } else {
            None
        }
    }

    /// The payload that holds exactly the fields of the builder.
    pub open spec fn payload(self) -> EpcView {
        EpcView {
            service_tag: ServiceTag::Bcd,
            version: self.version->0,
            character_set: self.character_set->0,
            identification: self.identification->0,
            bic: self.bic,
            beneficiary: self.beneficiary->0,
            iban: self.iban->0,
            amount: self.amount,
            purpose: self.purpose,
            remittance: self.remittance,
            information: self.information,
        }
    }

    /// What building gives: the first broken rule, or else the payload.
    pub open spec fn build(self) -> Result<EpcView, EpcError> {
        match self.first_error() {
            Some(e) => Err(e),
            None => Ok(self.payload()),
        }
    }
}

impl<'a> View for Builder<'a> {
    type V = BuilderView;

    open spec fn view(&self) -> BuilderView {
        BuilderView {
            version: self.version,
            character_set: self.character_set,
            identification: self.identification,
            bic: opt_view(self.bic),
            beneficiary: opt_view(self.beneficiary),
            iban: opt_view(self.iban),
            amount: opt_view(self.amount),
            purpose: opt_view(self.purpose),
            remittance: opt_view(self.remittance),
            information: opt_view(self.information),
        }
    }
}

/// The views of a result of building: of the payload, or the error itself.
pub open spec fn result_view(r: Result<Epc, EpcError>) -> Result<EpcView, EpcError> {
    match r {
        Ok(e) => Ok(e@),
        Err(e) => Err(e),
    }
}

impl<'a> Builder<'a> {
    /// A builder in which nothing is set.
    pub fn new() -> (b: Self)
        ensures
            b@ == BuilderView::empty(),
    {
        Builder {
            service_tag: ServiceTag::Bcd,
            version: None,
            character_set: None,
            identification: None,
            bic: None,
            beneficiary: None,
            iban: None,
            amount: None,
            purpose: None,
            remittance: None,
            information: None,
        }
    }

    /// Checks the fields and makes the payload. The rules are tried in a
    /// fixed order and the first that is broken gives the error; the builder
    /// is left as it was and can be corrected and built again.
    pub fn build(&self) -> (r: Result<Epc, EpcError>)
        ensures
            result_view(r) == self@.build(),
    {
        let version = match self.version {
            Some(v) => v,
            None => return Err(EpcError::MissingVersion),
        };
        let character_set = match self.character_set {
            Some(c) => c,
            None => return Err(EpcError::MissingCharacterSet),
        };
        let identification = match self.identification {
            Some(i) => i,
            None => return Err(EpcError::MissingIdentification),
        };
        if self.bic.is_none() && version != Version::V2 {
            return Err(EpcError::BICRequiredInConfiguredVersion);
        }
        let beneficiary = match self.beneficiary {
            Some(b) => b,
            None => return Err(EpcError::MissingBeneficiary),
        };
        if beneficiary.is_empty() {
            return Err(EpcError::MissingBeneficiary);
        }
        let iban = match &self.iban {
            Some(i) => i,
            None => return Err(EpcError::MissingIBAN),
        };
        if !iban::is_valid_compact(iban.as_str()) {
            return Err(EpcError::InvalidIBAN);
        }
        let amount = match self.amount {
            Some(a) => {
                if !amount::is_valid(a) {
                    return Err(EpcError::InvalidAmount);
                }
                Some(a.to_owned())
            },
            None => None,
        };
        let purpose = match &self.purpose {
            Some(p) => {
                if !p.is_valid() {
                    return Err(EpcError::InvalidPurpose);
                }
                Some(p.clone())
            },
            None => None,
        };
        let remittance = match &self.remittance {
            Some(r) => {
                if !r.is_valid() {
                    return Err(
                        match r {
                            Remittance::Reference(_) => EpcError::InvalidRemittanceReference,
                            Remittance::Text(_) => EpcError::RemittanceTextTooLong,
                        },
                    );
                }
                Some(r.clone())
            },
            None => None,
        };
        let bic = match self.bic {
            Some(b) => Some(b.to_owned()),
            None => None,
        };
        let information = match self.information {
            Some(i) => Some(i.to_owned()),
            None => None,
        };
        Ok(
            Epc::new(
                version,
                character_set,
                identification,
                bic,
                beneficiary.to_owned(),
                iban.clone(),
                amount,
                purpose,
                remittance,
                information,
            ),
        )
    }

    /// Sets the version.
    pub fn version(self, version: Version) -> (b: Self)
        ensures
            b@ == (BuilderView { version: Some(version), ..self@ }),
    {
        Builder { version: Some(version), ..self }
    }

    /// Sets the character set.
    pub fn character_set(self, character_set: CharacterSet) -> (b: Self)
        ensures
            b@ == (BuilderView { character_set: Some(character_set), ..self@ }),
    {
        Builder { character_set: Some(character_set), ..self }
    }

    /// Sets the kind of transfer.
    pub fn identification(self, identification: Identification) -> (b: Self)
        ensures
            b@ == (BuilderView { identification: Some(identification), ..self@ }),
    {
        Builder { identification: Some(identification), ..self }
    }

    /// Sets the BIC of the beneficiary's bank.
    pub fn bic(self, bic: &'a str) -> (b: Self)
        ensures
            b@ == (BuilderView { bic: Some(bic@), ..self@ }),
    {
        Builder { bic: Some(bic), ..self }
    }

    /// Sets the name of the beneficiary.
    pub fn beneficiary(self, beneficiary: &'a str) -> (b: Self)
        ensures
            b@ == (BuilderView { beneficiary: Some(beneficiary@), ..self@ }),
    {
        Builder { beneficiary: Some(beneficiary), ..self }
    }

    /// Sets the IBAN of the beneficiary's account. Its spaces are removed
    /// here, so that the builder holds the IBAN without them.
    pub fn iban(self, iban: &'a str) -> (b: Self)
        ensures
            b@ == (BuilderView { iban: Some(iban::strip_spaces(iban@)), ..self@ }),
    {
        Builder { iban: Some(iban::without_spaces(iban)), ..self }
    }

    /// Sets the amount, written in euros with two decimal places.
    pub fn amount(self, amount: &'a str) -> (b: Self)
        ensures
            b@ == (BuilderView { amount: Some(amount@), ..self@ }),
    {
        Builder { amount: Some(amount), ..self }
    }

    /// Sets the purpose of the transfer.
    pub fn purpose(self, purpose: Purpose) -> (b: Self)
        ensures
            b@ == (BuilderView { purpose: Some(purpose@), ..self@ }),
    {
        Builder { purpose: Some(purpose), ..self }
    }

    /// Sets the remittance information.
    pub fn remittance(self, remittance: Remittance) -> (b: Self)
        ensures
            b@ == (BuilderView { remittance: Some(remittance@), ..self@ }),
    {
        Builder { remittance: Some(remittance), ..self }
    }

    /// Sets the note from the beneficiary to the payer.
    pub fn information(self, information: &'a str) -> (b: Self)
        ensures
            b@ == (BuilderView { information: Some(information@), ..self@ }),
    {
        Builder { information: Some(information), ..self }
    }
}

impl<'a> Default for Builder<'a> {
    fn default() -> (b: Self)
        ensures
            b@ == BuilderView::empty(),
    {
        Builder::new()
    }
}

impl Epc {
    /// A builder in which nothing is set.
    pub fn builder<'a>() -> (b: Builder<'a>)
        ensures
            b@ == BuilderView::empty(),
    {
        Builder::new()
    }
}

/// Building gives either an error or a payload that holds the builder's
/// fields unchanged and keeps every rule of a payload.
pub proof fn lemma_build_ok_is_valid(b: BuilderView)
    ensures
        b.build() matches Ok(e) ==> e == b.payload() && e.valid(),
        b.build() is Ok <==> b.first_error() is None,
{
}

/// Building succeeds exactly when every rule is kept: version, character
/// set and identification are set; a BIC is set unless the version is 002;
/// the beneficiary is set and not empty; the IBAN is set and valid as it
/// stands; and the amount, the purpose and the remittance are well formed
/// where they are set.
pub proof fn lemma_build_succeeds_iff(b: BuilderView)
    ensures
        b.build() is Ok <==> {
            &&& b.version is Some
            &&& b.character_set is Some
            &&& b.identification is Some
            &&& (b.bic is Some || b.version == Some(Version::V2))
            &&& b.beneficiary matches Some(name) && name.len() > 0
            &&& b.iban matches Some(i) && iban::valid_compact(i)
            &&& (b.amount matches Some(a) ==> amount::valid(a))
            &&& (b.purpose matches Some(p) ==> p.valid())
            &&& (b.remittance matches Some(r) ==> r.valid())
        },
{
}

/// A builder in which nothing is set lacks a version.
pub proof fn lemma_build_empty()
    ensures
        BuilderView::empty().build() == Err::<EpcView, EpcError>(EpcError::MissingVersion),
{
}

/// With version 001, a character set and an identification but no BIC,
/// building fails for want of the BIC, whatever else is set.
pub proof fn lemma_v1_needs_bic(b: BuilderView)
    requires
        b.version == Some(Version::V1),
        b.character_set is Some,
        b.identification is Some,
        b.bic is None,
    ensures
        b.build() == Err::<EpcView, EpcError>(EpcError::BICRequiredInConfiguredVersion),
{
}

/// With version 002 the BIC plays no part in the checks: building succeeds
/// without it exactly when it succeeds with it, and fails with the same
/// error.
pub proof fn lemma_v2_bic_is_optional(b: BuilderView, bic: Option<Seq<char>>)
    requires
        b.version == Some(Version::V2),
    ensures
        (BuilderView { bic, ..b }).first_error() == b.first_error(),
        (BuilderView { bic: None, ..b }).build() is Ok <==> b.build() is Ok,
{
}

} // verus!
