//! The fields of a payload that take one of a few fixed values, and the two
//! that carry text of a prescribed form.

use crate::checksum::is_upper;
use crate::rf;
use crate::text::chars_of;
use vstd::prelude::*;

verus! {

/// The service tag in the first line of every payload.
#[derive(Debug, PartialEq, Eq, Clone, Copy, Structural)]
pub enum ServiceTag {
    /// BCD, the tag of the quick response code for credit transfers.
    Bcd,
}

impl ServiceTag {
    /// The line that stands for the tag.
    pub open spec fn code(self) -> Seq<char> {
        "BCD"@
    }

    /// The line that stands for the tag.
    pub fn as_str(&self) -> (r: &'static str)
        ensures
            r@ == self.code(),
    {
        "BCD"
    }

    /// The tag as it is written into a payload.
    pub fn to_string(&self) -> (r: String)
        ensures
            r@ == self.code(),
    {
        self.as_str().to_owned()
    }
}

/// The version of the payload format.
#[derive(Debug, PartialEq, Eq, Clone, Copy, Structural)]
pub enum Version {
    /// 001: transfers inside and outside the EEA; a BIC must be given.
    V1,
    /// 002: transfers inside the EEA only; the BIC may be left out.
    V2,
}

impl Version {
    /// The line that stands for the version.
    pub open spec fn code(self) -> Seq<char> {
        match self {
            Version::V1 => "001"@,
            Version::V2 => "002"@,
        }
    }

    /// Whether a payload of this version must name a BIC.
    pub open spec fn requires_bic(self) -> bool {
        self != Version::V2
    }

    /// The line that stands for the version.
    pub fn as_str(&self) -> (r: &'static str)
        ensures
            r@ == self.code(),
    {
        match self {
            Version::V1 => "001",
            Version::V2 => "002",
        }
    }

    /// The version as it is written into a payload.
    pub fn to_string(&self) -> (r: String)
        ensures
            r@ == self.code(),
    {
        self.as_str().to_owned()
    }
}

/// The character set in which the payload's text is encoded.
#[derive(Debug, PartialEq, Eq, Clone, Copy, Structural)]
pub enum CharacterSet {
    /// UTF-8, written as 1.
    UTF8,
}

impl CharacterSet {
    /// The line that stands for the character set.
    pub open spec fn code(self) -> Seq<char> {
        "1"@
    }

    /// The line that stands for the character set.
    pub fn as_str(&self) -> (r: &'static str)
        ensures
            r@ == self.code(),
    {
        "1"
    }

    /// The character set as it is written into a payload.
    pub fn to_string(&self) -> (r: String)
        ensures
            r@ == self.code(),
    {
        self.as_str().to_owned()
    }
}

/// The kind of credit transfer that the payload asks for.
#[derive(Debug, PartialEq, Eq, Clone, Copy, Structural)]
pub enum Identification {
    /// SEPA credit transfer.
    Sct,
    /// SEPA instant credit transfer.
    Inst,
}

impl Identification {
    /// The line that stands for the kind of transfer.
    pub open spec fn code(self) -> Seq<char> {
        match self {
            Identification::Sct => "SCT"@,
            Identification::Inst => "INST"@,
        }
    }

    /// The line that stands for the kind of transfer.
    pub fn as_str(&self) -> (r: &'static str)
        ensures
            r@ == self.code(),
    {
        match self {
            Identification::Sct => "SCT",
            Identification::Inst => "INST",
        }
    }

    /// The kind of transfer as it is written into a payload.
    pub fn to_string(&self) -> (r: String)
        ensures
            r@ == self.code(),
    {
        self.as_str().to_owned()
    }
}

/// The shape of a purpose code: exactly four upper-case ASCII letters.
pub open spec fn purpose_code_shape(c: Seq<char>) -> bool {
    c.len() == 4 && forall|i: int| 0 <= i < c.len() ==> is_upper(#[trigger] c[i])
}

/// Tells whether a text is four upper-case ASCII letters.
pub fn is_purpose_code(code: &str) -> (ok: bool)
    ensures
        ok == purpose_code_shape(code@),
{
    let v = chars_of(code);
    if v.len() != 4 {
        return false;
    }
    let mut k: usize = 0;
    while k < 4
        invariant
            v.len() == 4,
            v@ == code@,
            k <= 4,
            forall|i: int| 0 <= i < k ==> is_upper(#[trigger] v@[i]),
        decreases 4 - k,
    {
        let ch = v[k];
        if !('A' <= ch && ch <= 'Z') {
            return false;
        }
        k = k + 1;
    }
    true
}

/// The purpose of the transfer.
#[derive(Debug, PartialEq)]
pub enum Purpose {
    /// BENE, an unemployment or disability benefit.
    Bene,
    /// Another purpose code: four upper-case ASCII letters.
    Custom(String),
}

/// What a [`Purpose`] holds, as plain text.
pub enum PurposeView {
    Bene,
    Custom(Seq<char>),
}

impl PurposeView {
    /// The line that stands for the purpose.
    pub open spec fn code(self) -> Seq<char> {
        match self {
            PurposeView::Bene => "BENE"@,
            PurposeView::Custom(c) => c,
        }
    }

    /// `BENE` is always well formed; another code is when it is exactly
    /// four upper-case ASCII letters.
    pub open spec fn valid(self) -> bool {
        match self {
            PurposeView::Bene => true,
            PurposeView::Custom(c) => purpose_code_shape(c),
        }
    }
}

impl View for Purpose {
    type V = PurposeView;

    open spec fn view(&self) -> PurposeView {
        match self {
            Purpose::Bene => PurposeView::Bene,
            Purpose::Custom(c) => PurposeView::Custom(c@),
        }
    }
}

impl Clone for Purpose {
    fn clone(&self) -> (r: Self)
        ensures
            r@ == self@,
    {
        match self {
            Purpose::Bene => Purpose::Bene,
            Purpose::Custom(c) => Purpose::Custom(c.clone()),
        }
    }
}

impl Purpose {
    /// Tells whether the purpose code is well formed.
    pub fn is_valid(&self) -> (ok: bool)
        ensures
            ok == self@.valid(),
    {
        match self {
            Purpose::Bene => true,
            Purpose::Custom(c) => is_purpose_code(c.as_str()),
        }
    }

    /// The purpose as it is written into a payload.
    pub fn to_string(&self) -> (r: String)
        ensures
            r@ == self@.code(),
    {
        match self {
            Purpose::Bene => "BENE".to_owned(),
            Purpose::Custom(c) => c.clone(),
        }
    }
}

/// What the payer is to pass on with the transfer: a structured creditor
/// reference or free text, never both.
#[derive(Debug, PartialEq)]
pub enum Remittance {
    /// A structured RF creditor reference.
    Reference(String),
    /// Free text of at most 140 characters.
    Text(String),
}

/// What a [`Remittance`] holds, as plain text.
pub enum RemittanceView {
    Reference(Seq<char>),
    Text(Seq<char>),
}

impl RemittanceView {
    /// The text carried, whichever kind it is.
    pub open spec fn text(self) -> Seq<char> {
        match self {
            RemittanceView::Reference(r) => r,
            RemittanceView::Text(t) => t,
        }
    }

    /// A reference is well formed when it is a valid RF creditor reference,
    /// free text when it is at most 140 characters long.
    pub open spec fn valid(self) -> bool {
        match self {
            RemittanceView::Reference(r) => rf::valid(r),
            RemittanceView::Text(t) => t.len() <= 140,
        }
    }
}

impl View for Remittance {
    type V = RemittanceView;

    open spec fn view(&self) -> RemittanceView {
        match self {
            Remittance::Reference(r) => RemittanceView::Reference(r@),
            Remittance::Text(t) => RemittanceView::Text(t@),
        }
    }
}

impl Clone for Remittance {
    fn clone(&self) -> (r: Self)
        ensures
            r@ == self@,
    {
        match self {
            Remittance::Reference(x) => Remittance::Reference(x.clone()),
            Remittance::Text(x) => Remittance::Text(x.clone()),
        }
    }
}

impl Remittance {
    /// Tells whether the remittance information is well formed.
    pub fn is_valid(&self) -> (ok: bool)
        ensures
            ok == self@.valid(),
    {
        match self {
            Remittance::Reference(r) => rf::is_valid(r.as_str()),
            Remittance::Text(t) => t.as_str().unicode_len() <= 140,
        }
    }

    /// The text carried, whichever kind it is.
    pub fn to_string(&self) -> (r: String)
        ensures
            r@ == self@.text(),
    {
        match self {
            Remittance::Reference(x) => x.clone(),
            Remittance::Text(x) => x.clone(),
        }
    }
}

} // verus!
