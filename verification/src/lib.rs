//! Payloads for SEPA credit transfer QR codes, with the mod-97 checks of
//! IBANs and RF creditor references.
//!
//! A [`Builder`] collects the fields of a transfer; [`Builder::build`]
//! checks them in one pass and gives an [`Epc`], whose
//! [`to_string`](Epc::to_string) is the text that a QR code carries.

pub mod amount;
pub mod builder;
pub mod checksum;
pub mod epc;
pub mod error;
pub mod fields;
pub mod iban;
pub mod rf;
pub mod text;

pub use crate::builder::Builder;
pub use crate::epc::Epc;
pub use crate::error::EpcError;
pub use crate::fields::{CharacterSet, Identification, Purpose, Remittance, ServiceTag, Version};
