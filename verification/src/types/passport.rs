//! Passport data.

use vstd::prelude::*;

verus! {

/// Passport data that a user shared with the bot.
pub struct PassportData {
    pub data: Vec<EncryptedPassportElement>,
    pub credentials: EnctrytedCredentials,
}

/// One document or other element of passport data that a user shared with the bot.
pub struct EncryptedPassportElement {
    pub element_type: EncryptedPassportElementType,
    pub data: Option<String>,
    pub phone_number: Option<String>,
    pub email: Option<String>,
    pub files: Option<Vec<PassportFile>>,
    pub front_side: Option<PassportFile>,
    pub reverse_side: Option<PassportFile>,
    pub selfie: Option<PassportFile>,
    pub trasnlation: Option<Vec<PassportFile>>,
    pub hash: String,
}

/// What is needed to decrypt and authenticate the elements of passport data.
pub struct EnctrytedCredentials {
    pub data: String,
    pub hash: String,
    pub secret: String,
}

/// The kinds of passport element.
pub enum EncryptedPassportElementType {
    PersonalDetails,
    Passport,
    DriverLicense,
    IdentityCard,
    InternalPassport,
    Address,
    UtilityBill,
    BankStatement,
    RentalAgreement,
    PassportRegistration,
    TemporaryRegistration,
}

/// A file uploaded to the passport, in encrypted form.
pub struct PassportFile {
    pub file_id: String,
    pub file_unique_id: String,
    pub file_size: u64,
    pub file_date: u64,
}

} // verus!
