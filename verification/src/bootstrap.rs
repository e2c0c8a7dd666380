//! What is decided before the session starts: what to make of the session
//! file, of the validation data that a first run asks for, and which
//! profile a new device gets.

use crate::guid::{fresh_guid, is_guid};
use crate::text::{trim, trimmed};
use vstd::prelude::*;

verus! {

/// How the read of the session file ended.
#[derive(Debug, PartialEq, Eq)]
pub enum ConfigRead {
    /// The file was read; this is its text.
    Found(String),
    /// There is no such file.
    Missing,
    /// The file is there and could not be read.
    Unreadable,
}

/// A `ConfigRead` as contracts see it.
pub enum ConfigReadView {
    Found(Seq<char>),
    Missing,
    Unreadable,
}

impl View for ConfigRead {
    type V = ConfigReadView;

    open spec fn view(&self) -> ConfigReadView {
        match self {
            ConfigRead::Found(text) => ConfigReadView::Found(text@),
            ConfigRead::Missing => ConfigReadView::Missing,
            ConfigRead::Unreadable => ConfigReadView::Unreadable,
        }
    }
}

/// How to go on after the read of the session file.
#[derive(Debug, PartialEq, Eq)]
pub enum ConfigPlan {
    /// Go on with this text.
    Use(String),
    /// Create the file with this text, and go on with it.
    Create(String),
    /// Say that the file cannot be read and exit with this status.
    Abort(u8),
}

/// A `ConfigPlan` as contracts see it.
pub enum ConfigPlanView {
    Use(Seq<char>),
    Create(Seq<char>),
    Abort(u8),
}

impl View for ConfigPlan {
    type V = ConfigPlanView;

    open spec fn view(&self) -> ConfigPlanView {
        match self {
            ConfigPlan::Use(text) => ConfigPlanView::Use(text@),
            ConfigPlan::Create(text) => ConfigPlanView::Create(text@),
            ConfigPlan::Abort(status) => ConfigPlanView::Abort(*status),
        }
    }
}

/// A missing session file is no error: an empty record takes its place. A
/// file that cannot be read ends the program.
pub open spec fn plan_for(read: ConfigReadView) -> ConfigPlanView {
    match read {
        ConfigReadView::Found(text) => ConfigPlanView::Use(text),
        ConfigReadView::Missing => ConfigPlanView::Create("{}"@),
        ConfigReadView::Unreadable => ConfigPlanView::Abort(1),
    }
}

/// How to go on after `read`.
pub fn plan_config(read: ConfigRead) -> (plan: ConfigPlan)
    ensures
        plan@ == plan_for(read@),
{
    match read {
        ConfigRead::Found(text) => ConfigPlan::Use(text),
        ConfigRead::Missing => ConfigPlan::Create("{}".to_owned()),
        ConfigRead::Unreadable => ConfigPlan::Abort(1),
    }
}

/// Why a text is not base64.
#[derive(Debug, Clone, Copy, PartialEq, Eq, Structural)]
pub enum DecodeFailure {
    /// A byte that is not in the alphabet, and where it stands.
    InvalidByte { offset: usize, byte: u8 },
    /// The length is not one that an encoding can have.
    InvalidLength,
    /// The last symbol holds bits that would be thrown away.
    InvalidLastSymbol { offset: usize, byte: u8 },
    /// The padding is missing or wrong.
    InvalidPadding,
}

/// What `base64`'s standard engine (standard alphabet, canonical padding)
/// makes of a text: the bytes that it encodes, or why it encodes none.
pub uninterp spec fn base64_standard_decoding(input: Seq<char>) -> Result<Seq<u8>, DecodeFailure>;

/// Calls `base64::Engine::decode` on `base64::engine::general_purpose::STANDARD`.
///
/// Trusted, not proved: the result is a function of the text alone, which
/// `base64_standard_decoding` names. The errors of `base64::DecodeError`
/// are carried over one for one.
#[verifier::external_body]
fn base64_standard_decode(input: &str) -> (r: Result<Vec<u8>, DecodeFailure>)
    ensures
        match r {
            Ok(bytes) => base64_standard_decoding(input@) == Ok::<Seq<u8>, DecodeFailure>(bytes@),
            Err(failure) => base64_standard_decoding(input@) == Err::<Seq<u8>, DecodeFailure>(
                failure,
            ),
        },
{
    match base64::Engine::decode(&base64::engine::general_purpose::STANDARD, input) {
        Ok(bytes) => Ok(bytes),
        Err(base64::DecodeError::InvalidByte(offset, byte)) => Err(
            DecodeFailure::InvalidByte { offset, byte },
        ),
        Err(base64::DecodeError::InvalidLength) => Err(DecodeFailure::InvalidLength),
        Err(base64::DecodeError::InvalidLastSymbol(offset, byte)) => Err(
            DecodeFailure::InvalidLastSymbol { offset, byte },
        ),
        Err(base64::DecodeError::InvalidPadding) => Err(DecodeFailure::InvalidPadding),
    }
}

/// The validation data that a line of input holds: the line is trimmed and
/// read as base64.
pub fn decode_validation_data(line: &str) -> (r: Result<Vec<u8>, DecodeFailure>)
    ensures
        match r {
            Ok(bytes) => base64_standard_decoding(trimmed(line@)) == Ok::<Seq<u8>, DecodeFailure>(
                bytes@,
            ),
            Err(failure) => base64_standard_decoding(trimmed(line@)) == Err::<
                Seq<u8>,
                DecodeFailure,
            >(failure),
        },
{
    let text = trim(line);
    base64_standard_decode(text.as_str())
}

/// What a device tells the services about its system.
#[derive(Debug, PartialEq, Eq)]
pub struct OsProfile {
    pub version: String,
    pub protocol_version: u32,
    pub device_id: String,
    pub icloud_ua: String,
    pub aoskit_version: String,
}

/// An `OsProfile` as contracts see it.
pub struct OsProfileView {
    pub version: Seq<char>,
    pub protocol_version: u32,
    pub device_id: Seq<char>,
    pub icloud_ua: Seq<char>,
    pub aoskit_version: Seq<char>,
}

impl View for OsProfile {
    type V = OsProfileView;

    open spec fn view(&self) -> OsProfileView {
        OsProfileView {
            version: self.version@,
            protocol_version: self.protocol_version,
            device_id: self.device_id@,
            icloud_ua: self.icloud_ua@,
            aoskit_version: self.aoskit_version@,
        }
    }
}

impl OsProfileView {
    /// The profile of the device `device_id`.
    pub open spec fn of_device(device_id: Seq<char>) -> OsProfileView {
        OsProfileView {
            version: "13.6.4"@,
            protocol_version: 1660,
            device_id,
            icloud_ua: "com.apple.iCloudHelper/282 CFNetwork/1408.0.4 Darwin/22.5.0"@,
            aoskit_version: "com.apple.AOSKit/282 (com.apple.accountsd/113)"@,
        }
    }
}

impl OsProfile {
    /// The profile of the device `device_id`.
    pub fn of_device(device_id: String) -> (r: OsProfile)
        ensures
            r@ == OsProfileView::of_device(device_id@),
    {
        OsProfile {
            version: "13.6.4".to_owned(),
            protocol_version: 1660,
            device_id,
            icloud_ua: "com.apple.iCloudHelper/282 CFNetwork/1408.0.4 Darwin/22.5.0".to_owned(),
            aoskit_version: "com.apple.AOSKit/282 (com.apple.accountsd/113)".to_owned(),
        }
    }

    /// The profile of a device that is set up now, under a fresh
    /// identifier.
    pub fn of_new_device() -> (r: OsProfile)
        ensures
            is_guid(r@.device_id),
            r@ == OsProfileView::of_device(r@.device_id),
    {
        OsProfile::of_device(fresh_guid())
    }
}

} // verus!
