//! The card protocols, blank chips and value types shared by the builder,
//! the decoder and the workflow.

use vstd::prelude::*;

use crate::fields::Fields;

verus! {

/// Radio band of a card protocol.
#[derive(Clone, Copy, Debug, PartialEq, Eq, Structural)]
pub enum Frequency {
    LF,
    HF,
}

/// The card protocols the tool can identify.
#[derive(Clone, Copy, Debug, PartialEq, Eq, Structural)]
#[allow(non_camel_case_types)]
pub enum CardType {
    EM4100,
    HIDProx,
    Indala,
    IOProx,
    AWID,
    FDX_B,
    Paradox,
    Viking,
    Pyramid,
    Keri,
    NexWatch,
    Presco,
    Nedap,
    GProxII,
    Gallagher,
    PAC,
    Noralsy,
    Jablotron,
    SecuraKey,
    Visa2000,
    Motorola,
    IDTECK,
    COTAG,
    EM4x50,
    Hitag,
    MifareClassic1K,
    MifareClassic4K,
    MifareUltralight,
    NTAG,
    DESFire,
    IClass,
}

/// Writable target chips and cards.
#[derive(Clone, Copy, Debug, PartialEq, Eq, Structural)]
pub enum BlankType {
    T5577,
    EM4305,
    MagicMifareGen1a,
    MagicMifareGen2,
    MagicMifareGen3,
    MagicMifareGen4GTU,
    MagicMifareGen4GDM,
    MagicUltralight,
    IClassBlank,
}

pub open spec fn is_lf(c: CardType) -> bool {
    !(c is MifareClassic1K || c is MifareClassic4K || c is MifareUltralight || c is NTAG
        || c is DESFire || c is IClass)
}

pub open spec fn frequency_spec(c: CardType) -> Frequency {
    if is_lf(c) {
        Frequency::LF
    } else {
        Frequency::HF
    }
}

pub open spec fn card_name_spec(c: CardType) -> Seq<char> {
    match c {
        CardType::EM4100 => "EM4100"@,
        CardType::HIDProx => "HID Prox"@,
        CardType::Indala => "Indala"@,
        CardType::IOProx => "IO Prox"@,
        CardType::AWID => "AWID"@,
        CardType::FDX_B => "FDX-B"@,
        CardType::Paradox => "Paradox"@,
        CardType::Viking => "Viking"@,
        CardType::Pyramid => "Pyramid"@,
        CardType::Keri => "Keri"@,
        CardType::NexWatch => "NexWatch"@,
        CardType::Presco => "Presco"@,
        CardType::Nedap => "Nedap"@,
        CardType::GProxII => "GProx II"@,
        CardType::Gallagher => "Gallagher"@,
        CardType::PAC => "PAC/Stanley"@,
        CardType::Noralsy => "Noralsy"@,
        CardType::Jablotron => "Jablotron"@,
        CardType::SecuraKey => "SecuraKey"@,
        CardType::Visa2000 => "Visa2000"@,
        CardType::Motorola => "Motorola"@,
        CardType::IDTECK => "IDTECK"@,
        CardType::COTAG => "COTAG"@,
        CardType::EM4x50 => "EM4x50"@,
        CardType::Hitag => "Hitag"@,
        CardType::MifareClassic1K => "MIFARE Classic 1K"@,
        CardType::MifareClassic4K => "MIFARE Classic 4K"@,
        CardType::MifareUltralight => "MIFARE Ultralight"@,
        CardType::NTAG => "NTAG"@,
        CardType::DESFire => "DESFire"@,
        CardType::IClass => "iCLASS"@,
    }
}

pub open spec fn cloneable_spec(c: CardType) -> bool {
    !(c is DESFire || c is COTAG || c is EM4x50 || c is Hitag)
}

pub open spec fn non_cloneable_reason_spec(c: CardType) -> Option<Seq<char>> {
    match c {
        CardType::DESFire => Some("DESFire uses AES encryption; cloning not supported"@),
        CardType::COTAG => Some("Read-only, no clone commands available"@),
        CardType::EM4x50 => Some("Requires native EM4x50 blank, not T5577-compatible"@),
        CardType::Hitag => Some("Requires native Hitag chip, not T5577-compatible"@),
        _ => None,
    }
}

/// The eleven long-supported LF protocols, whose clone commands accept `--em`.
pub open spec fn supports_em4305_spec(c: CardType) -> bool {
    c is EM4100 || c is HIDProx || c is Indala || c is IOProx || c is AWID || c is FDX_B
        || c is Paradox || c is Viking || c is Pyramid || c is Keri || c is NexWatch
}

pub open spec fn recommended_blank_spec(c: CardType) -> BlankType {
    match c {
        CardType::MifareClassic1K | CardType::MifareClassic4K => BlankType::MagicMifareGen1a,
        CardType::MifareUltralight | CardType::NTAG => BlankType::MagicUltralight,
        CardType::DESFire => BlankType::MagicMifareGen4GTU,
        CardType::IClass => BlankType::IClassBlank,
        _ => BlankType::T5577,
    }
}

pub open spec fn blank_name_spec(b: BlankType) -> Seq<char> {
    match b {
        BlankType::T5577 => "T5577"@,
        BlankType::EM4305 => "EM4305"@,
        BlankType::MagicMifareGen1a => "Magic MIFARE Gen1a"@,
        BlankType::MagicMifareGen2 => "Magic MIFARE Gen2 (CUID)"@,
        BlankType::MagicMifareGen3 => "Magic MIFARE Gen3 (UFUID)"@,
        BlankType::MagicMifareGen4GTU => "Magic MIFARE Gen4 GTU"@,
        BlankType::MagicMifareGen4GDM => "Magic MIFARE Gen4 GDM"@,
        BlankType::MagicUltralight => "Magic Ultralight"@,
        BlankType::IClassBlank => "iCLASS Blank"@,
    }
}

impl CardType {
    pub fn frequency(&self) -> (r: Frequency)
        ensures
            r == frequency_spec(*self),
    {
        match self {
            CardType::MifareClassic1K
            | CardType::MifareClassic4K
            | CardType::MifareUltralight
            | CardType::NTAG
            | CardType::DESFire
            | CardType::IClass => Frequency::HF,
            _ => Frequency::LF,
        }
    }

    /// Human-readable protocol name.
    pub fn display_name(&self) -> (r: &'static str)
        ensures
            r@ == card_name_spec(*self),
    {
        match self {
            CardType::EM4100 => "EM4100",
            CardType::HIDProx => "HID Prox",
            CardType::Indala => "Indala",
            CardType::IOProx => "IO Prox",
            CardType::AWID => "AWID",
            CardType::FDX_B => "FDX-B",
            CardType::Paradox => "Paradox",
            CardType::Viking => "Viking",
            CardType::Pyramid => "Pyramid",
            CardType::Keri => "Keri",
            CardType::NexWatch => "NexWatch",
            CardType::Presco => "Presco",
            CardType::Nedap => "Nedap",
            CardType::GProxII => "GProx II",
            CardType::Gallagher => "Gallagher",
            CardType::PAC => "PAC/Stanley",
            CardType::Noralsy => "Noralsy",
            CardType::Jablotron => "Jablotron",
            CardType::SecuraKey => "SecuraKey",
            CardType::Visa2000 => "Visa2000",
            CardType::Motorola => "Motorola",
            CardType::IDTECK => "IDTECK",
            CardType::COTAG => "COTAG",
            CardType::EM4x50 => "EM4x50",
            CardType::Hitag => "Hitag",
            CardType::MifareClassic1K => "MIFARE Classic 1K",
            CardType::MifareClassic4K => "MIFARE Classic 4K",
            CardType::MifareUltralight => "MIFARE Ultralight",
            CardType::NTAG => "NTAG",
            CardType::DESFire => "DESFire",
            CardType::IClass => "iCLASS",
        }
    }

    pub fn is_cloneable(&self) -> (r: bool)
        ensures
            r == cloneable_spec(*self),
    {
        match self {
            CardType::DESFire | CardType::COTAG | CardType::EM4x50 | CardType::Hitag => false,
            _ => true,
        }
    }

    /// Why a protocol cannot be cloned, for the protocols that cannot.
    pub fn non_cloneable_reason(&self) -> (r: Option<&'static str>)
        ensures
            match (r, non_cloneable_reason_spec(*self)) {
                (Some(a), Some(b)) => a@ == b,
                (None, None) => true,
                _ => false,
            },
    {
        match self {
            CardType::DESFire => Some("DESFire uses AES encryption; cloning not supported"),
            CardType::COTAG => Some("Read-only, no clone commands available"),
            CardType::EM4x50 => Some("Requires native EM4x50 blank, not T5577-compatible"),
            CardType::Hitag => Some("Requires native Hitag chip, not T5577-compatible"),
            _ => None,
        }
    }

    /// Whether clones of this protocol can target an EM4305 blank.
    pub fn supports_em4305(&self) -> (r: bool)
        ensures
            r == supports_em4305_spec(*self),
    {
        match self {
            CardType::EM4100
            | CardType::HIDProx
            | CardType::Indala
            | CardType::IOProx
            | CardType::AWID
            | CardType::FDX_B
            | CardType::Paradox
            | CardType::Viking
            | CardType::Pyramid
            | CardType::Keri
            | CardType::NexWatch => true,
            _ => false,
        }
    }

    pub fn recommended_blank(&self) -> (r: BlankType)
        ensures
            r == recommended_blank_spec(*self),
    {
        match self {
            CardType::MifareClassic1K | CardType::MifareClassic4K => BlankType::MagicMifareGen1a,
            CardType::MifareUltralight | CardType::NTAG => BlankType::MagicUltralight,
            CardType::DESFire => BlankType::MagicMifareGen4GTU,
            CardType::IClass => BlankType::IClassBlank,
            _ => BlankType::T5577,
        }
    }
}

impl BlankType {
    /// Human-readable blank name.
    pub fn display_name(&self) -> (r: &'static str)
        ensures
            r@ == blank_name_spec(*self),
    {
        match self {
            BlankType::T5577 => "T5577",
            BlankType::EM4305 => "EM4305",
            BlankType::MagicMifareGen1a => "Magic MIFARE Gen1a",
            BlankType::MagicMifareGen2 => "Magic MIFARE Gen2 (CUID)",
            BlankType::MagicMifareGen3 => "Magic MIFARE Gen3 (UFUID)",
            BlankType::MagicMifareGen4GTU => "Magic MIFARE Gen4 GTU",
            BlankType::MagicMifareGen4GDM => "Magic MIFARE Gen4 GDM",
            BlankType::MagicUltralight => "Magic Ultralight",
            BlankType::IClassBlank => "iCLASS Blank",
        }
    }
}

/// Result of probing a T5577 blank with `lf t55xx detect`.
#[derive(Clone, Debug)]
pub struct T5577Status {
    pub detected: bool,
    pub chip_type: String,
    pub password_set: bool,
    pub block0: Option<String>,
    pub modulation: Option<String>,
}

/// A decoded card identity: display UID, raw bitstream and protocol fields.
#[derive(Clone, Debug)]
pub struct CardData {
    pub uid: String,
    pub raw: String,
    pub decoded: Fields,
}

/// Short description of a card for history and completion records.
#[derive(Clone, Debug)]
pub struct CardSummary {
    pub card_type: String,
    pub uid: String,
    pub display_name: String,
}

/// What the user is advised to do after an error.
#[derive(Clone, Copy, Debug, PartialEq, Eq, Structural)]
pub enum RecoveryAction {
    Retry,
    GoBack,
    Reconnect,
    Manual,
}

/// Phases of an HF key-recovery run.
#[derive(Clone, Copy, Debug, PartialEq, Eq, Structural)]
pub enum ProcessPhase {
    KeyCheck,
    Darkside,
    Nested,
    Hardnested,
    StaticNested,
    Dumping,
}

/// Progress signals read line by line from a streaming key-recovery run.
#[derive(Clone, Debug, PartialEq, Eq)]
pub enum AutopwnEvent {
    /// Dictionary phase: `found` of `total` keys known.
    DictionaryProgress { found: u32, total: u32 },
    /// One key recovered.
    KeyFound { key: String },
    DarksideStarted,
    NestedStarted,
    HardnestedStarted,
    StaticnestedStarted,
    /// Every block was dumped.
    DumpComplete { file_path: String },
    /// Some sectors could not be read.
    DumpPartial { file_path: String },
    /// Every key recovery attempt failed.
    Failed { reason: String },
    /// The run ended after `time_secs` seconds.
    Finished { time_secs: u32 },
}

/// Generations of "magic" MIFARE Classic blanks.
#[derive(Clone, Copy, Debug, PartialEq, Eq, Structural)]
pub enum MagicGeneration {
    Gen1a,
    Gen2,
    Gen3,
    Gen4GTU,
    Gen4GDM,
}

/// Chip probe result reported to the user interface.
#[derive(Clone, Debug)]
pub struct DetectChipResult {
    pub chip_type: String,
    pub password_protected: bool,
    pub details: String,
}

/// Outcome of a wipe.
#[derive(Clone, Debug)]
pub struct WipeResult {
    pub success: bool,
    pub message: String,
}

/// Comparison of client and device firmware versions.
#[derive(Clone, Debug)]
pub struct FirmwareCheckResult {
    pub matched: bool,
    pub client_version: String,
    pub device_firmware_version: String,
    pub hardware_variant: String,
    pub firmware_path_exists: bool,
}

/// Progress of a firmware flash.
#[derive(Clone, Debug)]
pub struct FirmwareProgress {
    pub phase: String,
    pub percent: u8,
    pub message: String,
}

/// One clone operation as kept in the history.
#[derive(Clone, Debug)]
pub struct CloneRecord {
    pub id: Option<i64>,
    pub source_type: String,
    pub source_uid: String,
    pub target_type: String,
    pub target_uid: String,
    pub port: String,
    pub success: bool,
    pub timestamp: String,
    pub notes: Option<String>,
}

/// A card identity saved by the user.
#[derive(Clone, Debug)]
pub struct SavedCard {
    pub id: Option<i64>,
    pub name: String,
    pub card_type: String,
    pub frequency: String,
    pub uid: String,
    pub raw: String,
    pub decoded: String,
    pub cloneable: bool,
    pub recommended_blank: String,
    pub created_at: String,
}

/// One line of live tool output for the terminal panel.
#[derive(Clone, Debug)]
pub struct Pm3OutputPayload {
    pub text: String,
    pub is_error: bool,
}

/// Failures reported to callers.
#[derive(Clone, Debug)]
pub enum AppError {
    DeviceNotFound,
    CommandFailed(String),
    NoCardFound,
    WriteFailed(String),
    DatabaseError(String),
    InvalidTransition(String),
    Timeout(String),
}

} // verus!
