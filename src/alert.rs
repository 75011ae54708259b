use vstd::prelude::*;

use crate::request::text_eq;
use crate::sha256::Sha256;

verus! {

/// Status of the extended scan of an alert.
#[derive(Clone, Copy, Debug, PartialEq, Eq)]
pub enum ExtendedScanValues {
    Submitted,
    Skipped,
    Incomplete,
    Complete,
}

impl ExtendedScanValues {
    /// The text that names this value.
    pub open spec fn text(&self) -> Seq<char> {
        match self {
            ExtendedScanValues::Submitted => "submitted"@,
            ExtendedScanValues::Skipped => "skipped"@,
            ExtendedScanValues::Incomplete => "incomplete"@,
            ExtendedScanValues::Complete => "complete"@,
        }
    }

    /// The value that this text names, if any.
    pub open spec fn from_text(t: Seq<char>) -> Option<Self> {
        if t == "submitted"@ {
            Some(ExtendedScanValues::Submitted)
        } else if t == "skipped"@ {
            Some(ExtendedScanValues::Skipped)
        } else if t == "incomplete"@ {
            Some(ExtendedScanValues::Incomplete)
        } else if t == "complete"@ {
            Some(ExtendedScanValues::Complete)
        } else {
            None
        }
    }

    /// The text that names this value.
    pub fn as_str(&self) -> (r: &'static str)
        ensures
            r@ == self.text(),
    {
        match self {
            ExtendedScanValues::Submitted => "submitted",
            ExtendedScanValues::Skipped => "skipped",
            ExtendedScanValues::Incomplete => "incomplete",
            ExtendedScanValues::Complete => "complete",
        }
    }

    /// Read a value from its text (the match is exact).
    pub fn parse(s: &str) -> (r: Option<Self>)
        ensures
            r == Self::from_text(s@),
    {
        if text_eq(s, "submitted") {
            Some(ExtendedScanValues::Submitted)
        } else if text_eq(s, "skipped") {
            Some(ExtendedScanValues::Skipped)
        } else if text_eq(s, "incomplete") {
            Some(ExtendedScanValues::Incomplete)
        } else if text_eq(s, "complete") {
            Some(ExtendedScanValues::Complete)
        } else {
            None
        }
    }
}

/// Verdict on one detailed item.
#[derive(Clone, Copy, Debug, PartialEq, Eq)]
pub enum ItemVerdict {
    Safe,
    Info,
    Suspicious,
    Malicious,
}

impl ItemVerdict {
    /// The text that names this value.
    pub open spec fn text(&self) -> Seq<char> {
        match self {
            ItemVerdict::Safe => "safe"@,
            ItemVerdict::Info => "info"@,
            ItemVerdict::Suspicious => "suspicious"@,
            ItemVerdict::Malicious => "malicious"@,
        }
    }

    /// The value that this text names, if any.
    pub open spec fn from_text(t: Seq<char>) -> Option<Self> {
        if t == "safe"@ {
            Some(ItemVerdict::Safe)
        } else if t == "info"@ {
            Some(ItemVerdict::Info)
        } else if t == "suspicious"@ {
            Some(ItemVerdict::Suspicious)
        } else if t == "malicious"@ {
            Some(ItemVerdict::Malicious)
        } else {
            None
        }
    }

    /// The text that names this value.
    pub fn as_str(&self) -> (r: &'static str)
        ensures
            r@ == self.text(),
    {
        match self {
            ItemVerdict::Safe => "safe",
            ItemVerdict::Info => "info",
            ItemVerdict::Suspicious => "suspicious",
            ItemVerdict::Malicious => "malicious",
        }
    }

    /// Read a value from its text (the match is exact).
    pub fn parse(s: &str) -> (r: Option<Self>)
        ensures
            r == Self::from_text(s@),
    {
        if text_eq(s, "safe") {
            Some(ItemVerdict::Safe)
        } else if text_eq(s, "info") {
            Some(ItemVerdict::Info)
        } else if text_eq(s, "suspicious") {
            Some(ItemVerdict::Suspicious)
        } else if text_eq(s, "malicious") {
            Some(ItemVerdict::Malicious)
        } else {
            None
        }
    }
}

/// Kind of entity behind a workflow event.
#[derive(Clone, Copy, Debug, PartialEq, Eq)]
pub enum EntityType {
    User,
    Workflow,
}

impl EntityType {
    /// The text that names this value.
    pub open spec fn text(&self) -> Seq<char> {
        match self {
            EntityType::User => "user"@,
            EntityType::Workflow => "workflow"@,
        }
    }

    /// The value that this text names, if any.
    pub open spec fn from_text(t: Seq<char>) -> Option<Self> {
        if t == "user"@ {
            Some(EntityType::User)
        } else if t == "workflow"@ {
            Some(EntityType::Workflow)
        } else {
            None
        }
    }

    /// The text that names this value.
    pub fn as_str(&self) -> (r: &'static str)
        ensures
            r@ == self.text(),
    {
        match self {
            EntityType::User => "user",
            EntityType::Workflow => "workflow",
        }
    }

    /// Read a value from its text (the match is exact).
    pub fn parse(s: &str) -> (r: Option<Self>)
        ensures
            r == Self::from_text(s@),
    {
        if text_eq(s, "user") {
            Some(EntityType::User)
        } else if text_eq(s, "workflow") {
            Some(EntityType::Workflow)
        } else {
            None
        }
    }
}

/// Sub-type of a detailed item.
#[derive(Clone, Copy, Debug, PartialEq, Eq)]
pub enum Subtype {
    Exp,
    Cfg,
    Ob,
    Imp,
    Ta,
}

impl Subtype {
    /// The text that names this value.
    pub open spec fn text(&self) -> Seq<char> {
        match self {
            Subtype::Exp => "EXP"@,
            Subtype::Cfg => "CFG"@,
            Subtype::Ob => "OB"@,
            Subtype::Imp => "IMP"@,
            Subtype::Ta => "TA"@,
        }
    }

    /// The value that this text names, if any.
    pub open spec fn from_text(t: Seq<char>) -> Option<Self> {
        if t == "EXP"@ {
            Some(Subtype::Exp)
        } else if t == "CFG"@ {
            Some(Subtype::Cfg)
        } else if t == "OB"@ {
            Some(Subtype::Ob)
        } else if t == "IMP"@ {
            Some(Subtype::Imp)
        } else if t == "TA"@ {
            Some(Subtype::Ta)
        } else {
            None
        }
    }

    /// The text that names this value.
    pub fn as_str(&self) -> (r: &'static str)
        ensures
            r@ == self.text(),
    {
        match self {
            Subtype::Exp => "EXP",
            Subtype::Cfg => "CFG",
            Subtype::Ob => "OB",
            Subtype::Imp => "IMP",
            Subtype::Ta => "TA",
        }
    }

    /// Read a value from its text (the match is exact).
    pub fn parse(s: &str) -> (r: Option<Self>)
        ensures
            r == Self::from_text(s@),
    {
        if text_eq(s, "EXP") {
            Some(Subtype::Exp)
        } else if text_eq(s, "CFG") {
            Some(Subtype::Cfg)
        } else if text_eq(s, "OB") {
            Some(Subtype::Ob)
        } else if text_eq(s, "IMP") {
            Some(Subtype::Imp)
        } else if text_eq(s, "TA") {
            Some(Subtype::Ta)
        } else {
            None
        }
    }
}
/// Assemblyline Results Block
pub struct DetailedItem {
    /// Type of data that generated this item
    pub item_type: String,
    /// Value of the item
    pub value: String,
    /// Verdict of the item
    pub verdict: ItemVerdict,
    /// Sub-type of the item
    pub subtype: Option<Subtype>,
}

/// Assemblyline Detailed result block
pub struct DetailedResults {
    /// List of detailed Att&ck patterns
    pub attack_pattern: Vec<DetailedItem>,
    /// List of detailed Att&ck categories
    pub attack_category: Vec<DetailedItem>,
    /// List of detailed attribution
    pub attrib: Vec<DetailedItem>,
    /// List of detailed AV hits
    pub av: Vec<DetailedItem>,
    /// List of detailed behaviors for the alert
    pub behavior: Vec<DetailedItem>,
    /// List of detailed domains
    pub domain: Vec<DetailedItem>,
    /// List of detailed heuristics
    pub heuristic: Vec<DetailedItem>,
    /// List of detailed IPs
    pub ip: Vec<DetailedItem>,
    /// List of detailed URIs
    pub uri: Vec<DetailedItem>,
    /// List of detailed YARA rule hits
    pub yara: Vec<DetailedItem>,
}

/// File Block Associated to the Top-Level/Root File of Submission
pub struct File {
    /// MD5 hash of file
    pub md5: String,
    /// Name of the file
    pub name: String,
    /// SHA1 hash of the file
    pub sha1: String,
    /// SHA256 hash of the file
    pub sha256: Sha256,
    /// Size of the file in bytes
    pub size: u64,
    /// Type of file as identified by Assemblyline
    pub file_type: String,
}

/// Verdict Block of Submission
pub struct Verdict {
    /// List of users that claim submission as malicious
    pub malicious: Vec<String>,
    /// List of users that claim submission as non-malicious
    pub non_malicious: Vec<String>,
}

impl Default for Verdict {
    fn default() -> (r: Self)
        ensures
            r.malicious@.len() == 0,
            r.non_malicious@.len() == 0,
    {
        Verdict { malicious: Vec::new(), non_malicious: Vec::new() }
    }
}

/// Heuristic Block
pub struct Heuristic {
    /// List of related Heuristic names
    pub name: Vec<String>,
}

/// ATT&CK Block
pub struct Attack {
    /// List of related ATT&CK patterns
    pub pattern: Vec<String>,
    /// List of related ATT&CK categories
    pub category: Vec<String>,
}

} // verus!
