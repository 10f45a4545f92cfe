use vstd::prelude::*;
use vstd::string::*;
use crate::error::AppError;
use crate::text::{lowercase_of, same_text, to_lowercase};

verus! {

/// The partition of the ticket sequence space: each queue type numbers its
/// tickets independently.
#[derive(Clone, Copy, Debug, PartialEq, Eq, Structural)]
pub enum VisitType {
    COMMON,
    BPJS,
}

/// Where a queue ticket stands in its lifecycle.
#[derive(Clone, Copy, Debug, PartialEq, Eq, Structural)]
pub enum TicketStatus {
    Waiting,
    Called,
    Done,
    Cancelled,
    /// Reserved: no transition produces it.
    Skipped,
}

/// The status of a visit intent, which follows that of its ticket when the
/// patient is called and when triage completes.
#[derive(Clone, Copy, Debug, PartialEq, Eq, Structural)]
pub enum IntentStatus {
    Pending,
    Waiting,
    Called,
    Done,
    Cancelled,
}

#[derive(Clone, Copy, Debug, PartialEq, Eq, Structural)]
pub enum Gender {
    Male,
    Female,
}

#[derive(Clone, Copy, Debug, PartialEq, Eq, Structural)]
pub enum BloodType {
    APlus,
    AMinus,
    BPlus,
    BMinus,
    ABPlus,
    ABMinus,
    OPlus,
    OMinus,
}

/// The state of a referral document in its own pipeline.
#[derive(Clone, Copy, Debug, PartialEq, Eq, Structural)]
pub enum DocumentStatus {
    Waiting,
    Scanning,
    Uploaded,
    Failed,
}

/// A calendar date as year, month and day.
#[derive(Clone, Copy, Debug, PartialEq, Eq, Structural)]
pub struct BirthDate {
    pub year: i32,
    pub month: u32,
    pub day: u32,
}

/// The format in which an intake request spells a date of birth: year, month
/// and day with hyphens between them.
pub const BIRTH_DATE_FORMAT: &'static str = "%Y-%m-%d";

/// The year, month and day that `chrono` reads from a text in a format, where
/// it reads a date.
pub uninterp spec fn date_read_as(text: Seq<char>, format: Seq<char>) -> Option<(i32, u32, u32)>;

/// Calls `chrono::NaiveDate::parse_from_str` and takes the date apart into
/// year, month and day. The outcome depends on the text and the format
/// alone: it is named, and nothing more is claimed of it.
#[verifier::external_body]
fn read_date(text: &str, format: &str) -> (date: Option<(i32, u32, u32)>)
    ensures
        date == date_read_as(text@, format@),
{
    match ::chrono::NaiveDate::parse_from_str(text, format) {
        Ok(d) => Some(
            (
                ::chrono::Datelike::year(&d),
                ::chrono::Datelike::month(&d),
                ::chrono::Datelike::day(&d),
            ),
        ),
        Err(_) => None,
    }
}

impl BirthDate {
    /// The month is one of the twelve and the day one of at most thirty-one.
    pub open spec fn wf(self) -> bool {
        1 <= self.month <= 12 && 1 <= self.day <= 31
    }

    /// The date of birth made of the parts that were read, if any were and
    /// they are a month and a day.
    pub open spec fn of_parts(parts: Option<(i32, u32, u32)>) -> Option<BirthDate> {
        match parts {
            Some((year, month, day)) => if 1 <= month <= 12 && 1 <= day <= 31 {
                Some(BirthDate { year, month, day })
            } else {
                None
            },
            None => None,
        }
    }

    /// Makes a date of birth of the parts that were read, if any were and
    /// they are a month and a day.
    pub fn from_parts(parts: Option<(i32, u32, u32)>) -> (date: Option<BirthDate>)
        ensures
            date == BirthDate::of_parts(parts),
            date matches Some(d) ==> d.wf(),
    {
        match parts {
            Some((year, month, day)) => {
                if 1 <= month && month <= 12 && 1 <= day && day <= 31 {
                    Some(BirthDate { year, month, day })
                } else {
                    None
                }
            },
            None => None,
        }
    }

    /// Reads a date of birth from the spelling used in an intake request.
    pub fn parse(text: &str) -> (date: Option<BirthDate>)
        ensures
            date == BirthDate::of_parts(date_read_as(text@, BIRTH_DATE_FORMAT@)),
            date matches Some(d) ==> d.wf(),
    {
        BirthDate::from_parts(read_date(text, BIRTH_DATE_FORMAT))
    }
}

impl VisitType {
    /// The canonical name of the queue type.
    pub open spec fn name(self) -> Seq<char> {
        match self {
            VisitType::COMMON => "COMMON"@,
            VisitType::BPJS => "BPJS"@,
        }
    }

    /// The queue type that a text spells, in one of the accepted spellings.
    pub open spec fn spelled(text: Seq<char>) -> Option<VisitType> {
        if text == "common"@ || text == "Common"@ || text == "COMMON"@ {
            Some(VisitType::COMMON)
        } else if text == "bpjs"@ || text == "BPJS"@ {
            Some(VisitType::BPJS)
        } else {
            None
        }
    }

    /// The queue type that a lower-case text names.
    pub open spec fn named_in_lowercase(lower: Seq<char>) -> Option<VisitType> {
        if lower == "bpjs"@ {
            Some(VisitType::BPJS)
        } else if lower == "common"@ {
            Some(VisitType::COMMON)
        } else {
            None
        }
    }

    pub fn to_string(&self) -> (text: String)
        ensures
            text@ == self.name(),
    {
        match self {
            VisitType::COMMON => String::from_str("COMMON"),
            VisitType::BPJS => String::from_str("BPJS"),
        }
    }

    /// Reads a queue type from the spelling used in an intake request.
    pub fn parse(text: &str) -> (found: Option<VisitType>)
        ensures
            found == VisitType::spelled(text@),
    {
        if same_text(text, "common") || same_text(text, "Common") || same_text(text, "COMMON") {
            Some(VisitType::COMMON)
        } else if same_text(text, "bpjs") || same_text(text, "BPJS") {
            Some(VisitType::BPJS)
        } else {
            None
        }
    }
}

/// The message that rejects a text naming no queue type.
pub open spec fn unknown_visit_type_message(lower: Seq<char>) -> Seq<char> {
    "Unknown visit type: "@ + lower
}

/// Reads a queue type from a text already in lower case: `bpjs` or `common`.
/// Any other text is a bad request whose message names it.
pub fn visit_type_from_lowercase(lower: &str) -> (parsed: Result<VisitType, AppError>)
    ensures
        match parsed {
            Ok(vt) => VisitType::named_in_lowercase(lower@) == Some(vt),
            Err(AppError::BadRequest(m)) => VisitType::named_in_lowercase(lower@) is None && m@
                == unknown_visit_type_message(lower@),
            Err(_) => false,
        },
{
    if same_text(lower, "bpjs") {
        Ok(VisitType::BPJS)
    } else if same_text(lower, "common") {
        Ok(VisitType::COMMON)
    } else {
        Err(AppError::BadRequest(String::from_str("Unknown visit type: ").concat(lower)))
    }
}

/// Reads a queue type from a path segment, whatever its letter case.
pub fn parse_visit_type(text: &str) -> (parsed: Result<VisitType, AppError>)
    ensures
        match parsed {
            Ok(vt) => VisitType::named_in_lowercase(lowercase_of(text@)) == Some(vt),
            Err(AppError::BadRequest(m)) => VisitType::named_in_lowercase(lowercase_of(text@))
                is None && m@ == unknown_visit_type_message(lowercase_of(text@)),
            Err(_) => false,
        },
{
    let lower = to_lowercase(text);
    visit_type_from_lowercase(lower.as_str())
}

impl TicketStatus {
    pub open spec fn name(self) -> Seq<char> {
        match self {
            TicketStatus::Waiting => "WAITING"@,
            TicketStatus::Called => "CALLED"@,
            TicketStatus::Done => "DONE"@,
            TicketStatus::Cancelled => "CANCELLED"@,
            TicketStatus::Skipped => "SKIPPED"@,
        }
    }

    pub fn to_string(&self) -> (text: String)
        ensures
            text@ == self.name(),
    {
        match self {
            TicketStatus::Waiting => String::from_str("WAITING"),
            TicketStatus::Called => String::from_str("CALLED"),
            TicketStatus::Done => String::from_str("DONE"),
            TicketStatus::Cancelled => String::from_str("CANCELLED"),
            TicketStatus::Skipped => String::from_str("SKIPPED"),
        }
    }

    /// A waiting ticket, and only a waiting ticket, can be called.
    pub open spec fn can_be_called(self) -> bool {
        self == TicketStatus::Waiting
    }

    /// Triage can complete only for a ticket that is being called.
    pub open spec fn can_complete(self) -> bool {
        self == TicketStatus::Called
    }

    /// A ticket can be cancelled unless it was called or is done.
    pub open spec fn can_be_cancelled(self) -> bool {
        self != TicketStatus::Called && self != TicketStatus::Done
    }

    /// DONE and CANCELLED end the lifecycle.
    pub open spec fn is_terminal(self) -> bool {
        self == TicketStatus::Done || self == TicketStatus::Cancelled
    }
}

impl IntentStatus {
    pub open spec fn name(self) -> Seq<char> {
        match self {
            IntentStatus::Pending => "PENDING"@,
            IntentStatus::Waiting => "WAITING"@,
            IntentStatus::Called => "CALLED"@,
            IntentStatus::Done => "DONE"@,
            IntentStatus::Cancelled => "CANCELLED"@,
        }
    }

    pub fn to_string(&self) -> (text: String)
        ensures
            text@ == self.name(),
    {
        match self {
            IntentStatus::Pending => String::from_str("PENDING"),
            IntentStatus::Waiting => String::from_str("WAITING"),
            IntentStatus::Called => String::from_str("CALLED"),
            IntentStatus::Done => String::from_str("DONE"),
            IntentStatus::Cancelled => String::from_str("CANCELLED"),
        }
    }
}

impl DocumentStatus {
    pub open spec fn name(self) -> Seq<char> {
        match self {
            DocumentStatus::Waiting => "WAITING"@,
            DocumentStatus::Scanning => "SCANNING"@,
            DocumentStatus::Uploaded => "UPLOADED"@,
            DocumentStatus::Failed => "FAILED"@,
        }
    }

    pub fn to_string(&self) -> (text: String)
        ensures
            text@ == self.name(),
    {
        match self {
            DocumentStatus::Waiting => String::from_str("WAITING"),
            DocumentStatus::Scanning => String::from_str("SCANNING"),
            DocumentStatus::Uploaded => String::from_str("UPLOADED"),
            DocumentStatus::Failed => String::from_str("FAILED"),
        }
    }
}

impl Gender {
    pub open spec fn name(self) -> Seq<char> {
        match self {
            Gender::Male => "Male"@,
            Gender::Female => "Female"@,
        }
    }

    /// The gender that a text spells, in one of the accepted spellings.
    pub open spec fn spelled(text: Seq<char>) -> Option<Gender> {
        if text == "male"@ || text == "m"@ || text == "Male"@ || text == "MALE"@ {
            Some(Gender::Male)
        } else if text == "female"@ || text == "f"@ || text == "Female"@ || text == "FEMALE"@ {
            Some(Gender::Female)
        } else {
            None
        }
    }

    pub fn to_string(&self) -> (text: String)
        ensures
            text@ == self.name(),
    {
        match self {
            Gender::Male => String::from_str("Male"),
            Gender::Female => String::from_str("Female"),
        }
    }

    /// Reads a gender from the spelling used in an intake request.
    pub fn parse(text: &str) -> (found: Option<Gender>)
        ensures
            found == Gender::spelled(text@),
    {
        if same_text(text, "male") || same_text(text, "m") || same_text(text, "Male")
            || same_text(text, "MALE") {
            Some(Gender::Male)
        } else if same_text(text, "female") || same_text(text, "f") || same_text(text, "Female")
            || same_text(text, "FEMALE") {
            Some(Gender::Female)
        } else {
            None
        }
    }
}

impl BloodType {
    pub open spec fn name(self) -> Seq<char> {
        match self {
            BloodType::APlus => "APlus"@,
            BloodType::AMinus => "AMinus"@,
            BloodType::BPlus => "BPlus"@,
            BloodType::BMinus => "BMinus"@,
            BloodType::ABPlus => "ABPlus"@,
            BloodType::ABMinus => "ABMinus"@,
            BloodType::OPlus => "OPlus"@,
            BloodType::OMinus => "OMinus"@,
        }
    }

    /// The blood type that a lower-case text names, by sign or by word.
    pub open spec fn named_in_lowercase(lower: Seq<char>) -> Option<BloodType> {
        if lower == "a+"@ || lower == "aplus"@ {
            Some(BloodType::APlus)
        } else if lower == "a-"@ || lower == "aminus"@ {
            Some(BloodType::AMinus)
        } else if lower == "b+"@ || lower == "bplus"@ {
            Some(BloodType::BPlus)
        } else if lower == "b-"@ || lower == "bminus"@ {
            Some(BloodType::BMinus)
        } else if lower == "ab+"@ || lower == "abplus"@ {
            Some(BloodType::ABPlus)
        } else if lower == "ab-"@ || lower == "abminus"@ {
            Some(BloodType::ABMinus)
        } else if lower == "o+"@ || lower == "oplus"@ {
            Some(BloodType::OPlus)
        } else if lower == "o-"@ || lower == "ominus"@ {
            Some(BloodType::OMinus)
        } else {
            None
        }
    }

    pub fn to_string(&self) -> (text: String)
        ensures
            text@ == self.name(),
    {
        match self {
            BloodType::APlus => String::from_str("APlus"),
            BloodType::AMinus => String::from_str("AMinus"),
            BloodType::BPlus => String::from_str("BPlus"),
            BloodType::BMinus => String::from_str("BMinus"),
            BloodType::ABPlus => String::from_str("ABPlus"),
            BloodType::ABMinus => String::from_str("ABMinus"),
            BloodType::OPlus => String::from_str("OPlus"),
            BloodType::OMinus => String::from_str("OMinus"),
        }
    }

    /// Reads a blood type from a text already in lower case.
    pub fn from_lowercase(lower: &str) -> (found: Option<BloodType>)
        ensures
            found == BloodType::named_in_lowercase(lower@),
    {
        if same_text(lower, "a+") || same_text(lower, "aplus") {
            Some(BloodType::APlus)
        } else if same_text(lower, "a-") || same_text(lower, "aminus") {
            Some(BloodType::AMinus)
        } else if same_text(lower, "b+") || same_text(lower, "bplus") {
            Some(BloodType::BPlus)
        } else if same_text(lower, "b-") || same_text(lower, "bminus") {
            Some(BloodType::BMinus)
        } else if same_text(lower, "ab+") || same_text(lower, "abplus") {
            Some(BloodType::ABPlus)
        } else if same_text(lower, "ab-") || same_text(lower, "abminus") {
            Some(BloodType::ABMinus)
        } else if same_text(lower, "o+") || same_text(lower, "oplus") {
            Some(BloodType::OPlus)
        } else if same_text(lower, "o-") || same_text(lower, "ominus") {
            Some(BloodType::OMinus)
        } else {
            None
        }
    }

    /// Reads a blood type from the spelling used in an intake request,
    /// whatever its letter case.
    pub fn parse(text: &str) -> (found: Option<BloodType>)
        ensures
            found == BloodType::named_in_lowercase(lowercase_of(text@)),
    {
        let lower = to_lowercase(text);
        BloodType::from_lowercase(lower.as_str())
    }
}

impl VisitType {
    /// The queue type that carries exactly the given name, if one does.
    pub fn from_name(text: &str) -> (found: Option<VisitType>)
        ensures
            match found {
                Some(v) => v.name() == text@,
                None => forall|v: VisitType| v.name() != text@,
            },
    {
        if same_text(text, "COMMON") {
            Some(VisitType::COMMON)
        } else if same_text(text, "BPJS") {
            Some(VisitType::BPJS)
        } else {
            None
        }
    }

    /// No two of them share a name, so a name stands for one only.
    pub proof fn names_are_distinct(a: VisitType, b: VisitType)
        requires
            a != b,
        ensures
            a.name() != b.name(),
    {
        reveal_strlit("COMMON");
        reveal_strlit("BPJS");
        assert(VisitType::COMMON.name()[0] == 'C' && VisitType::COMMON.name()[1] == 'O' && VisitType::COMMON.name().len() == 6);
        assert(VisitType::BPJS.name()[0] == 'B' && VisitType::BPJS.name()[1] == 'P' && VisitType::BPJS.name().len() == 4);
    }
}

impl TicketStatus {
    /// The status that carries exactly the given name, if one does.
    pub fn from_name(text: &str) -> (found: Option<TicketStatus>)
        ensures
            match found {
                Some(v) => v.name() == text@,
                None => forall|v: TicketStatus| v.name() != text@,
            },
    {
        if same_text(text, "WAITING") {
            Some(TicketStatus::Waiting)
        } else if same_text(text, "CALLED") {
            Some(TicketStatus::Called)
        } else if same_text(text, "DONE") {
            Some(TicketStatus::Done)
        } else if same_text(text, "CANCELLED") {
            Some(TicketStatus::Cancelled)
        } else if same_text(text, "SKIPPED") {
            Some(TicketStatus::Skipped)
        } else {
            None
        }
    }

    /// No two of them share a name, so a name stands for one only.
    pub proof fn names_are_distinct(a: TicketStatus, b: TicketStatus)
        requires
            a != b,
        ensures
            a.name() != b.name(),
    {
        reveal_strlit("WAITING");
        reveal_strlit("CALLED");
        reveal_strlit("DONE");
        reveal_strlit("CANCELLED");
        reveal_strlit("SKIPPED");
        assert(TicketStatus::Waiting.name()[0] == 'W' && TicketStatus::Waiting.name()[1] == 'A' && TicketStatus::Waiting.name().len() == 7);
        assert(TicketStatus::Called.name()[0] == 'C' && TicketStatus::Called.name()[1] == 'A' && TicketStatus::Called.name().len() == 6);
        assert(TicketStatus::Done.name()[0] == 'D' && TicketStatus::Done.name()[1] == 'O' && TicketStatus::Done.name().len() == 4);
        assert(TicketStatus::Cancelled.name()[0] == 'C' && TicketStatus::Cancelled.name()[1] == 'A' && TicketStatus::Cancelled.name().len() == 9);
        assert(TicketStatus::Skipped.name()[0] == 'S' && TicketStatus::Skipped.name()[1] == 'K' && TicketStatus::Skipped.name().len() == 7);
    }
}

impl IntentStatus {
    /// The status that carries exactly the given name, if one does.
    pub fn from_name(text: &str) -> (found: Option<IntentStatus>)
        ensures
            match found {
                Some(v) => v.name() == text@,
                None => forall|v: IntentStatus| v.name() != text@,
            },
    {
        if same_text(text, "PENDING") {
            Some(IntentStatus::Pending)
        } else if same_text(text, "WAITING") {
            Some(IntentStatus::Waiting)
        } else if same_text(text, "CALLED") {
            Some(IntentStatus::Called)
        } else if same_text(text, "DONE") {
            Some(IntentStatus::Done)
        } else if same_text(text, "CANCELLED") {
            Some(IntentStatus::Cancelled)
        } else {
            None
        }
    }

    /// No two of them share a name, so a name stands for one only.
    pub proof fn names_are_distinct(a: IntentStatus, b: IntentStatus)
        requires
            a != b,
        ensures
            a.name() != b.name(),
    {
        reveal_strlit("PENDING");
        reveal_strlit("WAITING");
        reveal_strlit("CALLED");
        reveal_strlit("DONE");
        reveal_strlit("CANCELLED");
        assert(IntentStatus::Pending.name()[0] == 'P' && IntentStatus::Pending.name()[1] == 'E' && IntentStatus::Pending.name().len() == 7);
        assert(IntentStatus::Waiting.name()[0] == 'W' && IntentStatus::Waiting.name()[1] == 'A' && IntentStatus::Waiting.name().len() == 7);
        assert(IntentStatus::Called.name()[0] == 'C' && IntentStatus::Called.name()[1] == 'A' && IntentStatus::Called.name().len() == 6);
        assert(IntentStatus::Done.name()[0] == 'D' && IntentStatus::Done.name()[1] == 'O' && IntentStatus::Done.name().len() == 4);
        assert(IntentStatus::Cancelled.name()[0] == 'C' && IntentStatus::Cancelled.name()[1] == 'A' && IntentStatus::Cancelled.name().len() == 9);
    }
}

impl DocumentStatus {
    /// The status that carries exactly the given name, if one does.
    pub fn from_name(text: &str) -> (found: Option<DocumentStatus>)
        ensures
            match found {
                Some(v) => v.name() == text@,
                None => forall|v: DocumentStatus| v.name() != text@,
            },
    {
        if same_text(text, "WAITING") {
            Some(DocumentStatus::Waiting)
        } else if same_text(text, "SCANNING") {
            Some(DocumentStatus::Scanning)
        } else if same_text(text, "UPLOADED") {
            Some(DocumentStatus::Uploaded)
        } else if same_text(text, "FAILED") {
            Some(DocumentStatus::Failed)
        } else {
            None
        }
    }

    /// No two of them share a name, so a name stands for one only.
    pub proof fn names_are_distinct(a: DocumentStatus, b: DocumentStatus)
        requires
            a != b,
        ensures
            a.name() != b.name(),
    {
        reveal_strlit("WAITING");
        reveal_strlit("SCANNING");
        reveal_strlit("UPLOADED");
        reveal_strlit("FAILED");
        assert(DocumentStatus::Waiting.name()[0] == 'W' && DocumentStatus::Waiting.name()[1] == 'A' && DocumentStatus::Waiting.name().len() == 7);
        assert(DocumentStatus::Scanning.name()[0] == 'S' && DocumentStatus::Scanning.name()[1] == 'C' && DocumentStatus::Scanning.name().len() == 8);
        assert(DocumentStatus::Uploaded.name()[0] == 'U' && DocumentStatus::Uploaded.name()[1] == 'P' && DocumentStatus::Uploaded.name().len() == 8);
        assert(DocumentStatus::Failed.name()[0] == 'F' && DocumentStatus::Failed.name()[1] == 'A' && DocumentStatus::Failed.name().len() == 6);
    }
}

impl Gender {
    /// The gender that carries exactly the given name, if one does.
    pub fn from_name(text: &str) -> (found: Option<Gender>)
        ensures
            match found {
                Some(v) => v.name() == text@,
                None => forall|v: Gender| v.name() != text@,
            },
    {
        if same_text(text, "Male") {
            Some(Gender::Male)
        } else if same_text(text, "Female") {
            Some(Gender::Female)
        } else {
            None
        }
    }

    /// No two of them share a name, so a name stands for one only.
    pub proof fn names_are_distinct(a: Gender, b: Gender)
        requires
            a != b,
        ensures
            a.name() != b.name(),
    {
        reveal_strlit("Male");
        reveal_strlit("Female");
        assert(Gender::Male.name()[0] == 'M' && Gender::Male.name()[1] == 'a' && Gender::Male.name().len() == 4);
        assert(Gender::Female.name()[0] == 'F' && Gender::Female.name()[1] == 'e' && Gender::Female.name().len() == 6);
    }
}

impl BloodType {
    /// The blood type that carries exactly the given name, if one does.
    pub fn from_name(text: &str) -> (found: Option<BloodType>)
        ensures
            match found {
                Some(v) => v.name() == text@,
                None => forall|v: BloodType| v.name() != text@,
            },
    {
        if same_text(text, "APlus") {
            Some(BloodType::APlus)
        } else if same_text(text, "AMinus") {
            Some(BloodType::AMinus)
        } else if same_text(text, "BPlus") {
            Some(BloodType::BPlus)
        } else if same_text(text, "BMinus") {
            Some(BloodType::BMinus)
        } else if same_text(text, "ABPlus") {
            Some(BloodType::ABPlus)
        } else if same_text(text, "ABMinus") {
            Some(BloodType::ABMinus)
        } else if same_text(text, "OPlus") {
            Some(BloodType::OPlus)
        } else if same_text(text, "OMinus") {
            Some(BloodType::OMinus)
        } else {
            None
        }
    }

    /// No two of them share a name, so a name stands for one only.
    pub proof fn names_are_distinct(a: BloodType, b: BloodType)
        requires
            a != b,
        ensures
            a.name() != b.name(),
    {
        reveal_strlit("APlus");
        reveal_strlit("AMinus");
        reveal_strlit("BPlus");
        reveal_strlit("BMinus");
        reveal_strlit("ABPlus");
        reveal_strlit("ABMinus");
        reveal_strlit("OPlus");
        reveal_strlit("OMinus");
        assert(BloodType::APlus.name()[0] == 'A' && BloodType::APlus.name()[1] == 'P' && BloodType::APlus.name().len() == 5);
        assert(BloodType::AMinus.name()[0] == 'A' && BloodType::AMinus.name()[1] == 'M' && BloodType::AMinus.name().len() == 6);
        assert(BloodType::BPlus.name()[0] == 'B' && BloodType::BPlus.name()[1] == 'P' && BloodType::BPlus.name().len() == 5);
        assert(BloodType::BMinus.name()[0] == 'B' && BloodType::BMinus.name()[1] == 'M' && BloodType::BMinus.name().len() == 6);
        assert(BloodType::ABPlus.name()[0] == 'A' && BloodType::ABPlus.name()[1] == 'B' && BloodType::ABPlus.name().len() == 6);
        assert(BloodType::ABMinus.name()[0] == 'A' && BloodType::ABMinus.name()[1] == 'B' && BloodType::ABMinus.name().len() == 7);
        assert(BloodType::OPlus.name()[0] == 'O' && BloodType::OPlus.name()[1] == 'P' && BloodType::OPlus.name().len() == 5);
        assert(BloodType::OMinus.name()[0] == 'O' && BloodType::OMinus.name()[1] == 'M' && BloodType::OMinus.name().len() == 6);
    }
}

/// An intake request: who the patient is and which queue they join.
#[derive(Debug)]
pub struct CreateTriageRequest {
    pub name: String,
    pub date_of_birth: BirthDate,
    pub national_id: String,
    pub bpjs_number: Option<String>,
    pub gender: Gender,
    pub emergency_contact_name: String,
    pub emergency_contact_phone: String,
    pub emergency_contact_relationship: String,
    pub blood_type: BloodType,
    pub known_allergies: Option<String>,
    pub visit_type: VisitType,
}

/// A registered patient. The national identity number identifies at most one
/// patient.
#[derive(Debug)]
pub struct Patient {
    pub id: i32,
    pub name: String,
    pub date_of_birth: BirthDate,
    pub national_id: String,
    pub bpjs_number: Option<String>,
    pub gender: Gender,
    pub emergency_contact_name: String,
    pub emergency_contact_phone: String,
    pub emergency_contact_relationship: String,
    pub blood_type: BloodType,
    pub known_allergies: Option<String>,
    pub created_at: i64,
    pub updated_at: i64,
}

/// One intake event of a patient. Times are microseconds since the Unix
/// epoch.
#[derive(Clone, Copy, Debug, PartialEq, Eq, Structural)]
pub struct VisitIntent {
    pub id: i32,
    pub patient_id: i32,
    pub visit_type: VisitType,
    pub referral_document_id: Option<i32>,
    pub status: IntentStatus,
    pub created_at: i64,
    pub updated_at: i64,
}

/// The unit that is scheduled: one per visit intent, numbered within its
/// queue type. Times are microseconds since the Unix epoch.
#[derive(Clone, Copy, Debug, PartialEq, Eq, Structural)]
pub struct QueueTicket {
    pub id: i32,
    pub visit_intent_id: i32,
    pub queue_number: i32,
    pub queue_type: VisitType,
    pub status: TicketStatus,
    pub called_at: Option<i64>,
    pub done_at: Option<i64>,
    pub created_at: i64,
}

/// A referral file stored for a visit intent.
#[derive(Debug)]
pub struct ReferralDocument {
    pub id: i32,
    pub patients_id: i32,
    pub visit_intent_id: i32,
    pub file_name: String,
    pub file_size: i64,
    pub status: DocumentStatus,
    pub referral_document_url: String,
    pub scanned_at: Option<i64>,
    pub created_at: i64,
    pub updated_at: i64,
}

/// A copy of an optional text.
pub fn duplicate_optional(text: &Option<String>) -> (copy: Option<String>)
    ensures
        copy == *text,
{
    match text {
        Some(t) => Some(t.clone()),
        None => None,
    }
}

impl Patient {
    /// The patient that an intake request describes, under the given
    /// identifier and created at the given time. A request without known
    /// allergies gives a patient with an empty allergies text.
    pub open spec fn describes(&self, id: int, request: &CreateTriageRequest, now: i64) -> bool {
        &&& self.id == id
        &&& self.name == request.name
        &&& self.date_of_birth == request.date_of_birth
        &&& self.national_id == request.national_id
        &&& self.bpjs_number == request.bpjs_number
        &&& self.gender == request.gender
        &&& self.emergency_contact_name == request.emergency_contact_name
        &&& self.emergency_contact_phone == request.emergency_contact_phone
        &&& self.emergency_contact_relationship == request.emergency_contact_relationship
        &&& self.blood_type == request.blood_type
        &&& match (self.known_allergies, request.known_allergies) {
            (Some(mine), Some(theirs)) => mine == theirs,
            (Some(mine), None) => mine@ == Seq::<char>::empty(),
            (None, _) => false,
        }
        &&& self.created_at == now
        &&& self.updated_at == now
    }

    /// Builds the patient that an intake request describes.
    pub fn from_request(id: i32, request: &CreateTriageRequest, now: i64) -> (patient: Patient)
        ensures
            patient.describes(id as int, request, now),
    {
        let known_allergies = match &request.known_allergies {
            Some(text) => Some(text.clone()),
            None => Some(String::new()),
        };
        Patient {
            id,
            name: request.name.clone(),
            date_of_birth: request.date_of_birth,
            national_id: request.national_id.clone(),
            bpjs_number: duplicate_optional(&request.bpjs_number),
            gender: request.gender,
            emergency_contact_name: request.emergency_contact_name.clone(),
            emergency_contact_phone: request.emergency_contact_phone.clone(),
            emergency_contact_relationship: request.emergency_contact_relationship.clone(),
            blood_type: request.blood_type,
            known_allergies,
            created_at: now,
            updated_at: now,
        }
    }

    /// A copy with the same fields.
    pub fn duplicate(&self) -> (copy: Patient)
        ensures
            copy == *self,
    {
        Patient {
            id: self.id,
            name: self.name.clone(),
            date_of_birth: self.date_of_birth,
            national_id: self.national_id.clone(),
            bpjs_number: duplicate_optional(&self.bpjs_number),
            gender: self.gender,
            emergency_contact_name: self.emergency_contact_name.clone(),
            emergency_contact_phone: self.emergency_contact_phone.clone(),
            emergency_contact_relationship: self.emergency_contact_relationship.clone(),
            blood_type: self.blood_type,
            known_allergies: duplicate_optional(&self.known_allergies),
            created_at: self.created_at,
            updated_at: self.updated_at,
        }
    }
}

impl QueueTicket {
    /// The ticket once its patient is called at the given time.
    pub open spec fn called(self, now: i64) -> QueueTicket {
        QueueTicket { status: TicketStatus::Called, called_at: Some(now), ..self }
    }

    /// The ticket once triage completes at the given time.
    pub open spec fn completed(self, now: i64) -> QueueTicket {
        QueueTicket { status: TicketStatus::Done, done_at: Some(now), ..self }
    }

    /// The ticket once it is cancelled.
    pub open spec fn cancelled(self) -> QueueTicket {
        QueueTicket { status: TicketStatus::Cancelled, ..self }
    }

    /// A called ticket has the time of the call, and a finished one also the
    /// time it was done.
    pub open spec fn times_recorded(self) -> bool {
        &&& (self.status == TicketStatus::Called || self.status == TicketStatus::Done)
            ==> self.called_at is Some
        &&& self.status == TicketStatus::Done ==> self.done_at is Some
    }
}

impl VisitIntent {
    /// The intent with another status, touched at the given time.
    pub open spec fn with_status(self, status: IntentStatus, now: i64) -> VisitIntent {
        VisitIntent { status, updated_at: now, ..self }
    }
}

} // verus!
