use vstd::prelude::*;
use vstd::string::*;
use crate::error::{ApiFieldError, AppError};
use crate::model::CreateTriageRequest;

verus! {

/// The pattern of an emergency contact phone: an optional plus sign, a digit
/// from 1 to 9, then one to fourteen digits.
pub const PHONE_PATTERN: &'static str = r"^\+?[1-9]\d{1,14}$";

/// Whether the `regex` crate finds a match of a pattern in a text; `None`
/// where it does not accept the pattern.
pub uninterp spec fn regex_match_of(pattern: Seq<char>, text: Seq<char>) -> Option<bool>;

/// Compiles the pattern with `regex::Regex::new` and searches the text with
/// `Regex::is_match`. The outcome depends on the pattern and the text alone:
/// it is named, and nothing more is claimed of it.
#[verifier::external_body]
fn regex_is_match(pattern: &str, text: &str) -> (matched: Option<bool>)
    ensures
        matched == regex_match_of(pattern@, text@),
{
    match ::regex::Regex::new(pattern) {
        Ok(re) => Some(re.is_match(text)),
        Err(_) => None,
    }
}

/// A rule on the fields of an intake request.
#[derive(Clone, Copy, Debug, PartialEq, Eq, Structural)]
pub enum Rule {
    Name,
    NationalId,
    BpjsNumber,
    ContactName,
    ContactPhone,
    ContactRelationship,
}

impl Rule {
    /// The field that the rule is about.
    pub open spec fn field_name(self) -> Seq<char> {
        match self {
            Rule::Name => "name"@,
            Rule::NationalId => "national_id"@,
            Rule::BpjsNumber => "bpjs_number"@,
            Rule::ContactName => "emergency_contact_name"@,
            Rule::ContactPhone => "emergency_contact_phone"@,
            Rule::ContactRelationship => "emergency_contact_relationship"@,
        }
    }

    /// What a request that breaks the rule is told.
    pub open spec fn message_text(self) -> Seq<char> {
        match self {
            Rule::Name => "Name is required"@,
            Rule::NationalId => "National ID must be 16 digits"@,
            Rule::BpjsNumber => "BPJS number must be 13 digits"@,
            Rule::ContactName => "Emergency contact name is required"@,
            Rule::ContactPhone => "Invalid emergency contact phone"@,
            Rule::ContactRelationship => "Emergency contact relationship is required"@,
        }
    }

    /// Whether a request keeps the rule, given whether its phone matches the
    /// phone pattern.
    pub open spec fn kept_by(self, payload: &CreateTriageRequest, phone_matches: bool) -> bool {
        match self {
            Rule::Name => payload.name@.len() >= 1,
            Rule::NationalId => payload.national_id@.len() == 16,
            Rule::BpjsNumber => match payload.bpjs_number {
                Some(number) => number@.len() == 13,
                None => true,
            },
            Rule::ContactName => payload.emergency_contact_name@.len() >= 1,
            Rule::ContactPhone => phone_matches,
            Rule::ContactRelationship => payload.emergency_contact_relationship@.len() >= 1,
        }
    }

    /// The field error of a broken rule.
    pub fn field_error(self) -> (e: ApiFieldError)
        ensures
            e.field@ == self.field_name(),
            e.message@ == self.message_text(),
    {
        match self {
            Rule::Name => ApiFieldError {
                field: String::from_str("name"),
                message: String::from_str("Name is required"),
            },
            Rule::NationalId => ApiFieldError {
                field: String::from_str("national_id"),
                message: String::from_str("National ID must be 16 digits"),
            },
            Rule::BpjsNumber => ApiFieldError {
                field: String::from_str("bpjs_number"),
                message: String::from_str("BPJS number must be 13 digits"),
            },
            Rule::ContactName => ApiFieldError {
                field: String::from_str("emergency_contact_name"),
                message: String::from_str("Emergency contact name is required"),
            },
            Rule::ContactPhone => ApiFieldError {
                field: String::from_str("emergency_contact_phone"),
                message: String::from_str("Invalid emergency contact phone"),
            },
            Rule::ContactRelationship => ApiFieldError {
                field: String::from_str("emergency_contact_relationship"),
                message: String::from_str("Emergency contact relationship is required"),
            },
        }
    }
}

/// The rule itself where the request breaks it, nothing where it keeps it.
pub open spec fn if_broken(rule: Rule, payload: &CreateTriageRequest, phone_matches: bool) -> Seq<
    Rule,
> {
    if rule.kept_by(payload, phone_matches) {
        Seq::empty()
    } else {
        seq![rule]
    }
}

/// The rules that a request breaks, in the order of its fields.
pub open spec fn broken_rules(payload: &CreateTriageRequest, phone_matches: bool) -> Seq<Rule> {
    if_broken(Rule::Name, payload, phone_matches) + if_broken(
        Rule::NationalId,
        payload,
        phone_matches,
    ) + if_broken(Rule::BpjsNumber, payload, phone_matches) + if_broken(
        Rule::ContactName,
        payload,
        phone_matches,
    ) + if_broken(Rule::ContactPhone, payload, phone_matches) + if_broken(
        Rule::ContactRelationship,
        payload,
        phone_matches,
    )
}

/// Whether a phone number matches the phone pattern.
pub open spec fn phone_accepted(phone: Seq<char>) -> bool {
    regex_match_of(PHONE_PATTERN@, phone) == Some(true)
}

/// Decides on a phone number from what the pattern search reported: it is
/// accepted exactly when a match was found.
pub fn phone_verdict(matched: Option<bool>) -> (verdict: Result<(), Rule>)
    ensures
        verdict is Ok <==> matched == Some(true),
        verdict is Err ==> verdict == Err::<(), Rule>(Rule::ContactPhone),
{
    match matched {
        Some(true) => Ok(()),
        _ => Err(Rule::ContactPhone),
    }
}

/// Checks an emergency contact phone against the phone pattern.
pub fn validate_phone(phone: &str) -> (verdict: Result<(), Rule>)
    ensures
        verdict is Ok <==> phone_accepted(phone@),
        verdict is Err ==> verdict == Err::<(), Rule>(Rule::ContactPhone),
{
    phone_verdict(regex_is_match(PHONE_PATTERN, phone))
}

/// Lists the rules that a request breaks, in the order of its fields, given
/// whether its phone matches the phone pattern.
pub fn check_fields(payload: &CreateTriageRequest, phone_matches: bool) -> (broken: Vec<Rule>)
    ensures
        broken@ == broken_rules(payload, phone_matches),
{
    let mut broken: Vec<Rule> = Vec::new();
    if payload.name.as_str().unicode_len() < 1 {
        broken.push(Rule::Name);
    }
    if payload.national_id.as_str().unicode_len() != 16 {
        broken.push(Rule::NationalId);
    }
    match &payload.bpjs_number {
        Some(number) => {
            if number.as_str().unicode_len() != 13 {
                broken.push(Rule::BpjsNumber);
            }
        },
        None => {},
    }
    if payload.emergency_contact_name.as_str().unicode_len() < 1 {
        broken.push(Rule::ContactName);
    }
    if !phone_matches {
        broken.push(Rule::ContactPhone);
    }
    if payload.emergency_contact_relationship.as_str().unicode_len() < 1 {
        broken.push(Rule::ContactRelationship);
    }
    assert(broken@ =~= broken_rules(payload, phone_matches));
    broken
}

/// Turns broken rules into field errors, one each and in the same order.
pub fn field_errors(broken: &Vec<Rule>) -> (errors: Vec<ApiFieldError>)
    ensures
        errors@.len() == broken@.len(),
        forall|i: int|
            0 <= i < broken@.len() ==> {
                &&& (#[trigger] errors@[i]).field@ == broken@[i].field_name()
                &&& errors@[i].message@ == broken@[i].message_text()
            },
{
    let mut errors: Vec<ApiFieldError> = Vec::new();
    let mut i: usize = 0;
    while i < broken.len()
        invariant
            i <= broken@.len(),
            errors@.len() == i,
            forall|k: int|
                0 <= k < i ==> {
                    &&& (#[trigger] errors@[k]).field@ == broken@[k].field_name()
                    &&& errors@[k].message@ == broken@[k].message_text()
                },
        decreases broken@.len() - i,
    {
        errors.push(broken[i].field_error());
        i = i + 1;
    }
    errors
}

/// Validates an intake request.
///
/// It passes exactly when it breaks no rule. Otherwise the validation error
/// holds one field error for each broken rule, in the order of the fields.
pub fn validate(payload: &CreateTriageRequest) -> (verdict: Result<(), AppError>)
    ensures
        match verdict {
            Ok(_) => broken_rules(
                payload,
                phone_accepted(payload.emergency_contact_phone@),
            ).len() == 0,
            Err(AppError::ValidationError(errors)) => {
                let broken = broken_rules(
                    payload,
                    phone_accepted(payload.emergency_contact_phone@),
                );
                &&& broken.len() > 0
                &&& errors@.len() == broken.len()
                &&& forall|i: int|
                    0 <= i < broken.len() ==> {
                        &&& (#[trigger] errors@[i]).field@ == broken[i].field_name()
                        &&& errors@[i].message@ == broken[i].message_text()
                    }
            },
            Err(_) => false,
        },
{
    let phone_matches = validate_phone(payload.emergency_contact_phone.as_str()).is_ok();
    let broken = check_fields(payload, phone_matches);
    if broken.len() == 0 {
        Ok(())
    } else {
        Err(AppError::ValidationError(field_errors(&broken)))
    }
}

} // verus!
