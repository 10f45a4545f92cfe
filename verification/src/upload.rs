use vstd::prelude::*;
use vstd::string::*;
use crate::error::AppError;
use crate::text::{decimal, int_text, lowercase_of, same_text, to_lowercase};

verus! {

/// The largest referral file that is accepted: ten mebibytes.
pub const MAX_FILE_SIZE: usize = 10485760;

/// The bucket that referral files are stored in.
pub const REFERRAL_BUCKET: &'static str = "hms-temporal-bucket";

/// Where the text after the last dot of a name begins: behind that dot, or at
/// the start of a name without a dot.
pub open spec fn extension_start(name: Seq<char>) -> int
    decreases name.len(),
{
    if name.len() == 0 {
        0
    } else if name.last() == '.' {
        name.len() as int
    } else {
        extension_start(name.drop_last())
    }
}

/// The text after the last dot of a name; the whole name where it has no dot.
pub open spec fn after_last_dot(name: Seq<char>) -> Seq<char> {
    name.subrange(extension_start(name), name.len() as int)
}

/// Whether a lower-case extension is one of the accepted kinds of referral
/// file.
pub open spec fn accepted_extension(extension: Seq<char>) -> bool {
    extension == "pdf"@ || extension == "png"@ || extension == "jpg"@ || extension == "jpeg"@
}

/// The name a referral file is stored under.
pub open spec fn referral_name(
    token: Seq<char>,
    patient_id: i32,
    visit_id: i32,
    extension: Seq<char>,
) -> Seq<char> {
    "referral_file-"@ + token + "-patient_"@ + decimal(patient_id as int) + "-visit_"@ + decimal(
        visit_id as int,
    ) + "."@ + extension
}

/// The address a stored referral file is reached at.
pub open spec fn referral_address(bucket: Seq<char>, file_name: Seq<char>) -> Seq<char> {
    "http://localhost:9000/"@ + bucket + "/"@ + file_name
}

/// The part of a file name after its last dot, as it stands.
pub fn raw_extension(name: &str) -> (extension: &str)
    ensures
        extension@ == after_last_dot(name@),
{
    let n = name.unicode_len();
    let mut start: usize = 0;
    let mut i: usize = 0;
    while i < n
        invariant
            n == name@.len(),
            i <= n,
            start == extension_start(name@.take(i as int)),
            start <= i,
        decreases n - i,
    {
        assert(name@.take(i + 1).drop_last() =~= name@.take(i as int));
        if name.get_char(i) == '.' {
            start = i + 1;
        }
        i = i + 1;
    }
    assert(name@.take(n as int) =~= name@);
    name.substring_char(start, n)
}

/// The extension of a file name in lower case.
pub fn file_extension(name: &str) -> (extension: String)
    ensures
        extension@ == lowercase_of(after_last_dot(name@)),
{
    to_lowercase(raw_extension(name))
}

/// Tells whether a lower-case extension is one of `pdf`, `png`, `jpg` and
/// `jpeg`.
pub fn valid_extension(extension: &str) -> (valid: bool)
    ensures
        valid == accepted_extension(extension@),
{
    same_text(extension, "pdf") || same_text(extension, "png") || same_text(extension, "jpg")
        || same_text(extension, "jpeg")
}

/// Builds the name a referral file is stored under from a token that makes
/// it unique, the patient, the visit and the file's extension.
pub fn referral_file_name(token: &str, patient_id: i32, visit_id: i32, extension: &str) -> (name:
    String)
    ensures
        name@ == referral_name(token@, patient_id, visit_id, extension@),
{
    let mut name = String::from_str("referral_file-");
    name.append(token);
    name.append("-patient_");
    name.append(int_text(patient_id as i64).as_str());
    name.append("-visit_");
    name.append(int_text(visit_id as i64).as_str());
    name.append(".");
    name.append(extension);
    name
}

/// Builds the address a stored referral file is reached at.
pub fn referral_url(bucket: &str, file_name: &str) -> (url: String)
    ensures
        url@ == referral_address(bucket@, file_name@),
{
    let mut url = String::from_str("http://localhost:9000/");
    url.append(bucket);
    url.append("/");
    url.append(file_name);
    url
}

/// Adds a chunk to the bytes read so far of an upload, unless the upload
/// would then be larger than `max_size`: that is a bad request, and the bytes
/// stay as they are.
pub fn take_chunk(bytes: &mut Vec<u8>, chunk: &[u8], max_size: usize) -> (taken: Result<
    (),
    AppError,
>)
    ensures
        match taken {
            Ok(_) => {
                &&& old(bytes)@.len() + chunk@.len() <= max_size
                &&& final(bytes)@ == old(bytes)@ + chunk@
            },
            Err(AppError::BadRequest(m)) => {
                &&& old(bytes)@.len() + chunk@.len() > max_size
                &&& final(bytes)@ == old(bytes)@
                &&& m@ == "File too large"@
            },
            Err(_) => false,
        },
{
    if bytes.len() > max_size || chunk.len() > max_size - bytes.len() {
        return Err(AppError::BadRequest(String::from_str("File too large")));
    }
    let mut i: usize = 0;
    while i < chunk.len()
        invariant
            i <= chunk@.len(),
            bytes@ == old(bytes)@ + chunk@.take(i as int),
        decreases chunk@.len() - i,
    {
        bytes.push(chunk[i]);
        assert(bytes@ =~= old(bytes)@ + chunk@.take(i + 1));
        i = i + 1;
    }
    assert(chunk@.take(i as int) =~= chunk@);
    Ok(())
}

} // verus!
