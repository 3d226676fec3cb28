//! Plain values that cross the service's boundary.

use vstd::prelude::*;
use crate::models::{FileType, Filebox};

verus! {

/// Name of the request header that carries a client's own address when the
/// service sits behind a proxy.
pub const REAL_IP_HEADER: &'static str = "X-REAL-IP";

/// Header of a refusal for too many wrong codes; it tells the client the
/// limit.
pub const IP_VISIT_ERROR_LIMIT_HEADER: &'static str = "X-IP-VISIT-ERROR-LIMIT";

/// Header of a refusal for too many uploads; it tells the client the limit.
pub const IP_UPLOAD_LIMIT_HEADER: &'static str = "X-IP-UPLOAD-LIMIT";

/// Layout of the date in a dated header: date, time and the offset of the
/// zone.
pub const DATE_FORMAT: &'static str = "%Y-%m-%d %H:%M:%S %z";

/// Which of a client's two counters an operation is about.
#[derive(Clone, Copy, Debug, PartialEq, Eq, Structural)]
pub enum Field {
    /// Failed code guesses.
    VisitError,
    /// Uploads.
    Upload,
}

/// The two counters kept for one client address during one calendar day.
#[derive(Clone, Copy, Debug, PartialEq, Eq, Structural)]
pub struct IpInfo {
    pub visit_error_limit_of_per_day: i32,
    pub upload_limit_of_per_day: i32,
}

impl IpInfo {
    /// The record of a client that has not been seen today.
    pub open spec fn zero() -> IpInfo {
        IpInfo { visit_error_limit_of_per_day: 0, upload_limit_of_per_day: 0 }
    }

    /// Neither counter is negative.
    pub open spec fn well_formed(self) -> bool {
        self.visit_error_limit_of_per_day >= 0 && self.upload_limit_of_per_day >= 0
    }

    /// The counter that `field` names.
    pub open spec fn count(self, field: Field) -> int {
        match field {
            Field::VisitError => self.visit_error_limit_of_per_day as int,
            Field::Upload => self.upload_limit_of_per_day as int,
        }
    }

    /// This record after one more event on `field`. A counter that has
    /// reached `i32::MAX` stays there.
    pub open spec fn bumped(self, field: Field) -> IpInfo {
        match field {
            Field::VisitError => IpInfo {
                visit_error_limit_of_per_day: if self.visit_error_limit_of_per_day < i32::MAX {
                    (self.visit_error_limit_of_per_day + 1) as i32
                } else {
                    i32::MAX
                },
                upload_limit_of_per_day: self.upload_limit_of_per_day,
            },
            Field::Upload => IpInfo {
                visit_error_limit_of_per_day: self.visit_error_limit_of_per_day,
                upload_limit_of_per_day: if self.upload_limit_of_per_day < i32::MAX {
                    (self.upload_limit_of_per_day + 1) as i32
                } else {
                    i32::MAX
                },
            },
        }
    }

    /// The record of a client that has done nothing yet: both counters at
    /// zero.
    pub fn new() -> (info: IpInfo)
        ensures
            info == IpInfo::zero(),
    {
        IpInfo { visit_error_limit_of_per_day: 0, upload_limit_of_per_day: 0 }
    }

    /// Reads the counter that `field` names.
    pub fn count_of(&self, field: Field) -> (n: i32)
        ensures
            n == self.count(field),
    {
        match field {
            Field::VisitError => self.visit_error_limit_of_per_day,
            Field::Upload => self.upload_limit_of_per_day,
        }
    }

    /// Counts one more event on `field` and leaves the other counter alone.
    pub fn bump(self, field: Field) -> (next: IpInfo)
        ensures
            next == self.bumped(field),
    {
        match field {
            Field::VisitError => IpInfo {
                visit_error_limit_of_per_day: if self.visit_error_limit_of_per_day < i32::MAX {
                    self.visit_error_limit_of_per_day + 1
                } else {
                    i32::MAX
                },
                upload_limit_of_per_day: self.upload_limit_of_per_day,
            },
            Field::Upload => IpInfo {
                visit_error_limit_of_per_day: self.visit_error_limit_of_per_day,
                upload_limit_of_per_day: if self.upload_limit_of_per_day < i32::MAX {
                    self.upload_limit_of_per_day + 1
                } else {
                    i32::MAX
                },
            },
        }
    }
}

impl Default for IpInfo {
    fn default() -> (info: IpInfo)
        ensures
            info == IpInfo::zero(),
    {
        IpInfo::new()
    }
}

/// Body of every error response.
#[derive(Clone, Debug)]
pub struct ErrorResponse {
    pub code: u16,
    pub error: String,
    pub message: String,
}

/// What a box holds, as requests and responses name it: `1` for a file and
/// `2` for a text.
#[derive(Clone, Copy, Debug, PartialEq, Eq, Structural)]
pub enum FileboxFileType {
    File,
    Text,
}

impl FileboxFileType {
    /// The number that stands for the kind.
    pub open spec fn code(self) -> u8 {
        match self {
            FileboxFileType::File => 1,
            FileboxFileType::Text => 2,
        }
    }

    /// The kind that `num` stands for, where it stands for one.
    pub open spec fn spec_from_code(num: u8) -> Option<FileboxFileType> {
        if num == 1 {
            Some(FileboxFileType::File)
        } else if num == 2 {
            Some(FileboxFileType::Text)
        } else {
            None
        }
    }

    /// Reads a kind from its number. Only `1` and `2` are kinds.
    pub fn from_code(num: u8) -> (kind: Option<FileboxFileType>)
        ensures
            kind == FileboxFileType::spec_from_code(num),
            kind matches Some(k) ==> k.code() == num,
    {
        match num {
            1 => Some(FileboxFileType::File),
            2 => Some(FileboxFileType::Text),
            _ => None,
        }
    }

    /// Writing a kind as a number and reading the number gives the kind back.
    pub proof fn law_code_round_trip(kind: FileboxFileType)
        ensures
            FileboxFileType::spec_from_code(kind.code()) == Some(kind),
    {
    }
}

impl From<&FileboxFileType> for u8 {
    fn from(v: &FileboxFileType) -> (num: u8) {
        match v {
            FileboxFileType::File => 1,
            FileboxFileType::Text => 2,
        }
    }
}

impl vstd::std_specs::convert::FromSpecImpl<&FileboxFileType> for u8 {
    open spec fn obeys_from_spec() -> bool {
        true
    }

    open spec fn from_spec(v: &FileboxFileType) -> u8 {
        v.code()
    }
}

impl From<FileboxFileType> for FileType {
    fn from(v: FileboxFileType) -> (kind: FileType) {
        match v {
            FileboxFileType::Text => FileType::Text,
            FileboxFileType::File => FileType::File,
        }
    }
}

impl vstd::std_specs::convert::FromSpecImpl<FileboxFileType> for FileType {
    open spec fn obeys_from_spec() -> bool {
        true
    }

    open spec fn from_spec(v: FileboxFileType) -> FileType {
        match v {
            FileboxFileType::Text => FileType::Text,
            FileboxFileType::File => FileType::File,
        }
    }
}

impl From<FileType> for FileboxFileType {
    fn from(v: FileType) -> (kind: FileboxFileType) {
        match v {
            FileType::File => FileboxFileType::File,
            FileType::Text => FileboxFileType::Text,
        }
    }
}

impl vstd::std_specs::convert::FromSpecImpl<FileType> for FileboxFileType {
    open spec fn obeys_from_spec() -> bool {
        true
    }

    open spec fn from_spec(v: FileType) -> FileboxFileType {
        match v {
            FileType::File => FileboxFileType::File,
            FileType::Text => FileboxFileType::Text,
        }
    }
}

/// What the logic reads of an uploaded file: the name that the client gave
/// it, where it gave one.
#[derive(Debug)]
pub struct Upload {
    pub file_name: Option<String>,
}

/// A request to create a box, as the form delivered it.
#[derive(Debug)]
pub struct CreateFileboxRequest {
    pub name: String,
    pub text: Option<String>,
    pub duration_day: u8,
    pub file_type: FileboxFileType,
    pub file: Option<Upload>,
}

/// One way in which a request to create a box can be wrong.
#[derive(Clone, Copy, Debug, PartialEq, Eq, Structural)]
pub enum Violation {
    /// The name is longer than 50 bytes.
    NameTooLong,
    /// The box is to live for no day at all, or for 30 days or more.
    DurationOutOfRange,
    /// The text is empty or longer than 2000 bytes.
    TextOutOfRange,
    /// A text box comes without a text.
    TextMissing,
    /// A file box comes without a file.
    FileMissing,
}

impl Violation {
    /// The field of the form that the violation is about.
    pub open spec fn spec_field(self) -> Seq<char> {
        match self {
            Violation::NameTooLong => "name"@,
            Violation::DurationOutOfRange => "duration_day"@,
            Violation::TextOutOfRange | Violation::TextMissing => "text"@,
            Violation::FileMissing => "file"@,
        }
    }

    /// The violation in words.
    pub open spec fn spec_code(self) -> Seq<char> {
        match self {
            Violation::NameTooLong => "name more than 50 characters"@,
            Violation::DurationOutOfRange => "duration_day over scope"@,
            Violation::TextOutOfRange => "text over scope"@,
            Violation::TextMissing => "text empty"@,
            Violation::FileMissing => "file empty"@,
        }
    }

    /// Names the field of the form that the violation is about.
    pub fn field(&self) -> (name: &'static str)
        ensures
            name@ == self.spec_field(),
    {
        match self {
            Violation::NameTooLong => "name",
            Violation::DurationOutOfRange => "duration_day",
            Violation::TextOutOfRange | Violation::TextMissing => "text",
            Violation::FileMissing => "file",
        }
    }

    /// Says the violation in words.
    pub fn code(&self) -> (words: &'static str)
        ensures
            words@ == self.spec_code(),
    {
        match self {
            Violation::NameTooLong => "name more than 50 characters",
            Violation::DurationOutOfRange => "duration_day over scope",
            Violation::TextOutOfRange => "text over scope",
            Violation::TextMissing => "text empty",
            Violation::FileMissing => "file empty",
        }
    }
}

/// Makes `validator::ValidationErrors` known: a collection of errors by
/// field, opaque but for what [`error_codes`] shows of it.
#[verifier::external_type_specification]
#[verifier::external_body]
pub struct ExValidationErrors(validator::ValidationErrors);

/// What a `validator::ValidationErrors` holds: for every field that has an
/// entry, the codes of the errors added for it in the order of their adding,
/// or nothing where the entry is not a list of errors but the errors of a
/// nested value.
pub uninterp spec fn error_codes(errors: validator::ValidationErrors) -> Map<Seq<char>, Option<Seq<Seq<char>>>>;

/// What an empty collection of errors holds.
pub open spec fn no_codes() -> Map<Seq<char>, Option<Seq<Seq<char>>>> {
    Map::empty()
}

/// The codes that `held` has for `field` so far.
pub open spec fn codes_of(held: Map<Seq<char>, Option<Seq<Seq<char>>>>, field: Seq<char>) -> Seq<Seq<char>> {
    if held.dom().contains(field) && held[field] is Some {
        held[field]->0
    } else {
        Seq::empty()
    }
}

/// `held` after one more error with `code` for `field`.
pub open spec fn with_error(
    held: Map<Seq<char>, Option<Seq<Seq<char>>>>,
    field: Seq<char>,
    code: Seq<char>,
) -> Map<Seq<char>, Option<Seq<Seq<char>>>> {
    held.insert(field, Some(codes_of(held, field).push(code)))
}

/// What the collection of errors holds once a request's violations have
/// been added to an empty one in their order.
pub open spec fn codes_for(violations: Seq<Violation>) -> Map<Seq<char>, Option<Seq<Seq<char>>>>
    decreases violations.len(),
{
    if violations.len() == 0 {
        no_codes()
    } else {
        with_error(
            codes_for(violations.drop_last()),
            violations.last().spec_field(),
            violations.last().spec_code(),
        )
    }
}

/// An empty collection of errors.
///
/// Calls `validator::ValidationErrors::new`, which makes an empty map.
#[verifier::external_body]
fn no_errors() -> (made: validator::ValidationErrors)
    ensures
        error_codes(made) == no_codes(),
{
    validator::ValidationErrors::new()
}

/// Adds an error with `code` for `field`.
///
/// Calls `validator::ValidationErrors::add` with an error made by
/// `validator::ValidationError::new`. The error goes to the end of the
/// field's list, which is made where the field had no entry; no other entry
/// changes. `add` panics where the field's entry holds the errors of a nested
/// value, so such a collection is not admitted.
#[verifier::external_body]
fn add_error(errors: &mut validator::ValidationErrors, field: &'static str, code: &'static str)
    requires
        error_codes(*old(errors)).dom().contains(field@) ==> error_codes(*old(errors))[field@] is Some,
    ensures
        error_codes(*final(errors)) == with_error(error_codes(*old(errors)), field@, code@),
{
    errors.add(field, validator::ValidationError::new(code))
}

/// The number of bytes that `text` takes in memory.
pub open spec fn byte_len(text: Seq<char>) -> usize {
    vstd::utf8::encode_utf8(text).len() as usize
}

/// `one` where `wrong` holds, nothing otherwise.
pub open spec fn when(wrong: bool, one: Violation) -> Seq<Violation> {
    if wrong {
        seq![one]
    } else {
        Seq::empty()
    }
}

impl CreateFileboxRequest {
    /// What is wrong with the content that the kind of box calls for.
    pub open spec fn content_violations(self) -> Seq<Violation> {
        match self.file_type {
            FileboxFileType::Text => match self.text {
                Some(text) => when(byte_len(text@) == 0 || byte_len(text@) > 2000, Violation::TextOutOfRange),
                None => seq![Violation::TextMissing],
            },
            FileboxFileType::File => when(self.file is None, Violation::FileMissing),
        }
    }

    /// Everything that is wrong with the request: the name first, then the
    /// duration, then the content.
    pub open spec fn spec_violations(self) -> Seq<Violation> {
        when(byte_len(self.name@) > 50, Violation::NameTooLong) + when(
            self.duration_day == 0 || self.duration_day >= 30,
            Violation::DurationOutOfRange,
        ) + self.content_violations()
    }

    /// Finds everything that is wrong with the request.
    pub fn violations(&self) -> (found: Vec<Violation>)
        ensures
            found@ == self.spec_violations(),
    {
        let mut found: Vec<Violation> = Vec::new();
        if self.name.as_str().len() > 50 {
            found.push(Violation::NameTooLong);
        }
        if self.duration_day == 0 || self.duration_day >= 30 {
            found.push(Violation::DurationOutOfRange);
        }
        match self.file_type {
            FileboxFileType::Text => {
                match &self.text {
                    Some(text) => {
                        if text.as_str().len() == 0 || text.as_str().len() > 2000 {
                            found.push(Violation::TextOutOfRange);
                        }
                    },
                    None => {
                        found.push(Violation::TextMissing);
                    },
                }
            },
            FileboxFileType::File => {
                if self.file.is_none() {
                    found.push(Violation::FileMissing);
                }
            },
        }
        found
    }

    /// Checks the request.
    ///
    /// A request passes when its name has at most 50 bytes, its duration is
    /// between 1 and 29 days, and it brings what its kind calls for: a text
    /// of 1 to 2000 bytes, or a file. One that does not pass learns of all
    /// its violations at once, each as an error of its field.
    pub fn validate(&self) -> (checked: Result<(), validator::ValidationErrors>)
        ensures
            checked is Ok <==> self.spec_violations().len() == 0,
            checked matches Err(errors) ==> error_codes(errors) == codes_for(self.spec_violations()),
    {
        let found: Vec<Violation> = self.violations();
        if found.len() == 0 {
            return Ok(());
        }
        let mut errors: validator::ValidationErrors = no_errors();
        let mut i: usize = 0;
        while i < found.len()
            invariant
                i <= found@.len(),
                error_codes(errors) == codes_for(found@.take(i as int)),
                forall|field: Seq<char>| #[trigger]
                    error_codes(errors).dom().contains(field) ==> error_codes(errors)[field] is Some,
            decreases found@.len() - i,
        {
            assert(found@.take(i + 1).drop_last() =~= found@.take(i as int));
            add_error(&mut errors, found[i].field(), found[i].code());
            i += 1;
        }
        assert(found@.take(found@.len() as int) =~= found@);
        Err(errors)
    }
}

/// A box as shown to somebody who asks for it by code.
#[derive(Clone, Debug)]
pub struct GetFileboxResponse {
    pub id: i64,
    pub code: String,
    pub name: String,
    pub file_type: FileboxFileType,
    pub created_at: i64,
    pub expired_at: i64,
    pub used_at: Option<i64>,
}

/// A text box as handed to whoever takes it.
#[derive(Clone, Debug)]
pub struct TakeTextResponse {
    pub id: i64,
    pub code: String,
    pub name: String,
    pub file_type: FileboxFileType,
    pub text: String,
    pub created_at: i64,
    pub expired_at: i64,
    pub used_at: i64,
}

/// A box as confirmed to whoever created it.
#[derive(Clone, Debug)]
pub struct CreateFileboxResponse {
    pub id: i64,
    pub code: String,
    pub name: String,
    pub file_type: FileboxFileType,
    pub created_at: i64,
    pub expired_at: i64,
}

/// The answer to a health check.
#[derive(Clone, Debug)]
pub struct HealthCheckResponse {
    pub message: String,
    pub health_check_count: u64,
}

/// The kind of a stored box as responses name it.
pub open spec fn shown_kind(kind: FileType) -> FileboxFileType {
    match kind {
        FileType::File => FileboxFileType::File,
        FileType::Text => FileboxFileType::Text,
    }
}

impl From<Filebox> for GetFileboxResponse {
    fn from(v: Filebox) -> (shown: GetFileboxResponse) {
        GetFileboxResponse {
            id: v.id,
            code: v.code,
            name: v.name,
            file_type: v.file_type.into(),
            created_at: v.created_at.secs,
            expired_at: v.expired_at.secs,
            used_at: match v.used_at {
                Some(used_at) => Some(used_at.secs),
                None => None,
            },
        }
    }
}

impl vstd::std_specs::convert::FromSpecImpl<Filebox> for GetFileboxResponse {
    open spec fn obeys_from_spec() -> bool {
        true
    }

    open spec fn from_spec(v: Filebox) -> GetFileboxResponse {
        GetFileboxResponse {
            id: v.id,
            code: v.code,
            name: v.name,
            file_type: shown_kind(v.file_type),
            created_at: v.created_at.secs,
            expired_at: v.expired_at.secs,
            used_at: match v.used_at {
                Some(used_at) => Some(used_at.secs),
                None => None,
            },
        }
    }
}

impl From<Filebox> for CreateFileboxResponse {
    fn from(v: Filebox) -> (shown: CreateFileboxResponse) {
        CreateFileboxResponse {
            id: v.id,
            code: v.code,
            name: v.name,
            file_type: v.file_type.into(),
            created_at: v.created_at.secs,
            expired_at: v.expired_at.secs,
        }
    }
}

impl vstd::std_specs::convert::FromSpecImpl<Filebox> for CreateFileboxResponse {
    open spec fn obeys_from_spec() -> bool {
        true
    }

    open spec fn from_spec(v: Filebox) -> CreateFileboxResponse {
        CreateFileboxResponse {
            id: v.id,
            code: v.code,
            name: v.name,
            file_type: shown_kind(v.file_type),
            created_at: v.created_at.secs,
            expired_at: v.expired_at.secs,
        }
    }
}

impl TakeTextResponse {
    /// A box that has been taken, as handed to whoever took it.
    pub open spec fn spec_from_taken(v: Filebox) -> TakeTextResponse {
        TakeTextResponse {
            id: v.id,
            code: v.code,
            name: v.name,
            text: v.text,
            file_type: shown_kind(v.file_type),
            created_at: v.created_at.secs,
            expired_at: v.expired_at.secs,
            used_at: v.used_at->0.secs,
        }
    }

    /// Shows a box that has been taken. A box that nobody has taken has no
    /// instant of being taken to show.
    pub fn from_taken(v: Filebox) -> (shown: TakeTextResponse)
        requires
            v.used_at is Some,
        ensures
            shown == TakeTextResponse::spec_from_taken(v),
    {
        TakeTextResponse {
            id: v.id,
            code: v.code,
            name: v.name,
            text: v.text,
            file_type: v.file_type.into(),
            created_at: v.created_at.secs,
            expired_at: v.expired_at.secs,
            used_at: match v.used_at {
                Some(used_at) => used_at.secs,
                None => 0,
            },
        }
    }
}

} // verus!
