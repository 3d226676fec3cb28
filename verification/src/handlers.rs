//! What the request handlers decide, apart from what they read and write.

use vstd::prelude::*;
use crate::api::{CreateFileboxRequest, FileboxFileType, GetFileboxResponse, HealthCheckResponse};
use crate::clock::Timestamp;
use crate::errors::Error;
use crate::models::{AddFilebox, FileType, Filebox};
use crate::text::{join2, join3};

verus! {

/// What is sent to whoever takes a box.
#[derive(Debug)]
pub enum Download {
    /// The text of a text box, offered under `file_name`.
    Text { file_name: String, body: String },
    /// The file of a file box, to be read from `path` and offered under
    /// `file_name`.
    File { file_name: String, path: String },
}

/// Whether `name` is a piece of `path`: a run of characters that stand next
/// to one another in the path.
pub open spec fn is_piece_of(name: Seq<char>, path: Seq<char>) -> bool {
    exists|from: int, to: int| 0 <= from <= to <= path.len() && name == #[trigger] path.subrange(from, to)
}

/// The last component of `path`, where it has one.
///
/// Calls `std::path::Path::file_name`. Where one component ends and the next
/// begins depends on what the platform takes for a separator, and on some
/// platforms on how the path begins, so the contract claims only what holds
/// of every component on every platform: it is a piece of the path. Whether
/// a name is found, and which characters it is free of, is not claimed.
#[verifier::external_body]
fn file_name_of(path: &str) -> (name: Option<String>)
    ensures
        name matches Some(text) ==> is_piece_of(text@, path@),
{
    match std::path::Path::new(path).file_name() {
        Some(name) => match name.to_str() {
            Some(text) => Some(text.to_owned()),
            None => None,
        },
        None => None,
    }
}

/// Where the uploads of one box are kept: `folder_name` under `upload_path`.
pub fn upload_dir(upload_path: &str, folder_name: &str) -> (dir: String)
    ensures
        dir@ == upload_path@ + "/"@ + folder_name@,
{
    join3(upload_path, "/", folder_name)
}

/// Where a stored file lies: its path in the table under `upload_path`.
pub fn stored_file(upload_path: &str, file_path: &str) -> (path: String)
    ensures
        path@ == upload_path@ + "/"@ + file_path@,
{
    join3(upload_path, "/", file_path)
}

/// Whether `form` can be turned into a box without more ado: it passes
/// validation, and a file that it brings has a name.
pub open spec fn can_be_stored(form: CreateFileboxRequest) -> bool {
    form.spec_violations().len() == 0 ==> (form.file_type == FileboxFileType::File ==> form.file->0.file_name is Some)
}

/// Whether `new` is the box to store for the valid request `form`.
///
/// A text box holds the text and no path; a file box holds no text and the
/// path `folder_name/file_name`. Either is created at `now` and expires the
/// requested number of days later.
pub open spec fn is_box_for(
    new: AddFilebox,
    form: CreateFileboxRequest,
    code: String,
    folder_name: Seq<char>,
    now: Timestamp,
) -> bool {
    &&& new.code == code
    &&& new.name == form.name
    &&& new.size == 0
    &&& new.created_at == now
    &&& new.expired_at == now.spec_plus_days(form.duration_day as int)
    &&& match form.file_type {
        FileboxFileType::Text => new.file_type == FileType::Text && new.text == form.text->0
            && new.file_path@ == Seq::<char>::empty(),
        FileboxFileType::File => new.file_type == FileType::File && new.text@ == Seq::<char>::empty()
            && new.file_path@ == folder_name + "/"@ + form.file->0.file_name->0@,
    }
}

/// The box to store for a request, or the refusal of a request that does
/// not pass validation.
pub fn add_new_filebox(
    form: CreateFileboxRequest,
    code: String,
    folder_name: &str,
    now: Timestamp,
) -> (added: Result<AddFilebox, Error>)
    requires
        can_be_stored(form),
    ensures
        form.spec_violations().len() > 0 ==> added == Err::<AddFilebox, Error>(Error::InputValidateError),
        form.spec_violations().len() == 0 ==> (added matches Ok(new) && is_box_for(new, form, code, folder_name@, now)),
{
    if form.validate().is_err() {
        return Err(Error::InputValidateError);
    }
    let expired_at: Timestamp = now.plus_days(form.duration_day);
    match form.file_type {
        FileboxFileType::Text => {
            let text: String = match form.text {
                Some(text) => text,
                None => String::new(),
            };
            Ok(
                AddFilebox {
                    code,
                    name: form.name,
                    size: 0,
                    file_type: FileType::Text,
                    text,
                    file_path: String::new(),
                    created_at: now,
                    expired_at,
                },
            )
        },
        FileboxFileType::File => {
            let file_name: String = match form.file {
                Some(upload) => match upload.file_name {
                    Some(file_name) => file_name,
                    None => String::new(),
                },
                None => String::new(),
            };
            Ok(
                AddFilebox {
                    code,
                    name: form.name,
                    size: 0,
                    file_type: FileType::File,
                    text: String::new(),
                    file_path: join3(folder_name, "/", file_name.as_str()),
                    created_at: now,
                    expired_at,
                },
            )
        },
    }
}

/// What is shown of a box to somebody who asks for it by code: the box, or
/// nothing where it has been taken.
pub fn get_filebox_by_code(filebox: Filebox) -> (shown: Option<GetFileboxResponse>)
    ensures
        filebox.used_at is Some ==> shown is None,
        filebox.used_at is None ==> shown == Some(
            <GetFileboxResponse as vstd::std_specs::convert::FromSpec<Filebox>>::from_spec(filebox),
        ),
{
    if filebox.has_taken() {
        None
    } else {
        Some(GetFileboxResponse::from(filebox))
    }
}

/// Whether `sent` is what goes out for `filebox`, given the last component
/// of its stored path.
///
/// A text box is sent as a file named after the box with `.txt` added. A
/// file box is sent from where it is stored under `upload_path`, under the
/// name of its last path component; without such a component nothing can
/// be sent.
pub open spec fn spec_download(
    filebox: Filebox,
    upload_path: Seq<char>,
    file_name: Option<Seq<char>>,
    sent: Option<Download>,
) -> bool {
    match filebox.file_type {
        FileType::Text => sent matches Some(Download::Text { file_name: offered, body }) && offered@
            == filebox.name@ + ".txt"@ && body == filebox.text,
        FileType::File => match file_name {
            Some(last) => sent matches Some(Download::File { file_name: offered, path }) && offered@ == last
                && path@ == upload_path + "/"@ + filebox.file_path@,
            None => sent is None,
        },
    }
}

/// The characters of a file name, where there is one.
pub open spec fn name_text(file_name: Option<String>) -> Option<Seq<char>> {
    match file_name {
        Some(last) => Some(last@),
        None => None,
    }
}

/// Plans what is sent for `filebox`, whose stored path ends in `file_name`.
pub fn download_of(
    filebox: Filebox,
    upload_path: &str,
    file_name: Option<String>,
) -> (sent: Option<Download>)
    ensures
        spec_download(filebox, upload_path@, name_text(file_name), sent),
{
    match filebox.file_type {
        FileType::Text => Some(
            Download::Text { file_name: join2(filebox.name.as_str(), ".txt"), body: filebox.text },
        ),
        FileType::File => match file_name {
            Some(last) => Some(
                Download::File { file_name: last, path: stored_file(upload_path, filebox.file_path.as_str()) },
            ),
            None => None,
        },
    }
}

/// Plans what is sent for a box that has just been taken.
///
/// The platform says which piece of the stored path is its last component,
/// and whether it has one; the name that a file is offered under is that
/// piece, and everything else is as [`download_of`] has it. A text box has
/// no stored path, and what is sent for it is fixed.
pub fn take_filebox_by_code(filebox: Filebox, upload_path: &str) -> (sent: Option<Download>)
    ensures
        exists|file_name: Option<Seq<char>>| #[trigger]
            spec_download(filebox, upload_path@, file_name, sent) && (file_name matches Some(last) ==> is_piece_of(
                last,
                filebox.file_path@,
            )),
        filebox.file_type == FileType::Text ==> spec_download(filebox, upload_path@, None, sent),
{
    let file_name: Option<String> = file_name_of(filebox.file_path.as_str());
    let ghost found: Option<Seq<char>> = name_text(file_name);
    let sent: Option<Download> = download_of(filebox, upload_path, file_name);
    assert(spec_download(filebox, upload_path@, found, sent));
    sent
}

/// Answers a health check and counts it. The count stops at `u64::MAX`.
pub fn health_check_handler(message: &str, visit_count: &mut u64) -> (answer: HealthCheckResponse)
    ensures
        *final(visit_count) == if *old(visit_count) < u64::MAX {
            *old(visit_count) + 1
        } else {
            u64::MAX as int
        },
        answer.health_check_count == *final(visit_count),
        answer.message@ == message@,
{
    if *visit_count < u64::MAX {
        *visit_count = *visit_count + 1;
    }
    HealthCheckResponse { message: message.to_owned(), health_check_count: *visit_count }
}

} // verus!
