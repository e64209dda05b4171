//! The decisions of the two save operations.
//!
//! Picking a folder, creating directories and writing files happen outside
//! this module; their results come back here as plain values, and what to
//! do next, what counts as saved and what the user is told is decided here.
use vstd::prelude::*;
use crate::data_url::{decode_image_data, payload_of, standard_decoded, DataUrlError};

verus! {

/// One image of a batch: the file name without extension, the image data
/// (a data URL or text whose payload follows its first comma), and an
/// optional folder below the chosen one.
pub struct ImagePayload {
    pub filename: String,
    pub data: String,
    pub subdir: Option<String>,
}

/// Why a save operation, or one image of a batch, failed.
#[derive(Debug, PartialEq, Eq)]
pub enum SaveError {
    /// The user closed the folder picker without choosing a folder.
    Cancelled,
    /// The image data has neither a known data URL prefix nor a comma.
    Format,
    /// The image data's payload is not valid base64.
    Decode(String),
    /// The target directories could not be created.
    Directory(String),
    /// The image file could not be written.
    Write(String),
}

/// Where one image goes: `subdir` (if any) below `folder`, in a file named
/// `file_name`.
pub struct SaveTarget {
    pub folder: String,
    pub subdir: Option<String>,
    pub file_name: String,
}

/// The counts that a batch save reports.
#[derive(Debug, PartialEq, Eq)]
pub struct BatchSummary {
    pub saved: usize,
    pub failed: usize,
}

pub open spec fn message_of(e: SaveError) -> Seq<char> {
    match e {
        SaveError::Cancelled => "Folder selection cancelled by user"@,
        SaveError::Format => "Invalid image data format"@,
        SaveError::Decode(m) => "Failed to decode image: "@ + m@,
        SaveError::Directory(m) => "Failed to create folders: "@ + m@,
        SaveError::Write(m) => "Failed to write file: "@ + m@,
    }
}

impl SaveError {
    /// The text shown to the user for this error.
    pub fn message(&self) -> (r: String)
        ensures
            r@ == message_of(*self),
    {
        match self {
            SaveError::Cancelled => "Folder selection cancelled by user".to_owned(),
            SaveError::Format => "Invalid image data format".to_owned(),
            SaveError::Decode(m) => "Failed to decode image: ".to_owned().concat(m.as_str()),
            SaveError::Directory(m) => "Failed to create folders: ".to_owned().concat(m.as_str()),
            SaveError::Write(m) => "Failed to write file: ".to_owned().concat(m.as_str()),
        }
    }
}

/// The folder to save into, or a cancellation where the picker returned
/// no folder.
pub fn chosen_folder(picked: Option<String>) -> (r: Result<String, SaveError>)
    ensures
        picked is None ==> r == Err::<String, SaveError>(SaveError::Cancelled),
        picked is Some ==> r is Ok && r->Ok_0@ == picked->Some_0@,
{
    match picked {
        Some(folder) => Ok(folder),
        None => Err(SaveError::Cancelled),
    }
}

/// The subfolder to use: the one given, unless it is absent or empty.
pub open spec fn effective_subdir(subdir: Option<Seq<char>>) -> Option<Seq<char>> {
    match subdir {
        Some(s) => if s.len() > 0 { Some(s) } else { None },
        None => None,
    }
}

pub open spec fn opt_view(o: Option<String>) -> Option<Seq<char>> {
    match o {
        Some(s) => Some(s@),
        None => None,
    }
}

/// The file name of an image: its name with `.jpg` appended, whatever the
/// format of the data.
pub open spec fn jpg_name(filename: Seq<char>) -> Seq<char> {
    filename + ".jpg"@
}

/// Where the image `filename` goes below `folder`, given its optional
/// subfolder; an empty subfolder counts as none.
pub fn save_target(folder: String, filename: &str, subdir: Option<String>) -> (r: SaveTarget)
    ensures
        r.folder@ == folder@,
        opt_view(r.subdir) == effective_subdir(opt_view(subdir)),
        r.file_name@ == jpg_name(filename@),
{
    let subdir = match subdir {
        Some(s) => if s.as_str().is_empty() { None } else { Some(s) },
        None => None,
    };
    SaveTarget { folder, subdir, file_name: filename.to_owned().concat(".jpg") }
}

pub open spec fn image_decodes(data: Seq<char>) -> bool {
    match payload_of(data) {
        Some(p) => standard_decoded(p) is Some,
        None => false,
    }
}

/// The bytes to write for an image once its directory was or was not
/// created: a directory error first, then what decoding the data gives.
pub fn bytes_to_write(image_data: &str, dir_created: Result<(), String>) -> (r: Result<
    Vec<u8>,
    SaveError,
>)
    ensures
        r is Ok <==> (dir_created is Ok && image_decodes(image_data@)),
        dir_created is Err ==> r == Err::<Vec<u8>, SaveError>(
            SaveError::Directory(dir_created->Err_0),
        ),
        dir_created is Ok ==> match payload_of(image_data@) {
            None => r == Err::<Vec<u8>, SaveError>(SaveError::Format),
            Some(p) => match standard_decoded(p) {
                Some(bytes) => r is Ok && r->Ok_0@ == bytes,
                None => r is Err && r->Err_0 is Decode,
            },
        },
{
    match dir_created {
        Err(e) => Err(SaveError::Directory(e)),
        Ok(()) => match decode_image_data(image_data) {
            Ok(bytes) => Ok(bytes),
            Err(DataUrlError::Format) => Err(SaveError::Format),
            Err(DataUrlError::Base64(m)) => Err(SaveError::Decode(m)),
        },
    }
}

/// The outcome of an image once its file was or was not written.
pub fn write_outcome(written: Result<(), String>) -> (r: Result<(), SaveError>)
    ensures
        written is Ok ==> r is Ok,
        written is Err ==> r == Err::<(), SaveError>(SaveError::Write(written->Err_0)),
{
    match written {
        Ok(()) => Ok(()),
        Err(e) => Err(SaveError::Write(e)),
    }
}

/// The message of a single save that wrote the file at `path`.
pub fn saved_message(path: &str) -> (r: String)
    ensures
        r@ == "Image saved to: "@ + path@,
{
    "Image saved to: ".to_owned().concat(path)
}

/// The decimal digit `d` as a character.
pub open spec fn digit_char(d: nat) -> char {
    if d == 0 { '0' }
    else if d == 1 { '1' }
    else if d == 2 { '2' }
    else if d == 3 { '3' }
    else if d == 4 { '4' }
    else if d == 5 { '5' }
    else if d == 6 { '6' }
    else if d == 7 { '7' }
    else if d == 8 { '8' }
    else { '9' }
}

/// `n` written in decimal, without leading zeros.
pub open spec fn decimal(n: nat) -> Seq<char>
    decreases n,
{
    if n < 10 {
        seq![digit_char(n)]
    } else {
        decimal(n / 10).push(digit_char(n % 10))
    }
}

fn digit_str(d: usize) -> (r: &'static str)
    requires
        d < 10,
    ensures
        r@ == seq![digit_char(d as nat)],
{
    proof {
        reveal_strlit("0");
        reveal_strlit("1");
        reveal_strlit("2");
        reveal_strlit("3");
        reveal_strlit("4");
        reveal_strlit("5");
        reveal_strlit("6");
        reveal_strlit("7");
        reveal_strlit("8");
        reveal_strlit("9");
    }
    let r = if d == 0 { "0" }
    else if d == 1 { "1" }
    else if d == 2 { "2" }
    else if d == 3 { "3" }
    else if d == 4 { "4" }
    else if d == 5 { "5" }
    else if d == 6 { "6" }
    else if d == 7 { "7" }
    else if d == 8 { "8" }
    else { "9" };
    assert(r@ =~= seq![digit_char(d as nat)]);
    r
}

/// `n` written in decimal.
pub fn decimal_string(n: usize) -> (r: String)
    ensures
        r@ == decimal(n as nat),
    decreases n,
{
    if n < 10 {
        digit_str(n).to_owned()
    } else {
        let head = decimal_string(n / 10);
        let r = head.concat(digit_str(n % 10));
        assert(r@ =~= decimal(n as nat));
        r
    }
}

/// How many of `outcomes` are successes.
pub open spec fn count_saved(outcomes: Seq<Result<(), SaveError>>) -> nat
    decreases outcomes.len(),
{
    if outcomes.len() == 0 {
        0
    } else {
        count_saved(outcomes.drop_last()) + if outcomes.last() is Ok { 1nat } else { 0nat }
    }
}

/// Counts the images of a batch that were saved and those that failed.
pub fn tally(outcomes: &Vec<Result<(), SaveError>>) -> (r: BatchSummary)
    ensures
        r.saved == count_saved(outcomes@),
        r.saved + r.failed == outcomes@.len(),
{
    let mut saved: usize = 0;
    let mut failed: usize = 0;
    let mut i: usize = 0;
    while i < outcomes.len()
        invariant
            i <= outcomes@.len(),
            saved == count_saved(outcomes@.take(i as int)),
            saved + failed == i,
        decreases outcomes@.len() - i,
    {
        assert(outcomes@.take(i + 1).drop_last() =~= outcomes@.take(i as int));
        if outcomes[i].is_ok() {
            saved = saved + 1;
        } else {
            failed = failed + 1;
        }
        i = i + 1;
    }
    assert(outcomes@.take(i as int) =~= outcomes@);
    BatchSummary { saved, failed }
}

/// The message of a finished batch saved below `base`.
pub open spec fn summary_message(saved: nat, failed: nat, base: Seq<char>) -> Seq<char> {
    if failed == 0 {
        "Successfully saved "@ + decimal(saved) + " images to "@ + base
    } else {
        "Saved "@ + decimal(saved) + " images, "@ + decimal(failed) + " failed. Location: "@
            + base
    }
}

impl BatchSummary {
    /// The text shown to the user for a batch saved below `base`.
    pub fn message(&self, base: &str) -> (r: String)
        ensures
            r@ == summary_message(self.saved as nat, self.failed as nat, base@),
    {
        if self.failed == 0 {
            "Successfully saved ".to_owned().concat(decimal_string(self.saved).as_str()).concat(
                " images to ",
            ).concat(base)
        } else {
            "Saved ".to_owned().concat(decimal_string(self.saved).as_str()).concat(
                " images, ",
            ).concat(decimal_string(self.failed).as_str()).concat(" failed. Location: ").concat(
                base,
            )
        }
    }
}

/// Whether an image is saved: its directory was created, its data decodes
/// and its file was written. `bytes_to_write` followed by `write_outcome`
/// succeeds exactly then.
pub open spec fn item_saved(data: Seq<char>, dir_ok: bool, write_ok: bool) -> bool {
    dir_ok && image_decodes(data) && write_ok
}

/// How many of `datas` decode to image bytes.
pub open spec fn count_decodable(datas: Seq<Seq<char>>) -> nat
    decreases datas.len(),
{
    if datas.len() == 0 {
        0
    } else {
        count_decodable(datas.drop_last()) + if image_decodes(datas.last()) { 1nat } else { 0nat }
    }
}

/// In a batch where every directory is created and every file written, the
/// images saved are exactly those whose data decodes, and the others fail.
pub proof fn lemma_batch_counts(datas: Seq<Seq<char>>, outcomes: Seq<Result<(), SaveError>>)
    requires
        outcomes.len() == datas.len(),
        forall|i: int|
            0 <= i < datas.len() ==> (#[trigger] outcomes[i] is Ok <==> item_saved(
                datas[i],
                true,
                true,
            )),
    ensures
        count_saved(outcomes) == count_decodable(datas),
        outcomes.len() - count_saved(outcomes) == datas.len() - count_decodable(datas),
    decreases datas.len(),
{
    if datas.len() > 0 {
        let n = datas.len() - 1;
        assert(outcomes[n] is Ok <==> item_saved(datas[n], true, true));
        lemma_batch_counts(datas.drop_last(), outcomes.drop_last());
    }
}

} // verus!
