//! The state of a decoding session: what was last decoded, from which
//! source, and what went wrong with the other attempts.

use crate::code::{code_values, parse_vin};
use crate::input::{normalize_code, normalized};
use crate::container::pairs_view;
use crate::locator::{locate_and_decode_record, located_pairs};
use crate::schema::{expected_code_len, vin_structure, vin_width};
use crate::text::{append_decimal, decimal_nat};
use crate::values::{values_of_pairs, FieldValues};
use vstd::prelude::*;
use vstd::string::*;
use vstd::utf8::*;

verus! {

/// The source of the data that a session shows.
#[derive(Clone, Copy, Debug, PartialEq, Eq, Structural)]
pub enum LastSource {
    /// Nothing was decoded yet.
    Nothing,
    /// A record of a file.
    File,
    /// An identification code that was typed in.
    Vin,
}

/// Why a file gave no data.
#[derive(Clone, Copy, Debug, PartialEq, Eq, Structural)]
pub enum FileError {
    /// There is no file at the path.
    NotFound,
    /// The file holds no identification record that could be decoded.
    NoData,
}

impl FileError {
    /// The message of the error as text, for the path that was tried.
    pub open spec fn message_text(self, path: Seq<char>) -> Seq<char> {
        match self {
            FileError::NotFound => "File not found: "@ + path,
            FileError::NoData => "No VIN data found in file"@,
        }
    }

    /// The message that tells a user of the error. `path` is the path that
    /// was tried.
    pub fn message(&self, path: &str) -> (text: String)
        ensures
            text@ == self.message_text(path@),
    {
        match self {
            FileError::NotFound => {
                let mut text = String::from_str("File not found: ");
                text.append(path);
                text
            },
            FileError::NoData => String::from_str("No VIN data found in file"),
        }
    }
}

/// The path at which the game keeps its file, below the profile directory
/// of the user: the empty path where no profile directory is known.
pub open spec fn default_path_of(profile: Option<Seq<char>>) -> Seq<char> {
    match profile {
        Some(directory) => directory
            + "\\AppData\\LocalLow\\Amistech\\My Winter Car\\carparts.txt"@,
        None => Seq::empty(),
    }
}

/// The path at which the game keeps its file. `profile` is the profile
/// directory of the user, where one is known.
pub fn default_file_path(profile: Option<&str>) -> (path: String)
    ensures
        path@ == default_path_of(
            match profile {
                Some(directory) => Some(directory@),
                None => None,
            },
        ),
{
    match profile {
        Some(directory) => {
            let mut path = String::from_str(directory);
            path.append("\\AppData\\LocalLow\\Amistech\\My Winter Car\\carparts.txt");
            path
        },
        None => String::new(),
    }
}

/// An identification code of the wrong length. Lengths count the bytes of a
/// code in UTF-8, which for a code of letters, digits and `-` is the number
/// of its characters.
#[derive(Clone, Copy, Debug, PartialEq, Eq, Structural)]
pub struct LengthError {
    /// The length that the code has.
    pub found: usize,
    /// The length that a code must have.
    pub expected: usize,
}

impl LengthError {
    /// The message of the error as text.
    pub open spec fn message_text(self) -> Seq<char> {
        "Invalid VIN length: "@ + decimal_nat(self.found as nat) + " characters (expected "@
            + decimal_nat(self.expected as nat) + ")"@
    }

    /// The message that tells a user of the error.
    pub fn message(&self) -> (text: String)
        ensures
            text@ == self.message_text(),
    {
        let mut text = String::from_str("Invalid VIN length: ");
        append_decimal(&mut text, self.found as u64);
        text.append(" characters (expected ");
        append_decimal(&mut text, self.expected as u64);
        text.append(")");
        text
    }
}

/// The state of a decoding session.
pub struct Session {
    /// The field values of the code that was decoded last, if it had the
    /// right length.
    pub entries: Option<FieldValues>,
    /// What was wrong with the code that was entered last.
    pub vin_error: Option<LengthError>,
    /// The pairs of the record that was loaded last, in the record's order.
    pub vingen4_entries: Option<Vec<(String, String)>>,
    /// The source that is shown.
    pub last_source: LastSource,
    /// What was wrong with the file that was tried last.
    pub file_error: Option<FileError>,
}

/// A session as the contracts speak of it.
pub struct SessionView {
    /// The field values of the code that was decoded last.
    pub entries: Option<Map<Seq<char>, Seq<char>>>,
    /// What was wrong with the code that was entered last.
    pub vin_error: Option<LengthError>,
    /// The pairs of the record that was loaded last, in the record's order.
    pub vingen4_entries: Option<Seq<(Seq<char>, Seq<char>)>>,
    /// The source that is shown.
    pub last_source: LastSource,
    /// What was wrong with the file that was tried last.
    pub file_error: Option<FileError>,
}

/// Field values that may be missing, as the contracts speak of them.
pub open spec fn values_view(values: Option<FieldValues>) -> Option<Map<Seq<char>, Seq<char>>> {
    match values {
        Some(held) => Some(held@),
        None => None,
    }
}

/// Pairs that may be missing, as the contracts speak of them.
pub open spec fn record_view(pairs: Option<Vec<(String, String)>>) -> Option<
    Seq<(Seq<char>, Seq<char>)>,
> {
    match pairs {
        Some(held) => Some(pairs_view(held@)),
        None => None,
    }
}

impl View for Session {
    type V = SessionView;

    open spec fn view(&self) -> SessionView {
        SessionView {
            entries: values_view(self.entries),
            vin_error: self.vin_error,
            vingen4_entries: record_view(self.vingen4_entries),
            last_source: self.last_source,
            file_error: self.file_error,
        }
    }
}

/// The session before anything was decoded.
pub open spec fn fresh() -> SessionView {
    SessionView {
        entries: None,
        vin_error: None,
        vingen4_entries: None,
        last_source: LastSource::Nothing,
        file_error: None,
    }
}

/// The session after a path was tried at which there is no file: the record
/// is gone and the error is kept; what is shown stays as it was.
pub open spec fn after_missing_file(before: SessionView) -> SessionView {
    SessionView { vingen4_entries: None, file_error: Some(FileError::NotFound), ..before }
}

/// The session after a file was tried that holds no record, or could not be
/// read.
pub open spec fn after_empty_file(before: SessionView) -> SessionView {
    SessionView { vingen4_entries: None, file_error: Some(FileError::NoData), ..before }
}

/// The session after the content of a file was read: with a record in it
/// the record's pairs are kept as they were decoded and are the source that
/// is shown, and the file error is gone.
pub open spec fn after_file(before: SessionView, content: Seq<u8>) -> SessionView {
    match located_pairs(content) {
        Some(pairs) => SessionView {
            vingen4_entries: Some(pairs),
            file_error: None,
            last_source: LastSource::File,
            ..before
        },
        None => after_empty_file(before),
    }
}

/// The session after the file path was reset: the file error is gone.
pub open spec fn after_reset(before: SessionView) -> SessionView {
    SessionView { file_error: None, ..before }
}

/// The session after a code was entered. A code of the full width, by its
/// bytes in UTF-8, is split into its values; any other leaves an error with
/// its length and no values. Either way the code is the source that is
/// shown.
pub open spec fn after_code(before: SessionView, code: Seq<char>) -> SessionView {
    if encode_utf8(code).len() == vin_width() {
        SessionView {
            entries: Some(code_values(code, vin_structure())),
            vin_error: None,
            last_source: LastSource::Vin,
            ..before
        }
    } else {
        SessionView {
            entries: None,
            vin_error: Some(
                LengthError {
                    found: encode_utf8(code).len() as usize,
                    expected: vin_width() as usize,
                },
            ),
            last_source: LastSource::Vin,
            ..before
        }
    }
}

/// The field values that a session shows: those of the source that was
/// decoded last, if the attempt gave any. A record gives the values of its
/// pairs.
pub open spec fn shown(session: SessionView) -> Option<Map<Seq<char>, Seq<char>>> {
    match session.last_source {
        LastSource::File => match session.vingen4_entries {
            Some(pairs) => Some(values_of_pairs(pairs, pairs.len())),
            None => None,
        },
        LastSource::Vin => session.entries,
        LastSource::Nothing => None,
    }
}

impl Session {
    /// A session in which nothing was decoded yet.
    pub fn new() -> (session: Self)
        ensures
            session@ == fresh(),
    {
        Session {
            entries: None,
            vin_error: None,
            vingen4_entries: None,
            last_source: LastSource::Nothing,
            file_error: None,
        }
    }

    /// Takes note that there is no file at the path that was tried.
    pub fn file_missing(&mut self)
        ensures
            final(self)@ == after_missing_file(old(self)@),
    {
        self.file_error = Some(FileError::NotFound);
        self.vingen4_entries = None;
    }

    /// Takes in what was read of a file: its content, or `None` where it
    /// could not be read.
    pub fn file_loaded(&mut self, content: Option<&[u8]>)
        ensures
            final(self)@ == match content {
                Some(bytes) => after_file(old(self)@, bytes@),
                None => after_empty_file(old(self)@),
            },
    {
        let decoded = match content {
            Some(bytes) => locate_and_decode_record(bytes),
            None => None,
        };
        match decoded {
            Some(pairs) => {
                self.vingen4_entries = Some(pairs);
                self.file_error = None;
                self.last_source = LastSource::File;
            },
            None => {
                self.file_error = Some(FileError::NoData);
                self.vingen4_entries = None;
            },
        }
    }

    /// Takes note that the file path was reset.
    pub fn file_reset(&mut self)
        ensures
            final(self)@ == after_reset(old(self)@),
    {
        self.file_error = None;
    }

    /// Takes in an identification code: one of the full width is decoded,
    /// any other refused with its length.
    pub fn code_entered(&mut self, vin: &str)
        ensures
            final(self)@ == after_code(old(self)@, vin@),
    {
        let found = vin.as_bytes().len();
        let expected = expected_code_len();
        if found != expected {
            self.vin_error = Some(LengthError { found, expected });
            self.entries = None;
        } else {
            self.entries = Some(parse_vin(vin));
            self.vin_error = None;
        }
        self.last_source = LastSource::Vin;
    }

    /// Takes in what a user typed for an identification code: the text is
    /// brought into the form of a code, and the code is taken in.
    pub fn input_entered(&mut self, input: &str)
        ensures
            final(self)@ == after_code(old(self)@, normalized(input@)),
    {
        let vin = normalize_code(input);
        self.code_entered(vin.as_str());
    }

    /// The field values to show, if there are any.
    pub fn shown_values(&self) -> (values: Option<ShownValues<'_>>)
        ensures
            match values {
                Some(held) => shown(self@) == Some(held@),
                None => shown(self@) is None,
            },
    {
        match self.last_source {
            LastSource::File => match &self.vingen4_entries {
                Some(pairs) => Some(ShownValues::OfRecord(FieldValues::from_pairs(pairs))),
                None => None,
            },
            LastSource::Vin => match &self.entries {
                Some(values) => Some(ShownValues::OfCode(values)),
                None => None,
            },
            LastSource::Nothing => None,
        }
    }
}

/// The field values that a session shows: those of a record, made from the
/// record's pairs for the showing, or those of a code, which the session
/// holds.
pub enum ShownValues<'a> {
    /// The values of the pairs of a record.
    OfRecord(FieldValues),
    /// The values of a code.
    OfCode(&'a FieldValues),
}

impl<'a> View for ShownValues<'a> {
    type V = Map<Seq<char>, Seq<char>>;

    open spec fn view(&self) -> Map<Seq<char>, Seq<char>> {
        match self {
            ShownValues::OfRecord(values) => values@,
            ShownValues::OfCode(values) => values@,
        }
    }
}

impl<'a> ShownValues<'a> {
    /// The field values themselves.
    pub fn values(&self) -> (values: &FieldValues)
        ensures
            values@ == self@,
    {
        match self {
            ShownValues::OfRecord(values) => values,
            ShownValues::OfCode(values) => values,
        }
    }
}

} // verus!
