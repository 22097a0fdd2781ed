//! The entries of the camera's listings.

use vstd::prelude::*;
use vstd::string::*;
use crate::error::Error;
use crate::text::{chars_of, decimal, parse_decimal, split, split_chars, string_of, views};
use crate::timestamp::{fat_fields, parse_fat_datetime, CivilTime, Timestamp};

verus! {

/// Where the camera's HTTP interface lives.
pub const BASE_URL: &'static str = "http://192.168.0.10/";

/// The names that the camera gives to its directories: three digits and five
/// word characters.
pub const DIRECTORY_PATTERN: &'static str = "^\\d{3}\\w{5}$";

/// What a catalog entry says, as plain values.
pub struct ItemView {
    pub parent: Seq<char>,
    pub filename: Seq<char>,
    pub file_size: int,
    pub date: CivilTime,
}

/// One file or directory of the camera, as a listing row describes it.
#[derive(Debug)]
pub struct TransferItem {
    /// The directory that holds the entry, as an absolute path on the camera.
    pub parent: String,
    pub filename: String,
    /// The size in bytes.
    pub file_size: u64,
    /// When the entry was last modified.
    pub date: Timestamp,
}

impl View for TransferItem {
    type V = ItemView;

    open spec fn view(&self) -> ItemView {
        ItemView {
            parent: self.parent@,
            filename: self.filename@,
            file_size: self.file_size as int,
            date: self.date@,
        }
    }
}

/// The entry that a listing row describes. A row has exactly six fields
/// between commas: the parent directory, the file name, the size, a field
/// that is not used, the packed date and the packed time. The three numbers
/// are written in decimal and fit 64, 16 and 16 bits, and the date and time
/// name a moment that exists.
pub open spec fn row_item(row: Seq<char>) -> Option<ItemView> {
    let fields = split(row, seq![',']);
    if fields.len() != 6 {
        None
    } else {
        match (
            decimal(fields[2], u64::MAX as int),
            decimal(fields[4], u16::MAX as int),
            decimal(fields[5], u16::MAX as int),
        ) {
            (Some(size), Some(date), Some(time)) => {
                let stamp = fat_fields(date as u16, time as u16);
                if stamp.valid() {
                    Some(ItemView { parent: fields[0], filename: fields[1], file_size: size, date: stamp })
                } else {
                    None
                }
            },
            _ => None,
        }
    }
}

/// What `regex::Regex::new` and then `regex::Regex::is_match` make of a
/// pattern and a text: nothing if the pattern does not compile, else whether
/// the text has a match.
pub uninterp spec fn regex_match(pattern: Seq<char>, text: Seq<char>) -> Option<bool>;

/// `regex::Regex::new` on the pattern and `regex::Regex::is_match` on the
/// text. The result depends on the two arguments alone.
#[verifier::external_body]
fn regex_is_match(pattern: &str, text: &str) -> (found: Option<bool>)
    ensures
        found == regex_match(pattern@, text@),
{
    match regex::Regex::new(pattern) {
        Ok(re) => Some(re.is_match(text)),
        Err(_) => None,
    }
}

/// Whether a file name has the shape of a directory's name: the pattern
/// compiles and finds a match in it.
pub open spec fn names_directory(filename: Seq<char>) -> bool {
    regex_match(DIRECTORY_PATTERN@, filename) == Some(true)
}

/// The views of a list of entries.
pub open spec fn item_views(items: Seq<TransferItem>) -> Seq<ItemView> {
    items.map_values(|item: TransferItem| item@)
}

impl Clone for TransferItem {
    fn clone(&self) -> (copy: TransferItem)
        ensures
            copy@ == self@,
    {
        TransferItem {
            parent: self.parent.clone(),
            filename: self.filename.clone(),
            file_size: self.file_size,
            date: self.date,
        }
    }
}

impl PartialEq for TransferItem {
    /// Two entries are the same entry when they have the same parent and name.
    fn eq(&self, other: &TransferItem) -> (equal: bool) {
        self.parent == other.parent && self.filename == other.filename
    }
}

impl Eq for TransferItem {

}

impl vstd::std_specs::cmp::PartialEqSpecImpl for TransferItem {
    open spec fn obeys_eq_spec() -> bool {
        true
    }

    open spec fn eq_spec(&self, other: &TransferItem) -> bool {
        self.parent@ == other.parent@ && self.filename@ == other.filename@
    }
}

impl TransferItem {
    /// Reads one row of a listing.
    pub fn from_row(row: &str) -> (parsed: Result<TransferItem, Error>)
        ensures
            parsed is Ok <==> row_item(row@) is Some,
            parsed matches Ok(item) ==> Some(item@) == row_item(row@),
            parsed matches Err(e) ==> e == Error::ProtocolError,
    {
        let chars = chars_of(row);
        TransferItem::from_chars(&chars)
    }

    /// Reads one row of a listing, given as its characters.
    pub fn from_chars(chars: &Vec<char>) -> (parsed: Result<TransferItem, Error>)
        ensures
            parsed is Ok <==> row_item(chars@) is Some,
            parsed matches Ok(item) ==> Some(item@) == row_item(chars@),
            parsed matches Err(e) ==> e == Error::ProtocolError,
    {
        let comma: Vec<char> = vec![','];
        assert(comma@ == seq![',']);
        let fields = split_chars(chars, &comma);
        assert(views(fields@).len() == fields@.len());
        if fields.len() != 6 {
            return Err(Error::ProtocolError);
        }
        assert(views(fields@)[0] == fields@[0]@);
        assert(views(fields@)[1] == fields@[1]@);
        assert(views(fields@)[2] == fields@[2]@);
        assert(views(fields@)[4] == fields@[4]@);
        assert(views(fields@)[5] == fields@[5]@);
        let size = match parse_decimal(&fields[2], u64::MAX) {
            Some(n) => n,
            None => {
                return Err(Error::ProtocolError);
            },
        };
        let date = match parse_decimal(&fields[4], 65535) {
            Some(n) => n as u16,
            None => {
                return Err(Error::ProtocolError);
            },
        };
        let time = match parse_decimal(&fields[5], 65535) {
            Some(n) => n as u16,
            None => {
                return Err(Error::ProtocolError);
            },
        };
        let stamp = match parse_fat_datetime(date, time) {
            Ok(t) => t,
            Err(e) => {
                return Err(e);
            },
        };
        Ok(
            TransferItem {
                parent: string_of(&fields[0]),
                filename: string_of(&fields[1]),
                file_size: size,
                date: stamp,
            },
        )
    }

    /// Whether the entry is a directory: the camera marks none, so the name decides.
    pub fn is_directory(&self) -> (is_dir: bool)
        ensures
            is_dir == names_directory(self.filename@),
    {
        match regex_is_match(DIRECTORY_PATTERN, self.filename.as_str()) {
            Some(found) => found,
            None => false,
        }
    }

    /// The entry's absolute path on the camera: parent and name with a slash between.
    pub fn path(&self) -> (path: String)
        ensures
            path@ == self.parent@ + seq!['/'] + self.filename@,
    {
        let mut path = self.parent.clone();
        path.push('/');
        path.append(self.filename.as_str());
        path
    }

    /// The address from which the entry's bytes are fetched.
    pub fn url(&self) -> (url: String)
        ensures
            url@ == BASE_URL@ + self.parent@ + seq!['/'] + self.filename@,
    {
        let mut url = String::from_str(BASE_URL);
        let path = self.path();
        url.append(path.as_str());
        url
    }
}

} // verus!
