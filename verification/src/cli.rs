//! What the command-line front end decides: which columns a listing shows, how the
//! object to work on is found, and how typed-in hexadecimal text becomes bytes.

use vstd::prelude::*;
use vstd::std_specs::iter::IteratorSpec;
use vstd::string::StringExecFns;
use vstd::utf8::{decode_utf8, valid_utf8};

use crate::directory::Metadata;
use crate::flags::{Property, WriteMode};
use crate::types::DateTime;

verus! {

/// Why a command cannot be carried out.
#[derive(Debug, Clone, Copy, PartialEq, Eq, Hash, Structural)]
pub enum CliError {
    /// No adapter has the address or name asked for.
    NoAdapter,
    /// No device has the address or name asked for.
    NoDevice,
    /// The list has no object at the place asked for.
    NoObject,
    /// The object was named by neither index, identifier nor name, or no object has
    /// the identifier.
    ObjIdError,
    /// The input holds something that is no hexadecimal digit.
    HexError,
    /// The input is no UTF-8.
    Utf8Error,
}

/// What to show of the service.
#[derive(Debug, Clone, Copy, PartialEq, Eq, Hash, Structural)]
pub struct InfoArgs {
    /// Show the action features.
    pub action: bool,
    /// Show the list features.
    pub list: bool,
    /// Show everything.
    pub full: bool,
}

/// What to show of each object in a listing.
#[derive(Debug, Clone, Copy, PartialEq, Eq, Hash, Structural)]
pub struct ListArgs {
    /// Show the identifiers.
    pub id: bool,
    /// Show the names.
    pub name: bool,
    /// Show the types.
    pub type_: bool,
    /// Show the current sizes.
    pub cur_size: bool,
    /// Show the allocated sizes.
    pub alloc_size: bool,
    /// Show both sizes.
    pub size: bool,
    /// Show the creation times.
    pub crt_time: bool,
    /// Show the modification times.
    pub mod_time: bool,
    /// Show both times.
    pub time: bool,
    /// Show the properties.
    pub props: bool,
    /// Show everything but the times.
    pub full: bool,
    /// Take the listing from the directory object where there is one.
    pub dir: bool,
}

/// Which object to work on: the first of index, identifier and name that is given.
#[derive(Debug, Clone, PartialEq, Eq)]
pub struct ObjSel {
    /// The place in the list, from 0.
    pub index: Option<usize>,
    /// The identifier.
    pub id: Option<u64>,
    /// The name.
    pub name: Option<String>,
}

/// Which part of an object to work on.
#[derive(Debug, Clone, Copy, PartialEq, Eq, Hash, Structural)]
pub struct RangeSel {
    /// Where the part starts.
    pub offset: usize,
    /// How long the part is; all that follows the offset where none is given.
    pub length: Option<usize>,
}

/// What to read.
#[derive(Debug, Clone, PartialEq, Eq)]
pub struct ReadArgs {
    /// The object.
    pub object: ObjSel,
    /// The part of the object.
    pub range: RangeSel,
    /// The file to write the data to; they are printed in hexadecimal where none is given.
    pub file: Option<String>,
}

/// What to write.
#[derive(Debug, Clone, PartialEq, Eq)]
pub struct WriteArgs {
    /// The object.
    pub object: ObjSel,
    /// The part of the object.
    pub range: RangeSel,
    /// Cut the object off behind what was written.
    pub truncate: bool,
    /// The file to take the data from; they are read in hexadecimal from the standard
    /// input where none is given.
    pub file: Option<String>,
}

/// What the client is asked to do.
#[derive(Debug, Clone, PartialEq, Eq)]
pub enum Action {
    /// Show what the server offers.
    Info(InfoArgs),
    /// List the objects.
    List(ListArgs),
    /// Read an object.
    Read(ReadArgs),
    /// Write an object.
    Write(WriteArgs),
}

/// How a line of input ended.
#[derive(Debug, Clone, Copy, PartialEq, Eq, Hash, Structural)]
pub enum InputEvent {
    /// The line was entered.
    Ret,
    /// The input was interrupted.
    Int,
    /// The input has ended.
    End,
}

/// A key as the line editor sees it.
#[derive(Debug, Clone, Copy, PartialEq, Eq, Hash, Structural)]
pub enum Key {
    /// A character typed with the control key held.
    Ctrl(char),
    /// The escape key.
    Esc,
    /// The enter key.
    Enter,
    /// The backspace key.
    Backspace,
    /// Any other key.
    Other,
}

/// What a key does to the line being typed.
#[derive(Debug, Clone, Copy, PartialEq, Eq, Hash, Structural)]
pub enum KeyAction {
    /// The line ends in this way.
    Emit(InputEvent),
    /// The last character of the line goes.
    Erase,
    /// Nothing.
    Ignore,
}

impl Key {
    /// What the key does: control-C and escape interrupt, control-D ends the input,
    /// enter ends the line, backspace erases.
    pub open spec fn spec_action(self) -> KeyAction {
        match self {
            Key::Ctrl(c) => if c == 'c' {
                KeyAction::Emit(InputEvent::Int)
            } else if c == 'd' {
                KeyAction::Emit(InputEvent::End)
            } else {
                KeyAction::Ignore
            },
            Key::Esc => KeyAction::Emit(InputEvent::Int),
            Key::Enter => KeyAction::Emit(InputEvent::Ret),
            Key::Backspace => KeyAction::Erase,
            Key::Other => KeyAction::Ignore,
        }
    }

    /// What the key does to the line being typed.
    pub fn action(&self) -> (r: KeyAction)
        ensures
            r == self.spec_action(),
    {
        match self {
            Key::Ctrl(c) => {
                if *c == 'c' {
                    KeyAction::Emit(InputEvent::Int)
                } else if *c == 'd' {
                    KeyAction::Emit(InputEvent::End)
                } else {
                    KeyAction::Ignore
                }
            },
            Key::Esc => KeyAction::Emit(InputEvent::Int),
            Key::Enter => KeyAction::Emit(InputEvent::Ret),
            Key::Backspace => KeyAction::Erase,
            Key::Other => KeyAction::Ignore,
        }
    }
}

impl InfoArgs {
    /// Whether to show the action features.
    pub fn action(&self) -> (r: bool)
        ensures
            r == (self.action || self.full),
    {
        self.action || self.full
    }

    /// Whether to show the list features.
    pub fn list(&self) -> (r: bool)
        ensures
            r == (self.list || self.full),
    {
        self.list || self.full
    }
}

impl ListArgs {
    /// Whether the identifiers are shown.
    pub open spec fn spec_id(self) -> bool {
        self.id || self.full
    }

    /// Whether the names are shown.
    pub open spec fn spec_name(self) -> bool {
        self.name || self.full
    }

    /// Whether the types are shown.
    pub open spec fn spec_type(self) -> bool {
        self.type_ || self.full
    }

    /// Whether the current sizes are shown.
    pub open spec fn spec_cur_size(self) -> bool {
        self.cur_size || self.size || self.full
    }

    /// Whether the allocated sizes are shown.
    pub open spec fn spec_alloc_size(self) -> bool {
        self.alloc_size || self.size || self.full
    }

    /// Whether the creation times are shown.
    pub open spec fn spec_crt_time(self) -> bool {
        self.crt_time || self.time
    }

    /// Whether the modification times are shown.
    pub open spec fn spec_mod_time(self) -> bool {
        self.mod_time || self.time
    }

    /// Whether the properties are shown.
    pub open spec fn spec_props(self) -> bool {
        self.props || self.full
    }

    /// The head of the listing: the names of the columns, each behind a tabulator.
    pub open spec fn spec_header(self) -> Seq<char> {
        "index"@ + (if self.spec_id() {
            "\tid"@
        } else {
            Seq::empty()
        }) + (if self.spec_name() {
            "\tname"@
        } else {
            Seq::empty()
        }) + (if self.spec_type() {
            "\ttype"@
        } else {
            Seq::empty()
        }) + (if self.spec_cur_size() && self.spec_alloc_size() {
            "\tsize current/allocated"@
        } else if self.spec_cur_size() {
            "\tsize current"@
        } else if self.spec_alloc_size() {
            "\tsize allocated"@
        } else {
            Seq::empty()
        }) + (if self.spec_crt_time() && self.spec_mod_time() {
            "\ttime created/modified"@
        } else if self.spec_crt_time() {
            "\ttime created"@
        } else if self.spec_mod_time() {
            "\ttime modified"@
        } else {
            Seq::empty()
        }) + (if self.spec_props() {
            "\tprops"@
        } else {
            Seq::empty()
        })
    }

    /// Whether the identifiers are shown.
    pub fn id(&self) -> (r: bool)
        ensures
            r == self.spec_id(),
    {
        self.id || self.full
    }

    /// Whether the names are shown.
    pub fn name(&self) -> (r: bool)
        ensures
            r == self.spec_name(),
    {
        self.name || self.full
    }

    /// Whether the types are shown.
    pub fn type_(&self) -> (r: bool)
        ensures
            r == self.spec_type(),
    {
        self.type_ || self.full
    }

    /// Whether the current sizes are shown.
    pub fn cur_size(&self) -> (r: bool)
        ensures
            r == self.spec_cur_size(),
    {
        self.cur_size || self.size || self.full
    }

    /// Whether the allocated sizes are shown.
    pub fn alloc_size(&self) -> (r: bool)
        ensures
            r == self.spec_alloc_size(),
    {
        self.alloc_size || self.size || self.full
    }

    /// Whether a size is shown.
    pub fn any_size(&self) -> (r: bool)
        ensures
            r == (self.spec_cur_size() || self.spec_alloc_size()),
    {
        self.cur_size || self.alloc_size || self.size || self.full
    }

    /// Whether the creation times are shown.
    pub fn crt_time(&self) -> (r: bool)
        ensures
            r == self.spec_crt_time(),
    {
        self.crt_time || self.time
    }

    /// Whether the modification times are shown.
    pub fn mod_time(&self) -> (r: bool)
        ensures
            r == self.spec_mod_time(),
    {
        self.mod_time || self.time
    }

    /// Whether a time is shown.
    pub fn any_time(&self) -> (r: bool)
        ensures
            r == (self.spec_crt_time() || self.spec_mod_time()),
    {
        self.crt_time || self.mod_time || self.time
    }

    /// Whether the properties are shown.
    pub fn props(&self) -> (r: bool)
        ensures
            r == self.spec_props(),
    {
        self.props || self.full
    }

    /// The head of the listing.
    pub fn header(&self) -> (r: String)
        ensures
            r@ == self.spec_header(),
    {
        let mut out: String = String::from_str("index");
        if self.id() {
            out.append("\tid");
        }
        if self.name() {
            out.append("\tname");
        }
        if self.type_() {
            out.append("\ttype");
        }
        if self.cur_size() && self.alloc_size() {
            out.append("\tsize current/allocated");
        } else if self.cur_size() {
            out.append("\tsize current");
        } else if self.alloc_size() {
            out.append("\tsize allocated");
        }
        if self.crt_time() && self.mod_time() {
            out.append("\ttime created/modified");
        } else if self.crt_time() {
            out.append("\ttime created");
        } else if self.mod_time() {
            out.append("\ttime modified");
        }
        if self.props() {
            out.append("\tprops");
        }
        assert(out@ =~= self.spec_header());
        out
    }

    /// What a row of the listing shows of an object: each value that is asked for and
    /// known.
    pub fn row(&self, meta: &Metadata) -> (r: Row)
        ensures
            r.id == (if self.spec_id() {
                meta.id
            } else {
                None
            }),
            r.name == self.spec_name(),
            r.type_ == self.spec_type(),
            r.current_size == (if self.spec_cur_size() {
                meta.current_size
            } else {
                None
            }),
            r.allocated_size == (if self.spec_alloc_size() {
                meta.allocated_size
            } else {
                None
            }),
            r.first_created == (if self.spec_crt_time() {
                meta.first_created
            } else {
                None
            }),
            r.last_modified == (if self.spec_mod_time() {
                meta.last_modified
            } else {
                None
            }),
            r.properties == (if self.spec_props() {
                Some(meta.properties)
            } else {
                None
            }),
    {
        Row {
            id: if self.id() {
                meta.id
            } else {
                None
            },
            name: self.name(),
            type_: self.type_(),
            current_size: if self.cur_size() {
                meta.current_size
            } else {
                None
            },
            allocated_size: if self.alloc_size() {
                meta.allocated_size
            } else {
                None
            },
            first_created: if self.crt_time() {
                meta.first_created
            } else {
                None
            },
            last_modified: if self.mod_time() {
                meta.last_modified
            } else {
                None
            },
            properties: if self.props() {
                Some(meta.properties)
            } else {
                None
            },
        }
    }
}

/// What a row of a listing shows of one object.
#[derive(Debug, Clone, Copy, PartialEq, Eq, Structural)]
pub struct Row {
    /// The identifier.
    pub id: Option<u64>,
    /// Whether the name is shown.
    pub name: bool,
    /// Whether the type is shown.
    pub type_: bool,
    /// The current size.
    pub current_size: Option<usize>,
    /// The allocated size.
    pub allocated_size: Option<usize>,
    /// The creation time.
    pub first_created: Option<DateTime>,
    /// The modification time.
    pub last_modified: Option<DateTime>,
    /// The properties.
    pub properties: Option<Property>,
}

impl WriteArgs {
    /// The mode of the write: truncating where that was asked for.
    pub fn mode(&self) -> (r: WriteMode)
        ensures
            r.bits == (if self.truncate {
                WriteMode::TRUNCATE
            } else {
                0
            }),
            r.is_valid(),
    {
        if self.truncate {
            assert(0x02u8 & !0x02u8 == 0) by (bit_vector);
            WriteMode { bits: WriteMode::TRUNCATE }
        } else {
            WriteMode::empty()
        }
    }
}

impl RangeSel {
    /// The data to write: all of `data`, or its first `length` bytes where a length is
    /// given and `data` is longer.
    pub open spec fn spec_clip(self, data: Seq<u8>) -> Seq<u8> {
        match self.length {
            Some(n) => if data.len() > n {
                data.subrange(0, n as int)
            } else {
                data
            },
            None => data,
        }
    }

    /// Cuts `data` down to the length of the range; the flag says whether anything
    /// was cut off.
    pub fn clip<'a>(&self, data: &'a [u8]) -> (r: (&'a [u8], bool))
        ensures
            r.0@ == self.spec_clip(data@),
            r.1 == (r.0@.len() < data@.len()),
    {
        match self.length {
            Some(n) => {
                if data.len() > n {
                    (vstd::slice::slice_subrange(data, 0, n), true)
                } else {
                    (data, false)
                }
            },
            None => (data, false),
        }
    }
}

/// How the object to work on is found.
#[derive(Debug, Clone, PartialEq, Eq)]
pub enum Selection {
    /// Go to the first object and on from it so many times.
    ByIndex(usize),
    /// Go to the object with the identifier.
    ById(u64),
    /// Go through the list until an object has the name.
    ByName(String),
}

/// A `Selection` with its name as a sequence of characters.
pub enum SelectionView {
    ByIndex(usize),
    ById(u64),
    ByName(Seq<char>),
}

impl View for Selection {
    type V = SelectionView;

    open spec fn view(&self) -> SelectionView {
        match self {
            Selection::ByIndex(n) => SelectionView::ByIndex(*n),
            Selection::ById(id) => SelectionView::ById(*id),
            Selection::ByName(name) => SelectionView::ByName(name@),
        }
    }
}

impl ObjSel {
    /// How the object is found: by index where one is given, else by identifier, else
    /// by name; `ObjIdError` where nothing is given.
    pub open spec fn spec_select(&self) -> Result<SelectionView, CliError> {
        match (self.index, self.id, &self.name) {
            (Some(n), _, _) => Ok(SelectionView::ByIndex(n)),
            (None, Some(id), _) => Ok(SelectionView::ById(id)),
            (None, None, Some(name)) => Ok(SelectionView::ByName(name@)),
            (None, None, None) => Err(CliError::ObjIdError),
        }
    }

    /// How the object is found.
    pub fn select(&self) -> (r: Result<Selection, CliError>)
        ensures
            match self.spec_select() {
                Ok(s) => r matches Ok(t) && t@ == s,
                Err(e) => r matches Err(f) && f == e,
            },
    {
        match (self.index, self.id, &self.name) {
            (Some(n), _, _) => Ok(Selection::ByIndex(n)),
            (None, Some(id), _) => Ok(Selection::ById(id)),
            (None, None, Some(name)) => Ok(Selection::ByName(name.clone())),
            (None, None, None) => Err(CliError::ObjIdError),
        }
    }
}

/// What to do next while an object is looked for.
#[derive(Debug, Clone, Copy, PartialEq, Eq, Hash, Structural)]
pub enum SelectStep {
    /// Select the next object of the list.
    Next,
    /// Read the name of the selected object.
    ReadName,
    /// Nothing: the object is selected.
    Found,
    /// Give up with this error.
    Fail(CliError),
}

impl Selection {
    /// What follows the selection of the object at place `at`, counted from 0, while
    /// looking for the object at place `index`.
    pub open spec fn spec_at_index(index: usize, at: usize) -> SelectStep {
        if at < index {
            SelectStep::Next
        } else {
            SelectStep::Found
        }
    }

    /// What follows the answer of the server to a move of the selection: a list that
    /// has ended has no object to find.
    pub open spec fn spec_after_move(moved: bool, then: SelectStep) -> SelectStep {
        if moved {
            then
        } else {
            SelectStep::Fail(CliError::NoObject)
        }
    }

    /// What follows the answer of the server to a move to an identifier.
    pub open spec fn spec_after_go_to(found: bool) -> SelectStep {
        if found {
            SelectStep::Found
        } else {
            SelectStep::Fail(CliError::ObjIdError)
        }
    }

    /// What follows the name of the selected object while looking for `wanted`.
    pub open spec fn spec_after_name(wanted: Seq<char>, name: Seq<char>) -> SelectStep {
        if name == wanted {
            SelectStep::Found
        } else {
            SelectStep::Next
        }
    }

    /// What follows the selection of the object at place `at` while looking for the
    /// object at place `index`.
    pub fn at_index(index: usize, at: usize) -> (r: SelectStep)
        ensures
            r == Self::spec_at_index(index, at),
    {
        if at < index {
            SelectStep::Next
        } else {
            SelectStep::Found
        }
    }

    /// What follows the answer of the server to a move of the selection.
    pub fn after_move(moved: bool, then: SelectStep) -> (r: SelectStep)
        ensures
            r == Self::spec_after_move(moved, then),
    {
        if moved {
            then
        } else {
            SelectStep::Fail(CliError::NoObject)
        }
    }

    /// What follows the answer of the server to a move to an identifier.
    pub fn after_go_to(found: bool) -> (r: SelectStep)
        ensures
            r == Self::spec_after_go_to(found),
    {
        if found {
            SelectStep::Found
        } else {
            SelectStep::Fail(CliError::ObjIdError)
        }
    }

    /// What follows the name of the selected object while looking for `wanted`.
    pub fn after_name(wanted: &String, name: &String) -> (r: SelectStep)
        ensures
            r == Self::spec_after_name(wanted@, name@),
    {
        if *name == *wanted {
            SelectStep::Found
        } else {
            SelectStep::Next
        }
    }
}

/// Whether a character is white space as Unicode defines it: what `char::is_whitespace`
/// answers.
pub uninterp spec fn spec_is_whitespace(c: char) -> bool;

/// `char::is_whitespace` says whether a character has the White_Space property of the
/// Unicode character database; the answer depends on the character alone.
pub assume_specification[ char::is_whitespace ](c: char) -> (r: bool)
    ensures
        r == spec_is_whitespace(c),
;

/// The value of a hexadecimal digit, in either case.
pub open spec fn spec_hex_digit(c: char) -> Option<u8> {
    let v = c as u32;
    if 0x30 <= v <= 0x39 {
        Some((v - 0x30) as u8)
    } else if 0x41 <= v <= 0x46 {
        Some((v - 0x41 + 10) as u8)
    } else if 0x61 <= v <= 0x66 {
        Some((v - 0x61 + 10) as u8)
    } else {
        None
    }
}

/// What has been read of hexadecimal text at its end: the bytes that are complete and
/// the digit that waits for its second, or `None` where the text holds something
/// that is neither white space nor a digit.
pub open spec fn spec_hex_scan(text: Seq<char>) -> Option<(Seq<u8>, Option<u8>)>
    decreases text.len(),
{
    if text.len() == 0 {
        Some((Seq::empty(), None))
    } else {
        match spec_hex_scan(text.drop_last()) {
            None => None,
            Some((out, half)) => if spec_is_whitespace(text.last()) {
                Some((out, half))
            } else {
                match (spec_hex_digit(text.last()), half) {
                    (None, _) => None,
                    (Some(d), None) => Some((out, Some(d))),
                    (Some(d), Some(h)) => Some((out.push((h * 16 + d) as u8), None)),
                }
            },
        }
    }
}

/// The bytes that hexadecimal text spells: two digits a byte, high digit first, white
/// space anywhere.  A single digit at the end is dropped.  Anything else in the text is
/// `HexError`.
pub open spec fn spec_parse_hex_text(text: Seq<char>) -> Result<Seq<u8>, CliError> {
    match spec_hex_scan(text) {
        Some((out, _)) => Ok(out),
        None => Err(CliError::HexError),
    }
}

/// The bytes that typed-in input spells: `Utf8Error` where the input is no UTF-8, else
/// what its text spells in hexadecimal.
pub open spec fn spec_parse_hex(input: Seq<u8>) -> Result<Seq<u8>, CliError> {
    if !valid_utf8(input) {
        Err(CliError::Utf8Error)
    } else {
        spec_parse_hex_text(decode_utf8(input))
    }
}

/// Text with something in it that is no digit stays refused however it goes on.
pub proof fn lemma_hex_scan_stays_refused(text: Seq<char>, n: int)
    requires
        0 <= n <= text.len(),
        spec_hex_scan(text.take(n)) is None,
    ensures
        spec_hex_scan(text) is None,
    decreases text.len() - n,
{
    if n < text.len() {
        assert(text.take(n + 1).drop_last() =~= text.take(n));
        lemma_hex_scan_stays_refused(text, n + 1);
    } else {
        assert(text.take(n) =~= text);
    }
}

/// The value of a hexadecimal digit.
pub fn hex_digit(c: char) -> (r: Option<u8>)
    ensures
        r == spec_hex_digit(c),
        r matches Some(d) ==> d < 16,
{
    let v: u32 = c as u32;
    if 0x30 <= v && v <= 0x39 {
        Some((v - 0x30) as u8)
    } else if 0x41 <= v && v <= 0x46 {
        Some((v - 0x41 + 10) as u8)
    } else if 0x61 <= v && v <= 0x66 {
        Some((v - 0x61 + 10) as u8)
    } else {
        None
    }
}

/// Reads hexadecimal text.
pub fn parse_hex_text(text: &str) -> (r: Result<Vec<u8>, CliError>)
    ensures
        match spec_parse_hex_text(text@) {
            Ok(out) => r matches Ok(v) && v@ == out,
            Err(e) => r matches Err(f) && f == e,
        },
{
    let mut out: Vec<u8> = Vec::new();
    let mut half: Option<u8> = None;
    for c in it: text.chars()
        invariant
            it.seq() == text@,
            spec_hex_scan(text@.take(it.index())) == Some((out@, half)),
            half matches Some(h) ==> h < 16,
    {
        proof {
            assert(text@.take(it.index() + 1).drop_last() =~= text@.take(it.index()));
        }
        if !c.is_whitespace() {
            match hex_digit(c) {
                None => {
                    proof {
                        lemma_hex_scan_stays_refused(text@, it.index() + 1);
                    }
                    return Err(CliError::HexError);
                },
                Some(d) => {
                    match half {
                        None => {
                            half = Some(d);
                        },
                        Some(h) => {
                            out.push(h * 16 + d);
                            half = None;
                        },
                    }
                },
            }
        }
    }
    assert(text@.take(text@.len() as int) =~= text@);
    Ok(out)
}

/// Reads typed-in input as hexadecimal text.
pub fn parse_hex(input: &[u8]) -> (r: Result<Vec<u8>, CliError>)
    ensures
        match spec_parse_hex(input@) {
            Ok(out) => r matches Ok(v) && v@ == out,
            Err(e) => r matches Err(f) && f == e,
        },
{
    match core::str::from_utf8(input) {
        Err(_) => Err(CliError::Utf8Error),
        Ok(text) => {
            proof {
                vstd::utf8::encode_utf8_decode_utf8(text@);
            }
            parse_hex_text(text)
        },
    }
}

/// Whom to look for among the adapters or devices: an address or a name.
#[derive(Debug, Clone, PartialEq, Eq)]
pub enum Target {
    /// The one with this address.
    Address([u8; 6]),
    /// The one with this name.
    Name(String),
}

/// What is known of an adapter when one is looked for.
#[derive(Debug, Clone, PartialEq, Eq)]
pub struct AdapterName {
    /// The address of the adapter.
    pub address: [u8; 6],
    /// The name of the adapter.
    pub name: String,
    /// The name that the user gave the adapter.
    pub alias: String,
}

/// What is known of a device when one is looked for.
#[derive(Debug, Clone, PartialEq, Eq)]
pub struct DeviceName {
    /// The address of the device.
    pub address: [u8; 6],
    /// The name of the device, where it has one.
    pub name: Option<String>,
}

impl AdapterName {
    /// Whether the adapter is the one looked for.
    pub open spec fn spec_is(&self, target: &Target) -> bool {
        target.spec_is_adapter(self.address@, self.name@, self.alias@)
    }
}

impl DeviceName {
    /// Whether the device is the one looked for.
    pub open spec fn spec_is(&self, target: &Target) -> bool {
        target.spec_is_device(
            self.address@,
            match self.name {
                Some(s) => Some(s@),
                None => None,
            },
        )
    }
}

impl Target {
    /// Whether an adapter is the one looked for: by its address, or by its name or
    /// its alias.
    pub open spec fn spec_is_adapter(
        &self,
        address: Seq<u8>,
        name: Seq<char>,
        alias: Seq<char>,
    ) -> bool {
        match self {
            Target::Address(a) => a@ == address,
            Target::Name(n) => n@ == name || n@ == alias,
        }
    }

    /// Whether a device is the one looked for: by its address, or by its name where it
    /// has one.
    pub open spec fn spec_is_device(&self, address: Seq<u8>, name: Option<Seq<char>>) -> bool {
        match self {
            Target::Address(a) => a@ == address,
            Target::Name(n) => name == Some(n@),
        }
    }

    /// Whether two addresses are the same.
    fn same_address(a: &[u8; 6], b: &[u8; 6]) -> (r: bool)
        ensures
            r == (a@ == b@),
    {
        let r: bool = a[0] == b[0] && a[1] == b[1] && a[2] == b[2] && a[3] == b[3] && a[4] == b[4]
            && a[5] == b[5];
        assert(r == (a@ =~= b@));
        r
    }

    /// Whether an adapter is the one looked for.
    pub fn is_adapter(&self, address: &[u8; 6], name: &String, alias: &String) -> (r: bool)
        ensures
            r == self.spec_is_adapter(address@, name@, alias@),
    {
        match self {
            Target::Address(a) => Self::same_address(a, address),
            Target::Name(n) => *n == *name || *n == *alias,
        }
    }

    /// Whether a device is the one looked for.
    pub fn is_device(&self, address: &[u8; 6], name: &Option<String>) -> (r: bool)
        ensures
            r == self.spec_is_device(
                address@,
                match name {
                    Some(s) => Some(s@),
                    None => None,
                },
            ),
    {
        match self {
            Target::Address(a) => Self::same_address(a, address),
            Target::Name(n) => match name {
                Some(s) => *n == *s,
                None => false,
            },
        }
    }

    /// The place of the first adapter that is the one looked for, or `NoAdapter`.
    pub fn pick_adapter(&self, adapters: &Vec<AdapterName>) -> (r: Result<usize, CliError>)
        ensures
            match r {
                Ok(i) => i < adapters@.len() && adapters@[i as int].spec_is(self) && forall|j: int|
                    0 <= j < i ==> !(#[trigger] adapters@[j]).spec_is(self),
                Err(e) => e == CliError::NoAdapter && forall|j: int|
                    0 <= j < adapters@.len() ==> !(#[trigger] adapters@[j]).spec_is(self),
            },
    {
        let mut i: usize = 0;
        while i < adapters.len()
            invariant
                i <= adapters@.len(),
                forall|j: int| 0 <= j < i ==> !(#[trigger] adapters@[j]).spec_is(self),
            decreases adapters@.len() - i,
        {
            let a: &AdapterName = &adapters[i];
            if self.is_adapter(&a.address, &a.name, &a.alias) {
                return Ok(i);
            }
            i = i + 1;
        }
        Err(CliError::NoAdapter)
    }

    /// The place of the first device that is the one looked for, or `NoDevice`.
    pub fn pick_device(&self, devices: &Vec<DeviceName>) -> (r: Result<usize, CliError>)
        ensures
            match r {
                Ok(i) => i < devices@.len() && devices@[i as int].spec_is(self) && forall|j: int|
                    0 <= j < i ==> !(#[trigger] devices@[j]).spec_is(self),
                Err(e) => e == CliError::NoDevice && forall|j: int|
                    0 <= j < devices@.len() ==> !(#[trigger] devices@[j]).spec_is(self),
            },
    {
        let mut i: usize = 0;
        while i < devices.len()
            invariant
                i <= devices@.len(),
                forall|j: int| 0 <= j < i ==> !(#[trigger] devices@[j]).spec_is(self),
            decreases devices@.len() - i,
        {
            let d: &DeviceName = &devices[i];
            if self.is_device(&d.address, &d.name) {
                return Ok(i);
            }
            i = i + 1;
        }
        Err(CliError::NoDevice)
    }
}

} // verus!
