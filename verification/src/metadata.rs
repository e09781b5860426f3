//! Camera metadata of an image file: a handful of Exif fields under plain
//! names.
//!
//! Reading is best effort. Bytes that hold no readable Exif data give an
//! empty result, never an error.

use vstd::prelude::*;
use vstd::string::*;

verus! {

/// The directory that gives a tag number its meaning.
#[derive(Clone, Copy, Debug, PartialEq, Eq, Structural)]
pub enum TagContext {
    /// Attributes of the TIFF specification.
    Tiff,
    /// Exif attributes.
    Exif,
    /// GPS attributes.
    Gps,
    /// Interoperability attributes.
    Interop,
    /// Any other directory.
    Other,
}

/// One parsed Exif field: its tag, and its value as display text.
#[derive(Clone, Debug, PartialEq, Eq)]
pub struct ExifField {
    pub context: TagContext,
    pub number: u16,
    pub text: String,
}

/// What an `ExifField` holds.
pub struct FieldView {
    pub context: TagContext,
    pub number: u16,
    pub text: Seq<char>,
}

impl View for ExifField {
    type V = FieldView;

    open spec fn view(&self) -> FieldView {
        FieldView { context: self.context, number: self.number, text: self.text@ }
    }
}

/// The names under which metadata is reported.
#[derive(Clone, Copy, Debug, PartialEq, Eq, Structural)]
pub enum MetadataKey {
    Camera,
    Make,
    Lens,
    Iso,
    Aperture,
    Shutter,
    Date,
}

/// One reported value.
#[derive(Clone, Debug, PartialEq, Eq)]
pub struct MetadataEntry {
    pub key: MetadataKey,
    pub value: String,
}

/// What a `MetadataEntry` holds.
pub struct EntryView {
    pub key: MetadataKey,
    pub value: Seq<char>,
}

impl View for MetadataEntry {
    type V = EntryView;

    open spec fn view(&self) -> EntryView {
        EntryView { key: self.key, value: self.value@ }
    }
}

/// The fields of a list, as what they hold.
pub open spec fn field_views(fields: Seq<ExifField>) -> Seq<FieldView> {
    fields.map_values(|f: ExifField| f@)
}

/// The entries of a list, as what they hold.
pub open spec fn entry_views(entries: Seq<MetadataEntry>) -> Seq<EntryView> {
    entries.map_values(|e: MetadataEntry| e@)
}

/// The name under which a tag is reported, if it is reported at all:
/// model, make, lens model, photographic sensitivity, F-number, exposure
/// time and the date the picture was taken.
pub open spec fn key_of(context: TagContext, number: u16) -> Option<MetadataKey> {
    if context == TagContext::Tiff && number == 0x110 {
        Some(MetadataKey::Camera)
    } else if context == TagContext::Tiff && number == 0x10f {
        Some(MetadataKey::Make)
    } else if context == TagContext::Exif && number == 0xa434 {
        Some(MetadataKey::Lens)
    } else if context == TagContext::Exif && number == 0x8827 {
        Some(MetadataKey::Iso)
    } else if context == TagContext::Exif && number == 0x829d {
        Some(MetadataKey::Aperture)
    } else if context == TagContext::Exif && number == 0x829a {
        Some(MetadataKey::Shutter)
    } else if context == TagContext::Exif && number == 0x9003 {
        Some(MetadataKey::Date)
    } else {
        None
    }
}

/// The text of a key.
pub open spec fn key_label(key: MetadataKey) -> Seq<char> {
    match key {
        MetadataKey::Camera => "Camera"@,
        MetadataKey::Make => "Make"@,
        MetadataKey::Lens => "Lens"@,
        MetadataKey::Iso => "ISO"@,
        MetadataKey::Aperture => "Aperture"@,
        MetadataKey::Shutter => "Shutter"@,
        MetadataKey::Date => "Date"@,
    }
}

/// First index at or after `i` whose character is no double quote.
pub open spec fn skip_quotes(s: Seq<char>, i: int) -> int
    decreases s.len() - i,
{
    if 0 <= i < s.len() && s[i] == '"' {
        skip_quotes(s, i + 1)
    } else {
        i
    }
}

/// Least end at or before `j`, not below `lo`, that no double quote
/// precedes.
pub open spec fn drop_quotes(s: Seq<char>, lo: int, j: int) -> int
    decreases j,
{
    if 0 <= lo < j <= s.len() && s[j - 1] == '"' {
        drop_quotes(s, lo, j - 1)
    } else {
        j
    }
}

/// The text without the double quotes at its start and at its end.
pub open spec fn unquoted(s: Seq<char>) -> Seq<char> {
    let from = skip_quotes(s, 0);
    s.subrange(from, drop_quotes(s, from, s.len() as int))
}

/// Some entry of the list has the key.
pub open spec fn has_key(entries: Seq<EntryView>, key: MetadataKey) -> bool {
    exists|i: int| 0 <= i < entries.len() && (#[trigger] entries[i]).key == key
}

/// The entries reported for a list of fields. The fields are taken in
/// order; a field whose tag has a name is reported under it, unquoted,
/// unless an earlier field already was: the first value of a name wins.
pub open spec fn selected(fields: Seq<FieldView>) -> Seq<EntryView>
    decreases fields.len(),
{
    if fields.len() == 0 {
        Seq::empty()
    } else {
        let before = selected(fields.drop_last());
        let field = fields.last();
        match key_of(field.context, field.number) {
            Some(key) => if has_key(before, key) {
                before
            } else {
                before.push(EntryView { key, value: unquoted(field.text) })
            },
            None => before,
        }
    }
}

/// The fields that the Exif reader finds in the bytes of an image file, in
/// its order, each with the display text of its value; `None` where it
/// finds no Exif data that it can parse.
pub uninterp spec fn exif_listing(data: Seq<u8>) -> Option<Seq<FieldView>>;

/// Parses the Exif data of an image file held in memory and lists its
/// fields as plain values.
///
/// Calls `exif::Reader::read_from_container` on the bytes, and for each
/// item of `exif::Exif::fields` takes `Tag::context`, `Tag::number` and the
/// text of `Field::display_value` with its unit. Trusted: the result is
/// the reader's listing of these bytes, which depends on the bytes alone;
/// an error of the reader gives `None`.
#[verifier::external_body]
fn list_fields(data: &[u8]) -> (r: Option<Vec<ExifField>>)
    ensures
        exif_listing(data@) == match r {
            Some(fields) => Some(field_views(fields@)),
            None => None,
        },
{
    let mut source = std::io::Cursor::new(data);
    let found = exif::Reader::new().read_from_container(&mut source).ok()?;
    let plain = |f: &exif::Field| ExifField {
        context: match f.tag.context() {
            exif::Context::Tiff => TagContext::Tiff,
            exif::Context::Exif => TagContext::Exif,
            exif::Context::Gps => TagContext::Gps,
            exif::Context::Interop => TagContext::Interop,
            _ => TagContext::Other,
        },
        number: f.tag.number(),
        text: f.display_value().with_unit(&found).to_string(),
    };
    Some(found.fields().map(plain).collect())
}

impl MetadataKey {
    /// The text of the key.
    pub fn name(self) -> (r: &'static str)
        ensures
            r@ == key_label(self),
    {
        match self {
            MetadataKey::Camera => "Camera",
            MetadataKey::Make => "Make",
            MetadataKey::Lens => "Lens",
            MetadataKey::Iso => "ISO",
            MetadataKey::Aperture => "Aperture",
            MetadataKey::Shutter => "Shutter",
            MetadataKey::Date => "Date",
        }
    }
}

/// The name under which a tag is reported, if any.
pub fn metadata_key(context: TagContext, number: u16) -> (r: Option<MetadataKey>)
    ensures
        r == key_of(context, number),
{
    match context {
        TagContext::Tiff => {
            if number == 0x110 {
                Some(MetadataKey::Camera)
            } else if number == 0x10f {
                Some(MetadataKey::Make)
            } else {
                None
            }
        },
        TagContext::Exif => {
            if number == 0xa434 {
                Some(MetadataKey::Lens)
            } else if number == 0x8827 {
                Some(MetadataKey::Iso)
            } else if number == 0x829d {
                Some(MetadataKey::Aperture)
            } else if number == 0x829a {
                Some(MetadataKey::Shutter)
            } else if number == 0x9003 {
                Some(MetadataKey::Date)
            } else {
                None
            }
        },
        _ => None,
    }
}

/// Removes the double quotes at the start and at the end of a text.
pub fn clean_value(text: &str) -> (r: String)
    ensures
        r@ == unquoted(text@),
{
    let n = text.unicode_len();
    let mut from: usize = 0;
    while from < n && text.get_char(from) == '"'
        invariant
            n == text@.len(),
            from <= n,
            skip_quotes(text@, 0) == skip_quotes(text@, from as int),
        decreases n - from,
    {
        from += 1;
    }
    let mut to: usize = n;
    while to > from && text.get_char(to - 1) == '"'
        invariant
            n == text@.len(),
            from <= to <= n,
            drop_quotes(text@, from as int, n as int) == drop_quotes(text@, from as int, to as int),
        decreases to,
    {
        to -= 1;
    }
    text.substring_char(from, to).to_owned()
}

/// Whether some entry of the list has the key.
fn contains_key(entries: &Vec<MetadataEntry>, key: MetadataKey) -> (r: bool)
    ensures
        r == has_key(entry_views(entries@), key),
{
    let mut i: usize = 0;
    while i < entries.len()
        invariant
            i <= entries@.len(),
            forall|j: int| 0 <= j < i ==> (#[trigger] entry_views(entries@)[j]).key != key,
        decreases entries@.len() - i,
    {
        if entries[i].key == key {
            assert(entry_views(entries@)[i as int].key == key);
            return true;
        }
        i += 1;
    }
    false
}

/// Picks the reported entries out of a list of fields: for each name, the
/// unquoted value of the first field that carries it, in the order in
/// which the names first occur.
pub fn select_metadata(fields: &Vec<ExifField>) -> (r: Vec<MetadataEntry>)
    ensures
        entry_views(r@) == selected(field_views(fields@)),
{
    let mut entries: Vec<MetadataEntry> = Vec::new();
    let mut i: usize = 0;
    assert(field_views(fields@).take(0) =~= Seq::<FieldView>::empty());
    assert(entry_views(entries@) =~= Seq::<EntryView>::empty());
    while i < fields.len()
        invariant
            i <= fields@.len(),
            entry_views(entries@) == selected(field_views(fields@).take(i as int)),
        decreases fields@.len() - i,
    {
        let field = &fields[i];
        proof {
            let grown = field_views(fields@).take(i + 1);
            assert(grown.drop_last() =~= field_views(fields@).take(i as int));
            assert(grown.last() == field@);
        }
        match metadata_key(field.context, field.number) {
            Some(key) => {
                if !contains_key(&entries, key) {
                    let ghost before = entry_views(entries@);
                    let value = clean_value(field.text.as_str());
                    entries.push(MetadataEntry { key, value });
                    assert(entry_views(entries@) =~= before.push(
                        EntryView { key, value: unquoted(field.text@) },
                    ));
                }
            },
            None => {},
        }
        i += 1;
    }
    assert(field_views(fields@).take(fields@.len() as int) =~= field_views(fields@));
    entries
}

/// What is reported for a listing: its selected entries, or nothing where
/// there is no listing.
pub open spec fn reported(listing: Option<Seq<FieldView>>) -> Seq<EntryView> {
    match listing {
        Some(fields) => selected(fields),
        None => Seq::empty(),
    }
}

/// Reads the metadata of an image file from its bytes. Bytes without
/// readable Exif data give an empty list.
pub fn read_metadata(data: &[u8]) -> (r: Vec<MetadataEntry>)
    ensures
        entry_views(r@) == reported(exif_listing(data@)),
{
    match list_fields(data) {
        Some(fields) => select_metadata(&fields),
        None => {
            let none: Vec<MetadataEntry> = Vec::new();
            assert(entry_views(none@) =~= Seq::<EntryView>::empty());
            none
        },
    }
}

} // verus!
