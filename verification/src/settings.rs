//! The parameter extractor: what the optional request fields say about how
//! to compress and what to call the result.

use vstd::prelude::*;
use vstd::string::StringExecFns;
use crate::gzip::encoder_default_level;
use crate::level::decimal_value;
use crate::level::level_after;
use crate::level::parse_level;
use crate::level::requested_level;
use crate::level::unsigned_part;
use crate::level::DEFAULT_LEVEL;
use crate::level::MAX_LEVEL;
use crate::text::decoded_text;
use crate::text::str_equal;
use crate::text::utf8_text;

verus! {

/// The fields of a request that mean something here.
#[derive(Clone, Copy, Debug, PartialEq, Eq, Structural)]
pub enum FieldKind {
    /// `file`: the content to compress.
    File,
    /// `level`: the compression level.
    Level,
    /// `output_name`: the base name of the artifact.
    OutputName,
    /// Any other field; it is read past.
    Other,
}

/// The kind of the field with the given name. Names are matched exactly.
pub open spec fn kind_of(name: Seq<char>) -> FieldKind {
    if name == "file"@ {
        FieldKind::File
    } else if name == "level"@ {
        FieldKind::Level
    } else if name == "output_name"@ {
        FieldKind::OutputName
    } else {
        FieldKind::Other
    }
}

/// The kind of the field with the given name.
pub fn classify_field(name: &str) -> (kind: FieldKind)
    ensures
        kind == kind_of(name@),
{
    if str_equal(name, "file") {
        FieldKind::File
    } else if str_equal(name, "level") {
        FieldKind::Level
    } else if str_equal(name, "output_name") {
        FieldKind::OutputName
    } else {
        FieldKind::Other
    }
}

/// The extension that every artifact name ends in.
pub open spec fn extension() -> Seq<char> {
    ".gz"@
}

/// The artifact name used when the request gives none.
pub open spec fn default_output_name() -> Seq<char> {
    "compressed_output.gz"@
}

/// Whether the name ends in the artifact extension.
pub open spec fn has_extension(name: Seq<char>) -> bool {
    &&& name.len() >= extension().len()
    &&& name.subrange(name.len() - extension().len(), name.len() as int) == extension()
}

/// The artifact name in force after an `output_name` field with the given
/// bytes arrived while `current` was in force: the field's text with the
/// extension added, or `current` where the bytes are not text.
pub open spec fn output_name_after(current: Seq<char>, bytes: Seq<u8>) -> Seq<char> {
    match decoded_text(bytes) {
        Some(base) => base + extension(),
        None => current,
    }
}

/// How to compress an upload and what to call the artifact.
pub struct CompressionSettings {
    level: u32,
    output_name: String,
}

/// What a [`CompressionSettings`] holds.
pub struct SettingsView {
    pub level: u32,
    pub output_name: Seq<char>,
}

impl View for CompressionSettings {
    type V = SettingsView;

    closed spec fn view(&self) -> SettingsView {
        SettingsView { level: self.level, output_name: self.output_name@ }
    }
}

/// The settings in force after a field of the given kind and content
/// arrived. Fields other than `level` and `output_name` change nothing.
pub open spec fn settings_after(current: SettingsView, kind: FieldKind, bytes: Seq<u8>) -> SettingsView {
    match kind {
        FieldKind::Level => SettingsView {
            level: level_after(current.level, bytes),
            output_name: current.output_name,
        },
        FieldKind::OutputName => SettingsView {
            level: current.level,
            output_name: output_name_after(current.output_name, bytes),
        },
        _ => current,
    }
}

/// The default artifact name ends in the extension.
pub proof fn lemma_default_name_has_extension()
    ensures
        has_extension(default_output_name()),
{
    reveal_strlit(".gz");
    reveal_strlit("compressed_output.gz");
    let d = default_output_name();
    assert(d.subrange(d.len() - 3, d.len() as int) =~= extension());
}

/// A field leaves the artifact name with its extension: a name that ends in
/// it ends in it after any field, whatever the field holds.
pub proof fn lemma_output_name_keeps_extension(current: SettingsView, kind: FieldKind, bytes: Seq<u8>)
    requires
        has_extension(current.output_name),
    ensures
        has_extension(settings_after(current, kind, bytes).output_name),
{
    reveal_strlit(".gz");
    let n = settings_after(current, kind, bytes).output_name;
    if n != current.output_name {
        assert(n.subrange(n.len() - 3, n.len() as int) =~= extension());
    }
}

/// A `level` field that does not hold a number from 0 to 9 changes nothing:
/// whatever level was in force stays in force, and so does the name.
pub proof fn lemma_unusable_level_changes_nothing(current: SettingsView, bytes: Seq<u8>)
    requires
        requested_level(bytes) is None,
    ensures
        settings_after(current, FieldKind::Level, bytes) == current,
{
}

/// A `level` field that holds a number from 0 to 9 puts that level in force.
pub proof fn lemma_usable_level_is_taken(current: SettingsView, bytes: Seq<u8>)
    requires
        requested_level(bytes) is Some,
    ensures
        settings_after(current, FieldKind::Level, bytes).level == decimal_value(unsigned_part(bytes)),
        settings_after(current, FieldKind::Level, bytes).level <= MAX_LEVEL,
{
}

/// No field can push the level out of its range.
pub proof fn lemma_level_stays_in_range(current: SettingsView, kind: FieldKind, bytes: Seq<u8>)
    requires
        current.level <= MAX_LEVEL,
    ensures
        settings_after(current, kind, bytes).level <= MAX_LEVEL,
{
}

impl CompressionSettings {
    #[verifier::type_invariant]
    spec fn well_formed(self) -> bool {
        &&& self.level <= MAX_LEVEL
        &&& has_extension(self.output_name@)
    }

    /// The settings of a request that gives no optional field.
    pub fn new() -> (s: Self)
        ensures
            s@.level == DEFAULT_LEVEL,
            s@.output_name == default_output_name(),
            has_extension(s@.output_name),
    {
        proof {
            lemma_default_name_has_extension();
        }
        CompressionSettings {
            level: encoder_default_level(),
            output_name: String::from_str("compressed_output.gz"),
        }
    }

    /// The effective level, always within 0 to 9.
    pub fn level(&self) -> (l: u32)
        ensures
            l == self@.level,
            l <= MAX_LEVEL,
    {
        proof {
            use_type_invariant(self);
        }
        self.level
    }

    /// The effective artifact name, which always ends in the extension.
    pub fn output_name(&self) -> (name: &str)
        ensures
            name@ == self@.output_name,
            has_extension(name@),
    {
        proof {
            use_type_invariant(self);
        }
        self.output_name.as_str()
    }

    /// Takes in the content of a `level` field. A value that is not a number
    /// from 0 to 9 leaves the level as it was.
    pub fn apply_level(&mut self, bytes: &[u8])
        ensures
            final(self)@ == settings_after(old(self)@, FieldKind::Level, bytes@),
            has_extension(final(self)@.output_name),
    {
        proof {
            use_type_invariant(&*self);
        }
        match parse_level(bytes) {
            Some(l) => {
                self.level = l;
            },
            None => {},
        }
    }

    /// Takes in the content of an `output_name` field. A value that is not
    /// text leaves the name as it was.
    pub fn apply_output_name(&mut self, bytes: Vec<u8>)
        ensures
            final(self)@ == settings_after(old(self)@, FieldKind::OutputName, bytes@),
            has_extension(final(self)@.output_name),
    {
        proof {
            use_type_invariant(&*self);
        }
        match utf8_text(bytes) {
            Some(base) => {
                proof {
                    lemma_output_name_keeps_extension(self@, FieldKind::OutputName, bytes@);
                }
                self.output_name = base.concat(".gz");
            },
            None => {},
        }
    }

    /// Takes in the content of a field of the given kind.
    pub fn apply_field(&mut self, kind: FieldKind, bytes: Vec<u8>)
        ensures
            final(self)@ == settings_after(old(self)@, kind, bytes@),
            has_extension(final(self)@.output_name),
    {
        proof {
            use_type_invariant(&*self);
        }
        match kind {
            FieldKind::Level => self.apply_level(bytes.as_slice()),
            FieldKind::OutputName => self.apply_output_name(bytes),
            _ => {},
        }
    }
}

} // verus!
