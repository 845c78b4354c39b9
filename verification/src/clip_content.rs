//! What a clip is made from: a file, or MIDI data that is kept with the
//! clip.
use vstd::prelude::*;

verus! {

/// A source as it is saved.
#[derive(Clone, PartialEq, Eq, Debug)]
pub enum Source {
    File { path: String },
    MidiChunk { chunk: String },
}

/// Describes the content of a clip slot.
#[derive(Clone, PartialEq, Eq, Debug)]
pub enum ClipContent {
    File { file: String },
    MidiChunk { chunk: String },
}

/// Whether content may be kept with the clip.
#[derive(Clone, PartialEq, Eq, Debug)]
pub enum CreateClipContentMode {
    AllowEmbeddedData,
    ForceExportToFile { file_base_name: String },
}

/// The line that opens the state of a MIDI source.
pub const MIDI_SOURCE_HEADER: &'static str = "<SOURCE MIDI\n";

/// The line that closes the state of a MIDI source.
pub const MIDI_SOURCE_FOOTER: &'static str = ">\n";

impl ClipContent {
    /// The content of a saved source.
    pub open spec fn loaded(source: Source) -> Self {
        match source {
            Source::File { path } => ClipContent::File { file: path },
            Source::MidiChunk { chunk } => ClipContent::MidiChunk { chunk },
        }
    }

    pub fn load(source: &Source) -> (content: Self)
        ensures
            content == Self::loaded(*source),
    {
        match source {
            Source::File { path } => ClipContent::File { file: path.clone() },
            Source::MidiChunk { chunk } => ClipContent::MidiChunk { chunk: chunk.clone() },
        }
    }

    pub fn from_midi_chunk(chunk: String) -> (content: Self)
        ensures
            content == (ClipContent::MidiChunk { chunk }),
    {
        ClipContent::MidiChunk { chunk }
    }

    /// Returns the path to the file, if the clip slot content is file-based.
    pub fn file(&self) -> (file: Option<&str>)
        ensures
            match self {
                ClipContent::File { file: path } => file is Some && file->Some_0@ == path@,
                ClipContent::MidiChunk { .. } => file is None,
            },
    {
        match self {
            ClipContent::File { file } => Some(file.as_str()),
            ClipContent::MidiChunk { .. } => None,
        }
    }

    /// The state that a MIDI source is given to hold the content's data:
    /// the data and the closing line. File-based content has none.
    pub fn midi_state_chunk(&self) -> (state: Option<String>)
        ensures
            match self {
                ClipContent::File { .. } => state is None,
                ClipContent::MidiChunk { chunk } => state is Some && state->Some_0@ == chunk@
                    + MIDI_SOURCE_FOOTER@,
            },
    {
        match self {
            ClipContent::File { .. } => None,
            ClipContent::MidiChunk { chunk } => Some(chunk.clone().concat(MIDI_SOURCE_FOOTER)),
        }
    }
}

/// What is to be done to get the content of a source of the host.
#[derive(Clone, PartialEq, Eq, Debug)]
pub enum ContentPlan {
    /// The source plays a file: the content is the file.
    UseFile { file: String },
    /// The source holds MIDI data: the content is its state.
    EmbedMidiChunk,
    /// The source holds MIDI data that is to be exported to a file whose
    /// name begins like this.
    ExportMidi { file_base_name: String },
    /// The source can be no content, for this reason.
    Incompatible { reason: String },
}

/// Whether a source of this type holds MIDI data of its own.
pub open spec fn holds_midi(source_type: Seq<char>) -> bool {
    source_type == "MIDI"@ || source_type == "MIDIPOOL"@
}

/// Why a source of this type can be no content.
pub open spec fn incompatible_text(source_type: Seq<char>) -> Seq<char> {
    "item source incompatible (type "@ + source_type + ")"@
}

impl ClipContent {
    /// Whether `plan` is what is to be done for a source with this file and
    /// type: a source that plays a file gives the file; one that holds MIDI
    /// data gives its state or is exported, as the mode says; every other
    /// source gives nothing.
    pub open spec fn is_plan_for(
        plan: ContentPlan,
        source_file: Option<String>,
        source_type: Seq<char>,
        mode: CreateClipContentMode,
    ) -> bool {
        match source_file {
            Some(file) => plan == (ContentPlan::UseFile { file }),
            None => if holds_midi(source_type) {
                match mode {
                    CreateClipContentMode::AllowEmbeddedData => plan == ContentPlan::EmbedMidiChunk,
                    CreateClipContentMode::ForceExportToFile { file_base_name } => plan
                        == (ContentPlan::ExportMidi { file_base_name }),
                }
            } else {
                plan is Incompatible && plan->reason@ == incompatible_text(source_type)
            },
        }
    }

    /// Says what is to be done to get the content of a source of the host
    /// that has this file, if any, and this type.
    pub fn from_reaper_source(
        source_file: Option<String>,
        source_type: &str,
        mode: CreateClipContentMode,
    ) -> (plan: ContentPlan)
        ensures
            Self::is_plan_for(plan, source_file, source_type@, mode),
    {
        match source_file {
            Some(file) => ContentPlan::UseFile { file },
            None => {
                let kind = String::from_str(source_type);
                if kind == String::from_str("MIDI") || kind == String::from_str("MIDIPOOL") {
                    match mode {
                        CreateClipContentMode::AllowEmbeddedData => ContentPlan::EmbedMidiChunk,
                        CreateClipContentMode::ForceExportToFile { file_base_name } => {
                            ContentPlan::ExportMidi { file_base_name }
                        },
                    }
                } else {
                    ContentPlan::Incompatible {
                        reason: String::from_str("item source incompatible (type ").concat(
                            source_type,
                        ).concat(")"),
                    }
                }
            },
        }
    }
}

/// What a text is as a slug: lower-case letters and digits, with single
/// dashes for everything between them.
pub uninterp spec fn slug_of(text: Seq<char>) -> Seq<char>;

/// `slug::slugify`: the slug of a text, which depends on the text alone.
#[verifier::external_body]
fn slugify(text: &str) -> (slug: String)
    ensures
        slug@ == slug_of(text@),
{
    slug::slugify(text)
}

/// `nanoid::format` with the crate's own source of random bytes and its
/// alphabet of 64 letters, digits, dash and underscore: a random text of
/// `size` characters, every random byte giving one. For no character it
/// would never return, and for very many its arithmetic would overflow. It
/// asks the system for randomness and has no answer for a system that
/// gives none.
#[verifier::external_body]
fn random_id(size: usize) -> (id: String)
    requires
        0 < size <= 1024,
    ensures
        id@.len() == size,
{
    nanoid::format(nanoid::rngs::default, &nanoid::alphabet::SAFE, size)
}

/// How many characters make a file name unique.
pub const UNIQUE_ID_LENGTH: usize = 8;

/// The name of the file that MIDI data is exported to.
pub open spec fn midi_file_name(slug: Seq<char>, unique_id: Seq<char>) -> Seq<char> {
    slug + "-"@ + unique_id + ".mid"@
}

/// The name of the file that MIDI data is exported to: the slug of the
/// take's name, a dash, what makes the name unique, and the ending.
pub fn midi_export_file_name(take_name_slug: &str, unique_id: &str) -> (file_name: String)
    ensures
        file_name@ == midi_file_name(take_name_slug@, unique_id@),
{
    String::from_str(take_name_slug).concat("-").concat(unique_id).concat(".mid")
}

/// A name for the file that the MIDI data of a take is exported to: the
/// slug of the take's name and eight random characters.
pub fn new_midi_export_file_name(take_name: &str) -> (file_name: String)
    ensures
        exists|unique_id: Seq<char>|
            unique_id.len() == UNIQUE_ID_LENGTH && file_name@ == #[trigger] midi_file_name(
                slug_of(take_name@),
                unique_id,
            ),
{
    let take_name_slug = slugify(take_name);
    let unique_id = random_id(UNIQUE_ID_LENGTH);
    midi_export_file_name(take_name_slug.as_str(), unique_id.as_str())
}

} // verus!
