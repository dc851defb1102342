//! A person's profile: the labelled attributes of a page's profile section,
//! the booking photo and the identity that later stages key on.

use crate::digest::{lower_hex, sha256_digest, sha256_hex};
use crate::error::Error;
use crate::markup::{
    attribute_values, attributes, first_texts, grouped_leading_texts, text_nodes_within,
};
use crate::text::{
    ascii_lowercase, lemma_trimmed_has_no_outer_space, remove_char, same_text, split, split_on,
    texts, to_ascii_lowercase, to_chars, trim, trimmed, white_space, without_char,
};
use vstd::prelude::*;
use vstd::utf8::encode_utf8;

verus! {

/// Selects the profile sections of a page.
pub const PROFILE_SELECTOR: &'static str = ".table-display";

/// Selects the labels within a profile section.
pub const TERM_SELECTOR: &'static str = "dt";

/// Selects the values within a profile section.
pub const DEFINITION_SELECTOR: &'static str = "dd";

/// Selects the booking photo of a page.
pub const PHOTO_SELECTOR: &'static str = ".inmates img";

/// The attribute that holds the address of a photo.
pub const PHOTO_ATTRIBUTE: &'static str = "src";

/// The number of labels that the profile section of a page is read for.
pub const LABELS_OF_INTEREST: usize = 15;

/// A label and a value of a profile section, each given by its first text
/// node, if it has one.
pub type Definition = (Option<String>, Option<String>);

/// What a `Definition` is, with its texts as sequences of characters.
pub type DefinitionModel = (Option<Seq<char>>, Option<Seq<char>>);

/// A snapshot of one person as the roster shows them.
#[derive(Debug)]
pub struct InmateProfile {
    pub first_name: String,
    pub middle_name: Option<String>,
    pub last_name: String,
    pub affix: Option<String>,
    pub perm_id: Option<String>,
    pub sex: Option<String>,
    pub dob: String,
    pub arrest_agency: Option<String>,
    pub booking_date_iso8601: String,
    pub booking_number: Option<String>,
    pub height: Option<String>,
    pub weight: Option<String>,
    pub race: Option<String>,
    pub eye_color: Option<String>,
    pub aliases: Option<Vec<String>>,
    pub img_blob: Option<Vec<u8>>,
    pub scil_sys_id: Option<String>,
    /// The embedding vector, each number held as the bits of a 32-bit float.
    pub embedding: Option<Vec<u32>>,
}

/// What a profile is, with its texts as sequences of characters.
pub ghost struct ProfileModel {
    pub first_name: Seq<char>,
    pub middle_name: Option<Seq<char>>,
    pub last_name: Seq<char>,
    pub affix: Option<Seq<char>>,
    pub perm_id: Option<Seq<char>>,
    pub sex: Option<Seq<char>>,
    pub dob: Seq<char>,
    pub arrest_agency: Option<Seq<char>>,
    pub booking_date_iso8601: Seq<char>,
    pub booking_number: Option<Seq<char>>,
    pub height: Option<Seq<char>>,
    pub weight: Option<Seq<char>>,
    pub race: Option<Seq<char>>,
    pub eye_color: Option<Seq<char>>,
    pub aliases: Option<Seq<Seq<char>>>,
    pub img_blob: Option<Seq<u8>>,
    pub scil_sys_id: Option<Seq<char>>,
    pub embedding: Option<Seq<u32>>,
}

impl View for InmateProfile {
    type V = ProfileModel;

    open spec fn view(&self) -> ProfileModel {
        ProfileModel {
            first_name: self.first_name@,
            middle_name: self.middle_name.deep_view(),
            last_name: self.last_name@,
            affix: self.affix.deep_view(),
            perm_id: self.perm_id.deep_view(),
            sex: self.sex.deep_view(),
            dob: self.dob@,
            arrest_agency: self.arrest_agency.deep_view(),
            booking_date_iso8601: self.booking_date_iso8601@,
            booking_number: self.booking_number.deep_view(),
            height: self.height.deep_view(),
            weight: self.weight.deep_view(),
            race: self.race.deep_view(),
            eye_color: self.eye_color.deep_view(),
            aliases: self.aliases.deep_view(),
            img_blob: self.img_blob.deep_view(),
            scil_sys_id: self.scil_sys_id.deep_view(),
            embedding: self.embedding.deep_view(),
        }
    }
}

/// The labels that a profile section is read for.
#[derive(Debug, Clone, Copy, PartialEq, Eq, Structural)]
pub enum Label {
    First,
    Middle,
    Last,
    Affix,
    PermanentId,
    Sex,
    DateOfBirth,
    Height,
    Weight,
    Race,
    EyeColor,
    Aliases,
    CommittingAgency,
    BookingDateTime,
    BookingNumber,
}

/// How the fetch of a booking photo ended.
#[derive(Debug)]
pub enum ImageFetch {
    /// The page names no photo, so none was asked for.
    Absent,
    /// The request, or the reading of its answer, failed.
    Failed,
    /// An answer came, with a status that does or does not mean success.
    Received { success: bool, bytes: Vec<u8> },
}

/// The photo that a profile keeps from a fetch: the bytes of an answer whose
/// status means success, and nothing otherwise.
pub open spec fn accepted_image(image: ImageFetch) -> Option<Seq<u8>> {
    match image {
        ImageFetch::Received { success: true, bytes } => Some(bytes@),
        _ => None,
    }
}

/// A profile that holds nothing.
pub open spec fn empty_profile() -> ProfileModel {
    ProfileModel {
        first_name: Seq::empty(),
        middle_name: None,
        last_name: Seq::empty(),
        affix: None,
        perm_id: None,
        sex: None,
        dob: Seq::empty(),
        arrest_agency: None,
        booking_date_iso8601: Seq::empty(),
        booking_number: None,
        height: None,
        weight: None,
        race: None,
        eye_color: None,
        aliases: None,
        img_blob: None,
        scil_sys_id: None,
        embedding: None,
    }
}

/// A label as it is looked up: without the white space around it, in ASCII
/// lowercase, and without one trailing colon.
pub open spec fn normalized_label(raw: Seq<char>) -> Seq<char> {
    let lowered = ascii_lowercase(trimmed(raw));
    if lowered.len() > 0 && lowered.last() == ':' {
        lowered.drop_last()
    } else {
        lowered
    }
}

/// The label that a normalized label text names, if any.
pub open spec fn label_of(normalized: Seq<char>) -> Option<Label> {
    if normalized == "first"@ {
        Some(Label::First)
    } else if normalized == "middle"@ {
        Some(Label::Middle)
    } else if normalized == "last"@ {
        Some(Label::Last)
    } else if normalized == "affix"@ {
        Some(Label::Affix)
    } else if normalized == "permanent id"@ {
        Some(Label::PermanentId)
    } else if normalized == "sex"@ {
        Some(Label::Sex)
    } else if normalized == "date of birth"@ {
        Some(Label::DateOfBirth)
    } else if normalized == "height"@ {
        Some(Label::Height)
    } else if normalized == "weight"@ {
        Some(Label::Weight)
    } else if normalized == "race"@ {
        Some(Label::Race)
    } else if normalized == "eye color"@ {
        Some(Label::EyeColor)
    } else if normalized == "alias(es)"@ {
        Some(Label::Aliases)
    } else if normalized == "committing agency"@ {
        Some(Label::CommittingAgency)
    } else if normalized == "booking date time"@ {
        Some(Label::BookingDateTime)
    } else if normalized == "booking number"@ {
        Some(Label::BookingNumber)
    } else {
        None
    }
}

/// An optional attribute: absent where the page gives an empty value.
pub open spec fn optional_text(value: Seq<char>) -> Option<Seq<char>> {
    if value.len() == 0 {
        None
    } else {
        Some(value)
    }
}

/// The pieces of a list without the white space around them, the empty ones
/// dropped.
pub open spec fn nonempty_trimmed(pieces: Seq<Seq<char>>) -> Seq<Seq<char>>
    decreases pieces.len(),
{
    if pieces.len() == 0 {
        Seq::<Seq<char>>::empty()
    } else if trimmed(pieces.last()).len() == 0 {
        nonempty_trimmed(pieces.drop_last())
    } else {
        nonempty_trimmed(pieces.drop_last()).push(trimmed(pieces.last()))
    }
}

/// The aliases that an alias text lists: its pieces between commas, without
/// the white space around them, the empty ones dropped. A text that lists
/// none has no aliases.
pub open spec fn alias_list(text: Seq<char>) -> Option<Seq<Seq<char>>> {
    let names = nonempty_trimmed(split_on(text, ','));
    if names.len() == 0 {
        None
    } else {
        Some(names)
    }
}

/// A profile after one attribute was set from the value that the page gives
/// for a label.
pub open spec fn with_field(p: ProfileModel, label: Label, value: Seq<char>) -> ProfileModel {
    match label {
        Label::First => ProfileModel { first_name: value, ..p },
        Label::Middle => ProfileModel { middle_name: optional_text(value), ..p },
        Label::Last => ProfileModel { last_name: value, ..p },
        Label::Affix => ProfileModel { affix: optional_text(value), ..p },
        Label::PermanentId => ProfileModel { perm_id: optional_text(value), ..p },
        Label::Sex => ProfileModel { sex: optional_text(value), ..p },
        Label::DateOfBirth => ProfileModel { dob: value, ..p },
        Label::Height => ProfileModel {
            height: if value.len() == 0 {
                None
            } else {
                Some(without_char(value, '\\'))
            },
            ..p
        },
        Label::Weight => ProfileModel { weight: optional_text(value), ..p },
        Label::Race => ProfileModel { race: optional_text(value), ..p },
        Label::EyeColor => ProfileModel { eye_color: optional_text(value), ..p },
        Label::Aliases => ProfileModel { aliases: alias_list(value), ..p },
        Label::CommittingAgency => ProfileModel { arrest_agency: optional_text(value), ..p },
        Label::BookingDateTime => ProfileModel { booking_date_iso8601: value, ..p },
        Label::BookingNumber => ProfileModel { booking_number: optional_text(value), ..p },
    }
}

/// The label that a definition sets, if its label text names one.
pub open spec fn definition_label(definition: DefinitionModel) -> Option<Label> {
    match definition.0 {
        None => None,
        Some(term) => label_of(normalized_label(term)),
    }
}

/// The value that a definition gives: its text without the white space
/// around it, empty where it has no text.
pub open spec fn definition_value(definition: DefinitionModel) -> Seq<char> {
    match definition.1 {
        None => Seq::<char>::empty(),
        Some(value) => trimmed(value),
    }
}

/// A profile after one definition of a page was read. A definition whose
/// label is not one of interest changes nothing.
pub open spec fn with_definition(p: ProfileModel, definition: DefinitionModel) -> ProfileModel {
    match definition_label(definition) {
        None => p,
        Some(label) => with_field(p, label, definition_value(definition)),
    }
}

/// A profile after a list of definitions was read in order, a later one
/// replacing what an earlier one set.
pub open spec fn with_definitions(p: ProfileModel, definitions: Seq<DefinitionModel>) -> ProfileModel
    decreases definitions.len(),
{
    if definitions.len() == 0 {
        p
    } else {
        with_definition(with_definitions(p, definitions.drop_last()), definitions.last())
    }
}

/// How many definitions of a list carry a label of interest.
pub open spec fn recognized_count(definitions: Seq<DefinitionModel>) -> nat
    decreases definitions.len(),
{
    if definitions.len() == 0 {
        0
    } else if definition_label(definitions.last()) is Some {
        recognized_count(definitions.drop_last()) + 1
    } else {
        recognized_count(definitions.drop_last())
    }
}

/// The labels and values of one profile section paired by position, as many
/// as both lists have.
pub open spec fn paired(
    terms: Seq<Option<Seq<char>>>,
    definitions: Seq<Option<Seq<char>>>,
) -> Seq<DefinitionModel> {
    Seq::new(
        if terms.len() <= definitions.len() {
            terms.len()
        } else {
            definitions.len()
        },
        |j: int| (terms[j], definitions[j]),
    )
}

/// The definitions of the first `sections` profile sections, in order.
pub open spec fn definitions_upto(
    terms: Seq<Seq<Option<Seq<char>>>>,
    definitions: Seq<Seq<Option<Seq<char>>>>,
    sections: nat,
) -> Seq<DefinitionModel>
    decreases sections,
{
    if sections == 0 {
        Seq::<DefinitionModel>::empty()
    } else {
        definitions_upto(terms, definitions, (sections - 1) as nat) + paired(
            terms[sections - 1],
            definitions[sections - 1],
        )
    }
}

/// The definitions of all profile sections of a page, in order, given the
/// labels and the values of each section.
pub open spec fn all_definitions(
    terms: Seq<Seq<Option<Seq<char>>>>,
    definitions: Seq<Seq<Option<Seq<char>>>>,
) -> Seq<DefinitionModel> {
    definitions_upto(
        terms,
        definitions,
        if terms.len() <= definitions.len() {
            terms.len()
        } else {
            definitions.len()
        },
    )
}

/// The definitions that a page holds; `None` where a selector is unusable.
pub open spec fn page_definitions(html: Seq<char>) -> Option<Seq<DefinitionModel>> {
    match (
        text_nodes_within(html, PROFILE_SELECTOR@, TERM_SELECTOR@),
        text_nodes_within(html, PROFILE_SELECTOR@, DEFINITION_SELECTOR@),
    ) {
        (Some(terms), Some(definitions)) => Some(
            all_definitions(grouped_leading_texts(terms), grouped_leading_texts(definitions)),
        ),
        _ => None,
    }
}

/// Whether a profile has its four core attributes: first name, last name,
/// date of birth and booking time.
pub open spec fn core_complete(p: ProfileModel) -> bool {
    &&& p.first_name.len() > 0
    &&& p.last_name.len() > 0
    &&& p.dob.len() > 0
    &&& p.booking_date_iso8601.len() > 0
}

/// The profile that a page's definitions give to the person with a site
/// identifier, together with the photo that was fetched for them.
pub open spec fn extracted_profile(
    sys_id: Seq<char>,
    definitions: Seq<DefinitionModel>,
    image: ImageFetch,
) -> ProfileModel {
    let named = ProfileModel { scil_sys_id: Some(sys_id), ..empty_profile() };
    ProfileModel { img_blob: accepted_image(image), ..with_definitions(named, definitions) }
}

/// The address of the photo of a page, given the `src` attribute of each
/// photo element: that of the first element, if it has one, as an `https`
/// address.
pub open spec fn photo_url(sources: Seq<Option<Seq<char>>>) -> Option<Seq<char>> {
    if sources.len() > 0 && sources[0] is Some {
        Some("https:"@ + sources[0]->Some_0)
    } else {
        None
    }
}

/// A person's name in full: first name, middle name if any, last name, and
/// the affix, if any, after a comma.
pub open spec fn full_name(p: ProfileModel) -> Seq<char> {
    p.first_name + (match p.middle_name {
        Some(middle) => " "@ + middle,
        None => Seq::<char>::empty(),
    }) + " "@ + p.last_name + (match p.affix {
        Some(affix) => ", "@ + affix,
        None => Seq::<char>::empty(),
    })
}

/// The four core attributes in one line.
pub open spec fn core_attributes(p: ProfileModel) -> Seq<char> {
    p.first_name + " "@ + p.last_name + " dob=["@ + p.dob + "] booking date=["@
        + p.booking_date_iso8601 + "]"@
}

/// The name under which a person's photo is stored: a fixed prefix and the
/// SHA-256 digest, in lowercase hexadecimal, of the four core attributes
/// written one after another in UTF-8.
pub open spec fn image_key(p: ProfileModel) -> Seq<char> {
    "mugshots/"@ + lower_hex(
        sha256_digest(encode_utf8(p.first_name + p.last_name + p.dob + p.booking_date_iso8601)),
    )
}

/// Keeps a value unless it is empty.
fn optional(value: String) -> (r: Option<String>)
    ensures
        r.deep_view() == optional_text(value@),
{
    if value.as_str().is_empty() {
        None
    } else {
        Some(value)
    }
}

impl Label {
    /// Looks a label up by its normalized text.
    pub fn recognize(normalized: &str) -> (label: Option<Label>)
        ensures
            label == label_of(normalized@),
    {
        if same_text(normalized, "first") {
            Some(Label::First)
        } else if same_text(normalized, "middle") {
            Some(Label::Middle)
        } else if same_text(normalized, "last") {
            Some(Label::Last)
        } else if same_text(normalized, "affix") {
            Some(Label::Affix)
        } else if same_text(normalized, "permanent id") {
            Some(Label::PermanentId)
        } else if same_text(normalized, "sex") {
            Some(Label::Sex)
        } else if same_text(normalized, "date of birth") {
            Some(Label::DateOfBirth)
        } else if same_text(normalized, "height") {
            Some(Label::Height)
        } else if same_text(normalized, "weight") {
            Some(Label::Weight)
        } else if same_text(normalized, "race") {
            Some(Label::Race)
        } else if same_text(normalized, "eye color") {
            Some(Label::EyeColor)
        } else if same_text(normalized, "alias(es)") {
            Some(Label::Aliases)
        } else if same_text(normalized, "committing agency") {
            Some(Label::CommittingAgency)
        } else if same_text(normalized, "booking date time") {
            Some(Label::BookingDateTime)
        } else if same_text(normalized, "booking number") {
            Some(Label::BookingNumber)
        } else {
            None
        }
    }

    /// Normalizes a label as the page writes it: white space around it is
    /// dropped, ASCII capitals are lowered, and one trailing colon is cut.
    pub fn normalize(raw: &str) -> (normalized: String)
        ensures
            normalized@ == normalized_label(raw@),
    {
        let bare = trim(raw);
        let lowered = to_ascii_lowercase(bare.as_str());
        let chars = to_chars(lowered.as_str());
        let n = chars.len();
        if n > 0 && chars[n - 1] == ':' {
            let cut = crate::text::from_char_range(&chars, 0, n - 1);
            assert(chars@.subrange(0, n - 1) =~= lowered@.drop_last());
            cut
        } else {
            lowered
        }
    }

    /// The label of a definition, if its label text names one of interest.
    pub fn of_definition(definition: &Definition) -> (label: Option<Label>)
        ensures
            label == definition_label(definition.deep_view()),
    {
        match &definition.0 {
            None => None,
            Some(term) => {
                let normalized = Label::normalize(term.as_str());
                Label::recognize(normalized.as_str())
            },
        }
    }
}

impl Default for InmateProfile {
    /// A profile that holds nothing.
    fn default() -> (profile: InmateProfile)
        ensures
            profile@ == empty_profile(),
    {
        InmateProfile {
            first_name: String::new(),
            middle_name: None,
            last_name: String::new(),
            affix: None,
            perm_id: None,
            sex: None,
            dob: String::new(),
            arrest_agency: None,
            booking_date_iso8601: String::new(),
            booking_number: None,
            height: None,
            weight: None,
            race: None,
            eye_color: None,
            aliases: None,
            img_blob: None,
            scil_sys_id: None,
            embedding: None,
        }
    }
}

impl InmateProfile {
    /// Lists the aliases that an alias text names: its pieces between commas,
    /// without the white space around them, the empty ones dropped. A text
    /// that names none gives `None`.
    pub fn get_aliases(aliases: &str) -> (names: Option<Vec<String>>)
        ensures
            names.deep_view() == alias_list(aliases@),
    {
        let pieces = split(aliases, ',');
        let mut kept: Vec<String> = Vec::new();
        let mut i: usize = 0;
        let ghost all = texts(pieces@);
        assert(all.take(0) =~= Seq::<Seq<char>>::empty());
        while i < pieces.len()
            invariant
                i <= pieces.len(),
                all == texts(pieces@),
                texts(kept@) == nonempty_trimmed(all.take(i as int)),
            decreases pieces.len() - i,
        {
            proof {
                let next = all.take(i + 1);
                assert(next.drop_last() =~= all.take(i as int));
                assert(next.last() == pieces@[i as int]@);
            }
            let ghost before = texts(kept@);
            let name = trim(pieces[i].as_str());
            if !name.as_str().is_empty() {
                kept.push(name);
                assert(texts(kept@) =~= before.push(name@));
            }
            i += 1;
        }
        assert(all.take(pieces.len() as int) =~= all);
        assert(kept.deep_view() =~= texts(kept@));
        if kept.len() == 0 {
            None
        } else {
            Some(kept)
        }
    }

    /// Sets one attribute from the value that the page gives for a label.
    pub fn set_field(&mut self, label: Label, value: String)
        ensures
            final(self)@ == with_field(old(self)@, label, value@),
    {
        match label {
            Label::First => {
                self.first_name = value;
            },
            Label::Middle => {
                self.middle_name = optional(value);
            },
            Label::Last => {
                self.last_name = value;
            },
            Label::Affix => {
                self.affix = optional(value);
            },
            Label::PermanentId => {
                self.perm_id = optional(value);
            },
            Label::Sex => {
                self.sex = optional(value);
            },
            Label::DateOfBirth => {
                self.dob = value;
            },
            Label::Height => {
                self.height = if value.as_str().is_empty() {
                    None
                } else {
                    Some(remove_char(value.as_str(), '\\'))
                };
            },
            Label::Weight => {
                self.weight = optional(value);
            },
            Label::Race => {
                self.race = optional(value);
            },
            Label::EyeColor => {
                self.eye_color = optional(value);
            },
            Label::Aliases => {
                self.aliases = InmateProfile::get_aliases(value.as_str());
            },
            Label::CommittingAgency => {
                self.arrest_agency = optional(value);
            },
            Label::BookingDateTime => {
                self.booking_date_iso8601 = value;
            },
            Label::BookingNumber => {
                self.booking_number = optional(value);
            },
        }
    }

    /// Reads one definition of a page into the profile. Returns whether its
    /// label was one of interest; if not, the profile is unchanged.
    pub fn apply_definition(&mut self, definition: &Definition) -> (recognized: bool)
        ensures
            final(self)@ == with_definition(old(self)@, definition.deep_view()),
            recognized == (definition_label(definition.deep_view()) is Some),
    {
        match Label::of_definition(definition) {
            None => false,
            Some(label) => {
                let value = match &definition.1 {
                    None => String::new(),
                    Some(text) => trim(text.as_str()),
                };
                self.set_field(label, value);
                true
            },
        }
    }

    /// Reads a list of definitions into the profile, in order. Returns how
    /// many of them carried a label of interest.
    pub fn apply_definitions(&mut self, definitions: &Vec<Definition>) -> (found: usize)
        ensures
            final(self)@ == with_definitions(old(self)@, definitions.deep_view()),
            found == recognized_count(definitions.deep_view()),
    {
        let mut found: usize = 0;
        let mut i: usize = 0;
        let ghost all = definitions.deep_view();
        assert(all.take(0) =~= Seq::<DefinitionModel>::empty());
        while i < definitions.len()
            invariant
                i <= definitions.len(),
                all == definitions.deep_view(),
                self@ == with_definitions(old(self)@, all.take(i as int)),
                found == recognized_count(all.take(i as int)),
                found <= i,
            decreases definitions.len() - i,
        {
            proof {
                let next = all.take(i + 1);
                assert(next.drop_last() =~= all.take(i as int));
                assert(next.last() == definitions@[i as int].deep_view());
            }
            if self.apply_definition(&definitions[i]) {
                found += 1;
            }
            i += 1;
        }
        assert(all.take(definitions.len() as int) =~= all);
        found
    }

    /// Pairs the labels and values of every profile section by position.
    pub fn pair_definitions(
        terms: &Vec<Vec<Option<String>>>,
        definitions: &Vec<Vec<Option<String>>>,
    ) -> (pairs: Vec<Definition>)
        ensures
            pairs.deep_view() == all_definitions(terms.deep_view(), definitions.deep_view()),
    {
        let sections = if terms.len() <= definitions.len() {
            terms.len()
        } else {
            definitions.len()
        };
        let mut pairs: Vec<Definition> = Vec::new();
        let mut i: usize = 0;
        assert(pairs.deep_view() =~= Seq::<DefinitionModel>::empty());
        while i < sections
            invariant
                i <= sections,
                sections <= terms.len(),
                sections <= definitions.len(),
                pairs.deep_view() == definitions_upto(
                    terms.deep_view(),
                    definitions.deep_view(),
                    i as nat,
                ),
            decreases sections - i,
        {
            let labels = &terms[i];
            let values = &definitions[i];
            let count = if labels.len() <= values.len() {
                labels.len()
            } else {
                values.len()
            };
            let ghost before = pairs.deep_view();
            let ghost section = paired(labels.deep_view(), values.deep_view());
            let mut j: usize = 0;
            assert(pairs.deep_view() =~= before + section.take(0));
            while j < count
                invariant
                    j <= count,
                    count <= labels.len(),
                    count <= values.len(),
                    count == section.len(),
                    section == paired(labels.deep_view(), values.deep_view()),
                    pairs.deep_view() == before + section.take(j as int),
                decreases count - j,
            {
                let ghost so_far = pairs.deep_view();
                pairs.push((labels[j].clone(), values[j].clone()));
                proof {
                    let added = pairs@[pairs@.len() - 1];
                    assert(added.0.deep_view() == labels@[j as int].deep_view());
                    assert(added.1.deep_view() == values@[j as int].deep_view());
                    assert(pairs.deep_view() =~= so_far.push(section[j as int]));
                    assert(so_far.push(section[j as int]) =~= before + section.take(j + 1));
                }
                j += 1;
            }
            assert(section.take(count as int) =~= section);
            assert(terms.deep_view()[i as int] == labels.deep_view());
            assert(definitions.deep_view()[i as int] == values.deep_view());
            i += 1;
        }
        pairs
    }

    /// Reads the profile sections of a page into the profile. Returns how
    /// many definitions carried a label of interest; fewer than
    /// `LABELS_OF_INTEREST` means a partial profile, which is accepted here.
    /// Only an unusable selector is an error, and it leaves the profile as it
    /// was.
    pub fn set_core_profile_data(&mut self, html: &str) -> (r: Result<usize, Error>)
        ensures
            match page_definitions(html@) {
                None => r is Err && r->Err_0 is ParseError && final(self)@ == old(self)@,
                Some(definitions) => {
                    &&& r is Ok
                    &&& r->Ok_0 == recognized_count(definitions)
                    &&& final(self)@ == with_definitions(old(self)@, definitions)
                },
            },
    {
        let terms = match first_texts(html, PROFILE_SELECTOR, TERM_SELECTOR) {
            Err(_) => {
                return Err(Error::ParseError);
            },
            Ok(terms) => terms,
        };
        let definitions = match first_texts(html, PROFILE_SELECTOR, DEFINITION_SELECTOR) {
            Err(_) => {
                return Err(Error::ParseError);
            },
            Ok(definitions) => definitions,
        };
        let pairs = InmateProfile::pair_definitions(&terms, &definitions);
        Ok(self.apply_definitions(&pairs))
    }
}

impl ImageFetch {
    /// Keeps the bytes of an answer whose status means success; a failed or
    /// unsuccessful fetch leaves no photo and is no error.
    pub fn into_blob(self) -> (blob: Option<Vec<u8>>)
        ensures
            blob.deep_view() == accepted_image(self),
    {
        match self {
            ImageFetch::Received { success, bytes } => {
                if success {
                    assert(bytes.deep_view() =~= bytes@);
                    Some(bytes)
                } else {
                    None
                }
            },
            _ => None,
        }
    }
}

impl InmateProfile {
    /// Finds the address of the booking photo on a page, if the page shows
    /// one. An unusable selector is a `ParseError`.
    pub fn image_url(html: &str) -> (r: Result<Option<String>, Error>)
        ensures
            match attribute_values(html@, PHOTO_SELECTOR@, PHOTO_ATTRIBUTE@) {
                None => r is Err && r->Err_0 is ParseError,
                Some(sources) => r is Ok && r->Ok_0.deep_view() == photo_url(sources),
            },
    {
        match attributes(html, PHOTO_SELECTOR, PHOTO_ATTRIBUTE) {
            Err(_) => Err(Error::ParseError),
            Ok(sources) => Ok(InmateProfile::image_url_of(&sources)),
        }
    }

    /// The address of the photo, given the `src` attribute of each photo
    /// element of a page.
    pub fn image_url_of(sources: &Vec<Option<String>>) -> (url: Option<String>)
        ensures
            url.deep_view() == photo_url(sources.deep_view()),
    {
        if sources.len() == 0 {
            return None;
        }
        match &sources[0] {
            None => None,
            Some(source) => {
                let mut url = "https:".to_string();
                url.append(source.as_str());
                Some(url)
            },
        }
    }

    /// Builds the profile of the person with a site identifier from a page
    /// and the outcome of the fetch of their photo. A page that lacks any of
    /// the four core attributes is refused with a `ParseError`, as is an
    /// unusable selector; no partial profile is ever returned.
    pub fn build(html: &str, sys_id: &str, image: ImageFetch) -> (r: Result<InmateProfile, Error>)
        ensures
            match page_definitions(html@) {
                None => r is Err && r->Err_0 is ParseError,
                Some(definitions) => {
                    let profile = extracted_profile(sys_id@, definitions, image);
                    if core_complete(profile) {
                        r is Ok && r->Ok_0@ == profile
                    } else {
                        r is Err && r->Err_0 is ParseError
                    }
                },
            },
    {
        let mut profile = InmateProfile::default();
        profile.scil_sys_id = Some(sys_id.to_string());
        match profile.set_core_profile_data(html) {
            Err(_) => {
                return Err(Error::ParseError);
            },
            Ok(_) => {},
        }
        profile.img_blob = image.into_blob();
        if profile.is_missing_core_attributes() {
            return Err(Error::ParseError);
        }
        Ok(profile)
    }

    /// Builds the profile of the person with a site identifier from the
    /// definitions of a page and the outcome of the fetch of their photo.
    /// Definitions that leave any of the four core attributes empty are
    /// refused with a `ParseError`.
    pub fn from_definitions(definitions: &Vec<Definition>, sys_id: &str, image: ImageFetch) -> (r:
        Result<InmateProfile, Error>)
        ensures
            core_complete(extracted_profile(sys_id@, definitions.deep_view(), image)) ==> r is Ok
                && r->Ok_0@ == extracted_profile(sys_id@, definitions.deep_view(), image),
            !core_complete(extracted_profile(sys_id@, definitions.deep_view(), image)) ==> r is Err
                && r->Err_0 is ParseError,
    {
        let mut profile = InmateProfile::default();
        profile.scil_sys_id = Some(sys_id.to_string());
        profile.apply_definitions(definitions);
        profile.img_blob = image.into_blob();
        if profile.is_missing_core_attributes() {
            return Err(Error::ParseError);
        }
        Ok(profile)
    }

    /// Copies the profile.
    pub fn duplicate(&self) -> (copy: InmateProfile)
        ensures
            copy@ == self@,
    {
        let aliases = match &self.aliases {
            None => None,
            Some(names) => {
                let mut copied: Vec<String> = Vec::new();
                let mut i: usize = 0;
                while i < names.len()
                    invariant
                        i <= names.len(),
                        copied.len() == i,
                        forall|k: int| 0 <= k < i ==> (#[trigger] copied@[k])@ == names@[k]@,
                    decreases names.len() - i,
                {
                    copied.push(names[i].clone());
                    i += 1;
                }
                assert(copied.deep_view() =~= names.deep_view());
                Some(copied)
            },
        };
        let img_blob = match &self.img_blob {
            None => None,
            Some(bytes) => {
                let copied = bytes.clone();
                assert(copied.deep_view() =~= bytes.deep_view());
                Some(copied)
            },
        };
        let embedding = match &self.embedding {
            None => None,
            Some(numbers) => {
                let copied = numbers.clone();
                assert(copied.deep_view() =~= numbers.deep_view());
                Some(copied)
            },
        };
        InmateProfile {
            first_name: self.first_name.clone(),
            middle_name: self.middle_name.clone(),
            last_name: self.last_name.clone(),
            affix: self.affix.clone(),
            perm_id: self.perm_id.clone(),
            sex: self.sex.clone(),
            dob: self.dob.clone(),
            arrest_agency: self.arrest_agency.clone(),
            booking_date_iso8601: self.booking_date_iso8601.clone(),
            booking_number: self.booking_number.clone(),
            height: self.height.clone(),
            weight: self.weight.clone(),
            race: self.race.clone(),
            eye_color: self.eye_color.clone(),
            aliases,
            img_blob,
            scil_sys_id: self.scil_sys_id.clone(),
            embedding,
        }
    }

    /// Whether any of the four core attributes is empty.
    pub fn is_missing_core_attributes(&self) -> (missing: bool)
        ensures
            missing == !core_complete(self@),
    {
        self.first_name.as_str().is_empty() || self.last_name.as_str().is_empty()
            || self.dob.as_str().is_empty() || self.booking_date_iso8601.as_str().is_empty()
    }

    /// Writes the person's name in full.
    pub fn get_full_name(&self) -> (name: String)
        ensures
            name@ == full_name(self@),
    {
        let mut name = self.first_name.clone();
        if let Some(middle) = &self.middle_name {
            name.append(" ");
            name.append(middle.as_str());
        }
        name.append(" ");
        name.append(self.last_name.as_str());
        if let Some(affix) = &self.affix {
            name.append(", ");
            name.append(affix.as_str());
        }
        assert(name@ =~= full_name(self@));
        name
    }

    /// Writes the four core attributes in one line.
    pub fn get_core_attributes(&self) -> (line: String)
        ensures
            line@ == core_attributes(self@),
    {
        let mut line = self.first_name.clone();
        line.append(" ");
        line.append(self.last_name.as_str());
        line.append(" dob=[");
        line.append(self.dob.as_str());
        line.append("] booking date=[");
        line.append(self.booking_date_iso8601.as_str());
        line.append("]");
        line
    }

    /// Derives the name under which the person's photo is stored. The name
    /// depends on the four core attributes alone, so it can be had again
    /// without asking the store.
    pub fn get_hash_on_core_attributes(&self) -> (key: String)
        ensures
            key@ == image_key(self@),
    {
        let mut input = self.first_name.clone();
        input.append(self.last_name.as_str());
        input.append(self.dob.as_str());
        input.append(self.booking_date_iso8601.as_str());
        let digest = sha256_hex(input.as_str().as_bytes());
        let mut key = "mugshots/".to_string();
        key.append(digest.as_str());
        key
    }
}

/// A profile together with the identity that the relational store gave it.
#[derive(Debug)]
pub struct DbInmateProfile {
    pub id: i64,
    pub profile: InmateProfile,
}

impl DbInmateProfile {
    /// Joins a profile and its stored identity.
    pub fn new(id: i64, inmate_profile: InmateProfile) -> (stored: DbInmateProfile)
        ensures
            stored.id == id,
            stored.profile == inmate_profile,
    {
        DbInmateProfile { id, profile: inmate_profile }
    }
}

/// Every piece that `nonempty_trimmed` keeps is non-empty and neither begins
/// nor ends with white space.
pub proof fn lemma_nonempty_trimmed(pieces: Seq<Seq<char>>)
    ensures
        forall|i: int|
            0 <= i < nonempty_trimmed(pieces).len() ==> {
                let name = #[trigger] nonempty_trimmed(pieces)[i];
                name.len() > 0 && !white_space(name[0]) && !white_space(name.last())
            },
    decreases pieces.len(),
{
    if pieces.len() > 0 {
        let kept = nonempty_trimmed(pieces);
        let before = nonempty_trimmed(pieces.drop_last());
        lemma_nonempty_trimmed(pieces.drop_last());
        lemma_trimmed_has_no_outer_space(pieces.last());
        assert forall|i: int| 0 <= i < kept.len() implies {
            let name = #[trigger] kept[i];
            name.len() > 0 && !white_space(name[0]) && !white_space(name.last())
        } by {
            if i < before.len() {
                assert(kept[i] == before[i]);
            } else {
                assert(kept[i] == trimmed(pieces.last()));
            }
        }
    }
}

/// The aliases of a profile are display names: where an alias text lists
/// any, there is at least one, and each is non-empty and neither begins nor
/// ends with white space.
pub proof fn lemma_aliases_are_display_names(text: Seq<char>)
    ensures
        match alias_list(text) {
            None => true,
            Some(names) => names.len() > 0 && forall|i: int|
                0 <= i < names.len() ==> {
                    let name = #[trigger] names[i];
                    name.len() > 0 && !white_space(name[0]) && !white_space(name.last())
                },
        },
{
    lemma_nonempty_trimmed(split_on(text, ','));
}

} // verus!
