//! A record: everything harvested from one roster page, and the synopsis
//! that is handed to the embedding service.

use crate::error::Error;
use crate::inmate::bond::{
    bonds_of_rows, total_bond_description, BondInformation, BondModel, BOND_ROW_SELECTOR,
    CELL_SELECTOR,
};
use crate::inmate::charge::{
    charges_of_rows, ChargeInformation, ChargeModel, CHARGE_ROW_SELECTOR,
};
use crate::inmate::profile::{
    core_complete, extracted_profile, full_name, page_definitions, Definition, DefinitionModel,
    ImageFetch, InmateProfile, ProfileModel,
};
use crate::markup::{table_texts, text_nodes_within};
use crate::text::{join, joined, same_text, texts, unicode_lowercase};
use vstd::prelude::*;

verus! {

/// The address under which the roster site lists its records; the address of
/// one record is this root followed by the record's site identifier.
pub const SCOTT_COUNTY_INMATE_TRAVERSAL_ROOT: &'static str =
    "https://www.scottcountyiowa.us/sheriff/inmates.php";

/// The model that turns a synopsis into an embedding.
pub const EMBEDDING_MODEL: &'static str = "text-embedding-3-small";

/// One harvested unit: where it came from, the person, their bonds and
/// their charges.
#[derive(Debug)]
pub struct Record {
    pub url: String,
    pub profile: InmateProfile,
    pub bond: BondInformation,
    pub charges: ChargeInformation,
}

/// What a record is, with its texts as sequences of characters.
pub ghost struct RecordModel {
    pub url: Seq<char>,
    pub profile: ProfileModel,
    pub bond: Seq<BondModel>,
    pub charges: Seq<ChargeModel>,
}

impl View for Record {
    type V = RecordModel;

    open spec fn view(&self) -> RecordModel {
        RecordModel {
            url: self.url@,
            profile: self.profile@,
            bond: self.bond@,
            charges: self.charges@,
        }
    }
}

/// The address of the page of the record with a site identifier.
pub open spec fn detail_url(sys_id: Seq<char>) -> Seq<char> {
    SCOTT_COUNTY_INMATE_TRAVERSAL_ROOT@ + sys_id
}

/// Whether a record can be built from what a page holds: the profile has its
/// four core attributes and the charges table has at least one row. A page
/// without any bond is accepted.
pub open spec fn parts_make_record(
    sys_id: Seq<char>,
    definitions: Seq<DefinitionModel>,
    charge_rows: Seq<Seq<Seq<char>>>,
    image: ImageFetch,
) -> bool {
    core_complete(extracted_profile(sys_id, definitions, image)) && charge_rows.len() > 0
}

/// The record that the parts of a page make, with `now` as the date of any
/// charge that lacks one.
pub open spec fn record_of_parts(
    sys_id: Seq<char>,
    definitions: Seq<DefinitionModel>,
    bond_rows: Seq<Seq<Seq<char>>>,
    charge_rows: Seq<Seq<Seq<char>>>,
    image: ImageFetch,
    now: Seq<char>,
) -> RecordModel {
    RecordModel {
        url: detail_url(sys_id),
        profile: extracted_profile(sys_id, definitions, image),
        bond: bonds_of_rows(bond_rows),
        charges: charges_of_rows(charge_rows, now),
    }
}

/// The bond rows that a page holds; `None` where a selector is unusable.
pub open spec fn page_bond_rows(html: Seq<char>) -> Option<Seq<Seq<Seq<char>>>> {
    match text_nodes_within(html, BOND_ROW_SELECTOR@, CELL_SELECTOR@) {
        None => None,
        Some(found) => Some(table_texts(found)),
    }
}

/// The charge rows that a page holds; `None` where a selector is unusable.
pub open spec fn page_charge_rows(html: Seq<char>) -> Option<Seq<Seq<Seq<char>>>> {
    match text_nodes_within(html, CHARGE_ROW_SELECTOR@, CELL_SELECTOR@) {
        None => None,
        Some(found) => Some(table_texts(found)),
    }
}

/// Whether a record can be built from a page.
pub open spec fn page_makes_record(sys_id: Seq<char>, html: Seq<char>, image: ImageFetch) -> bool {
    &&& page_definitions(html) is Some
    &&& page_bond_rows(html) is Some
    &&& page_charge_rows(html) is Some
    &&& parts_make_record(
        sys_id,
        page_definitions(html)->Some_0,
        page_charge_rows(html)->Some_0,
        image,
    )
}

/// The record that a page makes, with `now` as the date of any charge that
/// lacks one.
pub open spec fn record_of_page(
    sys_id: Seq<char>,
    html: Seq<char>,
    image: ImageFetch,
    now: Seq<char>,
) -> RecordModel {
    record_of_parts(
        sys_id,
        page_definitions(html)->Some_0,
        page_bond_rows(html)->Some_0,
        page_charge_rows(html)->Some_0,
        image,
        now,
    )
}

/// An optional text, or a fallback where it is absent.
pub open spec fn or_text(value: Option<Seq<char>>, fallback: Seq<char>) -> Seq<char> {
    match value {
        Some(text) => text,
        None => fallback,
    }
}

/// The noun for a person whose sex, in lowercase, is given.
pub open spec fn noun_of_lowercase_sex(lowered: Seq<char>) -> Seq<char> {
    if lowered == "male"@ {
        "man"@
    } else {
        "woman"@
    }
}

/// The noun for a person of the given sex, if it is known.
pub open spec fn sex_description(sex: Option<Seq<char>>) -> Seq<char> {
    match sex {
        Some(sex) => noun_of_lowercase_sex(unicode_lowercase(sex)),
        None => "person"@,
    }
}

/// The sentence on a person's aliases.
pub open spec fn alias_description(p: ProfileModel) -> Seq<char> {
    match p.aliases {
        Some(aliases) => full_name(p) + " is known to the following aliases: "@ + joined(
            aliases,
            ", "@,
        ) + "."@,
        None => "No known aliases."@,
    }
}

/// The sentence on the arrest.
pub open spec fn story_intro(p: ProfileModel) -> Seq<char> {
    "A "@ + or_text(p.race, ""@) + " "@ + sex_description(p.sex) + " named "@ + full_name(p)
        + " was arrested on "@ + p.booking_date_iso8601 + " by "@ + or_text(
        p.arrest_agency,
        "an unknown agency"@,
    ) + "."@
}

/// The descriptions of a list of charges, in order.
pub open spec fn charge_descriptions(charges: Seq<ChargeModel>) -> Seq<Seq<char>> {
    Seq::new(charges.len(), |i: int| charges[i].description)
}

/// The sentences on charges and bond.
pub open spec fn story_charges(r: RecordModel) -> Seq<char> {
    "Charges include "@ + joined(charge_descriptions(r.charges), ", "@) + ". Bond is set at "@
        + total_bond_description(r.bond) + "."@
}

/// The sentences on how the person looks and what else they are called.
pub open spec fn story_physique(p: ProfileModel) -> Seq<char> {
    p.first_name + " is described as "@ + or_text(p.height, "unknown height"@)
        + " tall, weighing "@ + or_text(p.weight, "unkown weight"@) + ", and having "@ + or_text(
        p.eye_color,
        "unknown eye color"@,
    ) + ". "@ + alias_description(p)
}

/// The sentence on the person's identifiers.
pub open spec fn story_identifiers(p: ProfileModel) -> Seq<char> {
    "The inmate's booking number is "@ + or_text(p.booking_number, "unknown"@)
        + ", and their permanent ID is "@ + or_text(p.perm_id, ""@) + "."@
}

/// The synopsis of a record in plain language: the arrest, the charges and
/// the bond, the person's looks and aliases, and their identifiers.
pub open spec fn embedding_story(r: RecordModel) -> Seq<char> {
    story_intro(r.profile) + " "@ + story_charges(r) + " "@ + story_physique(r.profile) + " "@
        + story_identifiers(r.profile)
}

/// Appends an optional text to a string, or a fallback where it is absent.
fn append_or(out: &mut String, value: &Option<String>, fallback: &str)
    ensures
        final(out)@ == old(out)@ + or_text(value.deep_view(), fallback@),
{
    match value {
        Some(text) => out.append(text.as_str()),
        None => out.append(fallback),
    }
}

impl Record {
    /// The address of the page of the record with a site identifier.
    pub fn request_url(sys_id: &str) -> (url: String)
        ensures
            url@ == detail_url(sys_id@),
    {
        let mut url = SCOTT_COUNTY_INMATE_TRAVERSAL_ROOT.to_string();
        url.append(sys_id);
        url
    }

    /// Builds the record of the person with a site identifier from their
    /// page and the outcome of the fetch of their photo. A page that lacks a
    /// core attribute or has no charge is refused with a `ParseError`, and
    /// nothing partial is returned; a page without bonds is accepted.
    pub fn build(sys_id: &str, html: &str, image: ImageFetch) -> (r: Result<Record, Error>)
        ensures
            r is Ok <==> page_makes_record(sys_id@, html@, image),
            r is Err ==> r->Err_0 is ParseError,
            r is Ok ==> exists|now: Seq<char>|
                r->Ok_0@ == record_of_page(sys_id@, html@, image, now),
    {
        let url = Record::request_url(sys_id);
        let profile = match InmateProfile::build(html, sys_id, image) {
            Err(_) => {
                return Err(Error::ParseError);
            },
            Ok(profile) => profile,
        };
        let bond = match BondInformation::build(html) {
            Err(_) => {
                return Err(Error::ParseError);
            },
            Ok(bond) => bond,
        };
        let charges = match ChargeInformation::build(html) {
            Err(_) => {
                return Err(Error::ParseError);
            },
            Ok(charges) => charges,
        };
        let record = Record { url, profile, bond, charges };
        proof {
            let found = text_nodes_within(html@, CHARGE_ROW_SELECTOR@, CELL_SELECTOR@)->Some_0;
            let now = choose|now: Seq<char>|
                charges@ == charges_of_rows(table_texts(found), now);
            assert(record@ == record_of_page(sys_id@, html@, image, now));
        }
        Ok(record)
    }

    /// Builds a record from what was read off a page: the definitions of its
    /// profile sections, the cell texts of its bond and charge rows, and the
    /// outcome of the fetch of the photo. `now` dates any charge that lacks a
    /// date. Parts that lack a core attribute or hold no charge are refused
    /// with a `ParseError`.
    pub fn from_parts(
        sys_id: &str,
        definitions: &Vec<Definition>,
        bond_rows: &Vec<Vec<String>>,
        charge_rows: &Vec<Vec<String>>,
        image: ImageFetch,
        now: &str,
    ) -> (r: Result<Record, Error>)
        ensures
            r is Ok <==> parts_make_record(
                sys_id@,
                definitions.deep_view(),
                charge_rows.deep_view(),
                image,
            ),
            r is Err ==> r->Err_0 is ParseError,
            r is Ok ==> r->Ok_0@ == record_of_parts(
                sys_id@,
                definitions.deep_view(),
                bond_rows.deep_view(),
                charge_rows.deep_view(),
                image,
                now@,
            ),
    {
        let url = Record::request_url(sys_id);
        let profile = match InmateProfile::from_definitions(definitions, sys_id, image) {
            Err(_) => {
                return Err(Error::ParseError);
            },
            Ok(profile) => profile,
        };
        let bond = BondInformation::from_rows(bond_rows);
        let charges = match ChargeInformation::from_rows(charge_rows, now) {
            Err(_) => {
                return Err(Error::ParseError);
            },
            Ok(charges) => charges,
        };
        Ok(Record { url, profile, bond, charges })
    }

    /// The noun for a person whose sex is given in lowercase.
    pub fn noun_for_lowercase_sex(lowered: &str) -> (noun: String)
        ensures
            noun@ == noun_of_lowercase_sex(lowered@),
    {
        if same_text(lowered, "male") {
            "man".to_string()
        } else {
            "woman".to_string()
        }
    }

    /// Lists the descriptions of the charges, in order.
    fn charge_descriptions(&self) -> (list: Vec<String>)
        ensures
            texts(list@) == charge_descriptions(self.charges@),
    {
        let mut list: Vec<String> = Vec::new();
        let mut i: usize = 0;
        while i < self.charges.charges.len()
            invariant
                i <= self.charges.charges.len(),
                list.len() == i,
                forall|k: int|
                    0 <= k < i ==> (#[trigger] list@[k])@ == self.charges.charges@[k].description@,
            decreases self.charges.charges.len() - i,
        {
            list.push(self.charges.charges[i].description.clone());
            i += 1;
        }
        assert(texts(list@) =~= charge_descriptions(self.charges@));
        list
    }

    /// Writes the synopsis of the record that the embedding service is asked
    /// to embed. It never fails.
    pub fn generate_embedding_story(&self) -> (r: Result<String, Error>)
        ensures
            r is Ok,
            r->Ok_0@ == embedding_story(self@),
    {
        let name = self.profile.get_full_name();
        let sex_noun = match &self.profile.sex {
            Some(sex) => {
                let lowered = sex.as_str().to_lowercase();
                Record::noun_for_lowercase_sex(lowered.as_str())
            },
            None => "person".to_string(),
        };
        let alias_sentence = match &self.profile.aliases {
            Some(aliases) => {
                assert(texts(aliases@) =~= aliases.deep_view());
                let mut sentence = name.clone();
                sentence.append(" is known to the following aliases: ");
                sentence.append(join(aliases, ", ").as_str());
                sentence.append(".");
                sentence
            },
            None => "No known aliases.".to_string(),
        };
        assert(alias_sentence@ == alias_description(self.profile@));

        let mut intro = "A ".to_string();
        append_or(&mut intro, &self.profile.race, "");
        intro.append(" ");
        intro.append(sex_noun.as_str());
        intro.append(" named ");
        intro.append(name.as_str());
        intro.append(" was arrested on ");
        intro.append(self.profile.booking_date_iso8601.as_str());
        intro.append(" by ");
        append_or(&mut intro, &self.profile.arrest_agency, "an unknown agency");
        intro.append(".");
        assert(intro@ == story_intro(self.profile@));

        let mut charges = "Charges include ".to_string();
        charges.append(join(&self.charge_descriptions(), ", ").as_str());
        charges.append(". Bond is set at ");
        charges.append(self.bond.get_total_bond_description().as_str());
        charges.append(".");
        assert(charges@ == story_charges(self@));

        let mut physique = self.profile.first_name.clone();
        physique.append(" is described as ");
        append_or(&mut physique, &self.profile.height, "unknown height");
        physique.append(" tall, weighing ");
        append_or(&mut physique, &self.profile.weight, "unkown weight");
        physique.append(", and having ");
        append_or(&mut physique, &self.profile.eye_color, "unknown eye color");
        physique.append(". ");
        physique.append(alias_sentence.as_str());
        assert(physique@ == story_physique(self.profile@));

        let mut identifiers = "The inmate's booking number is ".to_string();
        append_or(&mut identifiers, &self.profile.booking_number, "unknown");
        identifiers.append(", and their permanent ID is ");
        append_or(&mut identifiers, &self.profile.perm_id, "");
        identifiers.append(".");
        assert(identifiers@ == story_identifiers(self.profile@));

        let mut story = intro;
        story.append(" ");
        story.append(charges.as_str());
        story.append(" ");
        story.append(physique.as_str());
        story.append(" ");
        story.append(identifiers.as_str());
        Ok(story)
    }

    /// Whether the embedding service should be asked about this record: it
    /// has no embedding yet and the service is at hand.
    pub fn needs_embedding(&self, service_available: bool) -> (needed: bool)
        ensures
            needed == (self.profile.embedding is None && service_available),
    {
        self.profile.embedding.is_none() && service_available
    }

    /// Takes the answer of the embedding service: the first embedding of the
    /// answer becomes the record's embedding. An answer without any
    /// embedding is an `InternalError` and leaves the record as it was.
    pub fn accept_embedding(&mut self, embeddings: Vec<Vec<u32>>) -> (r: Result<(), Error>)
        ensures
            embeddings.len() > 0 ==> r is Ok && final(self)@ == (RecordModel {
                profile: ProfileModel {
                    embedding: Some(embeddings@[0]@),
                    ..old(self)@.profile
                },
                ..old(self)@
            }),
            embeddings.len() == 0 ==> r is Err && r->Err_0 is InternalError && final(self)@ == old(
                self,
            )@,
    {
        let mut embeddings = embeddings;
        if embeddings.len() == 0 {
            return Err(
                Error::InternalError("No embeddings found in Open AI response.".to_string()),
            );
        }
        let first = embeddings.remove(0);
        assert(first.deep_view() =~= first@);
        self.profile.embedding = Some(first);
        Ok(())
    }
}

} // verus!
