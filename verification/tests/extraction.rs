use scjail_crawler_service::inmate::bond::Bond;
use scjail_crawler_service::inmate::profile::Definition;
use scjail_crawler_service::inmate::{
    BondInformation, Charge, ChargeGrade, ChargeInformation, DbInmateProfile, ImageFetch,
    InmateProfile, Label, Record,
};
use scjail_crawler_service::markup::{attributes, cell_texts, first_texts};
use scjail_crawler_service::Error;

fn detail_page() -> String {
    let page = r#"<!DOCTYPE html>
<html><head><title>Inmate</title></head><body>
<div class="inmates"><h2>Inmate</h2><img src="//roster.example/photos/77.jpg" alt="photo"></div>
<dl class="table-display">
  <dt> First: </dt><dd> John </dd>
  <dt>Middle:</dt><dd></dd>
  <dt>LAST:</dt><dd>Doe</dd>
  <dt>Affix:</dt><dd>Jr</dd>
  <dt>Permanent ID:</dt><dd>123456</dd>
  <dt>Sex:</dt><dd>Male</dd>
  <dt>Date of Birth:</dt><dd>1990-01-02</dd>
  <dt>Height:</dt><dd>5\'11\"</dd>
  <dt>Weight:</dt><dd>180 lbs</dd>
  <dt>Race:</dt><dd>White</dd>
  <dt>Eye Color:</dt><dd>Blue</dd>
  <dt>Alias(es):</dt><dd>Johnny, , J. Doe,  </dd>
  <dt>Shoe Size:</dt><dd>11</dd>
</dl>
<dl class="table-display">
  <dt>Committing Agency:</dt><dd>Davenport PD</dd>
  <dt>Booking Date Time:</dt><dd>2024-03-04 05:06</dd>
  <dt>Booking Number:</dt><dd>B-42</dd>
</dl>
<table class="inmates-bond-table">
  <thead><tr><th>Date Set</th><th>Type ID</th><th>Bond Amt</th><th>Status</th></tr></thead>
  <tbody>
    <tr><td>3/4/2024</td><td>Cash</td><td>$2,200.75</td><td>Active</td></tr>
    <tr><td>3/4/2024</td><td>Surety</td></tr>
    <tr><td>3/5/2024</td><td>Cash or <b>Surety</b></td><td>$<span>1,000</span>.00</td></tr>
  </tbody>
</table>
<table class="inmates-charges-table">
  <thead><tr><th>#</th><th>Description</th><th>Grade</th><th>Offense Date</th></tr></thead>
  <tbody>
    <tr><td>1</td><td> THEFT 2ND DEGREE </td><td> FELONY </td><td> 2024-03-01 </td></tr>
    <tr><td>2</td><td>TRESPASS</td><td>Simple</td><td>2024-03-02</td></tr>
  </tbody>
</table>
</body></html>"#;
    page.to_string()
}

fn definition(term: &str, value: &str) -> Definition {
    (Some(term.to_string()), Some(value.to_string()))
}

fn core_definitions() -> Vec<Definition> {
    vec![
        definition("First:", "John"),
        definition("Last:", "Doe"),
        definition("Date of Birth:", "1990-01-02"),
        definition("Booking Date Time:", "2024-03-04 05:06"),
    ]
}

fn strings(items: &[&str]) -> Vec<String> {
    items.iter().map(|s| s.to_string()).collect()
}

#[test]
fn cell_texts_reads_rows_and_cells_in_order() {
    let rows = cell_texts(&detail_page(), ".inmates-bond-table tbody tr", "td").unwrap();
    assert_eq!(
        rows,
        vec![
            strings(&["3/4/2024", "Cash", "$2,200.75", "Active"]),
            strings(&["3/4/2024", "Surety"]),
            strings(&["3/5/2024", "Cash or Surety", "$1,000.00"]),
        ]
    );
}

#[test]
fn cell_texts_of_a_page_without_the_table_is_empty() {
    let rows = cell_texts("<html><body><p>nothing</p></body></html>", "table tr", "td").unwrap();
    assert!(rows.is_empty());
}

#[test]
fn first_texts_gives_the_first_text_node_or_none() {
    let page = "<dl class=\"x\"><dt>a<b>b</b>c</dt><dt></dt><dt><i>deep</i> after</dt></dl><dl class=\"x\"></dl>";
    let found = first_texts(page, ".x", "dt").unwrap();
    assert_eq!(
        found,
        vec![
            vec![Some("a".to_string()), None, Some("deep".to_string())],
            vec![]
        ]
    );
}

#[test]
fn attributes_gives_each_element_its_value_or_none() {
    let page = "<p><a href=\"/one\">1</a><a>2</a><a href=\"\">3</a></p>";
    let found = attributes(page, "a", "href").unwrap();
    assert_eq!(found, vec![Some("/one".to_string()), None, Some("".to_string())]);
}

#[test]
fn an_invalid_selector_is_a_parse_error() {
    assert!(matches!(cell_texts("<p></p>", "tr[", "td"), Err(Error::ParseError)));
    assert!(matches!(cell_texts("<p></p>", "tr", "]]"), Err(Error::ParseError)));
    assert!(matches!(first_texts("<p></p>", "", "dt"), Err(Error::ParseError)));
    assert!(matches!(attributes("<p></p>", "a[", "href"), Err(Error::ParseError)));
}

#[test]
fn bonds_are_read_from_the_bond_table() {
    let info = BondInformation::build(&detail_page()).unwrap();
    assert_eq!(info.bonds.len(), 2);
    assert_eq!(info.bonds[0].bond_type, "Cash");
    assert_eq!(info.bonds[0].bond_amount, 220075);
    assert_eq!(info.bonds[1].bond_type, "Cash or Surety");
    assert_eq!(info.bonds[1].bond_amount, 100000);
}

#[test]
fn a_page_without_bonds_is_accepted() {
    let info = BondInformation::build("<html><body></body></html>").unwrap();
    assert!(info.bonds.is_empty());
    let info = BondInformation::from_rows(&Vec::new());
    assert!(info.bonds.is_empty());
}

#[test]
fn a_bond_row_without_type_or_amount_is_passed_over() {
    let rows = vec![
        strings(&[]),
        strings(&["d"]),
        strings(&["d", "Cash"]),
        strings(&["d", "Cash", "garbage"]),
        strings(&["d", " Unbondable ", "$0.00", "x", "y"]),
    ];
    let info = BondInformation::from_rows(&rows);
    assert_eq!(info.bonds.len(), 2);
    assert_eq!(info.bonds[0].bond_type, "Cash");
    assert_eq!(info.bonds[0].bond_amount, 0);
    assert_eq!(info.bonds[1].bond_type, " Unbondable ");
    assert_eq!(info.bonds[1].bond_amount, 0);
}

#[test]
fn total_bond_is_the_sum_of_the_amounts() {
    let info = BondInformation {
        bonds: vec![
            Bond { bond_type: "Cash".to_string(), bond_amount: 220075 },
            Bond { bond_type: "Surety".to_string(), bond_amount: 25 },
        ],
    };
    assert_eq!(info.get_total_bond_description(), "$2201.00");
    assert_eq!(BondInformation { bonds: Vec::new() }.get_total_bond_description(), "$0.00");
}

#[test]
fn total_bond_does_not_overflow() {
    let info = BondInformation {
        bonds: vec![
            Bond { bond_type: "Cash".to_string(), bond_amount: u64::MAX },
            Bond { bond_type: "Cash".to_string(), bond_amount: u64::MAX },
        ],
    };
    assert_eq!(info.get_total_bond_description(), "$368934881474191032.30");
}

#[test]
fn total_bond_is_unbondable_in_any_letter_case() {
    for kind in ["unbondable", "UNBONDABLE", "UnBondable"] {
        let info = BondInformation {
            bonds: vec![
                Bond { bond_type: "Cash".to_string(), bond_amount: 5 },
                Bond { bond_type: kind.to_string(), bond_amount: 0 },
            ],
        };
        assert_eq!(info.get_total_bond_description(), "unbondable");
        assert!(info.bonds[1].is_unbondable());
        assert!(!info.bonds[0].is_unbondable());
    }
    assert!(Bond::is_unbondable_type("unbondable"));
    assert!(!Bond::is_unbondable_type("Unbondable"));
    let spaced = Bond { bond_type: " unbondable".to_string(), bond_amount: 1 };
    assert!(!spaced.is_unbondable());
}

#[test]
fn charge_grade_is_read_in_any_letter_case() {
    assert_eq!(ChargeGrade::from_string("felony"), ChargeGrade::Felony);
    assert_eq!(ChargeGrade::from_string("FELONY"), ChargeGrade::Felony);
    assert_eq!(ChargeGrade::from_string("Felony"), ChargeGrade::Felony);
    assert_eq!(ChargeGrade::from_string("misdemeanor"), ChargeGrade::Misdemeanor);
    assert_eq!(ChargeGrade::from_string("Misdemeanor"), ChargeGrade::Misdemeanor);
}

#[test]
fn an_unknown_charge_grade_is_a_misdemeanor() {
    assert_eq!(ChargeGrade::from_string(""), ChargeGrade::Misdemeanor);
    assert_eq!(ChargeGrade::from_string("simple"), ChargeGrade::Misdemeanor);
    assert_eq!(ChargeGrade::from_string(" felony"), ChargeGrade::Misdemeanor);
    assert_eq!(ChargeGrade::from_lowercase("Felony"), ChargeGrade::Misdemeanor);
    assert_eq!(ChargeGrade::from_lowercase("felony"), ChargeGrade::Felony);
}

#[test]
fn charge_grade_names() {
    assert_eq!(ChargeGrade::Felony.to_string(), "Felony");
    assert_eq!(ChargeGrade::Misdemeanor.to_string(), "Misdemeanor");
}

#[test]
fn charges_are_read_from_the_charges_table() {
    let info = ChargeInformation::build(&detail_page()).unwrap();
    assert_eq!(info.charges.len(), 2);
    assert_eq!(info.charges[0].description, "THEFT 2ND DEGREE");
    assert_eq!(info.charges[0].grade, ChargeGrade::Felony);
    assert_eq!(info.charges[0].offense_date, "2024-03-01");
    assert_eq!(info.charges[1].description, "TRESPASS");
    assert_eq!(info.charges[1].grade, ChargeGrade::Misdemeanor);
    assert_eq!(info.charges[1].offense_date, "2024-03-02");
}

#[test]
fn a_page_without_charges_is_refused() {
    assert!(matches!(
        ChargeInformation::build("<html><body></body></html>"),
        Err(Error::ParseError)
    ));
    assert!(matches!(
        ChargeInformation::from_rows(&Vec::new(), "now"),
        Err(Error::ParseError)
    ));
}

#[test]
fn missing_charge_cells_get_their_defaults() {
    let rows = vec![
        strings(&[]),
        strings(&["1", " A "]),
        strings(&["2", "B", " Felony "]),
        strings(&["3", "C", "felony", " 2020-02-02 ", "extra"]),
    ];
    let info = ChargeInformation::from_rows(&rows, "the fallback").unwrap();
    assert_eq!(info.charges.len(), 4);
    assert_eq!(info.charges[0].description, "");
    assert_eq!(info.charges[0].grade, ChargeGrade::Misdemeanor);
    assert_eq!(info.charges[0].offense_date, "the fallback");
    assert_eq!(info.charges[1].description, "A");
    assert_eq!(info.charges[1].grade, ChargeGrade::Misdemeanor);
    assert_eq!(info.charges[1].offense_date, "the fallback");
    assert_eq!(info.charges[2].description, "B");
    assert_eq!(info.charges[2].grade, ChargeGrade::Felony);
    assert_eq!(info.charges[2].offense_date, "the fallback");
    assert_eq!(info.charges[3].description, "C");
    assert_eq!(info.charges[3].grade, ChargeGrade::Felony);
    assert_eq!(info.charges[3].offense_date, "2020-02-02");
    let charge = Charge::from_row(&strings(&["1", "D"]), "later");
    assert_eq!(charge.offense_date, "later");
}

#[test]
fn a_charge_without_a_date_gets_the_current_time() {
    let page = "<table class=\"inmates-charges-table\"><tbody><tr><td>1</td><td>THEFT</td><td>Felony</td></tr></tbody></table>";
    let info = ChargeInformation::build(page).unwrap();
    assert_eq!(info.charges.len(), 1);
    assert_eq!(info.charges[0].description, "THEFT");
    let date = &info.charges[0].offense_date;
    assert!(date.ends_with(" UTC"));
    assert!(date.starts_with("20"));
    assert_ne!(date, "THEFT");
}

#[test]
fn labels_are_normalized_before_they_are_looked_up() {
    assert_eq!(Label::normalize("  First: "), "first");
    assert_eq!(Label::normalize("BOOKING DATE TIME:"), "booking date time");
    assert_eq!(Label::normalize("first"), "first");
    assert_eq!(Label::normalize("first::"), "first:");
    assert_eq!(Label::normalize(":"), "");
    assert_eq!(Label::normalize(""), "");
    assert_eq!(Label::normalize("first :"), "first ");
}

#[test]
fn the_fifteen_labels_are_recognized() {
    let expected = [
        ("first", Label::First),
        ("middle", Label::Middle),
        ("last", Label::Last),
        ("affix", Label::Affix),
        ("permanent id", Label::PermanentId),
        ("sex", Label::Sex),
        ("date of birth", Label::DateOfBirth),
        ("height", Label::Height),
        ("weight", Label::Weight),
        ("race", Label::Race),
        ("eye color", Label::EyeColor),
        ("alias(es)", Label::Aliases),
        ("committing agency", Label::CommittingAgency),
        ("booking date time", Label::BookingDateTime),
        ("booking number", Label::BookingNumber),
    ];
    for (text, label) in expected {
        assert_eq!(Label::recognize(text), Some(label));
    }
    assert_eq!(Label::recognize("first:"), None);
    assert_eq!(Label::recognize("First"), None);
    assert_eq!(Label::recognize("shoe size"), None);
    assert_eq!(Label::recognize(""), None);
}

#[test]
fn a_profile_is_read_from_the_profile_sections() {
    let image = ImageFetch::Received { success: true, bytes: vec![1, 2, 3] };
    let profile = InmateProfile::build(&detail_page(), "?sysid=77", image).unwrap();
    assert_eq!(profile.first_name, "John");
    assert_eq!(profile.middle_name, None);
    assert_eq!(profile.last_name, "Doe");
    assert_eq!(profile.affix, Some("Jr".to_string()));
    assert_eq!(profile.perm_id, Some("123456".to_string()));
    assert_eq!(profile.sex, Some("Male".to_string()));
    assert_eq!(profile.dob, "1990-01-02");
    assert_eq!(profile.height, Some("5'11\"".to_string()));
    assert_eq!(profile.weight, Some("180 lbs".to_string()));
    assert_eq!(profile.race, Some("White".to_string()));
    assert_eq!(profile.eye_color, Some("Blue".to_string()));
    assert_eq!(
        profile.aliases,
        Some(vec!["Johnny".to_string(), "J. Doe".to_string()])
    );
    assert_eq!(profile.arrest_agency, Some("Davenport PD".to_string()));
    assert_eq!(profile.booking_date_iso8601, "2024-03-04 05:06");
    assert_eq!(profile.booking_number, Some("B-42".to_string()));
    assert_eq!(profile.img_blob, Some(vec![1, 2, 3]));
    assert_eq!(profile.scil_sys_id, Some("?sysid=77".to_string()));
    assert_eq!(profile.embedding, None);
}

#[test]
fn the_labels_of_interest_are_counted() {
    let mut profile = InmateProfile::default();
    let found = profile.set_core_profile_data(&detail_page()).unwrap();
    assert_eq!(found, 15);
    let mut profile = InmateProfile::default();
    let found = profile.set_core_profile_data("<html></html>").unwrap();
    assert_eq!(found, 0);
    assert_eq!(profile.first_name, "");
}

#[test]
fn a_later_definition_replaces_an_earlier_one() {
    let mut profile = InmateProfile::default();
    let definitions = vec![
        definition("First:", "John"),
        definition("Race:", "White"),
        (None, Some("ignored".to_string())),
        (Some("Sex:".to_string()), None),
        definition("first", " Jack "),
        definition("Race:", ""),
        definition("Unknown:", "x"),
    ];
    let found = profile.apply_definitions(&definitions);
    assert_eq!(found, 5);
    assert_eq!(profile.first_name, "Jack");
    assert_eq!(profile.race, None);
    assert_eq!(profile.sex, None);
}

#[test]
fn labels_and_values_are_paired_by_position() {
    let terms = vec![
        vec![Some("a".to_string()), None, Some("c".to_string())],
        vec![Some("d".to_string())],
        vec![Some("never".to_string())],
    ];
    let values = vec![
        vec![Some("1".to_string()), Some("2".to_string())],
        vec![None, Some("extra".to_string())],
    ];
    let pairs = InmateProfile::pair_definitions(&terms, &values);
    assert_eq!(
        pairs,
        vec![
            (Some("a".to_string()), Some("1".to_string())),
            (None, Some("2".to_string())),
            (Some("d".to_string()), None),
        ]
    );
}

#[test]
fn a_profile_without_a_core_attribute_is_refused() {
    for missing in 0..4 {
        let mut definitions = core_definitions();
        definitions.remove(missing);
        definitions.push(definition("Race:", "White"));
        let r = InmateProfile::from_definitions(&definitions, "?sysid=1", ImageFetch::Absent);
        assert!(matches!(r, Err(Error::ParseError)));
    }
    for emptied in 0..4 {
        let mut definitions = core_definitions();
        definitions[emptied].1 = Some("   ".to_string());
        let r = InmateProfile::from_definitions(&definitions, "?sysid=1", ImageFetch::Absent);
        assert!(matches!(r, Err(Error::ParseError)));
    }
    let r = InmateProfile::from_definitions(&core_definitions(), "?sysid=1", ImageFetch::Absent);
    assert!(r.is_ok());
    let page = "<dl class=\"table-display\"><dt>First:</dt><dd>John</dd><dt>Last:</dt><dd>Doe</dd></dl>";
    assert!(matches!(
        InmateProfile::build(page, "?sysid=1", ImageFetch::Absent),
        Err(Error::ParseError)
    ));
}

#[test]
fn a_failed_or_unsuccessful_photo_fetch_leaves_no_photo() {
    let absent = InmateProfile::from_definitions(&core_definitions(), "k", ImageFetch::Absent);
    assert_eq!(absent.unwrap().img_blob, None);
    let failed = InmateProfile::from_definitions(&core_definitions(), "k", ImageFetch::Failed);
    assert_eq!(failed.unwrap().img_blob, None);
    let refused = InmateProfile::from_definitions(
        &core_definitions(),
        "k",
        ImageFetch::Received { success: false, bytes: vec![9, 9] },
    );
    assert_eq!(refused.unwrap().img_blob, None);
    let received = InmateProfile::from_definitions(
        &core_definitions(),
        "k",
        ImageFetch::Received { success: true, bytes: vec![9, 9] },
    );
    assert_eq!(received.unwrap().img_blob, Some(vec![9, 9]));
    let empty = ImageFetch::Received { success: true, bytes: Vec::new() };
    assert_eq!(empty.into_blob(), Some(Vec::new()));
}

#[test]
fn the_photo_address_is_that_of_the_first_photo() {
    assert_eq!(
        InmateProfile::image_url(&detail_page()).unwrap(),
        Some("https://roster.example/photos/77.jpg".to_string())
    );
    assert_eq!(InmateProfile::image_url("<html></html>").unwrap(), None);
    assert_eq!(
        InmateProfile::image_url("<div class=\"inmates\"><img alt=\"x\"><img src=\"//b\"></div>")
            .unwrap(),
        None
    );
    assert_eq!(
        InmateProfile::image_url_of(&vec![Some("//a".to_string()), Some("//b".to_string())]),
        Some("https://a".to_string())
    );
    assert_eq!(InmateProfile::image_url_of(&Vec::new()), None);
}

#[test]
fn names_and_core_attributes_are_written_out() {
    let mut profile =
        InmateProfile::from_definitions(&core_definitions(), "k", ImageFetch::Absent).unwrap();
    assert_eq!(profile.get_full_name(), "John Doe");
    assert_eq!(
        profile.get_core_attributes(),
        "John Doe dob=[1990-01-02] booking date=[2024-03-04 05:06]"
    );
    profile.middle_name = Some("Quincy".to_string());
    assert_eq!(profile.get_full_name(), "John Quincy Doe");
    profile.affix = Some("Jr".to_string());
    assert_eq!(profile.get_full_name(), "John Quincy Doe, Jr");
    profile.middle_name = None;
    assert_eq!(profile.get_full_name(), "John Doe, Jr");
    assert!(!profile.is_missing_core_attributes());
    profile.dob = String::new();
    assert!(profile.is_missing_core_attributes());
}

#[test]
fn the_photo_name_is_a_digest_of_the_core_attributes() {
    let mut profile = InmateProfile::default();
    profile.first_name = "a".to_string();
    profile.last_name = "b".to_string();
    profile.dob = "c".to_string();
    assert_eq!(
        profile.get_hash_on_core_attributes(),
        "mugshots/ba7816bf8f01cfea414140de5dae2223b00361a396177a9cb410ff61f20015ad"
    );
    profile.middle_name = Some("ignored".to_string());
    profile.img_blob = Some(vec![1]);
    assert_eq!(
        profile.get_hash_on_core_attributes(),
        "mugshots/ba7816bf8f01cfea414140de5dae2223b00361a396177a9cb410ff61f20015ad"
    );
    profile.booking_date_iso8601 = "d".to_string();
    assert_eq!(
        profile.get_hash_on_core_attributes(),
        "mugshots/88d4266fd4e6338d13b845fcf289579d209c897823b9217da3e161936f031589"
    );
    assert_eq!(
        InmateProfile::default().get_hash_on_core_attributes(),
        "mugshots/e3b0c44298fc1c149afbf4c8996fb92427ae41e4649b934ca495991b7852b855"
    );
}

#[test]
fn a_stored_profile_keeps_its_identity() {
    let stored = DbInmateProfile::new(17, InmateProfile::default());
    assert_eq!(stored.id, 17);
    assert_eq!(stored.profile.first_name, "");
}

#[test]
fn a_record_is_built_from_a_page() {
    let record = Record::build("?sysid=77", &detail_page(), ImageFetch::Failed).unwrap();
    assert_eq!(
        record.url,
        "https://www.scottcountyiowa.us/sheriff/inmates.php?sysid=77"
    );
    assert_eq!(record.profile.first_name, "John");
    assert_eq!(record.profile.img_blob, None);
    assert_eq!(record.bond.bonds.len(), 2);
    assert_eq!(record.charges.charges.len(), 2);
    assert_eq!(Record::request_url(""), "https://www.scottcountyiowa.us/sheriff/inmates.php");
}

#[test]
fn a_record_needs_charges_but_no_bonds() {
    let charge_rows = vec![strings(&["1", "THEFT", "Felony", "2024-01-01"])];
    let bond_rows = vec![strings(&["d", "Cash", "$1.00"])];
    let none: Vec<Vec<String>> = Vec::new();
    let without_charges = Record::from_parts(
        "k",
        &core_definitions(),
        &bond_rows,
        &none,
        ImageFetch::Absent,
        "now",
    );
    assert!(matches!(without_charges, Err(Error::ParseError)));
    let without_bonds = Record::from_parts(
        "k",
        &core_definitions(),
        &none,
        &charge_rows,
        ImageFetch::Absent,
        "now",
    )
    .unwrap();
    assert!(without_bonds.bond.bonds.is_empty());
    assert_eq!(without_bonds.charges.charges.len(), 1);
    let without_name = Record::from_parts(
        "k",
        &core_definitions()[1..].to_vec(),
        &bond_rows,
        &charge_rows,
        ImageFetch::Absent,
        "now",
    );
    assert!(matches!(without_name, Err(Error::ParseError)));
    let page = "<dl class=\"table-display\"><dt>First:</dt><dd>J</dd><dt>Last:</dt><dd>D</dd><dt>Date of Birth:</dt><dd>x</dd><dt>Booking Date Time:</dt><dd>y</dd></dl>";
    assert!(matches!(
        Record::build("k", page, ImageFetch::Absent),
        Err(Error::ParseError)
    ));
}

#[test]
fn the_synopsis_of_a_record() {
    let mut record = Record::build("?sysid=77", &detail_page(), ImageFetch::Absent).unwrap();
    assert_eq!(
        record.generate_embedding_story().unwrap(),
        "A White man named John Doe, Jr was arrested on 2024-03-04 05:06 by Davenport PD. \
         Charges include THEFT 2ND DEGREE, TRESPASS. Bond is set at $3200.75. \
         John is described as 5'11\" tall, weighing 180 lbs, and having Blue. \
         John Doe, Jr is known to the following aliases: Johnny, J. Doe. \
         The inmate's booking number is B-42, and their permanent ID is 123456."
    );
    record.profile.sex = Some("FEMALE".to_string());
    record.profile.race = None;
    record.profile.arrest_agency = None;
    record.profile.height = None;
    record.profile.weight = None;
    record.profile.eye_color = None;
    record.profile.aliases = None;
    record.profile.booking_number = None;
    record.profile.perm_id = None;
    record.profile.affix = None;
    record.bond.bonds[0].bond_type = "UNBONDABLE".to_string();
    assert_eq!(
        record.generate_embedding_story().unwrap(),
        "A  woman named John Doe was arrested on 2024-03-04 05:06 by an unknown agency. \
         Charges include THEFT 2ND DEGREE, TRESPASS. Bond is set at unbondable. \
         John is described as unknown height tall, weighing unkown weight, and having \
         unknown eye color. No known aliases. \
         The inmate's booking number is unknown, and their permanent ID is ."
    );
    record.profile.sex = None;
    assert!(record
        .generate_embedding_story()
        .unwrap()
        .starts_with("A  person named John Doe was"));
    record.profile.sex = Some("MALE".to_string());
    assert!(record
        .generate_embedding_story()
        .unwrap()
        .starts_with("A  man named John Doe was"));
    assert_eq!(Record::noun_for_lowercase_sex("male"), "man");
    assert_eq!(Record::noun_for_lowercase_sex("Male"), "woman");
}

#[test]
fn the_first_embedding_of_an_answer_is_kept() {
    let mut record = Record::build("?sysid=77", &detail_page(), ImageFetch::Absent).unwrap();
    assert!(record.needs_embedding(true));
    assert!(!record.needs_embedding(false));
    let refused = record.accept_embedding(Vec::new());
    assert!(matches!(refused, Err(Error::InternalError(_))));
    assert_eq!(record.profile.embedding, None);
    let bits = vec![1.5f32.to_bits(), (-0.25f32).to_bits()];
    record.accept_embedding(vec![bits.clone(), vec![7]]).unwrap();
    assert_eq!(record.profile.embedding, Some(bits));
    assert_eq!(f32::from_bits(record.profile.embedding.as_ref().unwrap()[0]), 1.5);
    assert!(!record.needs_embedding(true));
    assert_eq!(record.profile.first_name, "John");
}
