//! Charges: the rows of a page's charges table.

use crate::error::Error;
use crate::inmate::bond::CELL_SELECTOR;
use crate::markup::{cell_texts, table_texts, text_nodes_within};
use crate::text::{same_text, trim, trimmed, unicode_lowercase};
use vstd::prelude::*;

verus! {

/// Selects the rows of the charges table.
pub const CHARGE_ROW_SELECTOR: &'static str = ".inmates-charges-table tbody tr";

/// How grave a charge is.
#[derive(Debug, Clone, Copy, PartialEq, Eq, Structural)]
pub enum ChargeGrade {
    Felony,
    Misdemeanor,
}

/// One charge: what it is for, how grave it is, and the date of the offense.
#[derive(Debug)]
pub struct Charge {
    pub description: String,
    pub grade: ChargeGrade,
    pub offense_date: String,
}

/// What a charge is, with its texts as sequences of characters.
pub ghost struct ChargeModel {
    pub description: Seq<char>,
    pub grade: ChargeGrade,
    pub offense_date: Seq<char>,
}

impl View for Charge {
    type V = ChargeModel;

    open spec fn view(&self) -> ChargeModel {
        ChargeModel {
            description: self.description@,
            grade: self.grade,
            offense_date: self.offense_date@,
        }
    }
}

/// The charges of one person, in the order of the page.
#[derive(Debug)]
pub struct ChargeInformation {
    pub charges: Vec<Charge>,
}

impl View for ChargeInformation {
    type V = Seq<ChargeModel>;

    open spec fn view(&self) -> Seq<ChargeModel> {
        Seq::new(self.charges@.len(), |i: int| self.charges@[i]@)
    }
}

/// The charge that a table row holds. Its second cell is the description, its
/// third the grade and its fourth the date of the offense, each without the
/// white space around it. A missing description is empty, a missing grade is
/// a misdemeanor, and a missing date is the fallback date.
pub open spec fn charge_of_row(row: Seq<Seq<char>>, fallback_date: Seq<char>) -> ChargeModel {
    ChargeModel {
        description: if row.len() >= 2 {
            trimmed(row[1])
        } else {
            Seq::<char>::empty()
        },
        grade: if row.len() >= 3 {
            ChargeGrade::of_lowercase(unicode_lowercase(trimmed(row[2])))
        } else {
            ChargeGrade::Misdemeanor
        },
        offense_date: if row.len() >= 4 {
            trimmed(row[3])
        } else {
            fallback_date
        },
    }
}

/// The charge of every row, in order.
pub open spec fn charges_of_rows(rows: Seq<Seq<Seq<char>>>, fallback_date: Seq<char>) -> Seq<
    ChargeModel,
> {
    Seq::new(rows.len(), |i: int| charge_of_row(rows[i], fallback_date))
}

/// `chrono::Utc::now` reads the system clock, and the `Display` form of the
/// `DateTime` it returns is the current date and time in UTC as text. The
/// text differs from call to call, so nothing is promised of it. The call
/// relies on a system clock that is not set before 1970.
#[verifier::external_body]
fn utc_now_text() -> String {
    chrono::Utc::now().to_string()
}

impl ChargeGrade {
    /// The grade that a lowercase grade text names: `felony` is a felony and
    /// anything else a misdemeanor.
    pub open spec fn of_lowercase(lowered: Seq<char>) -> ChargeGrade {
        if lowered == "felony"@ {
            ChargeGrade::Felony
        } else {
            ChargeGrade::Misdemeanor
        }
    }

    /// The name of a grade.
    pub open spec fn name(self) -> Seq<char> {
        match self {
            ChargeGrade::Felony => "Felony"@,
            ChargeGrade::Misdemeanor => "Misdemeanor"@,
        }
    }

    /// Reads a grade from text that is already in lowercase. Text that names
    /// no grade is taken as a misdemeanor.
    pub fn from_lowercase(lowered: &str) -> (grade: ChargeGrade)
        ensures
            grade == ChargeGrade::of_lowercase(lowered@),
    {
        if same_text(lowered, "felony") {
            ChargeGrade::Felony
        } else {
            ChargeGrade::Misdemeanor
        }
    }

    /// Reads a grade from text in any letter case. Text that names no grade
    /// is taken as a misdemeanor, never refused.
    pub fn from_string(s: &str) -> (grade: ChargeGrade)
        ensures
            grade == ChargeGrade::of_lowercase(unicode_lowercase(s@)),
    {
        let lowered = s.to_lowercase();
        ChargeGrade::from_lowercase(lowered.as_str())
    }

    /// Writes the name of the grade.
    pub fn to_string(&self) -> (text: String)
        ensures
            text@ == self.name(),
    {
        match self {
            ChargeGrade::Felony => "Felony".to_string(),
            ChargeGrade::Misdemeanor => "Misdemeanor".to_string(),
        }
    }
}

impl Charge {
    /// Builds the charge of one table row from the texts of its cells.
    pub fn from_row(row: &Vec<String>, fallback_date: &str) -> (charge: Charge)
        ensures
            charge@ == charge_of_row(row.deep_view(), fallback_date@),
    {
        let description = if row.len() >= 2 {
            trim(row[1].as_str())
        } else {
            String::new()
        };
        let grade = if row.len() >= 3 {
            let text = trim(row[2].as_str());
            ChargeGrade::from_string(text.as_str())
        } else {
            ChargeGrade::Misdemeanor
        };
        let offense_date = if row.len() >= 4 {
            trim(row[3].as_str())
        } else {
            fallback_date.to_string()
        };
        Charge { description, grade, offense_date }
    }
}

impl ChargeInformation {
    /// Reads the charges out of the charges table of a page. A page without
    /// any charge row is refused with a `ParseError`, as is an unusable
    /// selector. A row without a date of offense gets the current time.
    pub fn build(html: &str) -> (r: Result<ChargeInformation, Error>)
        ensures
            match text_nodes_within(html@, CHARGE_ROW_SELECTOR@, CELL_SELECTOR@) {
                None => r is Err && r->Err_0 is ParseError,
                Some(found) => if found.len() == 0 {
                    r is Err && r->Err_0 is ParseError
                } else {
                    r is Ok && exists|now: Seq<char>|
                        r->Ok_0@ == charges_of_rows(table_texts(found), now)
                },
            },
    {
        match cell_texts(html, CHARGE_ROW_SELECTOR, CELL_SELECTOR) {
            Err(_) => Err(Error::ParseError),
            Ok(rows) => {
                let now = utc_now_text();
                let r = ChargeInformation::from_rows(&rows, now.as_str());
                proof {
                    let found = text_nodes_within(
                        html@,
                        CHARGE_ROW_SELECTOR@,
                        CELL_SELECTOR@,
                    )->Some_0;
                    assert(rows.deep_view().len() == found.len());
                    if found.len() > 0 {
                        assert(r->Ok_0@ == charges_of_rows(table_texts(found), now@));
                    }
                }
                r
            },
        }
    }

    /// Builds the charges from the cell texts of the rows of a charges table.
    /// No row at all is a `ParseError`; a row without a date of offense gets
    /// the fallback date.
    pub fn from_rows(rows: &Vec<Vec<String>>, fallback_date: &str) -> (r: Result<
        ChargeInformation,
        Error,
    >)
        ensures
            rows.len() == 0 ==> r is Err && r->Err_0 is ParseError,
            rows.len() > 0 ==> r is Ok && r->Ok_0@ == charges_of_rows(
                rows.deep_view(),
                fallback_date@,
            ),
    {
        let mut charges: Vec<Charge> = Vec::new();
        let mut i: usize = 0;
        while i < rows.len()
            invariant
                i <= rows.len(),
                charges.len() == i,
                forall|k: int|
                    0 <= k < i ==> (#[trigger] charges@[k])@ == charge_of_row(
                        rows@[k].deep_view(),
                        fallback_date@,
                    ),
            decreases rows.len() - i,
        {
            charges.push(Charge::from_row(&rows[i], fallback_date));
            i += 1;
        }
        if charges.len() == 0 {
            return Err(Error::ParseError);
        }
        let info = ChargeInformation { charges };
        assert(info@ =~= charges_of_rows(rows.deep_view(), fallback_date@));
        Ok(info)
    }
}

} // verus!
