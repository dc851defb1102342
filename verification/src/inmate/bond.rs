//! Bonds: the rows of a page's bond table and their total.

use crate::error::Error;
use crate::markup::{cell_texts, table_texts, text_nodes_within};
use crate::text::unicode_lowercase;
use crate::utils::{cents_to_dollars_wide, dollar_text, dollars_to_cents, minor_units};
use vstd::prelude::*;

verus! {

/// Selects the rows of the bond table.
pub const BOND_ROW_SELECTOR: &'static str = ".inmates-bond-table tbody tr";

/// Selects the cells of a table row.
pub const CELL_SELECTOR: &'static str = "td";

/// One bond: its type and its amount in cents.
#[derive(Debug)]
pub struct Bond {
    pub bond_type: String,
    pub bond_amount: u64,
}

/// What a bond is: the text of its type and its amount in cents.
pub ghost struct BondModel {
    pub bond_type: Seq<char>,
    pub bond_amount: nat,
}

impl View for Bond {
    type V = BondModel;

    open spec fn view(&self) -> BondModel {
        BondModel { bond_type: self.bond_type@, bond_amount: self.bond_amount as nat }
    }
}

/// The bonds of one person, in the order of the page.
#[derive(Debug)]
pub struct BondInformation {
    pub bonds: Vec<Bond>,
}

impl View for BondInformation {
    type V = Seq<BondModel>;

    open spec fn view(&self) -> Seq<BondModel> {
        Seq::new(self.bonds@.len(), |i: int| self.bonds@[i]@)
    }
}

/// The bond that a table row holds: its second cell is the type and its third
/// the amount. A row with fewer than three cells holds none.
pub open spec fn bond_of_row(row: Seq<Seq<char>>) -> Option<BondModel> {
    if row.len() >= 3 {
        Some(BondModel { bond_type: row[1], bond_amount: minor_units(row[2]) })
    } else {
        None
    }
}

/// The bonds of the rows that hold one, in order.
pub open spec fn bonds_of_rows(rows: Seq<Seq<Seq<char>>>) -> Seq<BondModel>
    decreases rows.len(),
{
    if rows.len() == 0 {
        Seq::<BondModel>::empty()
    } else {
        match bond_of_row(rows.last()) {
            Some(bond) => bonds_of_rows(rows.drop_last()).push(bond),
            None => bonds_of_rows(rows.drop_last()),
        }
    }
}

/// Whether a bond's type says, in whatever letter case, that no bond can be
/// posted.
pub open spec fn is_unbondable(bond: BondModel) -> bool {
    unicode_lowercase(bond.bond_type) == "unbondable"@
}

/// Whether any bond of a list is unbondable.
pub open spec fn any_unbondable(bonds: Seq<BondModel>) -> bool {
    exists|i: int| 0 <= i < bonds.len() && is_unbondable(#[trigger] bonds[i])
}

/// The sum of the amounts of a list of bonds.
pub open spec fn total_amount(bonds: Seq<BondModel>) -> nat
    decreases bonds.len(),
{
    if bonds.len() == 0 {
        0
    } else {
        total_amount(bonds.drop_last()) + bonds.last().bond_amount
    }
}

/// How the total bond reads: `unbondable` if any bond is, else the sum of the
/// amounts as dollars and cents.
pub open spec fn total_bond_description(bonds: Seq<BondModel>) -> Seq<char> {
    if any_unbondable(bonds) {
        "unbondable"@
    } else {
        dollar_text(total_amount(bonds))
    }
}

impl Bond {
    /// Whether a bond type, already in lowercase, is the unbondable one.
    pub fn is_unbondable_type(lowered: &str) -> (unbondable: bool)
        ensures
            unbondable == (lowered@ == "unbondable"@),
    {
        crate::text::same_text(lowered, "unbondable")
    }

    /// Whether this bond's type says that no bond can be posted.
    pub fn is_unbondable(&self) -> (unbondable: bool)
        ensures
            unbondable == is_unbondable(self@),
    {
        let lowered = self.bond_type.as_str().to_lowercase();
        Bond::is_unbondable_type(lowered.as_str())
    }
}

impl BondInformation {
    /// Reads the bonds out of the bond table of a page. A row that lacks the
    /// type or the amount cell is passed over; a page without any bond is
    /// accepted. Only an unusable selector is an error.
    pub fn build(html: &str) -> (r: Result<BondInformation, Error>)
        ensures
            match text_nodes_within(html@, BOND_ROW_SELECTOR@, CELL_SELECTOR@) {
                None => r is Err && r->Err_0 is ParseError,
                Some(found) => r is Ok && r->Ok_0@ == bonds_of_rows(table_texts(found)),
            },
    {
        match cell_texts(html, BOND_ROW_SELECTOR, CELL_SELECTOR) {
            Err(_) => Err(Error::ParseError),
            Ok(rows) => Ok(BondInformation::from_rows(&rows)),
        }
    }

    /// Builds the bonds from the cell texts of the rows of a bond table.
    pub fn from_rows(rows: &Vec<Vec<String>>) -> (info: BondInformation)
        ensures
            info@ == bonds_of_rows(rows.deep_view()),
    {
        let mut bonds: Vec<Bond> = Vec::new();
        let mut i: usize = 0;
        let ghost model = rows.deep_view();
        assert(model.take(0) =~= Seq::<Seq<Seq<char>>>::empty());
        while i < rows.len()
            invariant
                i <= rows.len(),
                model == rows.deep_view(),
                Seq::new(bonds@.len(), |k: int| bonds@[k]@) == bonds_of_rows(model.take(i as int)),
            decreases rows.len() - i,
        {
            let row = &rows[i];
            proof {
                let next = model.take(i + 1);
                assert(next.drop_last() =~= model.take(i as int));
                assert(next.last() == row.deep_view());
            }
            let ghost before = Seq::new(bonds@.len(), |k: int| bonds@[k]@);
            if row.len() >= 3 {
                let bond_type = row[1].clone();
                let bond_amount = dollars_to_cents(row[2].as_str());
                bonds.push(Bond { bond_type, bond_amount });
                assert(Seq::new(bonds@.len(), |k: int| bonds@[k]@) =~= before.push(
                    bond_of_row(row.deep_view())->Some_0,
                ));
            }
            i += 1;
        }
        assert(model.take(rows.len() as int) =~= model);
        BondInformation { bonds }
    }

    /// Describes the total bond: `unbondable` if any bond is unbondable,
    /// else the sum of all amounts as dollars and cents.
    pub fn get_total_bond_description(&self) -> (text: String)
        ensures
            text@ == total_bond_description(self@),
    {
        let mut unbondable = false;
        let mut total: u128 = 0;
        let mut i: usize = 0;
        assert(self@.take(0) =~= Seq::<BondModel>::empty());
        while i < self.bonds.len()
            invariant
                i <= self.bonds.len(),
                unbondable == any_unbondable(self@.take(i as int)),
                total == total_amount(self@.take(i as int)),
                total <= i * 0xFFFF_FFFF_FFFF_FFFF,
            decreases self.bonds.len() - i,
        {
            let bond = &self.bonds[i];
            proof {
                let next = self@.take(i + 1);
                let before = self@.take(i as int);
                assert(next.drop_last() =~= before);
                assert(next.last() == bond@);
                if any_unbondable(before) {
                    let k = choose|k: int| 0 <= k < before.len() && is_unbondable(
                        #[trigger] before[k],
                    );
                    assert(is_unbondable(next[k]));
                }
                if is_unbondable(bond@) {
                    assert(is_unbondable(next[i as int]));
                }
                if any_unbondable(next) {
                    let k = choose|k: int| 0 <= k < next.len() && is_unbondable(
                        #[trigger] next[k],
                    );
                    if k < i {
                        assert(is_unbondable(before[k]));
                    }
                }
            }
            if bond.is_unbondable() {
                unbondable = true;
            }
            total = total + bond.bond_amount as u128;
            i += 1;
        }
        assert(self@.take(self.bonds.len() as int) =~= self@);
        if unbondable {
            "unbondable".to_string()
        } else {
            cents_to_dollars_wide(total)
        }
    }
}

} // verus!
