//! Reading roster markup: the texts and attributes of the elements that CSS
//! selectors pick out of an HTML document.

use crate::error::Error;
use crate::text::{concatenate, concatenated, texts};
use vstd::prelude::*;

verus! {

/// What a pair of CSS selectors finds in an HTML document: for each element
/// that matches `outer`, in document order, each of its descendants that
/// matches `inner`, in document order, given by its descendant text nodes in
/// document order. `None` where either selector is not valid CSS.
pub uninterp spec fn text_nodes_within(
    document: Seq<char>,
    outer: Seq<char>,
    inner: Seq<char>,
) -> Option<Seq<Seq<Seq<Seq<char>>>>>;

/// What a CSS selector finds in an HTML document: for each element that
/// matches, in document order, the value of one attribute, `None` where the
/// element lacks it. `None` as a whole where the selector is not valid CSS.
pub uninterp spec fn attribute_values(
    document: Seq<char>,
    selector: Seq<char>,
    attribute: Seq<char>,
) -> Option<Seq<Option<Seq<char>>>>;

/// Parses both selectors with `scraper::Selector::parse` and the document with
/// `scraper::Html::parse_document`, walks `Html::select` for the outer
/// selector and `ElementRef::select` for the inner one, and copies out what
/// `ElementRef::text` yields for each element found. Parsing never fails on a
/// document and all of this depends on the three texts alone; a selector that
/// does not parse gives `None`.
#[verifier::external_body]
fn select_text_nodes(document: &str, outer: &str, inner: &str) -> (found: Option<
    Vec<Vec<Vec<String>>>,
>)
    ensures
        found.deep_view() == text_nodes_within(document@, outer@, inner@),
{
    let outer = scraper::Selector::parse(outer).ok()?;
    let inner = scraper::Selector::parse(inner).ok()?;
    let html = scraper::Html::parse_document(document);
    Some(
        html.select(&outer).map(
            |e| e.select(&inner).map(|c| c.text().map(String::from).collect()).collect(),
        ).collect(),
    )
}

/// Parses the selector with `scraper::Selector::parse` and the document with
/// `scraper::Html::parse_document`, walks `Html::select` and copies out what
/// `ElementRef::attr` returns for each element found. This depends on the
/// three texts alone; a selector that does not parse gives `None`.
#[verifier::external_body]
fn select_attributes(document: &str, selector: &str, attribute: &str) -> (found: Option<
    Vec<Option<String>>,
>)
    ensures
        found.deep_view() == attribute_values(document@, selector@, attribute@),
{
    let selector = scraper::Selector::parse(selector).ok()?;
    let html = scraper::Html::parse_document(document);
    Some(html.select(&selector).map(|e| e.attr(attribute).map(String::from)).collect())
}

/// The whole text of each element of a list: its text nodes written one
/// after another.
pub open spec fn whole_texts(elements: Seq<Seq<Seq<char>>>) -> Seq<Seq<char>> {
    Seq::new(elements.len(), |j: int| concatenated(elements[j]))
}

/// The whole text of each cell of each row.
pub open spec fn table_texts(rows: Seq<Seq<Seq<Seq<char>>>>) -> Seq<Seq<Seq<char>>> {
    Seq::new(rows.len(), |i: int| whole_texts(rows[i]))
}

/// The first text node of an element, if it has one.
pub open spec fn first_text(nodes: Seq<Seq<char>>) -> Option<Seq<char>> {
    if nodes.len() == 0 {
        None
    } else {
        Some(nodes[0])
    }
}

/// The first text node of each element of a list.
pub open spec fn leading_texts(elements: Seq<Seq<Seq<char>>>) -> Seq<Option<Seq<char>>> {
    Seq::new(elements.len(), |j: int| first_text(elements[j]))
}

/// The first text node of each element of each group.
pub open spec fn grouped_leading_texts(groups: Seq<Seq<Seq<Seq<char>>>>) -> Seq<
    Seq<Option<Seq<char>>>,
> {
    Seq::new(groups.len(), |i: int| leading_texts(groups[i]))
}

/// The whole text of every cell of every row of a table: `rows` selects the
/// rows and `cells` the cells within a row. An invalid selector is a
/// `ParseError`.
pub fn cell_texts(document: &str, rows: &str, cells: &str) -> (r: Result<Vec<Vec<String>>, Error>)
    ensures
        match text_nodes_within(document@, rows@, cells@) {
            None => r is Err && r->Err_0 is ParseError,
            Some(found) => r is Ok && r->Ok_0.deep_view() == table_texts(found),
        },
{
    match select_text_nodes(document, rows, cells) {
        None => Err(Error::ParseError),
        Some(found) => Ok(whole_texts_of_rows(&found)),
    }
}

/// Writes out the whole text of every cell of every row.
pub fn whole_texts_of_rows(found: &Vec<Vec<Vec<String>>>) -> (table: Vec<Vec<String>>)
    ensures
        table.deep_view() == table_texts(found.deep_view()),
{
    let mut table: Vec<Vec<String>> = Vec::new();
    let mut i: usize = 0;
    while i < found.len()
        invariant
            i <= found.len(),
            table.len() == i,
            forall|k: int| 0 <= k < i ==> (#[trigger] table@[k]).deep_view() == whole_texts(
                found@[k].deep_view(),
            ),
        decreases found.len() - i,
    {
        let row = &found[i];
        let mut line: Vec<String> = Vec::new();
        let mut j: usize = 0;
        while j < row.len()
            invariant
                j <= row.len(),
                line.len() == j,
                forall|k: int| 0 <= k < j ==> (#[trigger] line@[k])@ == concatenated(
                    row@[k].deep_view(),
                ),
            decreases row.len() - j,
        {
            let cell = &row[j];
            assert(texts(cell@) =~= cell.deep_view());
            line.push(concatenate(cell));
            j += 1;
        }
        assert(line.deep_view() =~= whole_texts(row.deep_view()));
        table.push(line);
        i += 1;
    }
    assert(table.deep_view() =~= table_texts(found.deep_view()));
    table
}

/// The first text node of every element that `inner` selects within every
/// element that `outer` selects. An invalid selector is a `ParseError`.
pub fn first_texts(document: &str, outer: &str, inner: &str) -> (r: Result<
    Vec<Vec<Option<String>>>,
    Error,
>)
    ensures
        match text_nodes_within(document@, outer@, inner@) {
            None => r is Err && r->Err_0 is ParseError,
            Some(found) => r is Ok && r->Ok_0.deep_view() == grouped_leading_texts(found),
        },
{
    match select_text_nodes(document, outer, inner) {
        None => Err(Error::ParseError),
        Some(found) => Ok(leading_texts_of_groups(&found)),
    }
}

/// Picks the first text node of every element of every group.
pub fn leading_texts_of_groups(found: &Vec<Vec<Vec<String>>>) -> (groups: Vec<Vec<Option<String>>>)
    ensures
        groups.deep_view() == grouped_leading_texts(found.deep_view()),
{
    let mut groups: Vec<Vec<Option<String>>> = Vec::new();
    let mut i: usize = 0;
    while i < found.len()
        invariant
            i <= found.len(),
            groups.len() == i,
            forall|k: int| 0 <= k < i ==> (#[trigger] groups@[k]).deep_view() == leading_texts(
                found@[k].deep_view(),
            ),
        decreases found.len() - i,
    {
        let group = &found[i];
        let mut firsts: Vec<Option<String>> = Vec::new();
        let mut j: usize = 0;
        while j < group.len()
            invariant
                j <= group.len(),
                firsts.len() == j,
                forall|k: int| 0 <= k < j ==> (#[trigger] firsts@[k]).deep_view() == first_text(
                    group@[k].deep_view(),
                ),
            decreases group.len() - j,
        {
            let nodes = &group[j];
            if nodes.len() == 0 {
                firsts.push(None);
            } else {
                firsts.push(Some(nodes[0].clone()));
            }
            j += 1;
        }
        assert(firsts.deep_view() =~= leading_texts(group.deep_view()));
        groups.push(firsts);
        i += 1;
    }
    assert(groups.deep_view() =~= grouped_leading_texts(found.deep_view()));
    groups
}

/// The value of one attribute on every element that a selector picks,
/// `None` for an element without it. An invalid selector is a `ParseError`.
pub fn attributes(document: &str, selector: &str, attribute: &str) -> (r: Result<
    Vec<Option<String>>,
    Error,
>)
    ensures
        match attribute_values(document@, selector@, attribute@) {
            None => r is Err && r->Err_0 is ParseError,
            Some(found) => r is Ok && r->Ok_0.deep_view() == found,
        },
{
    match select_attributes(document, selector, attribute) {
        None => Err(Error::ParseError),
        Some(found) => Ok(found),
    }
}

} // verus!
