//! Querying HTML documents with CSS selectors.
//!
//! The document is parsed and matched by the `scraper` crate; the library sees the result as
//! plain values: for each matched element its text and its attributes.

use vstd::prelude::*;
use scraper::{ElementRef, Html, Selector};

verus! {

broadcast use vstd::string::group_string_axioms;

/// An element: the text of its descendant text nodes joined together, and its attributes as
/// name and value pairs.
pub type HtmlElement = (String, Vec<(String, String)>);

/// A matched element, with, for each cell selector, the matching descendants (`None` for a
/// selector that does not parse).
pub type HtmlRow = (HtmlElement, Vec<Option<Vec<HtmlElement>>>);

pub type ElementView = (Seq<char>, Seq<(Seq<char>, Seq<char>)>);

pub type RowView = (ElementView, Seq<Option<Seq<ElementView>>>);

/// What `html_query` finds in a document: for each element matching `outer`, in document order,
/// the descendants matching `inner`, each with the matches of each selector of `cells` among its
/// own descendants; `None` when `outer` or `inner` is not a valid selector.
pub uninterp spec fn html_query_result(
    document: Seq<char>,
    outer: Seq<char>,
    inner: Seq<char>,
    cells: Seq<Seq<char>>,
) -> Option<Seq<Seq<RowView>>>;

/// Calls `scraper`: `Html::parse_document` on `document`, `Selector::parse` on each selector,
/// `select` on the document for `outer`, on each outer element for `inner`, and on each inner
/// element for each cell selector; each element becomes `text().collect::<String>()` and its
/// `attrs()`. The contract names the result, and says that each row has one entry per cell
/// selector, as the body builds it.
#[verifier::external_body]
pub(crate) fn html_query(document: &str, outer: &str, inner: &str, cells: &Vec<String>) -> (res: Option<Vec<Vec<HtmlRow>>>)
    ensures
        res.deep_view() == html_query_result(document@, outer@, inner@, cells.deep_view()),
        res matches Some(g) ==> forall|i: int, j: int|
            0 <= i < g@.len() && 0 <= j < g@[i]@.len() ==> (#[trigger] g@[i]@[j]).1@.len() == cells@.len(),
{
    let sel = |s: &str| Selector::parse(s).ok();
    let el = |e: ElementRef| (e.text().collect(), e.value().attrs().map(|(k, v)| (k.into(), v.into())).collect());
    let row = |r: ElementRef| (el(r), cells.iter().map(|c| Some(r.select(&sel(c)?).map(el).collect())).collect());
    let i = sel(inner)?;
    Some(Html::parse_document(document).select(&sel(outer)?).map(|x| x.select(&i).map(row).collect()).collect())
}

/// What `html_select` finds in a document: every element of the document matching `sel`, the
/// root element included, in document order, each with the matches of each selector of `cells`
/// among its own descendants; `None` when `sel` is not a valid selector.
pub uninterp spec fn html_select_result(document: Seq<char>, sel: Seq<char>, cells: Seq<Seq<char>>) -> Option<Seq<RowView>>;

/// Calls `scraper`: `Html::parse_document` on `document`, `Selector::parse` on each selector,
/// `Html::select` on the document for `sel`, which walks every element of the tree, and
/// `select` on each match for each cell selector; each element becomes
/// `text().collect::<String>()` and its `attrs()`. The contract names the result, and says that
/// each row has one entry per cell selector, as the body builds it.
#[verifier::external_body]
pub(crate) fn html_select(document: &str, sel: &str, cells: &Vec<String>) -> (res: Option<Vec<HtmlRow>>)
    ensures
        res.deep_view() == html_select_result(document@, sel@, cells.deep_view()),
        res matches Some(r) ==> forall|k: int| 0 <= k < r@.len() ==> (#[trigger] r@[k]).1@.len() == cells@.len(),
{
    let parse = |s: &str| Selector::parse(s).ok();
    let el = |e: ElementRef| (e.text().collect(), e.value().attrs().map(|(k, v)| (k.into(), v.into())).collect());
    let row = |r: ElementRef| (el(r), cells.iter().map(|c| Some(r.select(&parse(c)?).map(el).collect())).collect());
    Some(Html::parse_document(document).select(&parse(sel)?).map(row).collect())
}

/// The descendants matching `inner` of the elements matching `outer`, one outer element after
/// the other, with their cells.
pub open spec fn nested_rows(
    document: Seq<char>,
    outer: Seq<char>,
    inner: Seq<char>,
    cells: Seq<Seq<char>>,
) -> Seq<RowView> {
    match html_query_result(document, outer, inner, cells) {
        Some(groups) => groups.flatten(),
        None => Seq::empty(),
    }
}

/// The elements of the whole document that match `sel`, the root element included, in
/// document order, with their cells; none when `sel` is not a valid selector.
pub open spec fn rows_in(document: Seq<char>, sel: Seq<char>, cells: Seq<Seq<char>>) -> Seq<RowView> {
    match html_select_result(document, sel, cells) {
        Some(rows) => rows,
        None => Seq::empty(),
    }
}

/// The descendants matching `inner` of the first element matching `outer`, with their cells;
/// `None` when nothing matches `outer`.
pub open spec fn first_group(document: Seq<char>, outer: Seq<char>, inner: Seq<char>, cells: Seq<Seq<char>>) -> Option<Seq<RowView>> {
    match html_query_result(document, outer, inner, cells) {
        Some(groups) => if groups.len() > 0 { Some(groups[0]) } else { None },
        None => None,
    }
}

/// The descendants matching `inner` of the first element matching `outer`, with their cells.
pub fn select_first_group(document: &str, outer: &str, inner: &str, cells: &Vec<String>) -> (res: Option<Vec<HtmlRow>>)
    ensures
        match first_group(document@, outer@, inner@, cells.deep_view()) {
            Some(g) => res matches Some(r) && r.deep_view() == g
                && forall|k: int| 0 <= k < r@.len() ==> (#[trigger] r@[k]).1@.len() == cells@.len(),
            None => res is None,
        },
{
    match html_query(document, outer, inner, cells) {
        Some(groups) => {
            if groups.len() > 0 {
                let ghost g0 = groups.deep_view()[0];
                assert(g0 == groups@[0].deep_view());
                let mut out: Vec<HtmlRow> = Vec::new();
                let mut j: usize = 0;
                while j < groups[0].len()
                    invariant
                        groups@.len() > 0,
                        j <= groups@[0]@.len(),
                        g0 == groups@[0].deep_view(),
                        out.deep_view() == g0.take(j as int),
                        forall|a: int, b: int| 0 <= a < groups@.len() && 0 <= b < groups@[a]@.len()
                            ==> (#[trigger] groups@[a]@[b]).1@.len() == cells@.len(),
                        forall|k: int| 0 <= k < out@.len() ==> (#[trigger] out@[k]).1@.len() == cells@.len(),
                    decreases groups@[0]@.len() - j,
                {
                    let ghost before = out.deep_view();
                    let row = clone_row(&groups[0][j]);
                    assert(row.deep_view() == g0[j as int]);
                    out.push(row);
                    assert(out.deep_view() =~= before.push(row.deep_view()));
                    assert(out.deep_view() =~= g0.take(j + 1));
                    j = j + 1;
                }
                assert(g0.take(j as int) =~= g0);
                Some(out)
            } else {
                None
            }
        },
        None => None,
    }
}

/// The elements of the whole document that match `sel`, in document order.
pub open spec fn elements_in(document: Seq<char>, sel: Seq<char>) -> Seq<ElementView> {
    rows_in(document, sel, Seq::empty()).map_values(|r: RowView| r.0)
}

/// The elements of the document that match `sel`, each with the matches of each cell selector.
pub fn select_rows(document: &str, sel: &str, cells: &Vec<String>) -> (res: Vec<HtmlRow>)
    ensures
        res.deep_view() == rows_in(document@, sel@, cells.deep_view()),
        forall|k: int| 0 <= k < res@.len() ==> (#[trigger] res@[k]).1@.len() == cells@.len(),
{
    match html_select(document, sel, cells) {
        Some(rows) => rows,
        None => Vec::new(),
    }
}

/// The descendants matching `inner` of the elements matching `outer`, with their cells.
pub fn select_nested(document: &str, outer: &str, inner: &str, cells: &Vec<String>) -> (res: Vec<HtmlRow>)
    ensures
        res.deep_view() == nested_rows(document@, outer@, inner@, cells.deep_view()),
        forall|k: int| 0 <= k < res@.len() ==> (#[trigger] res@[k]).1@.len() == cells@.len(),
{
    let mut out: Vec<HtmlRow> = Vec::new();
    match html_query(document, outer, inner, cells) {
        Some(groups) => {
            let ghost g = groups.deep_view();
            let mut i: usize = 0;
            while i < groups.len()
                invariant
                    i <= groups@.len(),
                    g == groups.deep_view(),
                    out.deep_view() == g.take(i as int).flatten(),
                    forall|a: int, b: int| 0 <= a < groups@.len() && 0 <= b < groups@[a]@.len()
                        ==> (#[trigger] groups@[a]@[b]).1@.len() == cells@.len(),
                    forall|k: int| 0 <= k < out@.len() ==> (#[trigger] out@[k]).1@.len() == cells@.len(),
                decreases groups.len() - i,
            {
                let mut j: usize = 0;
                let ghost before = out.deep_view();
                assert(g.take(i + 1) =~= g.take(i as int).push(g[i as int]));
                proof {
                    g.take(i as int).lemma_flatten_push(g[i as int]);
                }
                while j < groups[i].len()
                    invariant
                        i < groups@.len(),
                        j <= groups@[i as int]@.len(),
                        g == groups.deep_view(),
                        out.deep_view() == before + g[i as int].take(j as int),
                        forall|a: int, b: int| 0 <= a < groups@.len() && 0 <= b < groups@[a]@.len()
                            ==> (#[trigger] groups@[a]@[b]).1@.len() == cells@.len(),
                        forall|k: int| 0 <= k < out@.len() ==> (#[trigger] out@[k]).1@.len() == cells@.len(),
                    decreases groups@[i as int]@.len() - j,
                {
                    let ghost mid = out.deep_view();
                    let row = clone_row(&groups[i][j]);
                    assert(row.deep_view() == g[i as int][j as int]);
                    out.push(row);
                    assert(out.deep_view() =~= mid.push(row.deep_view()));
                    assert(out.deep_view() =~= before + g[i as int].take(j + 1));
                    j = j + 1;
                }
                assert(g[i as int].take(j as int) =~= g[i as int]);
                i = i + 1;
            }
            assert(g.take(i as int) =~= g);
        },
        None => {},
    }
    out
}

/// The elements of the document that match `sel`, in document order.
pub fn select_all(document: &str, sel: &str) -> (res: Vec<HtmlElement>)
    ensures
        res.deep_view() == elements_in(document@, sel@),
{
    let none: Vec<String> = Vec::new();
    assert(none.deep_view() =~= Seq::<Seq<char>>::empty());
    let rows = select_rows(document, sel, &none);
    let ghost rv = rows.deep_view();
    let mut out: Vec<HtmlElement> = Vec::new();
    let mut i: usize = 0;
    while i < rows.len()
        invariant
            i <= rows@.len(),
            rv == rows.deep_view(),
            out.deep_view() == rv.take(i as int).map_values(|r: RowView| r.0),
        decreases rows.len() - i,
    {
        let ghost before = out.deep_view();
        let x = clone_element(&rows[i].0);
        assert(x.deep_view() == rv[i as int].0);
        out.push(x);
        assert(out.deep_view() =~= before.push(x.deep_view()));
        assert(out.deep_view() =~= rv.take(i + 1).map_values(|r: RowView| r.0));
        i = i + 1;
    }
    assert(rv.take(i as int) =~= rv);
    out
}

pub fn clone_element(e: &HtmlElement) -> (res: HtmlElement)
    ensures
        res.deep_view() == e.deep_view(),
{
    let mut attrs: Vec<(String, String)> = Vec::new();
    let mut i: usize = 0;
    while i < e.1.len()
        invariant
            i <= e.1@.len(),
            attrs.deep_view() == e.1.deep_view().take(i as int),
        decreases e.1.len() - i,
    {
        let ghost before = attrs.deep_view();
        let p = (e.1[i].0.clone(), e.1[i].1.clone());
        assert(p.deep_view() == e.1.deep_view()[i as int]);
        attrs.push(p);
        assert(attrs.deep_view() =~= before.push(p.deep_view()));
        assert(attrs.deep_view() =~= e.1.deep_view().take(i + 1));
        i = i + 1;
    }
    assert(e.1.deep_view().take(i as int) =~= e.1.deep_view());
    (e.0.clone(), attrs)
}

pub fn clone_elements(v: &Vec<HtmlElement>) -> (res: Vec<HtmlElement>)
    ensures
        res.deep_view() == v.deep_view(),
{
    let mut out: Vec<HtmlElement> = Vec::new();
    let mut i: usize = 0;
    while i < v.len()
        invariant
            i <= v@.len(),
            out.deep_view() == v.deep_view().take(i as int),
        decreases v.len() - i,
    {
        let ghost before = out.deep_view();
        let x = clone_element(&v[i]);
        assert(x.deep_view() == v.deep_view()[i as int]);
        out.push(x);
        assert(out.deep_view() =~= before.push(x.deep_view()));
        assert(out.deep_view() =~= v.deep_view().take(i + 1));
        i = i + 1;
    }
    assert(v.deep_view().take(i as int) =~= v.deep_view());
    out
}

fn clone_row(r: &HtmlRow) -> (res: HtmlRow)
    ensures
        res.deep_view() == r.deep_view(),
        res.1@.len() == r.1@.len(),
{
    let mut cells: Vec<Option<Vec<HtmlElement>>> = Vec::new();
    let mut i: usize = 0;
    while i < r.1.len()
        invariant
            i <= r.1@.len(),
            cells.deep_view() == r.1.deep_view().take(i as int),
        decreases r.1.len() - i,
    {
        let c = match &r.1[i] {
            Some(v) => Some(clone_elements(v)),
            None => None,
        };
        let ghost before = cells.deep_view();
        assert(c.deep_view() == r.1.deep_view()[i as int]);
        cells.push(c);
        assert(cells.deep_view() =~= before.push(c.deep_view()));
        assert(cells.deep_view() =~= r.1.deep_view().take(i + 1));
        i = i + 1;
    }
    assert(r.1.deep_view().take(i as int) =~= r.1.deep_view());
    (clone_element(&r.0), cells)
}

/// The value of the first attribute named `name`.
pub open spec fn attr_lookup(attrs: Seq<(Seq<char>, Seq<char>)>, name: Seq<char>) -> Option<Seq<char>>
    decreases attrs.len(),
{
    if attrs.len() == 0 {
        None
    } else if attrs[0].0 == name {
        Some(attrs[0].1)
    } else {
        attr_lookup(attrs.drop_first(), name)
    }
}

/// The value of the first attribute named `name`.
pub fn attr_value(attrs: &Vec<(String, String)>, name: &str) -> (res: Option<String>)
    ensures
        res.deep_view() == attr_lookup(attrs.deep_view(), name@),
{
    let mut i: usize = 0;
    assert(attrs.deep_view().skip(0) =~= attrs.deep_view());
    while i < attrs.len()
        invariant
            i <= attrs@.len(),
            attr_lookup(attrs.deep_view().skip(i as int), name@) == attr_lookup(attrs.deep_view(), name@),
        decreases attrs.len() - i,
    {
        let ghost rest = attrs.deep_view().skip(i as int);
        assert(rest.drop_first() =~= attrs.deep_view().skip(i + 1));
        if attrs[i].0.eq(&String::from_str(name)) {
            return Some(attrs[i].1.clone());
        }
        i = i + 1;
    }
    None
}

/// The first of the matches of cell selector `k`, if that selector parsed and matched.
pub open spec fn first_cell(row: RowView, k: int) -> Option<ElementView> {
    match row.1[k] {
        Some(v) => if v.len() > 0 { Some(v[0]) } else { None },
        None => None,
    }
}

/// The first of the matches of cell selector `k`, if that selector parsed and matched.
pub fn row_first_cell(row: &HtmlRow, k: usize) -> (res: Option<HtmlElement>)
    requires
        k < row.1@.len(),
    ensures
        res.deep_view() == first_cell(row.deep_view(), k as int),
{
    match &row.1[k] {
        Some(v) => if v.len() > 0 {
            Some(clone_element(&v[0]))
        } else {
            None
        },
        None => None,
    }
}

} // verus!
