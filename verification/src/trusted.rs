//! The calls into outside crates, each behind a contract that Verus believes.

use select::document::Document;
use select::predicate::{And, Attr, Class, Name};
use vstd::prelude::*;

use crate::profile::{FactLine, FactLineView, FactValue};

verus! {

/// Names what `regex::Regex::captures` gives when `pattern` is compiled with
/// `regex::Regex::new` and run over `text`: `None` where the pattern matches
/// nowhere in `text` (or does not compile), else the capture groups in order,
/// group 0 being the whole match and a group that took no part being `None`.
pub uninterp spec fn regex_captures_of(pattern: Seq<char>, text: Seq<char>) -> Option<
    Seq<Option<Seq<char>>>,
>;

/// Calls `regex::Regex::new` on `pattern` and `regex::Regex::captures` on
/// `text`, and hands back each group's text. The contract claims only that the
/// result is a function of the pattern and the text, the one named by
/// [`regex_captures_of`]; what matches is left to the regex crate.
#[verifier::external_body]
pub(crate) fn regex_captures(pattern: &str, text: &str) -> (r: Option<Vec<Option<String>>>)
    ensures
        r.deep_view() == regex_captures_of(pattern@, text@),
{
    match regex::Regex::new(pattern) {
        Ok(re) => re.captures(text).map(
            |caps| caps.iter().map(|m| m.map(|m| m.as_str().to_string())).collect(),
        ),
        Err(_) => None,
    }
}

/// Names what `unescape::unescape` gives for `s`: the text with its backslash
/// escapes resolved, or `None` for an escape it cannot read.
pub uninterp spec fn unescape_of(s: Seq<char>) -> Option<Seq<char>>;

/// Calls `unescape::unescape`. The contract claims that the result is the one
/// named by [`unescape_of`], and, as the crate's source shows (it copies every
/// character that is not a backslash), that a text without backslashes comes
/// back unchanged.
#[verifier::external_body]
pub(crate) fn unescape_text(s: &str) -> (r: Option<String>)
    ensures
        r.deep_view() == unescape_of(s@),
        (forall|i: int| 0 <= i < s@.len() ==> s@[i] != '\\') ==> r.deep_view() == Some(s@),
{
    unescape::unescape(s)
}

/// Names what `url::form_urlencoded::Serializer` writes for the name/value
/// pairs `pairs`, in their order, as an `application/x-www-form-urlencoded`
/// body.
pub uninterp spec fn form_urlencoded_of(pairs: Seq<(Seq<char>, Seq<char>)>) -> Seq<char>;

/// Serialises `pairs` with `url::form_urlencoded::Serializer::extend_pairs`
/// and `finish`. The contract claims only that the body is the one named by
/// [`form_urlencoded_of`]; the percent-encoding is left to the url crate.
#[verifier::external_body]
pub(crate) fn form_urlencoded(pairs: &Vec<(String, String)>) -> (r: String)
    ensures
        r@ == form_urlencoded_of(pairs.deep_view()),
{
    url::form_urlencoded::Serializer::new(String::new()).extend_pairs(pairs.iter()).finish()
}

// ---------------------------------------------------------------------------
// HTML pages, read with the select crate. Each page is parsed with
// `select::document::Document::from`; elements are looked up with
// `find`, which visits them in document order, and the predicates `Name`,
// `Class`, `Attr` and `And`.
// ---------------------------------------------------------------------------

/// Names the serialised HTML (`Node::html`) of the first `tag` element of the
/// page `html`, `None` where there is none.
pub uninterp spec fn first_element_html_of(html: Seq<char>, tag: Seq<char>) -> Option<Seq<char>>;

/// Parses `html` and serialises its first `tag` element. The contract claims
/// only that the result is the one named by [`first_element_html_of`].
#[verifier::external_body]
pub(crate) fn first_element_html(html: &str, tag: &str) -> (r: Option<String>)
    ensures
        r.deep_view() == first_element_html_of(html@, tag@),
{
    Document::from(html).find(Name(tag)).next().map(|n| n.html())
}

/// Names the text (`Node::text`) of the first element of class `class` on the
/// page `html`.
pub uninterp spec fn first_text_with_class_of(html: Seq<char>, class: Seq<char>) -> Option<
    Seq<char>,
>;

/// Parses `html` and takes the text of its first element of class `class`.
/// The contract claims only that the result is the one named by
/// [`first_text_with_class_of`].
#[verifier::external_body]
pub(crate) fn first_text_with_class(html: &str, class: &str) -> (r: Option<String>)
    ensures
        r.deep_view() == first_text_with_class_of(html@, class@),
{
    Document::from(html).find(Class(class)).next().map(|n| n.text())
}

/// Names the attribute `attr` of the first `tag` element inside the
/// `outer_tag` elements of class `outer_class` on the page `html`; `None`
/// where there is no such element or it lacks the attribute.
pub uninterp spec fn first_attr_inside_of(
    html: Seq<char>,
    outer_tag: Seq<char>,
    outer_class: Seq<char>,
    tag: Seq<char>,
    attr: Seq<char>,
) -> Option<Seq<char>>;

/// Parses `html`, selects the `outer_tag` elements of class `outer_class`,
/// finds the `tag` elements inside them and reads attribute `attr` of the
/// first. The contract claims only that the result is the one named by
/// [`first_attr_inside_of`].
#[verifier::external_body]
pub(crate) fn first_attr_inside(
    html: &str,
    outer_tag: &str,
    outer_class: &str,
    tag: &str,
    attr: &str,
) -> (r: Option<String>)
    ensures
        r.deep_view() == first_attr_inside_of(html@, outer_tag@, outer_class@, tag@, attr@),
{
    let doc = Document::from(html);
    let outer = doc.find(And(Name(outer_tag), Class(outer_class))).into_selection();
    outer.find(Name(tag)).first().and_then(|n| n.attr(attr).map(|v| v.to_string()))
}

/// Names the text of the first `tag` element whose attribute `attr` is
/// `value`, inside the `outer_tag` elements of class `outer_class` on the page
/// `html`.
pub uninterp spec fn first_text_inside_with_attr_of(
    html: Seq<char>,
    outer_tag: Seq<char>,
    outer_class: Seq<char>,
    tag: Seq<char>,
    attr: Seq<char>,
    value: Seq<char>,
) -> Option<Seq<char>>;

/// Parses `html`, selects the `outer_tag` elements of class `outer_class`,
/// finds inside them the `tag` elements whose `attr` is `value`, and takes
/// the text of the first. The contract claims only that the result is the
/// one named by [`first_text_inside_with_attr_of`].
#[verifier::external_body]
pub(crate) fn first_text_inside_with_attr(
    html: &str,
    outer_tag: &str,
    outer_class: &str,
    tag: &str,
    attr: &str,
    value: &str,
) -> (r: Option<String>)
    ensures
        r.deep_view() == first_text_inside_with_attr_of(
            html@,
            outer_tag@,
            outer_class@,
            tag@,
            attr@,
            value@,
        ),
{
    let doc = Document::from(html);
    let outer = doc.find(And(Name(outer_tag), Class(outer_class))).into_selection();
    outer.find(And(Name(tag), Attr(attr, value))).first().map(|n| n.text())
}

/// Names, for the first `tag` element inside the `mid_tag` elements of class
/// `mid_class` inside the `outer_tag` elements of class `outer_class` on the
/// page `html`, its text and its attribute `attr`.
pub uninterp spec fn first_text_and_attr_within_of(
    html: Seq<char>,
    outer_tag: Seq<char>,
    outer_class: Seq<char>,
    mid_tag: Seq<char>,
    mid_class: Seq<char>,
    tag: Seq<char>,
    attr: Seq<char>,
) -> Option<(Seq<char>, Option<Seq<char>>)>;

/// Parses `html`, selects the `outer_tag` elements of class `outer_class`,
/// inside them the `mid_tag` elements of class `mid_class`, inside those the
/// `tag` elements, and reads the text and attribute `attr` of the first. The
/// contract claims only that the result is the one named by
/// [`first_text_and_attr_within_of`].
#[verifier::external_body]
pub(crate) fn first_text_and_attr_within(
    html: &str,
    outer_tag: &str,
    outer_class: &str,
    mid_tag: &str,
    mid_class: &str,
    tag: &str,
    attr: &str,
) -> (r: Option<(String, Option<String>)>)
    ensures
        r.deep_view() == first_text_and_attr_within_of(
            html@,
            outer_tag@,
            outer_class@,
            mid_tag@,
            mid_class@,
            tag@,
            attr@,
        ),
{
    let doc = Document::from(html);
    let outer = doc.find(And(Name(outer_tag), Class(outer_class))).into_selection();
    let inner = outer.find(And(Name(mid_tag), Class(mid_class))).find(Name(tag));
    inner.first().map(|n| (n.text(), n.attr(attr).map(|v| v.to_string())))
}

/// Names the text of the first `tag` element inside the elements of class
/// `mid_class` inside the `outer_tag` elements of class `outer_class` on the
/// page `html`.
pub uninterp spec fn first_text_within_class_of(
    html: Seq<char>,
    outer_tag: Seq<char>,
    outer_class: Seq<char>,
    mid_class: Seq<char>,
    tag: Seq<char>,
) -> Option<Seq<char>>;

/// Parses `html`, selects the `outer_tag` elements of class `outer_class`,
/// inside them the elements of class `mid_class`, inside those the `tag`
/// elements, and takes the text of the first. The contract claims only that
/// the result is the one named by [`first_text_within_class_of`].
#[verifier::external_body]
pub(crate) fn first_text_within_class(
    html: &str,
    outer_tag: &str,
    outer_class: &str,
    mid_class: &str,
    tag: &str,
) -> (r: Option<String>)
    ensures
        r.deep_view() == first_text_within_class_of(
            html@,
            outer_tag@,
            outer_class@,
            mid_class@,
            tag@,
        ),
{
    let doc = Document::from(html);
    let outer = doc.find(And(Name(outer_tag), Class(outer_class))).into_selection();
    outer.find(Class(mid_class)).find(Name(tag)).first().map(|n| n.text())
}

/// Names attribute `attr` of the first `tag` element inside the elements of
/// class `mid_class` inside the first `outer_tag` element of class
/// `outer_class` on the page `html`.
pub uninterp spec fn attr_in_first_of(
    html: Seq<char>,
    outer_tag: Seq<char>,
    outer_class: Seq<char>,
    mid_class: Seq<char>,
    tag: Seq<char>,
    attr: Seq<char>,
) -> Option<Seq<char>>;

/// Parses `html`, takes its first `outer_tag` element of class `outer_class`,
/// finds inside it the elements of class `mid_class`, inside those the `tag`
/// elements, and reads attribute `attr` of the first. The contract claims
/// only that the result is the one named by [`attr_in_first_of`].
#[verifier::external_body]
pub(crate) fn attr_in_first(
    html: &str,
    outer_tag: &str,
    outer_class: &str,
    mid_class: &str,
    tag: &str,
    attr: &str,
) -> (r: Option<String>)
    ensures
        r.deep_view() == attr_in_first_of(html@, outer_tag@, outer_class@, mid_class@, tag@, attr@),
{
    let doc = Document::from(html);
    let outer = doc.find(And(Name(outer_tag), Class(outer_class))).next();
    outer.and_then(|o| o.find(Class(mid_class)).into_selection().find(Name(tag)).first()).and_then(
        |n| n.attr(attr).map(|v| v.to_string()),
    )
}

/// Names the inner HTML (`Node::inner_html`) of the first `tag` element of
/// class `class` inside the first `outer_tag` element of class `outer_class`
/// on the page `html`.
pub uninterp spec fn inner_html_in_first_of(
    html: Seq<char>,
    outer_tag: Seq<char>,
    outer_class: Seq<char>,
    tag: Seq<char>,
    class: Seq<char>,
) -> Option<Seq<char>>;

/// Parses `html`, takes its first `outer_tag` element of class `outer_class`
/// and serialises the children of the first `tag` element of class `class`
/// inside it. The contract claims only that the result is the one named by
/// [`inner_html_in_first_of`].
#[verifier::external_body]
pub(crate) fn inner_html_in_first(
    html: &str,
    outer_tag: &str,
    outer_class: &str,
    tag: &str,
    class: &str,
) -> (r: Option<String>)
    ensures
        r.deep_view() == inner_html_in_first_of(html@, outer_tag@, outer_class@, tag@, class@),
{
    let doc = Document::from(html);
    let outer = doc.find(And(Name(outer_tag), Class(outer_class))).next();
    outer.and_then(|o| o.find(And(Name(tag), Class(class))).next()).map(|n| n.inner_html())
}

/// Names the lines of each `list_tag` element of class `list_class` on the
/// page `html`, lists in document order: for each `line_tag` element inside a
/// list, in order, the text of its first `label_tag` element, and for its
/// first `value_tag` element the text and the texts of the `link_tag`
/// elements inside it.
pub uninterp spec fn fact_lists_of(
    html: Seq<char>,
    list_tag: Seq<char>,
    list_class: Seq<char>,
    line_tag: Seq<char>,
    label_tag: Seq<char>,
    value_tag: Seq<char>,
    link_tag: Seq<char>,
) -> Seq<Seq<FactLineView>>;

/// Parses `html` and reads, as described at [`fact_lists_of`], the lines of
/// each of its lists. The contract claims only that the result is the one
/// named by [`fact_lists_of`].
#[verifier::external_body]
pub(crate) fn fact_lists(
    html: &str,
    list_tag: &str,
    list_class: &str,
    line_tag: &str,
    label_tag: &str,
    value_tag: &str,
    link_tag: &str,
) -> (r: Vec<Vec<FactLine>>)
    ensures
        r.deep_view() == fact_lists_of(
            html@,
            list_tag@,
            list_class@,
            line_tag@,
            label_tag@,
            value_tag@,
            link_tag@,
        ),
{
    let doc = Document::from(html);
    doc.find(And(Name(list_tag), Class(list_class))).map(|l| l.find(Name(line_tag)).map(|line| FactLine {
        label: line.find(Name(label_tag)).next().map(|n| n.text()),
        value: line.find(Name(value_tag)).next().map(|v| FactValue {
            text: v.text(),
            links: v.find(Name(link_tag)).map(|a| a.text()).collect(),
        }),
    }).collect()).collect()
}

/// Names, for each `item_tag` element inside the elements of class
/// `menu_class` on the page `html`, in order, the text of its first
/// `link_tag` element.
pub uninterp spec fn menu_links_of(
    html: Seq<char>,
    menu_class: Seq<char>,
    item_tag: Seq<char>,
    link_tag: Seq<char>,
) -> Seq<Option<Seq<char>>>;

/// Parses `html`, selects the elements of class `menu_class`, the `item_tag`
/// elements inside them, and takes the text of the first `link_tag` element
/// of each. The contract claims only that the result is the one named by
/// [`menu_links_of`].
#[verifier::external_body]
pub(crate) fn menu_links(html: &str, menu_class: &str, item_tag: &str, link_tag: &str) -> (r: Vec<
    Option<String>,
>)
    ensures
        r.deep_view() == menu_links_of(html@, menu_class@, item_tag@, link_tag@),
{
    let doc = Document::from(html);
    let items = doc.find(Class(menu_class)).into_selection().find(Name(item_tag));
    items.iter().map(|item| item.find(Name(link_tag)).next().map(|a| a.text())).collect()
}

} // verus!
