use vstd::prelude::*;

verus! {

/// CSS selector of the element that holds a product's price.
pub const PRICE_SELECTOR: &'static str = "span.ct-price-formatted";

/// The sign that may stand before a price.
pub const CURRENCY_SIGN: char = '€';

/// What scraper finds in the HTML document `html` for the CSS selector
/// `selector`: `None` when the selector does not parse; otherwise the joined
/// text of the first matching element, if any.
pub uninterp spec fn selected_text(html: Seq<char>, selector: Seq<char>) -> Option<Option<Seq<char>>>;

/// Whether `c` has Unicode's `White_Space` property.
pub open spec fn is_white_space(c: char) -> bool {
    ||| '\u{9}' <= c <= '\u{d}'
    ||| c == ' '
    ||| c == '\u{85}'
    ||| c == '\u{a0}'
    ||| c == '\u{1680}'
    ||| '\u{2000}' <= c <= '\u{200a}'
    ||| c == '\u{2028}'
    ||| c == '\u{2029}'
    ||| c == '\u{202f}'
    ||| c == '\u{205f}'
    ||| c == '\u{3000}'
}

/// `s` without the white space it starts with.
pub open spec fn without_leading_white_space(s: Seq<char>) -> Seq<char>
    decreases s.len(),
{
    if s.len() > 0 && is_white_space(s[0]) {
        without_leading_white_space(s.subrange(1, s.len() as int))
    } else {
        s
    }
}

/// `s` without the white space it ends with.
pub open spec fn without_trailing_white_space(s: Seq<char>) -> Seq<char>
    decreases s.len(),
{
    if s.len() > 0 && is_white_space(s.last()) {
        without_trailing_white_space(s.drop_last())
    } else {
        s
    }
}

/// `s` without leading and trailing white space, as `str::trim` gives it.
pub open spec fn trimmed(s: Seq<char>) -> Seq<char> {
    without_trailing_white_space(without_leading_white_space(s))
}

/// The view of an optional, optional string.
pub open spec fn text_view(r: Option<Option<String>>) -> Option<Option<Seq<char>>> {
    match r {
        None => None,
        Some(None) => Some(None),
        Some(Some(t)) => Some(Some(t@)),
    }
}

/// `s` without the copies of `c` it starts with.
pub open spec fn without_leading(s: Seq<char>, c: char) -> Seq<char>
    decreases s.len(),
{
    if s.len() > 0 && s[0] == c {
        without_leading(s.subrange(1, s.len() as int), c)
    } else {
        s
    }
}

/// `s` with each decimal comma turned into a decimal point.
pub open spec fn with_decimal_point(s: Seq<char>) -> Seq<char> {
    s.map_values(|c: char| if c == ',' { '.' } else { c })
}

/// The number text of a trimmed price: currency signs in front dropped,
/// decimal commas made points.
pub open spec fn price_number_text(s: Seq<char>) -> Seq<char> {
    with_decimal_point(without_leading(s, CURRENCY_SIGN))
}

/// Relies on scraper's `Selector::parse`, `Html::parse_document`,
/// `Html::select` and `ElementRef::text`: the text of the first element of
/// the document that the selector matches.
#[verifier::external_body]
fn first_selected_text(html: &str, selector: &str) -> (r: Option<Option<String>>)
    ensures
        text_view(r) == selected_text(html@, selector@),
{
    let selector = scraper::Selector::parse(selector).ok()?;
    let document = scraper::Html::parse_document(html);
    let first = document.select(&selector).next();
    Some(first.map(|element| element.text().collect::<Vec<_>>().join("")))
}

/// Relies on `str::trim`: the text without its surrounding `White_Space`
/// characters.
#[verifier::external_body]
fn trim(s: &str) -> (r: &str)
    ensures
        r@ == trimmed(s@),
{
    s.trim()
}

/// Relies on `str::replace`, which puts `"."` in place of each `','`.
#[verifier::external_body]
fn comma_to_point(s: &str) -> (r: String)
    ensures
        r@ == with_decimal_point(s@),
{
    s.replace(',', ".")
}

/// `s` without the copies of `c` it starts with.
pub fn strip_leading<'a>(s: &'a str, c: char) -> (r: &'a str)
    ensures
        r@ == without_leading(s@, c),
{
    let n = s.unicode_len();
    let mut i: usize = 0;
    assert(s@.subrange(0, n as int) =~= s@);
    while i < n && s.get_char(i) == c
        invariant
            n == s@.len(),
            i <= n,
            without_leading(s@, c) == without_leading(s@.subrange(i as int, n as int), c),
        decreases n - i,
    {
        assert(s@.subrange(i as int, n as int).subrange(1, n - i) =~= s@.subrange(i + 1, n as int));
        i = i + 1;
    }
    let r = s.substring_char(i, n);
    assert(i == n ==> s@.subrange(i as int, n as int).len() == 0);
    r
}

/// The number text of a trimmed price: currency signs in front dropped,
/// decimal commas made points (`"€1,29"` gives `"1.29"`).
pub fn price_number(trimmed_text: &str) -> (r: String)
    ensures
        r@ == price_number_text(trimmed_text@),
{
    comma_to_point(strip_leading(trimmed_text, CURRENCY_SIGN))
}

/// The price text found in a product page: `None` when the selector is
/// refused, `Some(None)` when the page has no price element, and otherwise
/// the element's text, trimmed, as `price_number` gives it.
pub fn price_text(html: &str) -> (r: Option<Option<String>>)
    ensures
        match selected_text(html@, PRICE_SELECTOR@) {
            None => r.is_none(),
            Some(None) => r == Some(None::<String>),
            Some(Some(t)) => r matches Some(Some(p)) && p@ == price_number_text(trimmed(t)),
        },
{
    match first_selected_text(html, PRICE_SELECTOR) {
        None => None,
        Some(None) => Some(None),
        Some(Some(text)) => Some(Some(price_number(trim(text.as_str())))),
    }
}

} // verus!
