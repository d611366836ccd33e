use vstd::prelude::*;

use crate::service::Service;
use crate::services::{same_text, Services};

verus! {

/// Pattern of a menu button's callback data: id, name and state.
pub const CHOICE_PATTERN: &'static str = r"\[([0-9+])\] (.+): (.+)";

/// Buttons in one row of the menu.
pub const ROW_WIDTH: usize = 3;

/// The character of a decimal digit.
pub open spec fn digit_char(d: nat) -> char {
    if d == 0 { '0' } else if d == 1 { '1' } else if d == 2 { '2' } else if d == 3 { '3' } else if d == 4 {
        '4'
    } else if d == 5 { '5' } else if d == 6 { '6' } else if d == 7 { '7' } else if d == 8 { '8' } else {
        '9'
    }
}

/// The decimal digits of `n`, most significant first, with no leading zero.
pub open spec fn digits(n: nat) -> Seq<char>
    decreases n,
{
    if n < 10 {
        seq![digit_char(n)]
    } else {
        digits(n / 10).push(digit_char(n % 10))
    }
}

/// The decimal text of `n`, as `i64`'s `Display` writes it: a minus sign for
/// a negative number, then the digits of its magnitude.
pub open spec fn decimal_text(n: i64) -> Seq<char> {
    if n < 0 {
        seq!['-'] + digits((-(n as int)) as nat)
    } else {
        digits(n as nat)
    }
}

/// What regex finds when `pattern` is searched for in `text`: `None` when the
/// pattern does not compile; otherwise the text of each capture group
/// (empty for a group that did not take part), if the pattern matches.
pub uninterp spec fn capture_groups(pattern: Seq<char>, text: Seq<char>) -> Option<Option<Seq<Seq<char>>>>;

/// The label of a worker's button: `[id] name: on` or `[id] name: off`.
pub open spec fn label_text(id: i64, name: Seq<char>, enable: bool) -> Seq<char> {
    seq!['['] + decimal_text(id) + seq![']', ' '] + name + seq![':', ' '] + if enable {
        seq!['o', 'n']
    } else {
        seq!['o', 'f', 'f']
    }
}

/// The labels of `s`, one per worker, then `Exit`.
pub open spec fn menu_labels(s: Seq<Service>) -> Seq<Seq<char>> {
    s.map_values(|w: Service| label_text(w.id, w.name@, w.enable)).push(seq!['E', 'x', 'i', 't'])
}

/// The views of a list of strings.
pub open spec fn texts(v: Seq<String>) -> Seq<Seq<char>> {
    v.map_values(|t: String| t@)
}

/// A worker picked from the menu: its id and name as written on the button,
/// and the enabled flag it is to get (the opposite of the one shown).
#[derive(Debug)]
pub struct ServiceChoice {
    pub id: String,
    pub name: String,
    pub enable: bool,
}

/// Relies on `i64`'s `Display`, through `to_string`: the decimal text of `n`.
#[verifier::external_body]
fn decimal(n: i64) -> (r: String)
    ensures
        r@ == decimal_text(n),
{
    n.to_string()
}

/// Relies on regex's `Regex::new` and `Regex::captures`: the text of each
/// capture group after the whole match.
#[verifier::external_body]
fn find_captures(pattern: &str, text: &str) -> (r: Option<Option<Vec<String>>>)
    ensures
        match r {
            None => capture_groups(pattern@, text@) is None,
            Some(None) => capture_groups(pattern@, text@) == Some(None::<Seq<Seq<char>>>),
            Some(Some(g)) => capture_groups(pattern@, text@) == Some(Some(texts(g@))),
        },
{
    let re = regex::Regex::new(pattern).ok()?;
    Some(re.captures(text).map(|c| c.iter().skip(1).map(|m| m.map_or(String::new(), |m| m.as_str().to_string())).collect()))
}

/// The label of a worker's menu button.
pub fn service_label(service: &Service) -> (r: String)
    ensures
        r@ == label_text(service.id, service.name@, service.enable),
{
    let state = if service.enable {
        "on"
    } else {
        "off"
    };
    proof {
        reveal_strlit("[");
        reveal_strlit("] ");
        reveal_strlit(": ");
        reveal_strlit("on");
        reveal_strlit("off");
    }
    let digits = decimal(service.id);
    let mut r = String::from_str("[");
    r.append(digits.as_str());
    r.append("] ");
    r.append(service.name.as_str());
    r.append(": ");
    r.append(state);
    assert(r@ =~= label_text(service.id, service.name@, service.enable));
    r
}

/// The choice a button's callback data stands for, from the capture groups
/// of `CHOICE_PATTERN`: the shown state `on` asks to disable, any other to
/// enable. `None` unless there are exactly three groups.
pub fn choice_from_groups(groups: Vec<String>) -> (r: Option<ServiceChoice>)
    ensures
        groups@.len() != 3 ==> r.is_none(),
        groups@.len() == 3 ==> (r matches Some(c) && c.id@ == groups@[0]@ && c.name@ == groups@[1]@
            && c.enable == (groups@[2]@ != seq!['o', 'n'])),
{
    if groups.len() != 3 {
        return None;
    }
    let mut groups = groups;
    let state = groups.pop().unwrap();
    let name = groups.pop().unwrap();
    let id = groups.pop().unwrap();
    proof {
        reveal_strlit("on");
    }
    assert("on"@ =~= seq!['o', 'n']);
    let shown_on = same_text(state.as_str(), "on");
    Some(ServiceChoice { id, name, enable: !shown_on })
}

/// Reads a menu button's callback data: `None` when it is not of the form
/// `[id] name: state`.
pub fn parse_choice(data: &str) -> (r: Option<ServiceChoice>)
    ensures
        match capture_groups(CHOICE_PATTERN@, data@) {
            Some(Some(g)) => g.len() == 3 ==> (r matches Some(c) && c.id@ == g[0] && c.name@ == g[1]
                && c.enable == (g[2] != seq!['o', 'n'])),
            _ => r.is_none(),
        },
        r.is_some() ==> (capture_groups(CHOICE_PATTERN@, data@) matches Some(Some(g)) && g.len() == 3),
{
    match find_captures(CHOICE_PATTERN, data) {
        Some(Some(groups)) => choice_from_groups(groups),
        _ => None,
    }
}

impl Services {
    /// The menu's buttons: one label per worker in order, then `Exit`, in
    /// rows of `ROW_WIDTH`.
    pub fn menu_rows(&self) -> (rows: Vec<Vec<String>>)
        ensures
            ({
                let labels = menu_labels(self.services@);
                &&& rows@.len() * ROW_WIDTH < labels.len() + ROW_WIDTH
                &&& labels.len() <= rows@.len() * ROW_WIDTH
                &&& forall|r: int| 0 <= r < rows@.len() ==> {
                    &&& #[trigger] rows@[r]@.len() == (if labels.len() - r * ROW_WIDTH < ROW_WIDTH {
                        labels.len() - r * ROW_WIDTH
                    } else {
                        ROW_WIDTH as int
                    })
                    &&& forall|k: int| 0 <= k < rows@[r]@.len() ==> (#[trigger] rows@[r]@[k])@
                        == labels[r * ROW_WIDTH + k]
                }
            }),
    {
        let mut labels: Vec<String> = Vec::new();
        let mut i: usize = 0;
        while i < self.services.len()
            invariant
                i <= self.services@.len(),
                labels@.len() == i,
                forall|k: int| 0 <= k < i ==> (#[trigger] labels@[k])@ == menu_labels(self.services@)[k],
            decreases self.services@.len() - i,
        {
            labels.push(service_label(&self.services[i]));
            i = i + 1;
        }
        proof {
            reveal_strlit("Exit");
        }
        labels.push(String::from_str("Exit"));
        assert forall|k: int| 0 <= k < labels@.len() implies (#[trigger] labels@[k])@ == menu_labels(self.services@)[k] by {}
        let n = labels.len();
        let mut rows: Vec<Vec<String>> = Vec::new();
        let mut start: usize = 0;
        while start < n
            invariant
                n == labels@.len(),
                n == menu_labels(self.services@).len(),
                forall|k: int| 0 <= k < n ==> (#[trigger] labels@[k])@ == menu_labels(self.services@)[k],
                start <= n,
                rows@.len() * ROW_WIDTH <= n ==> start == rows@.len() * ROW_WIDTH,
                rows@.len() * ROW_WIDTH > n ==> start == n,
                rows@.len() * ROW_WIDTH < n + ROW_WIDTH,
                forall|r: int| 0 <= r < rows@.len() ==> {
                    &&& #[trigger] rows@[r]@.len() == (if n - r * ROW_WIDTH < ROW_WIDTH {
                        n - r * ROW_WIDTH
                    } else {
                        ROW_WIDTH as int
                    })
                    &&& forall|k: int| 0 <= k < rows@[r]@.len() ==> (#[trigger] rows@[r]@[k])@
                        == menu_labels(self.services@)[r * ROW_WIDTH + k]
                },
            decreases n - start,
        {
            let end = if n - start < ROW_WIDTH {
                n
            } else {
                start + ROW_WIDTH
            };
            let mut row: Vec<String> = Vec::new();
            let mut j: usize = start;
            while j < end
                invariant
                    start <= j <= end,
                    end <= n,
                    n == labels@.len(),
                    row@.len() == j - start,
                    forall|k: int| 0 <= k < row@.len() ==> (#[trigger] row@[k]) == labels@[start + k],
                decreases end - j,
            {
                row.push(labels[j].clone());
                j = j + 1;
            }
            rows.push(row);
            start = end;
        }
        rows
    }
}

} // verus!
