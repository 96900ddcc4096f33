use vstd::prelude::*;
use crate::export::{append_int, int_text};
use crate::fetch::PollEvent;
use crate::record::GameRecord;
use crate::session::{StatusClass, classify_status};
use crate::text::{
    chars_of, copy_span, find, find_from, find_span, lemma_find_bounds, occurs, occurs_at,
    span_after, string_of,
};

verus! {

/// What the parser reads of one record: name, minimum and maximum players,
/// playtime and year.
pub type RecordView = (Seq<char>, Option<i64>, Option<i64>, Option<i64>, Option<i64>);

pub open spec fn record_view(g: GameRecord) -> RecordView {
    (g.name@, g.min_players, g.max_players, g.playtime, g.year)
}

pub open spec fn views(v: Seq<GameRecord>) -> Seq<RecordView> {
    v.map_values(|g: GameRecord| record_view(g))
}

pub open spec fn pow10(n: nat) -> int
    decreases n,
{
    if n == 0 { 1 } else { 10 * pow10((n - 1) as nat) }
}

pub open spec fn is_digit(c: char) -> bool {
    '0' <= c && c <= '9'
}

/// The value of a run of decimal digits.
pub open spec fn digits_value(t: Seq<char>) -> int
    decreases t.len(),
{
    if t.len() == 0 {
        0
    } else {
        digits_value(t.drop_last()) * 10 + ((t.last() as u32) as int - 48)
    }
}

/// One to eighteen decimal digits, which always fit an `i64`.
pub open spec fn plain_number(t: Seq<char>) -> bool {
    1 <= t.len() <= 18 && forall|i: int| 0 <= i < t.len() ==> is_digit(#[trigger] t[i])
}

/// The integer a field's text holds: digits with an optional minus sign;
/// anything else reads as absent.
pub open spec fn number_of(t: Seq<char>) -> Option<i64> {
    if t.len() > 0 && t[0] == '-' && plain_number(t.subrange(1, t.len() as int)) {
        Some((-digits_value(t.subrange(1, t.len() as int))) as i64)
    } else if plain_number(t) {
        Some(digits_value(t) as i64)
    } else {
        None
    }
}

/// The character an XML entity at position `i` stands for.
pub open spec fn entity_at(t: Seq<char>, i: int) -> Option<char> {
    if occurs_at(t, i, "&amp;"@) {
        Some('&')
    } else if occurs_at(t, i, "&lt;"@) {
        Some('<')
    } else if occurs_at(t, i, "&gt;"@) {
        Some('>')
    } else if occurs_at(t, i, "&quot;"@) {
        Some('"')
    } else if occurs_at(t, i, "&apos;"@) {
        Some('\'')
    } else {
        None
    }
}

/// The length of the entity written for `c`.
pub open spec fn entity_len(c: char) -> int {
    if c == '&' {
        5
    } else if c == '<' || c == '>' {
        4
    } else {
        6
    }
}

/// The text from position `i` on, with the five predefined entities decoded.
pub open spec fn unescaped_from(t: Seq<char>, i: int) -> Seq<char>
    decreases t.len() + 6 - i,
{
    if i < 0 || i >= t.len() {
        Seq::empty()
    } else {
        match entity_at(t, i) {
            Some(c) => seq![c] + unescaped_from(t, i + entity_len(c)),
            None => seq![t[i]] + unescaped_from(t, i + 1),
        }
    }
}

/// The character data of the first element opened by `open`: what follows
/// the next `>`, up to `close`.
pub open spec fn element_text(s: Seq<char>, open: Seq<char>, close: Seq<char>) -> Option<Seq<char>> {
    match find_from(s, open, 0) {
        None => None,
        Some(a) => match span_after(s, ">"@, close, a) {
            None => None,
            Some((x, y)) => Some(s.subrange(x, y)),
        },
    }
}

/// The value of the first attribute written `key` (name, `=` and opening quote).
pub open spec fn attribute(s: Seq<char>, key: Seq<char>) -> Option<Seq<char>> {
    match span_after(s, key, "\""@, 0) {
        None => None,
        Some((x, y)) => Some(s.subrange(x, y)),
    }
}

pub open spec fn number_field(t: Option<Seq<char>>) -> Option<i64> {
    match t {
        Some(x) => number_of(x),
        None => None,
    }
}

/// One `<item>` of the collection; an item without a name is malformed.
pub open spec fn item_view(seg: Seq<char>) -> Option<RecordView> {
    match element_text(seg, "<name"@, "</name>"@) {
        None => None,
        Some(n) => Some(
            (
                unescaped_from(n, 0),
                number_field(attribute(seg, " minplayers=\""@)),
                number_field(attribute(seg, " maxplayers=\""@)),
                number_field(attribute(seg, " playingtime=\""@)),
                number_field(element_text(seg, "<yearpublished"@, "</yearpublished>"@)),
            ),
        ),
    }
}

pub open spec fn prepend(a: Seq<RecordView>, rest: Option<Seq<RecordView>>) -> Option<Seq<RecordView>> {
    match rest {
        Some(r) => Some(a + r),
        None => None,
    }
}

/// The items from position `from` on, in document order; `None` when one
/// is unterminated or malformed.
pub open spec fn items_from(s: Seq<char>, from: int) -> Option<Seq<RecordView>>
    decreases s.len() + 1 - from via items_from_decreases
{
    match find_from(s, "<item "@, from) {
        None => Some(Seq::empty()),
        Some(p) => match find_from(s, "</item>"@, p) {
            None => None,
            Some(q) => match item_view(s.subrange(p, q)) {
                None => None,
                Some(r) => prepend(seq![r], items_from(s, q + 7)),
            },
        },
    }
}

#[via_fn]
proof fn items_from_decreases(s: Seq<char>, from: int) {
    lemma_find_bounds(s, "<item "@, from);
    if let Some(p) = find_from(s, "<item "@, from) {
        lemma_find_bounds(s, "</item>"@, p);
        reveal_strlit("</item>");
    }
}

/// How a provider's answer body reads.
pub enum BodyView {
    /// An `<errors>` document, with its message.
    Refused(Seq<char>),
    /// Neither an error document nor a well-formed collection.
    Malformed,
    /// A collection with these records.
    Items(Seq<RecordView>),
}

pub open spec fn body_outcome(s: Seq<char>) -> BodyView {
    if find_from(s, "<errors"@, 0) is Some {
        match element_text(s, "<message"@, "</message>"@) {
            Some(m) => BodyView::Refused(unescaped_from(m, 0)),
            None => BodyView::Refused(Seq::empty()),
        }
    } else if find_from(s, "<items"@, 0) is None {
        BodyView::Malformed
    } else {
        match items_from(s, 0) {
            None => BodyView::Malformed,
            Some(rs) => BodyView::Items(rs),
        }
    }
}

proof fn lemma_pow10_mono(a: nat, b: nat)
    requires
        a <= b,
    ensures
        1 <= pow10(a) <= pow10(b),
    decreases b - a,
{
    if a < b {
        lemma_pow10_mono(a, (b - 1) as nat);
    } else {
        lemma_pow10_positive(a);
    }
}

proof fn lemma_pow10_positive(a: nat)
    ensures
        pow10(a) >= 1,
    decreases a,
{
    if a > 0 {
        lemma_pow10_positive((a - 1) as nat);
    }
}

/// Reads a run of one to eighteen digits.
fn parse_digits(t: &[char]) -> (r: Option<i64>)
    ensures
        plain_number(t@) ==> r == Some(digits_value(t@) as i64) && 0 <= digits_value(t@) < 1_000_000_000_000_000_000,
        !plain_number(t@) ==> r is None,
{
    let n = t.len();
    if n < 1 || n > 18 {
        return None;
    }
    proof {
        reveal_with_fuel(pow10, 19);
        lemma_pow10_mono(n as nat, 18);
    }
    let mut acc: i64 = 0;
    let mut i: usize = 0;
    while i < n
        invariant
            n == t@.len(),
            1 <= n <= 18,
            i <= n,
            0 <= acc < pow10(i as nat),
            pow10(18) == 1_000_000_000_000_000_000,
            acc == digits_value(t@.subrange(0, i as int)),
            forall|k: int| 0 <= k < i ==> is_digit(#[trigger] t@[k]),
        decreases n - i,
    {
        let c = t[i];
        if !('0' <= c && c <= '9') {
            assert(!is_digit(t@[i as int]));
            return None;
        }
        let d: i64 = (c as u32 - 48) as i64;
        proof {
            lemma_pow10_mono((i + 1) as nat, 18);
            let p = pow10(i as nat);
            assert(pow10((i + 1) as nat) == 10 * p);
            assert(acc * 10 + d < 10 * p) by (nonlinear_arith)
                requires
                    0 <= acc < p,
                    0 <= d <= 9,
            ;
            let pre = t@.subrange(0, i as int + 1);
            assert(pre.drop_last() =~= t@.subrange(0, i as int));
        }
        acc = acc * 10 + d;
        i = i + 1;
    }
    assert(t@.subrange(0, n as int) =~= t@);
    Some(acc)
}

/// Reads an integer field: digits with an optional minus sign.
pub fn parse_number(t: &[char]) -> (r: Option<i64>)
    ensures
        r == number_of(t@),
{
    let n = t.len();
    if n > 0 && t[0] == '-' {
        let rest = vstd::slice::slice_subrange(t, 1, n);
        match parse_digits(rest) {
            Some(v) => {
                return Some(-v);
            },
            None => {},
        }
    }
    parse_digits(t)
}

/// Decodes the predefined XML entities of `t`.
pub fn unescape(t: &[char]) -> (r: String)
    ensures
        r@ == unescaped_from(t@, 0),
{
    let amp = chars_of("&amp;");
    let lt = chars_of("&lt;");
    let gt = chars_of("&gt;");
    let quot = chars_of("&quot;");
    let apos = chars_of("&apos;");
    proof {
        reveal_strlit("&amp;");
        reveal_strlit("&lt;");
        reveal_strlit("&gt;");
        reveal_strlit("&quot;");
        reveal_strlit("&apos;");
    }
    let n = t.len();
    let mut out: Vec<char> = Vec::new();
    let mut i: usize = 0;
    while i < n
        invariant
            n == t@.len(),
            i <= n,
            amp@ == "&amp;"@,
            lt@ == "&lt;"@,
            gt@ == "&gt;"@,
            quot@ == "&quot;"@,
            apos@ == "&apos;"@,
            out@ + unescaped_from(t@, i as int) == unescaped_from(t@, 0),
        decreases n - i,
    {
        proof {
            reveal_strlit("&amp;");
            reveal_strlit("&lt;");
            reveal_strlit("&gt;");
            reveal_strlit("&quot;");
            reveal_strlit("&apos;");
        }
        let ghost before = out@;
        let ghost i0 = i as int;
        if occurs(t, i, amp.as_slice()) {
            out.push('&');
            i = i + 5;
        } else if occurs(t, i, lt.as_slice()) {
            out.push('<');
            i = i + 4;
        } else if occurs(t, i, gt.as_slice()) {
            out.push('>');
            i = i + 4;
        } else if occurs(t, i, quot.as_slice()) {
            out.push('"');
            i = i + 6;
        } else if occurs(t, i, apos.as_slice()) {
            out.push('\'');
            i = i + 6;
        } else {
            out.push(t[i]);
            i = i + 1;
        }
        assert(out@ + unescaped_from(t@, i as int) =~= before + unescaped_from(t@, i0));
    }
    assert(unescaped_from(t@, n as int) =~= Seq::<char>::empty());
    assert(out@ =~= unescaped_from(t@, 0));
    string_of(out.as_slice())
}

/// The character data of the first element opened by `open`.
fn element_span(s: &[char], open: &[char], close: &[char]) -> (r: Option<Vec<char>>)
    ensures
        match element_text(s@, open@, close@) {
            Some(x) => r matches Some(v) && v@ == x,
            None => r is None,
        },
{
    let gt = chars_of(">");
    match find(s, open, 0) {
        None => None,
        Some(a) => match find_span(s, gt.as_slice(), close, a) {
            None => None,
            Some((x, y)) => Some(copy_span(s, x, y)),
        },
    }
}

/// The number held by the first attribute written `key`, if any.
fn attribute_number(s: &[char], key: &str) -> (r: Option<i64>)
    ensures
        r == number_field(attribute(s@, key@)),
{
    let k = chars_of(key);
    let quote = chars_of("\"");
    match find_span(s, k.as_slice(), quote.as_slice(), 0) {
        None => None,
        Some((x, y)) => parse_number(copy_span(s, x, y).as_slice()),
    }
}

/// Reads one `<item>` element.
pub fn parse_item(seg: &[char]) -> (r: Option<GameRecord>)
    ensures
        match item_view(seg@) {
            Some(v) => r matches Some(g) && record_view(g) == v,
            None => r is None,
        },
{
    let name_open = chars_of("<name");
    let name_close = chars_of("</name>");
    let name = match element_span(seg, name_open.as_slice(), name_close.as_slice()) {
        Some(n) => unescape(n.as_slice()),
        None => return None,
    };
    let year_open = chars_of("<yearpublished");
    let year_close = chars_of("</yearpublished>");
    let year = match element_span(seg, year_open.as_slice(), year_close.as_slice()) {
        Some(y) => parse_number(y.as_slice()),
        None => None,
    };
    let min_players = attribute_number(seg, " minplayers=\"");
    let max_players = attribute_number(seg, " maxplayers=\"");
    let playtime = attribute_number(seg, " playingtime=\"");
    Some(GameRecord::new(name, min_players, max_players, playtime, year))
}

/// Reads every `<item>` of a collection document, in order; `None` when
/// one is unterminated or has no name.
pub fn parse_items(s: &[char]) -> (r: Option<Vec<GameRecord>>)
    ensures
        match items_from(s@, 0) {
            Some(rs) => r matches Some(v) && views(v@) == rs,
            None => r is None,
        },
{
    let open = chars_of("<item ");
    let close = chars_of("</item>");
    let mut out: Vec<GameRecord> = Vec::new();
    let mut pos: usize = 0;
    let n = s.len();
    loop
        invariant
            n == s@.len(),
            open@ == "<item "@,
            close@ == "</item>"@,
            items_from(s@, 0) == prepend(views(out@), items_from(s@, pos as int)),
        decreases n + 1 - pos,
    {
        proof { reveal_strlit("</item>"); }
        match find(s, open.as_slice(), pos) {
            None => {
                assert(views(out@) + Seq::<RecordView>::empty() =~= views(out@));
                return Some(out);
            },
            Some(p) => {
                proof { lemma_find_bounds(s@, open@, pos as int); }
                match find(s, close.as_slice(), p) {
                    None => {
                        return None;
                    },
                    Some(q) => {
                        proof { lemma_find_bounds(s@, close@, p as int); }
                        let seg = copy_span(s, p, q);
                        match parse_item(seg.as_slice()) {
                            None => {
                                return None;
                            },
                            Some(g) => {
                                let ghost before = out@;
                                out.push(g);
                                proof {
                                    assert(views(out@) =~= views(before) + seq![record_view(g)]);
                                    let rest = items_from(s@, q + 7);
                                    if let Some(r) = rest {
                                        assert(views(before) + (seq![record_view(g)] + r)
                                            =~= views(out@) + r);
                                    }
                                }
                                pos = q + 7;
                            },
                        }
                    },
                }
            },
        }
    }
}

/// Reads a provider's answer body.
pub fn parse_body(s: &[char]) -> (r: PollEvent)
    ensures
        match body_outcome(s@) {
            BodyView::Refused(m) => r matches PollEvent::Rejected(msg) && msg@ == m,
            BodyView::Malformed => r is Malformed,
            BodyView::Items(rs) => r matches PollEvent::Records(v) && views(v@) == rs,
        },
{
    let errors = chars_of("<errors");
    if find(s, errors.as_slice(), 0).is_some() {
        let open = chars_of("<message");
        let close = chars_of("</message>");
        return match element_span(s, open.as_slice(), close.as_slice()) {
            Some(m) => PollEvent::Rejected(unescape(m.as_slice())),
            None => PollEvent::Rejected(String::new()),
        };
    }
    let items = chars_of("<items");
    if find(s, items.as_slice(), 0).is_none() {
        return PollEvent::Malformed;
    }
    match parse_items(s) {
        Some(v) => PollEvent::Records(v),
        None => PollEvent::Malformed,
    }
}

/// Turns one answer of the collection endpoint into the event it stands
/// for: 202 is "not ready", 200 is read as a document, any other status
/// is a refusal that names it.
pub fn interpret_response(status: u16, body: &str) -> (r: PollEvent)
    ensures
        status == 202 ==> r is NotReady,
        status != 200 && status != 202 ==> (r matches PollEvent::Rejected(m) && m@
            == "HTTP status "@ + int_text(status as int)),
        status == 200 ==> match body_outcome(body@) {
            BodyView::Refused(m) => r matches PollEvent::Rejected(msg) && msg@ == m,
            BodyView::Malformed => r is Malformed,
            BodyView::Items(rs) => r matches PollEvent::Records(v) && views(v@) == rs,
        },
{
    match classify_status(status) {
        StatusClass::Queued => PollEvent::NotReady,
        StatusClass::Refused => {
            let mut m = String::from_str("HTTP status ");
            append_int(&mut m, status as i64);
            PollEvent::Rejected(m)
        },
        StatusClass::Answered => {
            let cs = chars_of(body);
            parse_body(cs.as_slice())
        },
    }
}

} // verus!
