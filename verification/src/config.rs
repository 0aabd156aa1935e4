//! Start-up settings and the health probe.
use vstd::prelude::*;
use vstd::string::*;
use crate::models::{STATUS_OK, STATUS_UNAVAILABLE};
use crate::text::{trim, trimmed};

verus! {

/// The port served on when none is configured.
pub const DEFAULT_PORT: u16 = 8080;

/// The web origins allowed to call the API when none are configured.
pub open spec fn default_origins() -> Seq<char> {
    "http://localhost:3000,http://localhost:3001"@
}

/// The web origins allowed when none are configured.
pub fn default_allowed_origins() -> (r: &'static str)
    ensures
        r@ == default_origins(),
{
    "http://localhost:3000,http://localhost:3001"
}

/// `c` is a decimal digit.
pub open spec fn is_digit(c: char) -> bool {
    '0' <= c <= '9'
}

/// The number the decimal digits `s` spell.
pub open spec fn digits_value(s: Seq<char>) -> int
    decreases s.len(),
{
    if s.len() == 0 {
        0
    } else {
        digits_value(s.drop_last()) * 10 + (s.last() as int - '0' as int)
    }
}

/// The digits of a port setting: the text without one leading `+`.
pub open spec fn port_digits(text: Seq<char>) -> Seq<char> {
    if text.len() > 0 && text[0] == '+' {
        text.drop_first()
    } else {
        text
    }
}

/// The port a setting names, read as `u16::from_str` reads it: an optional
/// `+`, then one or more decimal digits whose value fits 16 bits.
pub open spec fn port_value(text: Seq<char>) -> Option<u16> {
    let d = port_digits(text);
    if d.len() > 0 && (forall|i: int| 0 <= i < d.len() ==> is_digit(#[trigger] d[i])) && digits_value(d)
        <= 65535 {
        Some(digits_value(d) as u16)
    } else {
        None
    }
}

/// Digits spell a number that is not negative.
proof fn digits_value_nonneg(s: Seq<char>)
    requires
        forall|i: int| 0 <= i < s.len() ==> is_digit(#[trigger] s[i]),
    ensures
        digits_value(s) >= 0,
    decreases s.len(),
{
    if s.len() > 0 {
        let t = s.drop_last();
        assert forall|i: int| 0 <= i < t.len() implies is_digit(#[trigger] t[i]) by {
            assert(t[i] == s[i]);
        }
        digits_value_nonneg(t);
        assert(is_digit(s[s.len() - 1]));
    }
}

/// Appending digits never makes the value smaller.
proof fn digits_value_grows(s: Seq<char>, k: int)
    requires
        0 <= k <= s.len(),
        forall|i: int| 0 <= i < s.len() ==> is_digit(#[trigger] s[i]),
    ensures
        digits_value(s.subrange(0, k)) <= digits_value(s),
    decreases s.len() - k,
{
    if k < s.len() {
        digits_value_grows(s, k + 1);
        let t = s.subrange(0, k + 1);
        assert(t.drop_last() =~= s.subrange(0, k));
        assert(is_digit(s[k]));
        assert(t.last() == s[k]);
        let u = s.subrange(0, k);
        assert forall|i: int| 0 <= i < u.len() implies is_digit(#[trigger] u[i]) by {
            assert(u[i] == s[i]);
        }
        digits_value_nonneg(u);
    } else {
        assert(s.subrange(0, k) =~= s);
    }
}

/// Reads the port setting; `None` where it is not a valid port number.
pub fn parse_port(text: &str) -> (r: Option<u16>)
    ensures
        r == port_value(text@),
{
    let n = text.unicode_len();
    let mut start: usize = 0;
    if n > 0 && text.get_char(0) == '+' {
        start = 1;
    }
    let ghost d = port_digits(text@);
    assert(d =~= text@.subrange(start as int, n as int));
    if start == n {
        return None;
    }
    let mut value: u32 = 0;
    let mut i: usize = start;
    while i < n
        invariant
            n == text@.len(),
            start <= i <= n,
            start < n,
            d == text@.subrange(start as int, n as int),
            d == port_digits(text@),
            forall|j: int| 0 <= j < i - start ==> is_digit(#[trigger] d[j]),
            value as int == digits_value(d.subrange(0, i - start)),
            value <= 65535,
        decreases n - i,
    {
        let c = text.get_char(i);
        assert(d[i - start] == text@[i as int]);
        if c < '0' || c > '9' {
            assert(!is_digit(d[i - start]));
            return None;
        }
        let digit = (c as u32) - ('0' as u32);
        let next = value * 10 + digit;
        assert(d.subrange(0, i + 1 - start).drop_last() =~= d.subrange(0, i - start));
        assert(next as int == digits_value(d.subrange(0, i + 1 - start)));
        if next > 65535 {
            proof {
                if forall|j: int| 0 <= j < d.len() ==> is_digit(#[trigger] d[j]) {
                    digits_value_grows(d, i + 1 - start);
                }
            }
            return None;
        }
        value = next;
        i = i + 1;
    }
    assert(d.subrange(0, n - start) =~= d);
    Some(value as u16)
}

/// The pieces of `s` between commas, in order (as `str::split(',')` gives them).
pub open spec fn comma_pieces(s: Seq<char>) -> Seq<Seq<char>>
    decreases s.len(),
{
    if s.len() == 0 {
        seq![Seq::empty()]
    } else {
        let p = comma_pieces(s.drop_last());
        if s.last() == ',' {
            p.push(Seq::empty())
        } else {
            p.update(p.len() - 1, p.last().push(s.last()))
        }
    }
}

/// The pieces, trimmed, without those left empty.
pub open spec fn kept_origins(pieces: Seq<Seq<char>>) -> Seq<Seq<char>>
    decreases pieces.len(),
{
    if pieces.len() == 0 {
        Seq::empty()
    } else {
        let k = kept_origins(pieces.drop_last());
        let t = trimmed(pieces.last());
        if t.len() > 0 {
            k.push(t)
        } else {
            k
        }
    }
}

/// The origins a comma-separated setting allows.
pub open spec fn origins_of(text: Seq<char>) -> Seq<Seq<char>> {
    kept_origins(comma_pieces(text))
}

proof fn comma_pieces_not_empty(s: Seq<char>)
    ensures
        comma_pieces(s).len() >= 1,
    decreases s.len(),
{
    if s.len() > 0 {
        comma_pieces_not_empty(s.drop_last());
    }
}

/// The views of a list of strings.
pub open spec fn texts(v: Seq<String>) -> Seq<Seq<char>> {
    v.map_values(|s: String| s@)
}

/// Splits `text` at commas, in order.
fn split_commas(text: &str) -> (r: Vec<String>)
    ensures
        texts(r@) == comma_pieces(text@),
{
    let n = text.unicode_len();
    let mut pieces: Vec<String> = Vec::new();
    let mut start: usize = 0;
    let mut i: usize = 0;
    assert(text@.subrange(0, 0) =~= Seq::<char>::empty());
    assert(texts(pieces@) =~= Seq::<Seq<char>>::empty());
    assert(comma_pieces(text@.subrange(0, 0)) =~= texts(pieces@).push(text@.subrange(0, 0)));
    while i < n
        invariant
            n == text@.len(),
            start <= i <= n,
            comma_pieces(text@.subrange(0, i as int)) == texts(pieces@).push(
                text@.subrange(start as int, i as int),
            ),
        decreases n - i,
    {
        let c = text.get_char(i);
        let ghost prefix = text@.subrange(0, i + 1);
        assert(prefix.drop_last() =~= text@.subrange(0, i as int));
        assert(prefix.last() == c);
        if c == ',' {
            let piece = text.substring_char(start, i).to_string();
            let ghost before = pieces@;
            pieces.push(piece);
            assert(texts(pieces@) =~= texts(before).push(piece@));
            i = i + 1;
            start = i;
            assert(text@.subrange(start as int, i as int) =~= Seq::<char>::empty());
        } else {
            proof {
                comma_pieces_not_empty(text@.subrange(0, i as int));
                assert(text@.subrange(start as int, i + 1) =~= text@.subrange(start as int, i as int).push(c));
            }
            i = i + 1;
            assert(comma_pieces(text@.subrange(0, i as int)) =~= texts(pieces@).push(
                text@.subrange(start as int, i as int),
            ));
        }
    }
    let last = text.substring_char(start, n).to_string();
    let ghost before = pieces@;
    pieces.push(last);
    assert(text@.subrange(0, n as int) =~= text@);
    assert(texts(pieces@) =~= texts(before).push(last@));
    pieces
}

/// The origins a comma-separated setting allows: each piece between commas,
/// trimmed, leaving out those that are then empty.
pub fn allowed_origins(text: &str) -> (r: Vec<String>)
    ensures
        texts(r@) == origins_of(text@),
{
    let pieces = split_commas(text);
    let mut kept: Vec<String> = Vec::new();
    let mut i: usize = 0;
    while i < pieces.len()
        invariant
            i <= pieces@.len(),
            texts(kept@) == kept_origins(texts(pieces@).subrange(0, i as int)),
        decreases pieces@.len() - i,
    {
        let t = trim(pieces[i].as_str());
        let ghost sub = texts(pieces@).subrange(0, i + 1);
        assert(sub.drop_last() =~= texts(pieces@).subrange(0, i as int));
        assert(sub.last() == pieces@[i as int]@);
        if t.unicode_len() > 0 {
            let ghost before = kept@;
            kept.push(t);
            assert(texts(kept@) =~= texts(before).push(t@));
        }
        i = i + 1;
    }
    assert(texts(pieces@).subrange(0, pieces@.len() as int) =~= texts(pieces@));
    kept
}

/// What the health probe reports.
pub struct HealthReport {
    pub status_code: u16,
    pub status: String,
    pub database: String,
}

/// The health report, given whether the database answered a trivial query.
pub fn health_report(database_reachable: bool) -> (r: HealthReport)
    ensures
        database_reachable ==> r.status_code == STATUS_OK && r.status@ == "ok"@ && r.database@
            == "connected"@,
        !database_reachable ==> r.status_code == STATUS_UNAVAILABLE && r.status@ == "degraded"@
            && r.database@ == "unreachable"@,
{
    if database_reachable {
        HealthReport { status_code: STATUS_OK, status: "ok".to_string(), database: "connected".to_string() }
    } else {
        HealthReport {
            status_code: STATUS_UNAVAILABLE,
            status: "degraded".to_string(),
            database: "unreachable".to_string(),
        }
    }
}

} // verus!
