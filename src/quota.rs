//! The account status page's quota table: five figures with their units,
//! read by a small grammar over the page's text, and the warning level
//! that the used share of the quota falls in.

use vstd::prelude::*;

use crate::text::{
    char_seq, find_from, find_lit, lemma_find_from_bounds, matches_at, occurs_at, push_range,
    seq_to_string,
};

verus! {

/// Most digits that a quota figure may have.
pub const MAX_DIGITS: usize = 18;

/// Characters that the quota page's markup is scanned by.
#[derive(Clone, Copy)]
pub enum CharClass {
    Space,
    Digit,
    Word,
}

pub open spec fn in_class(c: char, k: CharClass) -> bool {
    match k {
        CharClass::Space => c == ' ' || c == '\t' || c == '\n' || c == '\r' || c == '\u{b}' || c
            == '\u{c}',
        CharClass::Digit => '0' <= c && c <= '9',
        CharClass::Word => ('0' <= c && c <= '9') || ('a' <= c && c <= 'z') || ('A' <= c && c
            <= 'Z') || c == '_',
    }
}

/// End of the longest run of class `k` that starts at `i`.
pub open spec fn run_end(w: Seq<char>, i: int, k: CharClass) -> int
    decreases w.len() - i,
{
    if 0 <= i < w.len() && in_class(w[i], k) {
        run_end(w, i + 1, k)
    } else {
        i
    }
}

/// A figure at `i`: `>`, blanks, digits, then an optional point and more
/// digits. Gives where its digits start, where its whole part ends and
/// where it ends.
pub open spec fn number_at(w: Seq<char>, i: int) -> Option<(int, int, int)> {
    if 0 <= i < w.len() && w[i] == '>' {
        let a = run_end(w, i + 1, CharClass::Space);
        let b = run_end(w, a, CharClass::Digit);
        let c = if b < w.len() && w[b] == '.' {
            run_end(w, b + 1, CharClass::Digit)
        } else {
            b
        };
        if a > i + 1 && b > a {
            Some((a, b, c))
        } else {
            None
        }
    } else {
        None
    }
}

/// The text between a figure and the name of its unit.
pub open spec fn unit_label() -> Seq<char> {
    "&nbsp;<label id='Language."@
}

/// A figure at `i` followed by its unit's label: where the unit's name
/// starts and ends.
pub open spec fn unit_at(w: Seq<char>, i: int) -> Option<(int, int)> {
    match number_at(w, i) {
        Some((_, _, c)) => if occurs_at(w, c, unit_label()) {
            let s = c + unit_label().len();
            let f = run_end(w, s, CharClass::Word);
            if f > s {
                Some((s, f))
            } else {
                None
            }
        } else {
            None
        },
        None => None,
    }
}

/// The figures of `w` from `pos` on, left to right, none overlapping.
pub open spec fn number_spans(w: Seq<char>, pos: int) -> Seq<(int, int, int)>
    decreases w.len() - pos,
{
    if pos < 0 || pos >= w.len() {
        Seq::empty()
    } else {
        match number_at(w, pos) {
            Some(m) => if pos < m.2 <= w.len() {
                seq![m] + number_spans(w, m.2)
            } else {
                Seq::empty()
            },
            None => number_spans(w, pos + 1),
        }
    }
}

/// The unit names of `w` from `pos` on, left to right, none overlapping.
pub open spec fn unit_spans(w: Seq<char>, pos: int) -> Seq<(int, int)>
    decreases w.len() - pos,
{
    if pos < 0 || pos >= w.len() {
        Seq::empty()
    } else {
        match unit_at(w, pos) {
            Some(m) => if pos < m.1 <= w.len() {
                seq![m] + unit_spans(w, m.1)
            } else {
                Seq::empty()
            },
            None => unit_spans(w, pos + 1),
        }
    }
}

/// Where the quota table starts.
pub open spec fn table_marker() -> Seq<char> {
    "Language.CycleDataTrasfer"@
}

pub open spec fn table_close() -> Seq<char> {
    "</table>"@
}

/// The part of the account page that holds the quota table: after the
/// first marker, up to the first `</table>` after it (or the end).
pub open spec fn quota_window(html: Seq<char>) -> Option<Seq<char>> {
    match find_from(html, table_marker(), 0) {
        Some(m) => {
            let s = m + table_marker().len();
            match find_from(html, table_close(), s) {
                Some(e) => Some(html.subrange(s, e)),
                None => Some(html.subrange(s, html.len() as int)),
            }
        },
        None => None,
    }
}

pub open spec fn digit_value(c: char) -> nat {
    (c as u32 - 48) as nat
}

/// The number that a string of decimal digits writes.
pub open spec fn digits_value(s: Seq<char>) -> nat
    decreases s.len(),
{
    if s.len() == 0 {
        0
    } else {
        digits_value(s.drop_last()) * 10 + digit_value(s.last())
    }
}

pub open spec fn pow10(n: nat) -> nat
    decreases n,
{
    if n == 0 {
        1
    } else {
        10 * pow10((n - 1) as nat)
    }
}

/// A figure as (digits without the point, digits after the point): its value
/// is the first over ten to the second.
pub type AmountModel = (nat, nat);

/// The digits of the figure `m` of `w`, without its point.
pub open spec fn figure_digits(w: Seq<char>, m: (int, int, int)) -> Seq<char> {
    if m.2 > m.1 {
        w.subrange(m.0, m.1) + w.subrange(m.1 + 1, m.2)
    } else {
        w.subrange(m.0, m.1)
    }
}

/// The value of the figure `m` of `w`, if it has at most `MAX_DIGITS` digits.
pub open spec fn amount_of(w: Seq<char>, m: (int, int, int)) -> Option<AmountModel> {
    let d = figure_digits(w, m);
    if d.len() > MAX_DIGITS {
        None
    } else {
        Some(
            (
                digits_value(d),
                if m.2 > m.1 {
                    (m.2 - m.1 - 1) as nat
                } else {
                    0
                },
            ),
        )
    }
}

/// The five figures (total, last, current, used, remaining) and their five
/// units that the account page shows, or why it does not show them.
pub open spec fn quota_of(html: Seq<char>) -> Result<(Seq<AmountModel>, Seq<Seq<char>>), ParseError> {
    match quota_window(html) {
        Some(w) => {
            let ns = number_spans(w, 0);
            let us = unit_spans(w, 0);
            if ns.len() < 5 {
                Err(ParseError::TooFewFigures)
            } else if us.len() < 5 {
                Err(ParseError::TooFewUnits)
            } else if exists|k: int| 0 <= k < 5 && #[trigger] amount_of(w, ns[k]) is None {
                Err(ParseError::FigureTooLong)
            } else {
                Ok(
                    (
                        Seq::new(5, |k: int| amount_of(w, ns[k])->0),
                        Seq::new(5, |k: int| w.subrange(us[k].0, us[k].1)),
                    ),
                )
            }
        },
        None => Err(ParseError::MissingTable),
    }
}

/// Warning level of the quota, from the share of it that is used.
#[derive(Debug, Clone, Copy, PartialEq, Eq, Structural)]
pub enum NotificationState {
    /// Under half used.
    Quiet,
    /// At least half used.
    Used50,
    /// At least nine tenths used.
    Used90,
    /// All used.
    Used100,
}

/// The band of `used / total`: under 0.5, under 0.9, under 1, or more
/// (a zero total counts as all used). The two figures are compared over the
/// common denominator `10^(used.1 + total.1)`.
pub open spec fn band(used: AmountModel, total: AmountModel) -> NotificationState {
    let u = used.0 * pow10(total.1);
    let t = total.0 * pow10(used.1);
    if 2 * u < t {
        NotificationState::Quiet
    } else if 10 * u < 9 * t {
        NotificationState::Used50
    } else if u < t {
        NotificationState::Used90
    } else {
        NotificationState::Used100
    }
}

/// A non-negative decimal figure: `mantissa / 10^scale`.
#[derive(Clone, Copy, Debug)]
pub struct Amount {
    pub mantissa: u64,
    pub scale: u32,
}

impl Amount {
    pub open spec fn view(&self) -> AmountModel {
        (self.mantissa as nat, self.scale as nat)
    }

    pub open spec fn wf(&self) -> bool {
        self.mantissa < pow10(MAX_DIGITS as nat) && self.scale <= MAX_DIGITS
    }

    pub fn zero() -> (r: Amount)
        ensures
            r@ == (0nat, 0nat),
            r.wf(),
    {
        proof {
            lemma_pow10_positive(MAX_DIGITS as nat);
        }
        Amount { mantissa: 0, scale: 0 }
    }
}

/// The five figures of the quota table.
#[derive(Clone, Copy, Debug)]
pub struct TrafficStats {
    pub total: Amount,
    pub last: Amount,
    pub current: Amount,
    pub used: Amount,
    pub remaining: Amount,
}

impl TrafficStats {
    pub open spec fn view(&self) -> Seq<AmountModel> {
        seq![self.total@, self.last@, self.current@, self.used@, self.remaining@]
    }

    pub open spec fn wf(&self) -> bool {
        self.total.wf() && self.last.wf() && self.current.wf() && self.used.wf()
            && self.remaining.wf()
    }

    pub fn zero() -> (r: TrafficStats)
        ensures
            r.wf(),
            forall|k: int| 0 <= k < 5 ==> #[trigger] r@[k] == (0nat, 0nat),
    {
        let z = Amount::zero();
        TrafficStats { total: z, last: z, current: z, used: z, remaining: z }
    }
}

/// The units of the five figures, such as `MB` or `GB`.
#[derive(Debug)]
pub struct TrafficUnits {
    pub total: String,
    pub last: String,
    pub current: String,
    pub used: String,
    pub remaining: String,
}

impl TrafficUnits {
    pub open spec fn view(&self) -> Seq<Seq<char>> {
        seq![self.total@, self.last@, self.current@, self.used@, self.remaining@]
    }

    pub fn empty() -> (r: TrafficUnits)
        ensures
            r@ == Seq::new(5, |k: int| Seq::<char>::empty()),
    {
        let r = TrafficUnits {
            total: String::new(),
            last: String::new(),
            current: String::new(),
            used: String::new(),
            remaining: String::new(),
        };
        assert(r.total@ =~= Seq::<char>::empty());
        assert(r.last@ =~= Seq::<char>::empty());
        assert(r.current@ =~= Seq::<char>::empty());
        assert(r.used@ =~= Seq::<char>::empty());
        assert(r.remaining@ =~= Seq::<char>::empty());
        assert(r@ =~= Seq::new(5, |k: int| Seq::<char>::empty()));
        r
    }

    pub fn duplicate(&self) -> (r: TrafficUnits)
        ensures
            r@ == self@,
    {
        TrafficUnits {
            total: self.total.clone(),
            last: self.last.clone(),
            current: self.current.clone(),
            used: self.used.clone(),
            remaining: self.remaining.clone(),
        }
    }
}

/// The account page did not show five figures and five units.
#[derive(Debug, Clone, Copy, PartialEq, Eq, Structural)]
pub enum ParseError {
    MissingTable,
    TooFewFigures,
    TooFewUnits,
    FigureTooLong,
}

/// Whether `m` is a figure of `w`: digits, then a point and digits if it ends
/// after its whole part.
pub open spec fn figure_shape(w: Seq<char>, m: (int, int, int)) -> bool {
    &&& 0 < m.0 < m.1 <= m.2 <= w.len()
    &&& forall|j: int| m.0 <= j < m.1 ==> in_class(#[trigger] w[j], CharClass::Digit)
    &&& m.2 > m.1 ==> w[m.1] == '.' && forall|j: int|
        m.1 + 1 <= j < m.2 ==> in_class(#[trigger] w[j], CharClass::Digit)
}

proof fn lemma_number_at_shape(w: Seq<char>, i: int)
    ensures
        match number_at(w, i) {
            Some(m) => figure_shape(w, m) && i < m.0,
            None => true,
        },
{
    if 0 <= i < w.len() && w[i] == '>' {
        lemma_run_end(w, i + 1, CharClass::Space);
        let a = run_end(w, i + 1, CharClass::Space);
        lemma_run_end(w, a, CharClass::Digit);
        let b = run_end(w, a, CharClass::Digit);
        if b < w.len() && w[b] == '.' {
            lemma_run_end(w, b + 1, CharClass::Digit);
        }
    }
}

proof fn lemma_number_spans_shape(w: Seq<char>, pos: int)
    ensures
        forall|k: int|
            0 <= k < number_spans(w, pos).len() ==> figure_shape(w, #[trigger] number_spans(w, pos)[k]),
    decreases w.len() - pos,
{
    if pos < 0 || pos >= w.len() {
    } else {
        lemma_number_at_shape(w, pos);
        match number_at(w, pos) {
            Some(m) => if pos < m.2 <= w.len() {
                lemma_number_spans_shape(w, m.2);
                let rest = number_spans(w, m.2);
                assert(number_spans(w, pos) == seq![m] + rest);
                assert forall|k: int| 0 <= k < number_spans(w, pos).len() implies figure_shape(
                    w,
                    #[trigger] number_spans(w, pos)[k],
                ) by {
                    if k > 0 {
                        assert(number_spans(w, pos)[k] == rest[k - 1]);
                    }
                }
            },
            None => {
                lemma_number_spans_shape(w, pos + 1);
                assert(number_spans(w, pos) == number_spans(w, pos + 1));
            },
        }
    }
}

proof fn lemma_unit_spans_shape(w: Seq<char>, pos: int)
    ensures
        forall|k: int|
            0 <= k < unit_spans(w, pos).len() ==> 0 <= (#[trigger] unit_spans(w, pos)[k]).0 <= unit_spans(w, pos)[k].1
                <= w.len(),
    decreases w.len() - pos,
{
    if pos < 0 || pos >= w.len() {
    } else {
        match unit_at(w, pos) {
            Some(m) => if pos < m.1 <= w.len() {
                lemma_number_at_shape(w, pos);
                lemma_unit_spans_shape(w, m.1);
                let rest = unit_spans(w, m.1);
                assert(unit_spans(w, pos) == seq![m] + rest);
                assert forall|k: int| 0 <= k < unit_spans(w, pos).len() implies 0 <= (
                #[trigger] unit_spans(w, pos)[k]).0 <= unit_spans(w, pos)[k].1 <= w.len() by {
                    if k > 0 {
                        assert(unit_spans(w, pos)[k] == rest[k - 1]);
                    }
                }
            },
            None => {
                lemma_unit_spans_shape(w, pos + 1);
                assert(unit_spans(w, pos) == unit_spans(w, pos + 1));
            },
        }
    }
}

proof fn lemma_pow10_18()
    ensures
        pow10(MAX_DIGITS as nat) == 1_000_000_000_000_000_000,
{
    reveal_with_fuel(pow10, 19);
}

pub proof fn lemma_pow10_positive(n: nat)
    ensures
        pow10(n) >= 1,
    decreases n,
{
    if n > 0 {
        lemma_pow10_positive((n - 1) as nat);
    }
}

pub proof fn lemma_pow10_monotone(a: nat, b: nat)
    requires
        a <= b,
    ensures
        pow10(a) <= pow10(b),
    decreases b,
{
    if a < b {
        lemma_pow10_monotone(a, (b - 1) as nat);
        lemma_pow10_positive((b - 1) as nat);
    }
}

proof fn lemma_run_end(w: Seq<char>, i: int, k: CharClass)
    requires
        0 <= i <= w.len(),
    ensures
        i <= run_end(w, i, k) <= w.len(),
        forall|j: int| i <= j < run_end(w, i, k) ==> in_class(#[trigger] w[j], k),
    decreases w.len() - i,
{
    if i < w.len() && in_class(w[i], k) {
        lemma_run_end(w, i + 1, k);
    }
}

fn in_class_exec(c: char, k: CharClass) -> (r: bool)
    ensures
        r == in_class(c, k),
{
    match k {
        CharClass::Space => c == ' ' || c == '\t' || c == '\n' || c == '\r' || c == '\u{b}' || c
            == '\u{c}',
        CharClass::Digit => '0' <= c && c <= '9',
        CharClass::Word => ('0' <= c && c <= '9') || ('a' <= c && c <= 'z') || ('A' <= c && c
            <= 'Z') || c == '_',
    }
}

fn scan_run(w: &Vec<char>, i: usize, k: CharClass) -> (r: usize)
    requires
        i <= w@.len(),
    ensures
        r == run_end(w@, i as int, k),
        i <= r <= w@.len(),
{
    let mut j: usize = i;
    while j < w.len() && in_class_exec(w[j], k)
        invariant
            i <= j <= w@.len(),
            run_end(w@, i as int, k) == run_end(w@, j as int, k),
        decreases w@.len() - j,
    {
        j = j + 1;
    }
    j
}

fn number_at_exec(w: &Vec<char>, i: usize) -> (r: Option<(usize, usize, usize)>)
    ensures
        match r {
            Some((a, b, c)) => number_at(w@, i as int) == Some((a as int, b as int, c as int))
                && i < a < b <= c <= w@.len(),
            None => number_at(w@, i as int) is None,
        },
{
    if i >= w.len() || w[i] != '>' {
        return None;
    }
    let a = scan_run(w, i + 1, CharClass::Space);
    if a == i + 1 {
        return None;
    }
    let b = scan_run(w, a, CharClass::Digit);
    if b == a {
        return None;
    }
    let c = if b < w.len() && w[b] == '.' {
        scan_run(w, b + 1, CharClass::Digit)
    } else {
        b
    };
    Some((a, b, c))
}

fn unit_at_exec(w: &Vec<char>, i: usize, label: &Vec<char>) -> (r: Option<(usize, usize)>)
    requires
        label@ == unit_label(),
    ensures
        match r {
            Some((s, f)) => unit_at(w@, i as int) == Some((s as int, f as int)) && i < s < f
                <= w@.len(),
            None => unit_at(w@, i as int) is None,
        },
{
    match number_at_exec(w, i) {
        Some((_, _, c)) => {
            if !matches_at(w, c, label) {
                return None;
            }
            assert(c + label@.len() <= w.len());
            let s = c + label.len();
            let f = scan_run(w, s, CharClass::Word);
            if f == s {
                None
            } else {
                Some((s, f))
            }
        },
        None => None,
    }
}

pub open spec fn spans3(v: Seq<(usize, usize, usize)>) -> Seq<(int, int, int)> {
    v.map_values(|m: (usize, usize, usize)| (m.0 as int, m.1 as int, m.2 as int))
}

pub open spec fn spans2(v: Seq<(usize, usize)>) -> Seq<(int, int)> {
    v.map_values(|m: (usize, usize)| (m.0 as int, m.1 as int))
}

fn collect_numbers(w: &Vec<char>) -> (r: Vec<(usize, usize, usize)>)
    ensures
        spans3(r@) == number_spans(w@, 0),
{
    let mut out: Vec<(usize, usize, usize)> = Vec::new();
    let mut pos: usize = 0;
    while pos < w.len()
        invariant
            pos <= w@.len(),
            spans3(out@) + number_spans(w@, pos as int) == number_spans(w@, 0),
        decreases w@.len() - pos,
    {
        match number_at_exec(w, pos) {
            Some(m) => {
                let ghost before = out@;
                out.push(m);
                assert(spans3(out@) =~= spans3(before) + seq![
                    (m.0 as int, m.1 as int, m.2 as int),
                ]);
                assert(spans3(out@) + number_spans(w@, m.2 as int) =~= spans3(before)
                    + number_spans(w@, pos as int));
                pos = m.2;
            },
            None => {
                pos = pos + 1;
            },
        }
    }
    assert(spans3(out@) + number_spans(w@, pos as int) =~= spans3(out@));
    out
}

fn collect_units(w: &Vec<char>) -> (r: Vec<(usize, usize)>)
    ensures
        spans2(r@) == unit_spans(w@, 0),
{
    let label = char_seq("&nbsp;<label id='Language.");
    let mut out: Vec<(usize, usize)> = Vec::new();
    let mut pos: usize = 0;
    while pos < w.len()
        invariant
            pos <= w@.len(),
            label@ == unit_label(),
            spans2(out@) + unit_spans(w@, pos as int) == unit_spans(w@, 0),
        decreases w@.len() - pos,
    {
        match unit_at_exec(w, pos, &label) {
            Some(m) => {
                let ghost before = out@;
                out.push(m);
                assert(spans2(out@) =~= spans2(before) + seq![(m.0 as int, m.1 as int)]);
                assert(spans2(out@) + unit_spans(w@, m.1 as int) =~= spans2(before) + unit_spans(
                    w@,
                    pos as int,
                ));
                pos = m.1;
            },
            None => {
                pos = pos + 1;
            },
        }
    }
    assert(spans2(out@) + unit_spans(w@, pos as int) =~= spans2(out@));
    out
}

fn pow10_exec(n: u32) -> (r: u64)
    requires
        n <= MAX_DIGITS,
    ensures
        r == pow10(n as nat),
{
    proof {
        lemma_pow10_18();
    }
    let mut p: u64 = 1;
    let mut i: u32 = 0;
    while i < n
        invariant
            i <= n <= MAX_DIGITS,
            p == pow10(i as nat),
            pow10(MAX_DIGITS as nat) == 1_000_000_000_000_000_000,
        decreases n - i,
    {
        proof {
            lemma_pow10_monotone((i + 1) as nat, MAX_DIGITS as nat);
        }
        p = p * 10;
        i = i + 1;
    }
    p
}

fn amount_from(w: &Vec<char>, m: (usize, usize, usize)) -> (r: Option<Amount>)
    requires
        figure_shape(w@, (m.0 as int, m.1 as int, m.2 as int)),
    ensures
        match r {
            Some(x) => amount_of(w@, (m.0 as int, m.1 as int, m.2 as int)) == Some(x@) && x.wf(),
            None => amount_of(w@, (m.0 as int, m.1 as int, m.2 as int)) is None,
        },
{
    let ghost mi = (m.0 as int, m.1 as int, m.2 as int);
    let (a, b, c) = m;
    let mut ds: Vec<char> = Vec::new();
    push_range(&mut ds, w, a, b);
    if c > b {
        push_range(&mut ds, w, b + 1, c);
    }
    assert(ds@ =~= figure_digits(w@, mi));
    if ds.len() > MAX_DIGITS {
        return None;
    }
    assert(forall|j: int| 0 <= j < ds@.len() ==> in_class(#[trigger] ds@[j], CharClass::Digit)) by {
        assert forall|j: int| 0 <= j < ds@.len() implies in_class(
            #[trigger] ds@[j],
            CharClass::Digit,
        ) by {
            if j < b - a {
                assert(ds@[j] == w@[a + j]);
            } else {
                assert(ds@[j] == w@[b + 1 + (j - (b - a))]);
            }
        }
    }
    proof {
        lemma_pow10_18();
    }
    let mut v: u64 = 0;
    let mut i: usize = 0;
    while i < ds.len()
        invariant
            i <= ds@.len() <= MAX_DIGITS,
            forall|j: int| 0 <= j < ds@.len() ==> in_class(#[trigger] ds@[j], CharClass::Digit),
            v == digits_value(ds@.subrange(0, i as int)),
            v < pow10(i as nat),
            pow10(MAX_DIGITS as nat) == 1_000_000_000_000_000_000,
        decreases ds@.len() - i,
    {
        proof {
            lemma_pow10_monotone((i + 1) as nat, MAX_DIGITS as nat);
            assert(ds@.subrange(0, i + 1).drop_last() =~= ds@.subrange(0, i as int));
        }
        let d = (ds[i] as u32 - 48) as u64;
        v = v * 10 + d;
        i = i + 1;
    }
    assert(ds@.subrange(0, ds@.len() as int) =~= ds@);
    proof {
        lemma_pow10_monotone(ds@.len(), MAX_DIGITS as nat);
    }
    let scale: u32 = if c > b {
        (c - b - 1) as u32
    } else {
        0
    };
    Some(Amount { mantissa: v, scale })
}

/// The part of the page after the table's marker, up to the table's end.
fn quota_window_exec(html: &Vec<char>) -> (r: Option<Vec<char>>)
    ensures
        match r {
            Some(w) => quota_window(html@) == Some(w@),
            None => quota_window(html@) is None,
        },
{
    let marker = char_seq("Language.CycleDataTrasfer");
    let close = char_seq("</table>");
    let m = match find_lit(html, &marker, 0) {
        Some(m) => m,
        None => {
            return None;
        },
    };
    assert(m + marker@.len() <= html.len());
    let s = m + marker.len();
    let e = match find_lit(html, &close, s) {
        Some(e) => {
            proof {
                lemma_find_from_bounds(html@, close@, s as int);
            }
            e
        },
        None => html.len(),
    };
    let mut w: Vec<char> = Vec::new();
    push_range(&mut w, html, s, e);
    assert(w@ =~= html@.subrange(s as int, e as int));
    Some(w)
}

fn unit_text(w: &Vec<char>, span: (usize, usize)) -> (r: String)
    requires
        span.0 <= span.1 <= w@.len(),
    ensures
        r@ == w@.subrange(span.0 as int, span.1 as int),
{
    let mut v: Vec<char> = Vec::new();
    push_range(&mut v, w, span.0, span.1);
    assert(v@ =~= w@.subrange(span.0 as int, span.1 as int));
    seq_to_string(&v)
}

/// Reads the five quota figures and their units from the account page.
pub fn parse_quota(html: &str) -> (r: Result<(TrafficStats, TrafficUnits), ParseError>)
    ensures
        match (r, quota_of(html@)) {
            (Ok((stats, units)), Ok((s, u))) => stats@ == s && units@ == u && stats.wf(),
            (Err(e), Err(f)) => e == f,
            _ => false,
        },
{
    let t = char_seq(html);
    let w = match quota_window_exec(&t) {
        Some(w) => w,
        None => {
            return Err(ParseError::MissingTable);
        },
    };
    let ns = collect_numbers(&w);
    if ns.len() < 5 {
        return Err(ParseError::TooFewFigures);
    }
    let us = collect_units(&w);
    if us.len() < 5 {
        return Err(ParseError::TooFewUnits);
    }
    let ghost gns = number_spans(w@, 0);
    let ghost gus = unit_spans(w@, 0);
    proof {
        lemma_number_spans_shape(w@, 0);
        lemma_unit_spans_shape(w@, 0);
        assert forall|k: int| 0 <= k < ns@.len() implies (#[trigger] ns@[k]).0 as int == gns[k].0
            && ns@[k].1 as int == gns[k].1 && ns@[k].2 as int == gns[k].2 by {
            assert(spans3(ns@)[k] == gns[k]);
        }
        assert forall|k: int| 0 <= k < us@.len() implies (#[trigger] us@[k]).0 as int == gus[k].0
            && us@[k].1 as int == gus[k].1 by {
            assert(spans2(us@)[k] == gus[k]);
        }
        assert(figure_shape(w@, gns[0]));
        assert(figure_shape(w@, gns[1]));
        assert(figure_shape(w@, gns[2]));
        assert(figure_shape(w@, gns[3]));
        assert(figure_shape(w@, gns[4]));
    }
    let total = match amount_from(&w, ns[0]) {
        Some(x) => x,
        None => {
            return Err(ParseError::FigureTooLong);
        },
    };
    let last = match amount_from(&w, ns[1]) {
        Some(x) => x,
        None => {
            return Err(ParseError::FigureTooLong);
        },
    };
    let current = match amount_from(&w, ns[2]) {
        Some(x) => x,
        None => {
            return Err(ParseError::FigureTooLong);
        },
    };
    let used = match amount_from(&w, ns[3]) {
        Some(x) => x,
        None => {
            return Err(ParseError::FigureTooLong);
        },
    };
    let remaining = match amount_from(&w, ns[4]) {
        Some(x) => x,
        None => {
            return Err(ParseError::FigureTooLong);
        },
    };
    assert(gus[0].0 <= gus[0].1);
    assert(gus[1].0 <= gus[1].1);
    assert(gus[2].0 <= gus[2].1);
    assert(gus[3].0 <= gus[3].1);
    assert(gus[4].0 <= gus[4].1);
    let units = TrafficUnits {
        total: unit_text(&w, us[0]),
        last: unit_text(&w, us[1]),
        current: unit_text(&w, us[2]),
        used: unit_text(&w, us[3]),
        remaining: unit_text(&w, us[4]),
    };
    let stats = TrafficStats { total, last, current, used, remaining };
    proof {
        let q = quota_of(html@);
        assert(forall|k: int| 0 <= k < 5 ==> #[trigger] amount_of(w@, gns[k]) is Some);
        assert(stats@ =~= Seq::new(5, |k: int| amount_of(w@, gns[k])->0));
        assert(units@ =~= Seq::new(5, |k: int| w@.subrange(gus[k].0, gus[k].1)));
    }
    Ok((stats, units))
}

/// The warning level that the figures call for.
pub fn notification_state(stats: &TrafficStats) -> (r: NotificationState)
    requires
        stats.wf(),
    ensures
        r == band(stats.used@, stats.total@),
{
    proof {
        lemma_pow10_18();
        lemma_pow10_monotone(stats.total.scale as nat, MAX_DIGITS as nat);
        lemma_pow10_monotone(stats.used.scale as nat, MAX_DIGITS as nat);
    }
    let pu = pow10_exec(stats.total.scale) as u128;
    let pt = pow10_exec(stats.used.scale) as u128;
    let mu = stats.used.mantissa as u128;
    let mt = stats.total.mantissa as u128;
    assert(mu * pu < 1_000_000_000_000_000_000_000_000_000_000_000_000) by (nonlinear_arith)
        requires
            mu < 1_000_000_000_000_000_000u128,
            pu <= 1_000_000_000_000_000_000u128,
    ;
    assert(mt * pt < 1_000_000_000_000_000_000_000_000_000_000_000_000) by (nonlinear_arith)
        requires
            mt < 1_000_000_000_000_000_000u128,
            pt <= 1_000_000_000_000_000_000u128,
    ;
    let u = mu * pu;
    let t = mt * pt;
    if 2 * u < t {
        NotificationState::Quiet
    } else if 10 * u < 9 * t {
        NotificationState::Used50
    } else if u < t {
        NotificationState::Used90
    } else {
        NotificationState::Used100
    }
}

} // verus!
