use vstd::prelude::*;

use crate::expense::{parse_date, parsed_date, FORM_DATE_PATTERN};

verus! {

/// Whether `c` has Unicode's White_Space property: the 25 code points that
/// `char::is_whitespace` lists.
pub open spec fn is_white(c: char) -> bool {
    let n = c as u32;
    ||| 0x09 <= n <= 0x0d
    ||| n == 0x20
    ||| n == 0x85
    ||| n == 0xa0
    ||| n == 0x1680
    ||| 0x2000 <= n <= 0x200a
    ||| n == 0x2028
    ||| n == 0x2029
    ||| n == 0x202f
    ||| n == 0x205f
    ||| n == 0x3000
}

fn white(c: char) -> (r: bool)
    ensures
        r == is_white(c),
{
    let n = c as u32;
    (0x09 <= n && n <= 0x0d) || n == 0x20 || n == 0x85 || n == 0xa0 || n == 0x1680 || (0x2000
        <= n && n <= 0x200a) || n == 0x2028 || n == 0x2029 || n == 0x202f || n == 0x205f || n
        == 0x3000
}

pub open spec fn trim_start(s: Seq<char>) -> Seq<char>
    decreases s.len(),
{
    if s.len() > 0 && is_white(s[0]) {
        trim_start(s.drop_first())
    } else {
        s
    }
}

pub open spec fn trim_end(s: Seq<char>) -> Seq<char>
    decreases s.len(),
{
    if s.len() > 0 && is_white(s.last()) {
        trim_end(s.drop_last())
    } else {
        s
    }
}

/// `s` without leading and trailing white space.
pub open spec fn trim(s: Seq<char>) -> Seq<char> {
    trim_end(trim_start(s))
}

pub open spec fn has_no_pipe(s: Seq<char>) -> bool {
    forall|i: int| 0 <= i < s.len() ==> s[i] != '|'
}

/// `s` is `a|b|c`, with no other separator in it.
pub open spec fn splits_into(s: Seq<char>, a: Seq<char>, b: Seq<char>, c: Seq<char>) -> bool {
    &&& has_no_pipe(a)
    &&& has_no_pipe(b)
    &&& has_no_pipe(c)
    &&& s == a + seq!['|'] + b + seq!['|'] + c
}

/// `s` holds exactly two separators, hence exactly three fields.
pub open spec fn has_three_fields(s: Seq<char>) -> bool {
    exists|a: Seq<char>, b: Seq<char>, c: Seq<char>| splits_into(s, a, b, c)
}

/// The three fields of `s`, where it has three.
pub open spec fn fields_of(s: Seq<char>) -> (Seq<char>, Seq<char>, Seq<char>) {
    choose|a: Seq<char>, b: Seq<char>, c: Seq<char>| splits_into(s, a, b, c)
}

/// `s` with every decimal comma turned into a decimal point.
pub open spec fn comma_to_point(s: Seq<char>) -> Seq<char> {
    s.map_values(|c: char| if c == ',' { '.' } else { c })
}

pub open spec fn is_digit(c: char) -> bool {
    '0' <= c <= '9'
}

pub open spec fn unsigned_part(s: Seq<char>) -> Seq<char> {
    if s.len() > 0 && (s[0] == '+' || s[0] == '-') {
        s.drop_first()
    } else {
        s
    }
}

/// Digits with at most one decimal point among them, and at least one digit.
pub open spec fn is_mantissa(m: Seq<char>) -> bool {
    &&& forall|i: int| 0 <= i < m.len() ==> is_digit(m[i]) || m[i] == '.'
    &&& forall|i: int, j: int| 0 <= i < m.len() && 0 <= j < m.len() && m[i] == '.' && m[j] == '.' ==> i == j
    &&& exists|i: int| 0 <= i < m.len() && is_digit(m[i])
}

/// An optional sign, then one digit or more.
pub open spec fn is_exponent(x: Seq<char>) -> bool {
    let d = unsigned_part(x);
    &&& d.len() > 0
    &&& forall|i: int| 0 <= i < d.len() ==> is_digit(d[i])
}

pub open spec fn is_exponent_mark(c: char) -> bool {
    c == 'e' || c == 'E'
}

/// A mantissa, with or without an exponent after `e` or `E`.
pub open spec fn is_number(u: Seq<char>) -> bool {
    ||| is_mantissa(u)
    ||| exists|k: int|
        0 <= k < u.len() && is_exponent_mark(u[k]) && is_mantissa(#[trigger] u.subrange(0, k))
            && is_exponent(u.subrange(k + 1, u.len() as int))
}

/// `u` spells `word`, letter by letter in either case.
pub open spec fn spells(u: Seq<char>, lower: Seq<char>, upper: Seq<char>) -> bool {
    &&& u.len() == lower.len()
    &&& forall|i: int| 0 <= i < u.len() ==> u[i] == lower[i] || u[i] == upper[i]
}

/// Infinity or not-a-number, in any case.
pub open spec fn is_special(u: Seq<char>) -> bool {
    ||| spells(u, "inf"@, "INF"@)
    ||| spells(u, "infinity"@, "INFINITY"@)
    ||| spells(u, "nan"@, "NAN"@)
}

/// A number as `f64::from_str` reads one: an optional sign, then `inf`,
/// `infinity` or `nan` in any case, or digits with an optional decimal point
/// and an optional exponent, with at least one digit before the exponent.
pub open spec fn is_decimal(s: Seq<char>) -> bool {
    let u = unsigned_part(s);
    is_special(u) || is_number(u)
}

/// Why a line of the creation form was refused.
#[derive(Clone, Copy, Debug, PartialEq, Eq, Structural)]
pub enum FormError {
    /// The line does not hold exactly three `|`-separated fields.
    FieldCount,
    /// The amount is not a decimal number.
    BadAmount,
    /// The date is not a `DD-MM-YYYY` calendar date.
    BadDate,
}

/// A record accepted by the creation form, ready for the store.
#[derive(Clone, Debug)]
pub struct NewExpense {
    pub description: String,
    /// The amount with a decimal point in place of any decimal comma.
    pub amount: String,
    /// The date as it was typed.
    pub date: String,
}

impl NewExpense {
    pub open spec fn fields(self) -> (Seq<char>, Seq<char>, Seq<char>) {
        (self.description@, self.amount@, self.date@)
    }
}

pub open spec fn form_date(date: Seq<char>) -> Option<(int, int, int)> {
    parsed_date(date, FORM_DATE_PATTERN@)
}

/// What the creation form makes of one line: the description, the
/// normalised amount and the date text, or the first rule that it breaks.
pub open spec fn form_outcome(line: Seq<char>) -> Result<(Seq<char>, Seq<char>, Seq<char>), FormError> {
    if !has_three_fields(line) {
        Err(FormError::FieldCount)
    } else {
        let (a, b, c) = fields_of(line);
        let amount = comma_to_point(trim(b));
        if !is_decimal(amount) {
            Err(FormError::BadAmount)
        } else if form_date(trim(c)) is None {
            Err(FormError::BadDate)
        } else {
            Ok((trim(a), amount, trim(c)))
        }
    }
}

pub open spec fn outcome_of(r: Result<NewExpense, FormError>) -> Result<(Seq<char>, Seq<char>, Seq<char>), FormError> {
    match r {
        Ok(e) => Ok(e.fields()),
        Err(e) => Err(e),
    }
}

proof fn lemma_pipe_positions(s: Seq<char>, a: Seq<char>, b: Seq<char>, c: Seq<char>, k: int)
    requires
        splits_into(s, a, b, c),
        0 <= k < s.len(),
    ensures
        s[a.len() as int] == '|',
        s[(a.len() + 1 + b.len()) as int] == '|',
        s[k] == '|' ==> k == a.len() || k == a.len() + 1 + b.len(),
{
    let x = a.len() as int;
    let y = (a.len() + 1 + b.len()) as int;
    assert(s[x] == (a + seq!['|'])[x]);
    assert(s[y] == (a + seq!['|'] + b + seq!['|'])[y]);
    if k < x {
        assert(s[k] == a[k]);
    } else if x < k < y {
        assert(s[k] == b[k - x - 1]);
    } else if k > y {
        assert(s[k] == c[k - y - 1]);
    }
}

proof fn lemma_split_unique(
    s: Seq<char>,
    a: Seq<char>,
    b: Seq<char>,
    c: Seq<char>,
    a2: Seq<char>,
    b2: Seq<char>,
    c2: Seq<char>,
)
    requires
        splits_into(s, a, b, c),
        splits_into(s, a2, b2, c2),
    ensures
        a == a2 && b == b2 && c == c2,
{
    let x = a.len() as int;
    let y = (a.len() + 1 + b.len()) as int;
    let x2 = a2.len() as int;
    let y2 = (a2.len() + 1 + b2.len()) as int;
    lemma_pipe_positions(s, a, b, c, x2);
    lemma_pipe_positions(s, a, b, c, y2);
    lemma_pipe_positions(s, a2, b2, c2, x);
    lemma_pipe_positions(s, a2, b2, c2, y);
    assert(x == x2 && y == y2);
    assert(a =~= s.subrange(0, x));
    assert(a2 =~= s.subrange(0, x));
    assert(b =~= s.subrange(x + 1, y));
    assert(b2 =~= s.subrange(x + 1, y));
    assert(c =~= s.subrange(y + 1, s.len() as int));
    assert(c2 =~= s.subrange(y + 1, s.len() as int));
}

/// The text of `s` without leading and trailing white space.
pub fn trimmed(s: &str) -> (r: String)
    ensures
        r@ == trim(s@),
{
    let n = s.unicode_len();
    let mut start: usize = 0;
    assert(s@.subrange(0, n as int) =~= s@);
    while start < n && white(s.get_char(start))
        invariant
            n == s@.len(),
            start <= n,
            trim_start(s@) == trim_start(s@.subrange(start as int, n as int)),
        decreases n - start,
    {
        assert(s@.subrange(start + 1, n as int) =~= s@.subrange(start as int, n as int).drop_first());
        start = start + 1;
    }
    assert(trim_start(s@) == s@.subrange(start as int, n as int));
    let mut end: usize = n;
    while end > start && white(s.get_char(end - 1))
        invariant
            n == s@.len(),
            start <= end <= n,
            trim(s@) == trim_end(s@.subrange(start as int, end as int)),
        decreases end,
    {
        assert(s@.subrange(start as int, end - 1) =~= s@.subrange(start as int, end as int).drop_last());
        end = end - 1;
    }
    assert(trim(s@) == s@.subrange(start as int, end as int));
    String::from_str(s.substring_char(start, end))
}

/// The three `|`-separated fields of `line`, untrimmed, or `None` where the
/// line does not hold exactly two separators.
pub fn split_fields(line: &str) -> (r: Option<(String, String, String)>)
    ensures
        r is None <==> !has_three_fields(line@),
        r matches Some((a, b, c)) ==> (a@, b@, c@) == fields_of(line@),
{
    let n = line.unicode_len();
    let mut p1: usize = 0;
    let mut p2: usize = 0;
    let mut p3: usize = 0;
    let mut count: usize = 0;
    let mut i: usize = 0;
    while i < n && count < 3
        invariant
            n == line@.len(),
            i <= n,
            count <= 3,
            count >= 1 ==> p1 < i && line@[p1 as int] == '|',
            count >= 2 ==> p1 < p2 < i && line@[p2 as int] == '|',
            count >= 3 ==> p2 < p3 < i && line@[p3 as int] == '|',
            forall|k: int|
                0 <= k < i && line@[k] == '|' ==> (count >= 1 && k == p1) || (count >= 2 && k
                    == p2) || (count >= 3 && k == p3),
        decreases n - i,
    {
        if line.get_char(i) == '|' {
            if count == 0 {
                p1 = i;
            } else if count == 1 {
                p2 = i;
            } else {
                p3 = i;
            }
            count = count + 1;
        }
        i = i + 1;
    }
    let ghost s = line@;
    if count == 2 {
        let a = String::from_str(line.substring_char(0, p1));
        let b = String::from_str(line.substring_char(p1 + 1, p2));
        let c = String::from_str(line.substring_char(p2 + 1, n));
        proof {
            assert(s =~= a@ + seq!['|'] + b@ + seq!['|'] + c@);
            assert(splits_into(s, a@, b@, c@));
            let (fa, fb, fc) = fields_of(s);
            lemma_split_unique(s, a@, b@, c@, fa, fb, fc);
        }
        Some((a, b, c))
    } else {
        proof {
            assert forall|a: Seq<char>, b: Seq<char>, c: Seq<char>| !splits_into(s, a, b, c) by {
                if splits_into(s, a, b, c) {
                    let x = a.len() as int;
                    let y = (a.len() + 1 + b.len()) as int;
                    lemma_pipe_positions(s, a, b, c, x);
                    if count == 3 {
                        lemma_pipe_positions(s, a, b, c, p1 as int);
                        lemma_pipe_positions(s, a, b, c, p2 as int);
                        lemma_pipe_positions(s, a, b, c, p3 as int);
                    }
                }
            }
        }
        None
    }
}

/// `s` with every `,` replaced by `.`.
pub fn decimal_point(s: &str) -> (r: String)
    ensures
        r@ == comma_to_point(s@),
{
    let n = s.unicode_len();
    let mut r = String::new();
    let mut i: usize = 0;
    proof {
        reveal_strlit(".");
    }
    while i < n
        invariant
            n == s@.len(),
            i <= n,
            r@ == comma_to_point(s@.subrange(0, i as int)),
            "."@ == seq!['.'],
        decreases n - i,
    {
        let c = s.get_char(i);
        if c == ',' {
            r.append(".");
        } else {
            r.append(s.substring_char(i, i + 1));
        }
        assert(comma_to_point(s@.subrange(0, i + 1)) =~= comma_to_point(s@.subrange(0, i as int))
            + seq![if c == ',' { '.' } else { c }]);
        i = i + 1;
    }
    assert(s@.subrange(0, n as int) =~= s@);
    r
}

/// Whether `s[from..to]` is a mantissa (see `is_mantissa`).
fn mantissa_ok(s: &str, from: usize, to: usize) -> (r: bool)
    requires
        from <= to <= s@.len(),
    ensures
        r == is_mantissa(s@.subrange(from as int, to as int)),
{
    let ghost m = s@.subrange(from as int, to as int);
    let mut i: usize = from;
    let mut dot: Option<usize> = None;
    let mut digit: bool = false;
    while i < to
        invariant
            from <= i <= to <= s@.len(),
            m == s@.subrange(from as int, to as int),
            forall|k: int| from <= k < i ==> is_digit(s@[k]) || s@[k] == '.',
            dot is None ==> forall|k: int| from <= k < i ==> s@[k] != '.',
            dot matches Some(d) ==> from <= d < i && s@[d as int] == '.' && forall|k: int|
                from <= k < i && s@[k] == '.' ==> k == d,
            digit <==> exists|k: int| from <= k < i && is_digit(s@[k]),
        decreases to - i,
    {
        let c = s.get_char(i);
        if c == '.' {
            if dot.is_some() {
                proof {
                    let d = dot->Some_0;
                    assert(m[d - from] == '.' && m[i - from] == '.');
                }
                return false;
            }
            dot = Some(i);
        } else if '0' <= c && c <= '9' {
            digit = true;
        } else {
            assert(!(is_digit(m[i - from]) || m[i - from] == '.'));
            return false;
        }
        i = i + 1;
    }
    if !digit {
        assert forall|j: int| 0 <= j < m.len() implies !is_digit(m[j]) by {
            assert(m[j] == s@[j + from]);
        }
        return false;
    }
    proof {
        let k = choose|k: int| from <= k < i && is_digit(s@[k]);
        assert(m[k - from] == s@[k]);
        assert forall|p: int, q: int|
            0 <= p < m.len() && 0 <= q < m.len() && m[p] == '.' && m[q] == '.' implies p == q by {
            assert(m[p] == s@[p + from]);
            assert(m[q] == s@[q + from]);
        }
        assert forall|p: int| 0 <= p < m.len() implies is_digit(m[p]) || m[p] == '.' by {
            assert(m[p] == s@[p + from]);
        }
    }
    true
}

/// Whether `s[from..to]` is an exponent (see `is_exponent`).
fn exponent_ok(s: &str, from: usize, to: usize) -> (r: bool)
    requires
        from <= to <= s@.len(),
    ensures
        r == is_exponent(s@.subrange(from as int, to as int)),
{
    let ghost x = s@.subrange(from as int, to as int);
    let mut start: usize = from;
    if from < to {
        let c = s.get_char(from);
        if c == '+' || c == '-' {
            start = from + 1;
        }
    }
    let ghost d = unsigned_part(x);
    assert(d =~= s@.subrange(start as int, to as int));
    if start == to {
        return false;
    }
    let mut i: usize = start;
    while i < to
        invariant
            start <= i <= to <= s@.len(),
            d == s@.subrange(start as int, to as int),
            d == unsigned_part(s@.subrange(from as int, to as int)),
            forall|k: int| start <= k < i ==> is_digit(s@[k]),
        decreases to - i,
    {
        let c = s.get_char(i);
        if !('0' <= c && c <= '9') {
            assert(!is_digit(d[i - start]));
            return false;
        }
        i = i + 1;
    }
    assert forall|p: int| 0 <= p < d.len() implies is_digit(d[p]) by {
        assert(d[p] == s@[p + start]);
    }
    true
}

/// Whether `s[from..to]` spells the word given in both cases.
fn spells_ok(s: &str, from: usize, to: usize, lower: &str, upper: &str) -> (r: bool)
    requires
        from <= to <= s@.len(),
        lower@.len() == upper@.len(),
    ensures
        r == spells(s@.subrange(from as int, to as int), lower@, upper@),
{
    let ghost u = s@.subrange(from as int, to as int);
    let n = lower.unicode_len();
    if to - from != n {
        return false;
    }
    let mut i: usize = 0;
    while i < n
        invariant
            n == lower@.len() == upper@.len(),
            to - from == n,
            from <= to <= s@.len(),
            u == s@.subrange(from as int, to as int),
            i <= n,
            forall|k: int| 0 <= k < i ==> u[k] == lower@[k] || u[k] == upper@[k],
        decreases n - i,
    {
        let c = s.get_char(from + i);
        assert(u[i as int] == c);
        if c != lower.get_char(i) && c != upper.get_char(i) {
            return false;
        }
        i = i + 1;
    }
    true
}

/// Whether `s` is a number as `f64::from_str` reads one (see `is_decimal`).
pub fn decimal_ok(s: &str) -> (r: bool)
    ensures
        r == is_decimal(s@),
{
    let n = s.unicode_len();
    let mut start: usize = 0;
    if n > 0 {
        let c0 = s.get_char(0);
        if c0 == '+' || c0 == '-' {
            start = 1;
        }
    }
    let ghost u = unsigned_part(s@);
    assert(u =~= s@.subrange(start as int, n as int));
    proof {
        reveal_strlit("inf");
        reveal_strlit("INF");
        reveal_strlit("infinity");
        reveal_strlit("INFINITY");
        reveal_strlit("nan");
        reveal_strlit("NAN");
    }
    if spells_ok(s, start, n, "inf", "INF") || spells_ok(s, start, n, "infinity", "INFINITY")
        || spells_ok(s, start, n, "nan", "NAN") {
        return true;
    }
    let mut k: usize = start;
    while k < n && !(s.get_char(k) == 'e' || s.get_char(k) == 'E')
        invariant
            start <= k <= n,
            n == s@.len(),
            forall|j: int| start <= j < k ==> !is_exponent_mark(s@[j]),
        decreases n - k,
    {
        k = k + 1;
    }
    if k == n {
        proof {
            assert forall|j: int| 0 <= j < u.len() implies !is_exponent_mark(u[j]) by {
                assert(u[j] == s@[j + start]);
            }
        }
        return mantissa_ok(s, start, n);
    }
    let ghost kk = k - start;
    assert(s@.subrange(start as int, k as int) =~= u.subrange(0, kk));
    assert(s@.subrange(k + 1, n as int) =~= u.subrange(kk + 1, u.len() as int));
    assert(is_exponent_mark(u[kk]));
    let r = mantissa_ok(s, start, k) && exponent_ok(s, k + 1, n);
    proof {
        if !r {
            assert forall|j: int|
                0 <= j < u.len() && is_exponent_mark(u[j]) && is_mantissa(
                    #[trigger] u.subrange(0, j),
                ) implies !is_exponent(u.subrange(j + 1, u.len() as int)) by {
                if j < kk {
                    assert(u[j] == s@[j + start]);
                } else if j > kk {
                    assert(u.subrange(0, j)[kk] == u[kk]);
                } else {
                }
            }
        }
    }
    r
}

/// The last step of the form: the fields already checked, and the date as
/// the date library read it against `FORM_DATE_PATTERN`.
pub fn finish_form(description: String, amount: String, date: String, parsed: Option<
    crate::expense::CalendarDate,
>) -> (r: Result<NewExpense, FormError>)
    ensures
        parsed is None ==> r == Err::<NewExpense, FormError>(FormError::BadDate),
        parsed is Some ==> (r matches Ok(e) && e.fields() == (description@, amount@, date@)),
{
    match parsed {
        None => Err(FormError::BadDate),
        Some(_) => Ok(NewExpense { description, amount, date }),
    }
}

/// Reads one line of the creation form, `description | amount | date`:
/// exactly three fields, each trimmed; the amount a decimal number once any
/// decimal comma is a point; the date a `DD-MM-YYYY` calendar date.
pub fn read_form(line: &str) -> (r: Result<NewExpense, FormError>)
    ensures
        outcome_of(r) == form_outcome(line@),
{
    let (a, b, c) = match split_fields(line) {
        None => {
            return Err(FormError::FieldCount);
        },
        Some(f) => f,
    };
    let description = trimmed(a.as_str());
    let amount = decimal_point(trimmed(b.as_str()).as_str());
    if !decimal_ok(amount.as_str()) {
        return Err(FormError::BadAmount);
    }
    let date = trimmed(c.as_str());
    let parsed = parse_date(date.as_str(), FORM_DATE_PATTERN);
    finish_form(description, amount, date, parsed)
}

} // verus!
