//! Character-level helpers: ISO-8601 duration reading, truncation for narrow
//! panels, decimal rendering and the elapsed-time clock face.
use vstd::prelude::*;

verus! {

/// Appends one character to a string (`String::push`).
#[verifier::external_body]
pub(crate) fn push_char(s: &mut String, c: char)
    ensures
        final(s)@ == old(s)@.push(c),
{
    s.push(c)
}

/// Removes the last character of a string (`String::pop`).
#[verifier::external_body]
pub(crate) fn pop_char(s: &mut String) -> (r: Option<char>)
    ensures
        old(s)@.len() == 0 ==> r is None && final(s)@ == old(s)@,
        old(s)@.len() > 0 ==> r == Some(old(s)@.last()) && final(s)@ == old(s)@.drop_last(),
{
    s.pop()
}

/// A character with the Unicode `White_Space` property (`char::is_whitespace`).
pub open spec fn is_white_space(c: char) -> bool {
    let n = c as int;
    ||| 0x09 <= n <= 0x0D
    ||| n == 0x20
    ||| n == 0x85
    ||| n == 0xA0
    ||| n == 0x1680
    ||| 0x2000 <= n <= 0x200A
    ||| n == 0x2028
    ||| n == 0x2029
    ||| n == 0x202F
    ||| n == 0x205F
    ||| n == 0x3000
}

/// The text without its leading white space.
pub open spec fn trim_start(s: Seq<char>) -> Seq<char>
    decreases s.len(),
{
    if s.len() > 0 && is_white_space(s[0]) {
        trim_start(s.drop_first())
    } else {
        s
    }
}

/// The text without its trailing white space.
pub open spec fn trim_end(s: Seq<char>) -> Seq<char>
    decreases s.len(),
{
    if s.len() > 0 && is_white_space(s.last()) {
        trim_end(s.drop_last())
    } else {
        s
    }
}

/// The text without its leading and trailing white space.
pub open spec fn trimmed(s: Seq<char>) -> Seq<char> {
    trim_end(trim_start(s))
}

/// `str::trim`, copied into a new string: the text without its leading and
/// trailing characters of the Unicode `White_Space` property.
#[verifier::external_body]
pub(crate) fn trim_copy(s: &str) -> (r: String)
    ensures
        r@ == trimmed(s@),
{
    s.trim().to_string()
}

/// Copies a string slice into an owned string.
pub fn owned(s: &str) -> (r: String)
    ensures
        r@ == s@,
{
    s.to_owned()
}

/// Appends every character of `tail` to `out`.
pub fn append_str(out: &mut String, tail: &str)
    ensures
        final(out)@ == old(out)@ + tail@,
{
    let cs = chars_of(tail);
    let mut i: usize = 0;
    while i < cs.len()
        invariant
            0 <= i <= cs.len(),
            cs@ == tail@,
            out@ == old(out)@ + tail@.take(i as int),
        decreases cs.len() - i,
    {
        push_char(out, cs[i]);
        assert(tail@.take(i as int + 1) =~= tail@.take(i as int).push(tail@[i as int]));
        i = i + 1;
    }
    assert(tail@.take(cs.len() as int) =~= tail@);
}

/// The characters of a string slice, in order.
pub fn chars_of(s: &str) -> (v: Vec<char>)
    ensures
        v@ == s@,
{
    let mut v: Vec<char> = Vec::new();
    for c in it: s.chars()
        invariant
            v@ == it.seq().take(it.index()),
    {
        v.push(c);
    }
    v
}

// ---------------------------------------------------------------------
// Decimal digits
// ---------------------------------------------------------------------

/// An ASCII decimal digit, as `char::is_digit(10)` accepts it.
pub open spec fn is_ascii_digit(c: char) -> bool {
    '0' <= c && c <= '9'
}

/// The value of an ASCII decimal digit.
pub open spec fn digit_value(c: char) -> nat {
    ((c as int) - ('0' as int)) as nat
}

/// The character of a decimal digit `d < 10`.
pub open spec fn digit_char(d: nat) -> char {
    if d == 0 { '0' }
    else if d == 1 { '1' }
    else if d == 2 { '2' }
    else if d == 3 { '3' }
    else if d == 4 { '4' }
    else if d == 5 { '5' }
    else if d == 6 { '6' }
    else if d == 7 { '7' }
    else if d == 8 { '8' }
    else { '9' }
}

/// The value of a string of decimal digits, most significant first.
pub open spec fn digits_value(ds: Seq<char>) -> nat
    decreases ds.len(),
{
    if ds.len() == 0 {
        0
    } else {
        digits_value(ds.drop_last()) * 10 + digit_value(ds.last())
    }
}

/// Decimal rendering of a natural number, without leading zeros.
pub open spec fn decimal(n: nat) -> Seq<char>
    decreases n,
{
    if n < 10 {
        seq![digit_char(n)]
    } else {
        decimal(n / 10).push(digit_char(n % 10))
    }
}

/// Decimal rendering padded with zeros to at least two characters (`{:02}`).
pub open spec fn pad2(n: nat) -> Seq<char> {
    if n < 10 {
        seq!['0'] + decimal(n)
    } else {
        decimal(n)
    }
}

fn digit_to_char(d: u64) -> (c: char)
    requires
        d < 10,
    ensures
        c == digit_char(d as nat),
{
    if d == 0 { '0' }
    else if d == 1 { '1' }
    else if d == 2 { '2' }
    else if d == 3 { '3' }
    else if d == 4 { '4' }
    else if d == 5 { '5' }
    else if d == 6 { '6' }
    else if d == 7 { '7' }
    else if d == 8 { '8' }
    else { '9' }
}

/// Appends the decimal rendering of `n` to `out`.
pub fn push_decimal(out: &mut String, n: u64)
    ensures
        final(out)@ == old(out)@ + decimal(n as nat),
    decreases n,
{
    if n < 10 {
        push_char(out, digit_to_char(n));
        assert(final(out)@ =~= old(out)@ + decimal(n as nat));
    } else {
        push_decimal(out, n / 10);
        push_char(out, digit_to_char(n % 10));
        assert(final(out)@ =~= old(out)@ + decimal(n as nat));
    }
}

/// The decimal rendering of `n` (`n.to_string()`).
pub fn decimal_string(n: u64) -> (r: String)
    ensures
        r@ == decimal(n as nat),
{
    let mut out = String::new();
    push_decimal(&mut out, n);
    assert(out@ =~= decimal(n as nat));
    out
}

/// Appends `n` padded with zeros to two characters.
pub fn push_pad2(out: &mut String, n: u64)
    ensures
        final(out)@ == old(out)@ + pad2(n as nat),
{
    if n < 10 {
        push_char(out, '0');
    }
    push_decimal(out, n);
    assert(final(out)@ =~= old(out)@ + pad2(n as nat));
}

// ---------------------------------------------------------------------
// ISO-8601 durations such as `PT1H30M`
// ---------------------------------------------------------------------

/// What `str::parse::<u64>` gives for a run of ASCII digits, with a failed
/// parse (the value does not fit) read as zero.
pub open spec fn parsed_or_zero(ds: Seq<char>) -> nat {
    if digits_value(ds) <= u64::MAX {
        digits_value(ds)
    } else {
        0
    }
}

/// Reads a duration left to right: digits accumulate, `H` takes the pending
/// digits as hours, `M` takes them as minutes, and every other character
/// (the `P` and `T` of the prefix among them) is skipped without touching the
/// pending digits.  Gives `(hours, minutes)`.
pub open spec fn iso_scan(cs: Seq<char>, hours: nat, minutes: nat, pending: Seq<char>) -> (nat, nat)
    decreases cs.len(),
{
    if cs.len() == 0 {
        (hours, minutes)
    } else {
        let c = cs[0];
        let rest = cs.drop_first();
        if is_ascii_digit(c) {
            iso_scan(rest, hours, minutes, pending.push(c))
        } else if c == 'H' {
            iso_scan(rest, parsed_or_zero(pending), minutes, seq![])
        } else if c == 'M' {
            iso_scan(rest, hours, parsed_or_zero(pending), seq![])
        } else {
            iso_scan(rest, hours, minutes, pending)
        }
    }
}

/// The number of minutes an ISO-8601 duration such as `PT2H15M` stands for:
/// sixty per hour plus the minutes; seconds are not counted.
pub open spec fn iso_duration_minutes(s: Seq<char>) -> nat {
    let (h, m) = iso_scan(s, 0, 0, seq![]);
    h * 60 + m
}

proof fn lemma_digits_push(ds: Seq<char>, c: char)
    ensures
        digits_value(ds.push(c)) == digits_value(ds) * 10 + digit_value(c),
{
    assert(ds.push(c).drop_last() =~= ds);
}

/// Reads the hours and minutes of an ISO-8601 duration.
fn iso_hours_minutes(duration_str: &str) -> (r: (u64, u64))
    ensures
        iso_scan(duration_str@, 0, 0, seq![]) == (r.0 as nat, r.1 as nat),
{
    let mut hours: u64 = 0;
    let mut mins: u64 = 0;
    let mut cur: u64 = 0;
    let mut overflow = false;
    let ghost mut pending: Seq<char> = seq![];
    let ghost full = duration_str@;
    assert(full.skip(0) =~= full);
    for c in it: duration_str.chars()
        invariant
            it.seq() == full,
            full == duration_str@,
            iso_scan(full, 0, 0, seq![]) == iso_scan(
                full.skip(it.index()),
                hours as nat,
                mins as nat,
                pending,
            ),
            overflow == (digits_value(pending) > u64::MAX),
            !overflow ==> cur == digits_value(pending),
    {
        let ghost i = it.index();
        assert(full.skip(i).drop_first() =~= full.skip(i + 1));
        assert(full.skip(i)[0] == c);
        if '0' <= c && c <= '9' {
            proof {
                lemma_digits_push(pending, c);
            }
            let d = (c as u32 - '0' as u32) as u64;
            assert(d == digit_value(c));
            if !overflow {
                if cur <= (u64::MAX - d) / 10 {
                    cur = cur * 10 + d;
                } else {
                    overflow = true;
                }
            }
            proof {
                pending = pending.push(c);
            }
        } else if c == 'H' {
            hours = if overflow { 0 } else { cur };
            cur = 0;
            overflow = false;
            proof {
                pending = seq![];
            }
        } else if c == 'M' {
            mins = if overflow { 0 } else { cur };
            cur = 0;
            overflow = false;
            proof {
                pending = seq![];
            }
        }
    }
    assert(full.skip(full.len() as int) =~= Seq::<char>::empty());
    (hours, mins)
}

/// Reads an ISO-8601 duration (`PT1H30M`) as a number of minutes.
pub fn parse_iso_duration(duration_str: &str) -> (minutes: u64)
    requires
        iso_duration_minutes(duration_str@) <= u64::MAX,
    ensures
        minutes == iso_duration_minutes(duration_str@),
{
    let (hours, mins) = iso_hours_minutes(duration_str);
    hours * 60 + mins
}

/// `parse_iso_duration`, or `None` where the number of minutes does not fit
/// in 64 bits.
pub fn checked_iso_duration(duration_str: &str) -> (minutes: Option<u64>)
    ensures
        iso_duration_minutes(duration_str@) <= u64::MAX ==> minutes == Some(
            iso_duration_minutes(duration_str@) as u64,
        ),
        iso_duration_minutes(duration_str@) > u64::MAX ==> minutes is None,
{
    let (hours, mins) = iso_hours_minutes(duration_str);
    match hours.checked_mul(60) {
        Some(h) => h.checked_add(mins),
        None => None,
    }
}

// ---------------------------------------------------------------------
// Clock times typed as `HH:MM`
// ---------------------------------------------------------------------

/// The digits `str::parse::<u32>` reads: the text without one leading `+`.
pub open spec fn unsigned_digits(s: Seq<char>) -> Seq<char> {
    if s.len() > 0 && s[0] == '+' {
        s.drop_first()
    } else {
        s
    }
}

/// All characters are ASCII decimal digits.
pub open spec fn all_digits(s: Seq<char>) -> bool {
    forall|i: int| 0 <= i < s.len() ==> is_ascii_digit(#[trigger] s[i])
}

/// What `str::parse::<u32>` gives: an optional `+` followed by at least one
/// ASCII digit, with a value that fits in 32 bits.
pub open spec fn u32_text_value(s: Seq<char>) -> Option<nat> {
    let ds = unsigned_digits(s);
    if ds.len() > 0 && all_digits(ds) && digits_value(ds) <= u32::MAX {
        Some(digits_value(ds))
    } else {
        None
    }
}

/// `i` is the position of the only `:` in `s`.
pub open spec fn only_colon_at(s: Seq<char>, i: int) -> bool {
    &&& 0 <= i < s.len()
    &&& s[i] == ':'
    &&& forall|j: int| 0 <= j < s.len() && j != i ==> s[j] != ':'
}

/// An `HH:MM` time as the entry form accepts it: exactly one `:` splitting
/// two numbers that `str::parse::<u32>` reads, the hour below 24 and the
/// minute below 60.
pub open spec fn clock_value(s: Seq<char>) -> Option<(nat, nat)> {
    if exists|i: int| only_colon_at(s, i) {
        let i = choose|i: int| only_colon_at(s, i);
        match (u32_text_value(s.take(i)), u32_text_value(s.skip(i + 1))) {
            (Some(h), Some(m)) => if h < 24 && m < 60 {
                Some((h, m))
            } else {
                None
            },
            _ => None,
        }
    } else {
        None
    }
}

proof fn lemma_digits_prefix(s: Seq<char>, k: int)
    requires
        0 <= k <= s.len(),
        all_digits(s),
    ensures
        digits_value(s.take(k)) <= digits_value(s),
    decreases s.len(),
{
    if k < s.len() {
        let t = s.drop_last();
        assert(all_digits(t)) by {
            assert forall|i: int| 0 <= i < t.len() implies is_ascii_digit(#[trigger] t[i]) by {
                assert(t[i] == s[i]);
            }
        }
        lemma_digits_prefix(t, k);
        assert(t.take(k) =~= s.take(k));
    } else {
        assert(s.take(k) =~= s);
    }
}

/// Reads `cs[lo..hi]` as `str::parse::<u32>` does.
fn parse_u32_part(cs: &Vec<char>, lo: usize, hi: usize) -> (r: Option<u32>)
    requires
        lo <= hi <= cs@.len(),
    ensures
        r matches Some(v) ==> u32_text_value(cs@.subrange(lo as int, hi as int)) == Some(v as nat),
        r is None ==> u32_text_value(cs@.subrange(lo as int, hi as int)) is None,
{
    let ghost s = cs@.subrange(lo as int, hi as int);
    let mut start = lo;
    if start < hi && cs[start] == '+' {
        start = start + 1;
    }
    let ghost ds = cs@.subrange(start as int, hi as int);
    assert(unsigned_digits(s) =~= ds);
    if start == hi {
        return None;
    }
    let mut val: u32 = 0;
    let mut i = start;
    while i < hi
        invariant
            lo <= start <= i <= hi <= cs@.len(),
            start < hi,
            ds == cs@.subrange(start as int, hi as int),
            s == cs@.subrange(lo as int, hi as int),
            unsigned_digits(s) == ds,
            all_digits(cs@.subrange(start as int, i as int)),
            val == digits_value(cs@.subrange(start as int, i as int)),
        decreases hi - i,
    {
        let c = cs[i];
        let ghost pre = cs@.subrange(start as int, i as int);
        assert(cs@.subrange(start as int, i as int + 1) =~= pre.push(c));
        if !('0' <= c && c <= '9') {
            assert(ds[i - start] == c);
            assert(!is_ascii_digit(ds[i - start]));
            assert(!all_digits(ds));
            return None;
        }
        proof {
            lemma_digits_push(pre, c);
        }
        let d = c as u32 - '0' as u32;
        if val > (u32::MAX - d) / 10 {
            assert(val * 10 + d > u32::MAX) by (nonlinear_arith)
                requires
                    val > (u32::MAX - d) / 10,
                    d <= 9,
            ;
            proof {
                if all_digits(ds) {
                    lemma_digits_prefix(ds, i - start + 1);
                    assert(ds.take(i - start + 1) =~= pre.push(c));
                }
            }
            return None;
        }
        val = val * 10 + d;
        i = i + 1;
    }
    assert(cs@.subrange(start as int, hi as int) =~= ds);
    Some(val)
}

/// Reads an `HH:MM` time typed into the entry form.
pub fn parse_clock(s: &str) -> (r: Option<(u32, u32)>)
    ensures
        r matches Some((h, m)) ==> clock_value(s@) == Some((h as nat, m as nat)),
        r is None ==> clock_value(s@) is None,
{
    let cs = chars_of(s);
    let mut colons: usize = 0;
    let mut pos: usize = 0;
    let mut i: usize = 0;
    while i < cs.len()
        invariant
            cs@ == s@,
            0 <= i <= cs@.len(),
            colons <= i,
            colons == 0 ==> forall|j: int| 0 <= j < i ==> cs@[j] != ':',
            colons == 1 ==> only_colon_at(cs@.take(i as int), pos as int),
            colons >= 2 ==> exists|a: int, b: int|
                0 <= a < b < i && cs@[a] == ':' && cs@[b] == ':',
        decreases cs.len() - i,
    {
        if cs[i] == ':' {
            if colons == 0 {
                pos = i;
            } else if colons == 1 {
                assert(cs@.take(i as int)[pos as int] == ':');
            }
            if colons < 2 {
                colons = colons + 1;
            }
        }
        proof {
            if colons == 1 {
                assert forall|j: int| 0 <= j < i + 1 && j != pos implies #[trigger] cs@.take(i + 1)[j] != ':' by {
                    if j < i {
                        assert(cs@.take(i as int)[j] == cs@[j]);
                    }
                }
            }
        }
        i = i + 1;
    }
    assert(cs@.take(cs@.len() as int) =~= cs@);
    if colons != 1 {
        proof {
            if exists|k: int| only_colon_at(s@, k) {
                let k = choose|k: int| only_colon_at(s@, k);
                if colons >= 2 {
                    let (a, b) = choose|a: int, b: int|
                        0 <= a < b < cs@.len() && cs@[a] == ':' && cs@[b] == ':';
                    assert(a == k && b == k);
                }
            }
        }
        return None;
    }
    assert(only_colon_at(s@, pos as int));
    proof {
        assert forall|k: int| only_colon_at(s@, k) implies k == pos by {}
    }
    let h = parse_u32_part(&cs, 0, pos);
    let m = parse_u32_part(&cs, pos + 1, cs.len());
    assert(cs@.subrange(0, pos as int) =~= s@.take(pos as int));
    assert(cs@.subrange(pos + 1, cs@.len() as int) =~= s@.skip(pos + 1));
    match (h, m) {
        (Some(h), Some(m)) => if h < 24 && m < 60 {
            Some((h, m))
        } else {
            None
        },
        _ => None,
    }
}

// ---------------------------------------------------------------------
// Truncation
// ---------------------------------------------------------------------

/// A string cut to `max_chars - 2` characters followed by `..` when it is
/// longer than `max_chars`; otherwise the string itself.
pub open spec fn truncated(s: Seq<char>, max_chars: nat) -> Seq<char> {
    if s.len() > max_chars {
        s.take(max_chars - 2) + seq!['.', '.']
    } else {
        s
    }
}

/// Shortens `s` to fit `max_chars` characters, marking the cut with `..`.
pub fn truncate_str(s: &str, max_chars: usize) -> (r: String)
    requires
        s@.len() > max_chars ==> max_chars >= 2,
    ensures
        r@ == truncated(s@, max_chars as nat),
{
    let cs = chars_of(s);
    if cs.len() > max_chars {
        let keep = max_chars - 2;
        let mut out = String::new();
        let mut i: usize = 0;
        while i < keep
            invariant
                keep == max_chars - 2,
                keep < cs.len(),
                cs@ == s@,
                0 <= i <= keep,
                out@ == s@.take(i as int),
            decreases keep - i,
        {
            push_char(&mut out, cs[i]);
            assert(s@.take(i as int + 1) =~= s@.take(i as int).push(s@[i as int]));
            i = i + 1;
        }
        push_char(&mut out, '.');
        push_char(&mut out, '.');
        assert(out@ =~= truncated(s@, max_chars as nat));
        out
    } else {
        owned(s)
    }
}

// ---------------------------------------------------------------------
// Elapsed time
// ---------------------------------------------------------------------

/// `HH:MM:SS` for a non-negative number of seconds; the hour field grows
/// past two digits when needed.
pub open spec fn clock_text(secs: nat) -> Seq<char> {
    pad2(secs / 3600) + seq![':'] + pad2((secs / 60) % 60) + seq![':'] + pad2(secs % 60)
}

/// What the running-timer widget shows for a measured elapsed time: the
/// clock face when the measurement exists and is not negative, otherwise
/// `00:00:00`.
pub open spec fn elapsed_text(seconds: Option<i64>) -> Seq<char> {
    match seconds {
        Some(s) => if s >= 0 { clock_text(s as nat) } else { clock_text(0) },
        None => clock_text(0),
    }
}

/// Renders an elapsed time for the active-timer panel.
pub fn format_elapsed(seconds: Option<i64>) -> (r: String)
    ensures
        r@ == elapsed_text(seconds),
{
    let n: u64 = match seconds {
        Some(s) => if s >= 0 { s as u64 } else { 0 },
        None => 0,
    };
    let mut out = String::new();
    push_pad2(&mut out, n / 3600);
    push_char(&mut out, ':');
    push_pad2(&mut out, (n / 60) % 60);
    push_char(&mut out, ':');
    push_pad2(&mut out, n % 60);
    assert(out@ =~= clock_text(n as nat));
    out
}

} // verus!
