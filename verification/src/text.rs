//! Character-level text handling: decimal numbers, CSV fields, path
//! separators, list-file lines and the `~` prefix of argument paths.
use vstd::prelude::*;

verus! {

/// `String::push` from std: appends one character.
#[verifier::external_body]
pub(crate) fn push_char(s: &mut String, c: char)
    ensures
        final(s)@ == old(s)@.push(c),
{
    s.push(c);
}

/// `str::trim` from std: the slice without leading and trailing characters
/// that have the Unicode `White_Space` property.
#[verifier::external_body]
fn trim_white_space(s: &str) -> (r: &str)
    ensures
        r@ == trim_spec(s@),
{
    s.trim()
}

// ---------------------------------------------------------------------
// Decimal numbers
// ---------------------------------------------------------------------

/// The ASCII digit for `d` (`0 <= d < 10`).
pub open spec fn digit_char(d: int) -> char {
    (48 + d) as char
}

/// Whether `c` is one of the ASCII digits `0` to `9`.
pub open spec fn is_digit(c: char) -> bool {
    48 <= c as int && c as int <= 57
}

/// The value of the ASCII digit `c`.
pub open spec fn digit_value(c: char) -> int {
    c as int - 48
}

/// The shortest decimal representation of `n`, most significant digit first.
pub open spec fn decimal(n: nat) -> Seq<char>
    decreases n,
{
    if n < 10 {
        seq![digit_char(n as int)]
    } else {
        decimal(n / 10).push(digit_char((n % 10) as int))
    }
}

/// The number that the digit string `s` denotes.
pub open spec fn digits_value(s: Seq<char>) -> int
    decreases s.len(),
{
    if s.len() == 0 {
        0
    } else {
        digits_value(s.drop_last()) * 10 + digit_value(s.last())
    }
}

pub open spec fn all_digits(s: Seq<char>) -> bool {
    forall|i: int| 0 <= i < s.len() ==> is_digit(#[trigger] s[i])
}

/// `s` without one leading `+`, if it has one.
pub open spec fn unsigned_body(s: Seq<char>) -> Seq<char> {
    if s.len() > 0 && s[0] == '+' {
        s.drop_first()
    } else {
        s
    }
}

/// What std's `u64::from_str` accepts: an optional `+` and at least one
/// digit, denoting a value that fits in 64 bits.
pub open spec fn parse_u64_spec(s: Seq<char>) -> Option<u64> {
    let body = unsigned_body(s);
    if body.len() > 0 && all_digits(body) && digits_value(body) <= u64::MAX {
        Some(digits_value(body) as u64)
    } else {
        None
    }
}

fn digit_of(d: u64) -> (c: char)
    requires
        d < 10,
    ensures
        c == digit_char(d as int),
{
    let b: u8 = 48u8 + d as u8;
    b as char
}

/// The decimal representation of `n`, as `n.to_string()` writes it.
pub fn decimal_string(n: u64) -> (s: String)
    ensures
        s@ == decimal(n as nat),
    decreases n,
{
    if n < 10 {
        let mut s = String::new();
        push_char(&mut s, digit_of(n));
        s
    } else {
        let mut s = decimal_string(n / 10);
        push_char(&mut s, digit_of(n % 10));
        s
    }
}

proof fn lemma_prefix_value_bounded(t: Seq<char>, k: int)
    requires
        all_digits(t),
        0 <= k <= t.len(),
    ensures
        0 <= digits_value(t.take(k)) <= digits_value(t),
    decreases t.len(),
{
    if t.len() == 0 {
        assert(t.take(k) =~= t);
    } else if k == t.len() {
        assert(t.take(k) =~= t);
        lemma_digits_value_nonneg(t);
    } else {
        let u = t.drop_last();
        assert(all_digits(u)) by {
            assert forall|i: int| 0 <= i < u.len() implies is_digit(#[trigger] u[i]) by {
                assert(u[i] == t[i]);
            }
        }
        lemma_prefix_value_bounded(u, k);
        assert(u.take(k) =~= t.take(k));
        assert(is_digit(t[t.len() - 1]));
    }
}

proof fn lemma_digits_value_nonneg(t: Seq<char>)
    requires
        all_digits(t),
    ensures
        digits_value(t) >= 0,
    decreases t.len(),
{
    if t.len() > 0 {
        let u = t.drop_last();
        assert forall|i: int| 0 <= i < u.len() implies is_digit(#[trigger] u[i]) by {
            assert(u[i] == t[i]);
        }
        lemma_digits_value_nonneg(u);
        assert(is_digit(t[t.len() - 1]));
    }
}

/// Parses a decimal `u64` exactly as std's `str::parse::<u64>` does,
/// giving `None` where std gives an error.
pub fn parse_decimal_u64(s: &str) -> (r: Option<u64>)
    ensures
        r == parse_u64_spec(s@),
{
    let len = s.unicode_len();
    let start: usize = if len > 0 && s.get_char(0) == '+' {
        1
    } else {
        0
    };
    let ghost body = unsigned_body(s@);
    assert(body =~= s@.subrange(start as int, len as int));
    if start >= len {
        return None;
    }
    let mut value: u64 = 0;
    let mut i: usize = start;
    while i < len
        invariant
            start <= i <= len,
            len == s@.len(),
            start < len,
            body == unsigned_body(s@),
            body == s@.subrange(start as int, len as int),
            all_digits(s@.subrange(start as int, i as int)),
            value as int == digits_value(s@.subrange(start as int, i as int)),
        decreases len - i,
    {
        let c = s.get_char(i);
        let ghost prefix = s@.subrange(start as int, i as int);
        let ghost next = s@.subrange(start as int, i + 1);
        assert(next.drop_last() =~= prefix);
        let cv: u32 = c as u32;
        assert(body[i - start] == c);
        if !(48 <= cv && cv <= 57) {
            assert(!is_digit(body[i - start]));
            return None;
        }
        assert(all_digits(next)) by {
            assert forall|j: int| 0 <= j < next.len() implies is_digit(#[trigger] next[j]) by {
                if j < prefix.len() {
                    assert(next[j] == prefix[j]);
                }
            }
        }
        let d: u64 = (cv - 48) as u64;
        assert(next.last() == c);
        assert(digits_value(next) == value * 10 + d);
        let step = match value.checked_mul(10) {
            Some(v) => v.checked_add(d),
            None => None,
        };
        match step {
            Some(v) => {
                value = v;
            },
            None => {
                proof {
                    if all_digits(body) {
                        assert(next =~= body.take(i + 1 - start));
                        lemma_prefix_value_bounded(body, i + 1 - start);
                    }
                }
                return None;
            },
        }
        i = i + 1;
    }
    assert(s@.subrange(start as int, i as int) =~= body);
    Some(value)
}

proof fn lemma_decimal_digits(n: nat)
    ensures
        all_digits(decimal(n)),
        decimal(n).len() > 0,
        digits_value(decimal(n)) == n,
        decimal(n)[0] != '+',
    decreases n,
{
    assert(digit_char((n % 10) as int) as int == 48 + n % 10);
    if n < 10 {
        let d = decimal(n);
        assert(d.drop_last() =~= Seq::<char>::empty());
        assert(digits_value(d) == digits_value(d.drop_last()) * 10 + digit_value(d.last()));
        assert(digits_value(d) == n);
    } else {
        lemma_decimal_digits(n / 10);
        let d = decimal(n);
        assert(d.drop_last() =~= decimal(n / 10));
        let last = digit_char((n % 10) as int);
        assert(last as int == 48 + n % 10);
        assert(d.last() == last);
        assert(n == (n / 10) * 10 + n % 10);
        assert(digits_value(d) == digits_value(d.drop_last()) * 10 + digit_value(d.last()));
        assert(digits_value(d) == n);
        assert forall|i: int| 0 <= i < d.len() implies is_digit(#[trigger] d[i]) by {
            if i < d.len() - 1 {
                assert(d[i] == decimal(n / 10)[i]);
            }
        }
    }
}

/// Law: reading back the decimal text of a number gives the number, so a
/// setting written with `decimal_string` is recovered by
/// `parse_decimal_u64`.
pub proof fn law_decimal_round_trip(n: u64)
    ensures
        parse_u64_spec(decimal(n as nat)) == Some(n),
{
    lemma_decimal_digits(n as nat);
}

// ---------------------------------------------------------------------
// CSV fields
// ---------------------------------------------------------------------

pub open spec fn is_csv_special(c: char) -> bool {
    c == ',' || c == '"' || c == '\n'
}

/// Whether a CSV field must be quoted: it holds a comma, a quote or a newline.
pub open spec fn needs_quoting(s: Seq<char>) -> bool {
    exists|i: int| 0 <= i < s.len() && is_csv_special(#[trigger] s[i])
}

/// `s` with every `"` written twice.
pub open spec fn double_quotes(s: Seq<char>) -> Seq<char>
    decreases s.len(),
{
    if s.len() == 0 {
        Seq::empty()
    } else if s.last() == '"' {
        double_quotes(s.drop_last()) + seq!['"', '"']
    } else {
        double_quotes(s.drop_last()).push(s.last())
    }
}

/// The CSV field for the value `s`.
pub open spec fn csv_field(s: Seq<char>) -> Seq<char> {
    if needs_quoting(s) {
        seq!['"'] + double_quotes(s) + seq!['"']
    } else {
        s
    }
}

/// Reverses `double_quotes`: a doubled quote at the end stands for one quote.
pub open spec fn undouble_quotes(t: Seq<char>) -> Seq<char>
    decreases t.len(),
{
    if t.len() == 0 {
        Seq::empty()
    } else if t.last() == '"' && t.len() >= 2 {
        undouble_quotes(t.take(t.len() - 2)).push('"')
    } else {
        undouble_quotes(t.drop_last()).push(t.last())
    }
}

/// How a CSV reader reads one field: a quoted field loses its outer quotes
/// and has its doubled quotes undoubled; any other field is read as it stands.
pub open spec fn read_csv_field(t: Seq<char>) -> Seq<char> {
    if t.len() >= 2 && t[0] == '"' && t.last() == '"' {
        undouble_quotes(t.subrange(1, t.len() - 1))
    } else {
        t
    }
}

proof fn lemma_undouble_double(s: Seq<char>)
    ensures
        undouble_quotes(double_quotes(s)) == s,
    decreases s.len(),
{
    if s.len() > 0 {
        lemma_undouble_double(s.drop_last());
        let d = double_quotes(s.drop_last());
        let t = double_quotes(s);
        if s.last() == '"' {
            assert(t.take(t.len() - 2) =~= d);
        } else {
            assert(t.drop_last() =~= d);
        }
        assert(s.drop_last().push(s.last()) =~= s);
    }
}

/// Law: a CSV reader reads back from a field written by `csv_escape`
/// exactly the value that was written.
pub proof fn law_csv_field_round_trip(s: Seq<char>)
    ensures
        read_csv_field(csv_field(s)) == s,
{
    if needs_quoting(s) {
        let t = csv_field(s);
        let inner = double_quotes(s);
        assert(t.subrange(1, t.len() - 1) =~= inner);
        lemma_undouble_double(s);
    } else {
        if s.len() >= 2 && s[0] == '"' {
            assert(is_csv_special(s[0]));
        }
    }
}

/// Escapes a value for one field of the CSV report: a value holding a comma,
/// a quote or a newline is quoted and its quotes doubled; any other value is
/// returned unchanged.
pub fn csv_escape(value: &str) -> (r: String)
    ensures
        r@ == csv_field(value@),
{
    let mut special = false;
    for c in it: value.chars()
        invariant
            it.seq() == value@,
            special == exists|j: int| 0 <= j < it.index() && is_csv_special(#[trigger] value@[j]),
    {
        if c == ',' || c == '"' || c == '\n' {
            special = true;
        }
    }
    if !special {
        let mut out = String::new();
        for c in it: value.chars()
            invariant
                it.seq() == value@,
                out@ == value@.take(it.index() as int),
        {
            push_char(&mut out, c);
        }
        assert(value@.take(value@.len() as int) =~= value@);
        return out;
    }
    let mut out = String::new();
    push_char(&mut out, '"');
    for c in it: value.chars()
        invariant
            it.seq() == value@,
            out@ == seq!['"'] + double_quotes(value@.take(it.index() as int)),
    {
        let ghost k = it.index() as int;
        assert(value@.take(k + 1).drop_last() =~= value@.take(k));
        if c == '"' {
            push_char(&mut out, '"');
            push_char(&mut out, '"');
        } else {
            push_char(&mut out, c);
        }
    }
    assert(value@.take(value@.len() as int) =~= value@);
    push_char(&mut out, '"');
    out
}

/// The header line of the CSV report.
pub fn csv_header() -> (r: String)
    ensures
        r@ == "dest_path,source_path,size,hash_algorithm,full_hash"@,
{
    String::from_str("dest_path,source_path,size,hash_algorithm,full_hash")
}

/// One line of the CSV report (without its line break): the destination
/// path and the source path as CSV fields, the size in decimal, the hash
/// algorithm and the full hash.
pub fn csv_row(dest_path: &str, source_path: &str, size: u64, full_hash: &str) -> (r: String)
    ensures
        r@ == csv_field(dest_path@) + seq![','] + csv_field(source_path@) + seq![',']
            + decimal(size as nat) + ",blake3,"@ + full_hash@,
{
    let mut row = csv_escape(dest_path);
    push_char(&mut row, ',');
    let source = csv_escape(source_path);
    row.append(source.as_str());
    push_char(&mut row, ',');
    let digits = decimal_string(size);
    row.append(digits.as_str());
    row.append(",blake3,");
    row.append(full_hash);
    row
}

// ---------------------------------------------------------------------
// Path separators
// ---------------------------------------------------------------------

pub open spec fn forward_slash(c: char) -> char {
    if c == '\\' {
        '/'
    } else {
        c
    }
}

/// `s` with every backslash replaced by a forward slash.
pub open spec fn forward_slashes(s: Seq<char>) -> Seq<char> {
    Seq::new(s.len(), |i: int| forward_slash(s[i]))
}

/// Replaces every backslash in `s` by a forward slash, as
/// `s.replace('\\', "/")` does.
pub fn normalize_separators(s: &str) -> (r: String)
    ensures
        r@ == forward_slashes(s@),
        r@.len() == s@.len(),
        forall|i: int| 0 <= i < s@.len() && s@[i] != '\\' ==> r@[i] == s@[i],
        forall|i: int| 0 <= i < s@.len() && s@[i] == '\\' ==> r@[i] == '/',
{
    let mut out = String::new();
    for c in it: s.chars()
        invariant
            it.seq() == s@,
            out@ == forward_slashes(s@.take(it.index() as int)),
    {
        let ghost k = it.index() as int;
        let d = if c == '\\' {
            '/'
        } else {
            c
        };
        push_char(&mut out, d);
        assert(out@ =~= forward_slashes(s@.take(k + 1)));
    }
    assert(s@.take(s@.len() as int) =~= s@);
    out
}

/// Law: normalizing separators leaves no backslash, and normalizing twice
/// changes nothing more than normalizing once.
pub proof fn law_forward_slashes_idempotent(s: Seq<char>)
    ensures
        !forward_slashes(s).contains('\\'),
        forward_slashes(forward_slashes(s)) == forward_slashes(s),
{
    assert(forward_slashes(forward_slashes(s)) =~= forward_slashes(s));
}

/// Law: normalizing separators changes backslashes and nothing else. The
/// result is as long as the input; wherever the input holds a backslash the
/// result holds a forward slash, and everywhere else the same character as
/// the input.
pub proof fn law_forward_slashes_change_only_backslashes(s: Seq<char>)
    ensures
        forward_slashes(s).len() == s.len(),
        forall|i: int| 0 <= i < s.len() && s[i] != '\\' ==> #[trigger] forward_slashes(s)[i] == s[i],
        forall|i: int| 0 <= i < s.len() && s[i] == '\\' ==> #[trigger] forward_slashes(s)[i] == '/',
        !s.contains('\\') ==> forward_slashes(s) == s,
{
    if !s.contains('\\') {
        assert forall|i: int| 0 <= i < s.len() implies forward_slashes(s)[i] == s[i] by {
            if s[i] == '\\' {
                assert(s.contains('\\'));
            }
        }
        assert(forward_slashes(s) =~= s);
    }
}

// ---------------------------------------------------------------------
// `~` at the start of an argument path
// ---------------------------------------------------------------------

/// What follows a leading `~/` or `~\`, or the empty text for a lone `~`;
/// `None` when the path does not start at the home directory.
pub open spec fn tilde_remainder_spec(raw: Seq<char>) -> Option<Seq<char>> {
    if raw.len() >= 2 && raw[0] == '~' && (raw[1] == '/' || raw[1] == '\\') {
        Some(raw.skip(2))
    } else if raw.len() == 1 && raw[0] == '~' {
        Some(Seq::empty())
    } else {
        None
    }
}

/// The part of a path argument to be joined to the home directory, when the
/// argument starts with `~`.
pub fn tilde_remainder(raw: &str) -> (r: Option<String>)
    ensures
        match r {
            Some(rest) => tilde_remainder_spec(raw@) == Some(rest@),
            None => tilde_remainder_spec(raw@) is None,
        },
        raw@.len() >= 2 && raw@[0] == '~' && (raw@[1] == '/' || raw@[1] == '\\') ==> (r matches Some(
            rest,
        ) && rest@ == raw@.skip(2)),
        raw@ == seq!['~'] ==> (r matches Some(rest) && rest@.len() == 0),
        raw@.len() == 0 || raw@[0] != '~' ==> r is None,
        raw@.len() >= 2 && raw@[0] == '~' && raw@[1] != '/' && raw@[1] != '\\' ==> r is None,
{
    let len = raw.unicode_len();
    if len >= 2 && raw.get_char(0) == '~' {
        let second = raw.get_char(1);
        if second == '/' || second == '\\' {
            let rest = raw.substring_char(2, len);
            assert(rest@ =~= raw@.skip(2));
            return Some(rest.to_owned());
        }
        return None;
    }
    if len == 1 && raw.get_char(0) == '~' {
        return Some(String::new());
    }
    None
}

/// Law: an argument that starts with `~/` or `~\` is resolved against the
/// home directory with everything after those two characters, whatever that
/// holds; a lone `~` is the home directory itself, and an argument that does
/// not start with `~` is left alone.
pub proof fn law_tilde_remainder_keeps_everything_after_prefix(rest: Seq<char>, other: Seq<char>)
    ensures
        tilde_remainder_spec(seq!['~', '/'] + rest) == Some(rest),
        tilde_remainder_spec(seq!['~', '\\'] + rest) == Some(rest),
        tilde_remainder_spec(seq!['~']) == Some(Seq::<char>::empty()),
        other.len() == 0 || other[0] != '~' ==> tilde_remainder_spec(other) is None,
{
    assert((seq!['~', '/'] + rest).skip(2) =~= rest);
    assert((seq!['~', '\\'] + rest).skip(2) =~= rest);
}

// ---------------------------------------------------------------------
// Lines of the sensitive path list
// ---------------------------------------------------------------------

/// The characters with the Unicode `White_Space` property.
pub open spec fn is_white_space(c: char) -> bool {
    let v = c as int;
    ||| 0x9 <= v <= 0xd
    ||| v == 0x20
    ||| v == 0x85
    ||| v == 0xa0
    ||| v == 0x1680
    ||| 0x2000 <= v <= 0x200a
    ||| v == 0x2028
    ||| v == 0x2029
    ||| v == 0x202f
    ||| v == 0x205f
    ||| v == 0x3000
}

pub open spec fn trim_start_spec(s: Seq<char>) -> Seq<char>
    decreases s.len(),
{
    if s.len() > 0 && is_white_space(s[0]) {
        trim_start_spec(s.drop_first())
    } else {
        s
    }
}

pub open spec fn trim_end_spec(s: Seq<char>) -> Seq<char>
    decreases s.len(),
{
    if s.len() > 0 && is_white_space(s.last()) {
        trim_end_spec(s.drop_last())
    } else {
        s
    }
}

/// `s` without leading and trailing white space.
pub open spec fn trim_spec(s: Seq<char>) -> Seq<char> {
    trim_end_spec(trim_start_spec(s))
}

/// Where trimming starts: every character before the returned index is
/// white space, and the one at it, if any, is not.
proof fn lemma_trim_start(s: Seq<char>) -> (i: int)
    ensures
        0 <= i <= s.len(),
        trim_start_spec(s) == s.subrange(i, s.len() as int),
        forall|k: int| 0 <= k < i ==> is_white_space(#[trigger] s[k]),
        i < s.len() ==> !is_white_space(s[i]),
    decreases s.len(),
{
    if s.len() > 0 && is_white_space(s[0]) {
        let rest = s.drop_first();
        let j = lemma_trim_start(rest);
        assert(rest.subrange(j, rest.len() as int) =~= s.subrange(j + 1, s.len() as int));
        assert forall|k: int| 0 <= k < j + 1 implies is_white_space(#[trigger] s[k]) by {
            if k > 0 {
                assert(s[k] == rest[k - 1]);
            }
        }
        if j + 1 < s.len() {
            assert(s[j + 1] == rest[j]);
        }
        j + 1
    } else {
        assert(s.subrange(0, s.len() as int) =~= s);
        0
    }
}

/// Where trimming ends: every character from the returned index on is white
/// space, and the one before it, if any, is not.
proof fn lemma_trim_end(s: Seq<char>) -> (j: int)
    ensures
        0 <= j <= s.len(),
        trim_end_spec(s) == s.subrange(0, j),
        forall|k: int| j <= k < s.len() ==> is_white_space(#[trigger] s[k]),
        j > 0 ==> !is_white_space(s[j - 1]),
    decreases s.len(),
{
    if s.len() > 0 && is_white_space(s.last()) {
        let rest = s.drop_last();
        let j = lemma_trim_end(rest);
        assert(rest.subrange(0, j) =~= s.subrange(0, j));
        assert forall|k: int| j <= k < s.len() implies is_white_space(#[trigger] s[k]) by {
            if k < s.len() - 1 {
                assert(s[k] == rest[k]);
            }
        }
        if j > 0 {
            assert(s[j - 1] == rest[j - 1]);
        }
        j
    } else {
        assert(s.subrange(0, s.len() as int) =~= s);
        s.len() as int
    }
}

/// Law: trimming takes white space off the two ends and nothing else. The
/// trimmed text is a contiguous part of `s` with only white space before and
/// after it, which, when not empty, starts and ends with a character that is
/// not white space; a text that starts and ends with such a character is
/// its own trimmed text.
pub proof fn law_trim_takes_off_only_surrounding_white_space(s: Seq<char>)
    ensures
        exists|i: int, j: int|
            #![trigger s.subrange(i, j)]
            0 <= i <= j <= s.len() && trim_spec(s) == s.subrange(i, j) && (forall|k: int|
                0 <= k < i ==> is_white_space(#[trigger] s[k])) && (forall|k: int|
                j <= k < s.len() ==> is_white_space(#[trigger] s[k])) && (i < j ==> !is_white_space(
                s[i]) && !is_white_space(s[j - 1])),
        s.len() > 0 && !is_white_space(s[0]) && !is_white_space(s.last()) ==> trim_spec(s) == s,
{
    let (i, j) = trim_bounds(s);
    assert(trim_spec(s) == s.subrange(i, j));
    if s.len() > 0 && !is_white_space(s[0]) && !is_white_space(s.last()) {
        if i > 0 {
            assert(is_white_space(s[0]));
        }
        if j < s.len() {
            assert(is_white_space(s[s.len() - 1]));
        }
        assert(s.subrange(0, s.len() as int) =~= s);
    }
}

/// The bounds of the trimmed part of `s`.
proof fn trim_bounds(s: Seq<char>) -> (b: (int, int))
    ensures
        0 <= b.0 <= b.1 <= s.len(),
        trim_spec(s) == s.subrange(b.0, b.1),
        forall|k: int| 0 <= k < b.0 ==> is_white_space(#[trigger] s[k]),
        forall|k: int| b.1 <= k < s.len() ==> is_white_space(#[trigger] s[k]),
        b.0 < b.1 ==> !is_white_space(s[b.0]) && !is_white_space(s[b.1 - 1]),
        b.0 == b.1 ==> forall|k: int| 0 <= k < s.len() ==> is_white_space(#[trigger] s[k]),
{
    let i = lemma_trim_start(s);
    let t = s.subrange(i, s.len() as int);
    let j = lemma_trim_end(t);
    assert(t.subrange(0, j) =~= s.subrange(i, i + j));
    assert forall|k: int| i + j <= k < s.len() implies is_white_space(#[trigger] s[k]) by {
        assert(s[k] == t[k - i]);
    }
    if j > 0 {
        assert(s[i + j - 1] == t[j - 1]);
    } else {
        assert forall|k: int| 0 <= k < s.len() implies is_white_space(#[trigger] s[k]) by {
            if k >= i {
                assert(s[k] == t[k - i]);
            }
        }
    }
    (i, i + j)
}

/// Law: a line of the list is skipped exactly when, after trimming, it is
/// empty or starts with `#`. Put in terms of the line itself: it names a
/// path exactly when it has a character that is not white space and the
/// first such character is not `#`.
pub proof fn law_list_line_skipped_exactly_for_blank_or_comment(line: Seq<char>)
    ensures
        is_path_line(line) <==> (trim_spec(line).len() > 0 && trim_spec(line)[0] != '#'),
        is_path_line(line) <==> exists|k: int|
            0 <= k < line.len() && !is_white_space(#[trigger] line[k]) && line[k] != '#' && (forall|
                m: int,
            | 0 <= m < k ==> is_white_space(#[trigger] line[m])),
{
    let (i, j) = trim_bounds(line);
    if i < j {
        assert(trim_spec(line)[0] == line[i]);
        if line[i] != '#' {
            assert(!is_white_space(line[i]) && line[i] != '#' && (forall|m: int|
                0 <= m < i ==> is_white_space(#[trigger] line[m])));
        } else {
            assert forall|k: int|
                0 <= k < line.len() && !is_white_space(#[trigger] line[k]) && (forall|m: int|
                    0 <= m < k ==> is_white_space(#[trigger] line[m])) implies line[k] == '#' by {
                if k < i {
                } else if k > i {
                    assert(is_white_space(line[i]));
                }
            }
        }
    }
}

/// Whether a line of the list names a path: after trimming it is neither
/// empty nor a `#` comment.
pub open spec fn is_path_line(line: Seq<char>) -> bool {
    trim_spec(line).len() > 0 && trim_spec(line)[0] != '#'
}

/// The relative source path that a line of the sensitive path list names:
/// the trimmed line, or `None` for a blank line or a `#` comment.
pub fn parse_list_line(line: &str) -> (r: Option<String>)
    ensures
        match r {
            Some(path) => is_path_line(line@) && path@ == trim_spec(line@),
            None => !is_path_line(line@),
        },
        trim_spec(line@).len() > 0 && trim_spec(line@)[0] != '#' ==> (r matches Some(path)
            && path@ == trim_spec(line@)),
        trim_spec(line@).len() == 0 || trim_spec(line@)[0] == '#' ==> r is None,
{
    let trimmed = trim_white_space(line);
    if trimmed.is_empty() {
        return None;
    }
    if trimmed.get_char(0) == '#' {
        return None;
    }
    Some(trimmed.to_owned())
}

} // verus!
