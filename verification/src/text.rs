//! Small verified text helpers the console engine builds its output from:
//! decimal rendering of counters, fixed-point rendering of quarter-point
//! stats, progress bars, ASCII case folding, trimming and splitting of
//! command lines.

use vstd::prelude::*;

verus! {

/// The decimal digit character for `d` in 0..=9 (and '9' past that).
pub open spec fn spec_digit_char(d: int) -> char {
    if d == 0 {
        '0'
    } else if d == 1 {
        '1'
    } else if d == 2 {
        '2'
    } else if d == 3 {
        '3'
    } else if d == 4 {
        '4'
    } else if d == 5 {
        '5'
    } else if d == 6 {
        '6'
    } else if d == 7 {
        '7'
    } else if d == 8 {
        '8'
    } else {
        '9'
    }
}

/// The decimal rendering of a non-negative integer, most significant digit
/// first.
pub open spec fn spec_dec(n: int) -> Seq<char>
    decreases n,
{
    if n < 10 {
        seq![spec_digit_char(n)]
    } else {
        spec_dec(n / 10).push(spec_digit_char(n % 10))
    }
}

/// The one-character string for a decimal digit.
fn digit_str(d: u64) -> (r: &'static str)
    requires
        d < 10,
    ensures
        r@ =~= seq![spec_digit_char(d as int)],
{
    proof {
        reveal_strlit("0");
        reveal_strlit("1");
        reveal_strlit("2");
        reveal_strlit("3");
        reveal_strlit("4");
        reveal_strlit("5");
        reveal_strlit("6");
        reveal_strlit("7");
        reveal_strlit("8");
        reveal_strlit("9");
    }
    if d == 0 {
        "0"
    } else if d == 1 {
        "1"
    } else if d == 2 {
        "2"
    } else if d == 3 {
        "3"
    } else if d == 4 {
        "4"
    } else if d == 5 {
        "5"
    } else if d == 6 {
        "6"
    } else if d == 7 {
        "7"
    } else if d == 8 {
        "8"
    } else {
        "9"
    }
}

/// Renders a counter in decimal.
pub fn u64_to_dec(n: u64) -> (s: String)
    ensures
        s@ == spec_dec(n as int),
    decreases n,
{
    if n < 10 {
        String::from_str(digit_str(n))
    } else {
        let mut s = u64_to_dec(n / 10);
        s.append(digit_str(n % 10));
        proof {
            assert(s@ =~= spec_dec(n as int));
        }
        s
    }
}

/// Renders a machine-word counter in decimal.
pub fn usize_to_dec(n: usize) -> (s: String)
    ensures
        s@ == spec_dec(n as int),
{
    u64_to_dec(n as u64)
}

/// Stats (health, damage) are held in quarter points, so that the engine's
/// halving and 2.5-fold multipliers stay exact. This is the natural rendering
/// of such a value: the integer part, then the fraction only where it is not
/// zero.
pub open spec fn spec_quarters(q: int) -> Seq<char> {
    if q % 4 == 0 {
        spec_dec(q / 4)
    } else if q % 4 == 1 {
        spec_dec(q / 4) + ".25"@
    } else if q % 4 == 2 {
        spec_dec(q / 4) + ".5"@
    } else {
        spec_dec(q / 4) + ".75"@
    }
}

/// Renders a quarter-point stat.
pub fn quarters_to_dec(q: u64) -> (s: String)
    ensures
        s@ == spec_quarters(q as int),
{
    let whole = u64_to_dec(q / 4);
    let rem = q % 4;
    if rem == 0 {
        whole
    } else if rem == 1 {
        whole.concat(".25")
    } else if rem == 2 {
        whole.concat(".5")
    } else {
        whole.concat(".75")
    }
}

/// A quarter-point stat with exactly two decimal places, as a progress bar
/// caption shows it.
pub open spec fn spec_quarters_fixed2(q: int) -> Seq<char> {
    if q % 4 == 0 {
        spec_dec(q / 4) + ".00"@
    } else if q % 4 == 1 {
        spec_dec(q / 4) + ".25"@
    } else if q % 4 == 2 {
        spec_dec(q / 4) + ".50"@
    } else {
        spec_dec(q / 4) + ".75"@
    }
}

/// Renders a quarter-point stat with two decimal places.
pub fn quarters_to_fixed2(q: u64) -> (s: String)
    ensures
        s@ == spec_quarters_fixed2(q as int),
{
    let whole = u64_to_dec(q / 4);
    let rem = q % 4;
    if rem == 0 {
        whole.concat(".00")
    } else if rem == 1 {
        whole.concat(".25")
    } else if rem == 2 {
        whole.concat(".50")
    } else {
        whole.concat(".75")
    }
}

/// `n` copies of one character.
pub open spec fn spec_repeat(c: char, n: int) -> Seq<char>
    decreases n,
{
    if n <= 0 {
        Seq::empty()
    } else {
        spec_repeat(c, n - 1).push(c)
    }
}

/// Relies on `String::push`: appends exactly the given character.
#[verifier::external_body]
pub fn push_char(s: &mut String, c: char)
    ensures
        final(s)@ == old(s)@.push(c),
{
    s.push(c);
}

/// Appends `n` copies of `c` to a string.
pub fn append_repeat(s: &mut String, c: char, n: usize)
    ensures
        final(s)@ == old(s)@ + spec_repeat(c, n as int),
{
    let mut i: usize = 0;
    while i < n
        invariant
            i <= n,
            s@ == old(s)@ + spec_repeat(c, i as int),
        decreases n - i,
    {
        push_char(s, c);
        i = i + 1;
    }
    proof {
        assert(s@ =~= old(s)@ + spec_repeat(c, n as int));
    }
}

/// The text of a progress bar: `width - 2` interior tiles would fit between
/// the brackets, filled in proportion `value / total` (rounded down), and a
/// `filled/total` caption in quarter points follows.
pub open spec fn spec_bar(width: int, value_q: int, total_q: int) -> Seq<char> {
    let full = value_q * (width - 2) / total_q;
    "["@ + spec_repeat('=', full) + spec_repeat(' ', width - full) + "] "@ + spec_quarters_fixed2(
        value_q,
    ) + "/"@ + spec_quarters_fixed2(total_q)
}

/// Draws a progress bar of the given width for a quarter-point stat.
pub fn display_bar(width: usize, value_q: u64, total_q: u64) -> (s: String)
    requires
        2 <= width,
        1 <= total_q,
        value_q <= total_q,
        total_q * (width - 2) <= u64::MAX,
    ensures
        s@ == spec_bar(width as int, value_q as int, total_q as int),
{
    proof {
        vstd::arithmetic::mul::lemma_mul_inequality(
            value_q as int,
            total_q as int,
            (width - 2) as int,
        );
    }
    let full_u64 = value_q * ((width - 2) as u64) / total_q;
    proof {
        vstd::arithmetic::div_mod::lemma_div_is_ordered(
            value_q * (width - 2) as int,
            total_q * (width - 2) as int,
            total_q as int,
        );
        vstd::arithmetic::div_mod::lemma_div_multiples_vanish(
            (width - 2) as int,
            total_q as int,
        );
    }
    let full = full_u64 as usize;
    let mut s = String::from_str("[");
    append_repeat(&mut s, '=', full);
    append_repeat(&mut s, ' ', width - full);
    s.append("] ");
    let v = quarters_to_fixed2(value_q);
    s.append(v.as_str());
    s.append("/");
    let t = quarters_to_fixed2(total_q);
    s.append(t.as_str());
    proof {
        assert(s@ =~= spec_bar(width as int, value_q as int, total_q as int));
    }
    s
}

/// A message list by content: each string of the sequence as its characters.
pub open spec fn msgs_view(v: Seq<String>) -> Seq<Seq<char>> {
    v.map_values(|m: String| m@)
}

/// Appending one message to a list whose view is known extends the view by
/// that message's content.
pub proof fn lemma_msgs_view_snoc(base: Seq<Seq<char>>, mid: Seq<String>, fin: Seq<String>, b: Seq<
    char,
>)
    requires
        msgs_view(mid) == base,
        fin.len() == mid.len() + 1,
        forall|i: int| 0 <= i < mid.len() ==> fin[i] == mid[i],
        fin[fin.len() - 1]@ == b,
    ensures
        msgs_view(fin) =~= base + seq![b],
{
    assert forall|i: int| 0 <= i < fin.len() implies #[trigger] msgs_view(fin)[i] == (base + seq![
        b,
    ])[i] by {
        if i < mid.len() {
            assert(msgs_view(fin)[i] == fin[i]@);
            assert(msgs_view(mid)[i] == mid[i]@);
        } else {
            assert(msgs_view(fin)[i] == fin[i]@);
        }
    }
}

/// Whitespace as the command line knows it.
pub open spec fn spec_is_space(c: char) -> bool {
    c == ' ' || c == '\t' || c == '\n' || c == '\r'
}

/// A string with its leading whitespace removed.
pub open spec fn spec_trim_front(s: Seq<char>) -> Seq<char>
    decreases s.len(),
{
    if s.len() > 0 && spec_is_space(s[0]) {
        spec_trim_front(s.drop_first())
    } else {
        s
    }
}

/// A string with its trailing whitespace removed.
pub open spec fn spec_trim_back(s: Seq<char>) -> Seq<char>
    decreases s.len(),
{
    if s.len() > 0 && spec_is_space(s.last()) {
        spec_trim_back(s.drop_last())
    } else {
        s
    }
}

/// A string with whitespace removed from both ends.
pub open spec fn spec_trim(s: Seq<char>) -> Seq<char> {
    spec_trim_back(spec_trim_front(s))
}

/// Dropping a leading run of whitespace does not change the front-trim.
proof fn lemma_trim_front_skip(s: Seq<char>, k: int)
    requires
        0 <= k <= s.len(),
        forall|j: int| 0 <= j < k ==> spec_is_space(s[j]),
    ensures
        spec_trim_front(s) == spec_trim_front(s.subrange(k, s.len() as int)),
    decreases k,
{
    if k > 0 {
        assert(s.drop_first() =~= s.subrange(1, s.len() as int));
        lemma_trim_front_skip(s.drop_first(), k - 1);
        assert(s.drop_first().subrange(k - 1, s.drop_first().len() as int) =~= s.subrange(
            k,
            s.len() as int,
        ));
    } else {
        assert(s.subrange(0, s.len() as int) =~= s);
    }
}

/// Dropping a trailing run of whitespace does not change the back-trim.
proof fn lemma_trim_back_skip(s: Seq<char>, k: int)
    requires
        0 <= k <= s.len(),
        forall|j: int| k <= j < s.len() ==> spec_is_space(s[j]),
    ensures
        spec_trim_back(s) == spec_trim_back(s.subrange(0, k)),
    decreases s.len() - k,
{
    if k < s.len() {
        assert(spec_is_space(s.last()));
        assert(s.drop_last() =~= s.subrange(0, s.len() - 1));
        lemma_trim_back_skip(s.drop_last(), k);
        assert(s.drop_last().subrange(0, k) =~= s.subrange(0, k));
    } else {
        assert(s.subrange(0, k) =~= s);
    }
}

/// Whether this character is command-line whitespace.
pub fn is_space(c: char) -> (r: bool)
    ensures
        r == spec_is_space(c),
{
    c == ' ' || c == '\t' || c == '\n' || c == '\r'
}

/// Removes whitespace from both ends of a line.
pub fn trim_str(s: &str) -> (r: String)
    ensures
        r@ == spec_trim(s@),
{
    let len = s.unicode_len();
    let mut i: usize = 0;
    while i < len && is_space(s.get_char(i))
        invariant
            i <= len,
            len == s@.len(),
            forall|j: int| 0 <= j < i ==> spec_is_space(s@[j]),
        decreases len - i,
    {
        i = i + 1;
    }
    proof {
        lemma_trim_front_skip(s@, i as int);
        assert(spec_trim_front(s@.subrange(i as int, len as int)) == s@.subrange(
            i as int,
            len as int,
        ));
    }
    let mut j: usize = len;
    while j > i && is_space(s.get_char(j - 1))
        invariant
            i <= j <= len,
            len == s@.len(),
            forall|k: int| j <= k < len ==> spec_is_space(s@[k]),
        decreases j,
    {
        j = j - 1;
    }
    proof {
        let front = s@.subrange(i as int, len as int);
        lemma_trim_back_skip(front, j - i);
        assert(front.subrange(0, j - i) =~= s@.subrange(i as int, j as int));
        if j > i {
            assert(!spec_is_space(s@.subrange(i as int, j as int).last()));
        }
        assert(spec_trim_back(s@.subrange(i as int, j as int)) == s@.subrange(
            i as int,
            j as int,
        ));
    }
    let piece = s.substring_char(i, j);
    piece.to_owned()
}

/// The segments of a line split at every single space, empties included: the
/// way a console command is cut into its verb and arguments.
pub open spec fn spec_split(s: Seq<char>) -> Seq<Seq<char>>
    decreases s.len(),
{
    if s.len() == 0 {
        seq![Seq::empty()]
    } else if s.last() == ' ' {
        spec_split(s.drop_last()).push(Seq::empty())
    } else {
        let r = spec_split(s.drop_last());
        r.update(r.len() - 1, r.last().push(s.last()))
    }
}

/// Law: a split always yields at least the one (possibly empty) first token.
pub proof fn lemma_split_nonempty(s: Seq<char>)
    ensures
        spec_split(s).len() >= 1,
    decreases s.len(),
{
    if s.len() > 0 {
        lemma_split_nonempty(s.drop_last());
    }
}

/// Splits a line at every single space.
pub fn split_spaces(s: &str) -> (v: Vec<String>)
    ensures
        v@.map_values(|t: String| t@) == spec_split(s@),
        v@.len() >= 1,
{
    let len = s.unicode_len();
    let mut tokens: Vec<String> = Vec::new();
    tokens.push(String::new());
    proof {
        assert(s@.subrange(0, 0) =~= Seq::<char>::empty());
        assert(tokens@.map_values(|t: String| t@) =~= spec_split(s@.subrange(0, 0)));
    }
    let mut i: usize = 0;
    while i < len
        invariant
            i <= len,
            len == s@.len(),
            tokens@.len() >= 1,
            tokens@.map_values(|t: String| t@) == spec_split(s@.subrange(0, i as int)),
        decreases len - i,
    {
        let c = s.get_char(i);
        proof {
            assert(s@.subrange(0, i + 1).drop_last() =~= s@.subrange(0, i as int));
            assert(s@.subrange(0, i + 1).last() == s@[i as int]);
            lemma_split_nonempty(s@.subrange(0, i as int));
        }
        if c == ' ' {
            tokens.push(String::new());
            proof {
                assert(tokens@.map_values(|t: String| t@) =~= spec_split(
                    s@.subrange(0, i + 1),
                ));
            }
        } else {
            let mut last = tokens.pop().unwrap();
            push_char(&mut last, c);
            tokens.push(last);
            proof {
                assert(tokens@.map_values(|t: String| t@) =~= spec_split(
                    s@.subrange(0, i + 1),
                ));
            }
        }
        i = i + 1;
    }
    proof {
        assert(s@.subrange(0, len as int) =~= s@);
    }
    tokens
}

/// ASCII case folding of one character; anything else is untouched.
pub open spec fn spec_lower_char(c: char) -> char {
    if 'A' <= c && c <= 'Z' {
        ((c as u32) + 32) as char
    } else {
        c
    }
}

/// ASCII case folding of a string.
pub open spec fn spec_lower(s: Seq<char>) -> Seq<char> {
    s.map_values(|c: char| spec_lower_char(c))
}

/// Folds one character to ASCII lower case.
pub fn lower_char(c: char) -> (r: char)
    ensures
        r == spec_lower_char(c),
{
    if 'A' <= c && c <= 'Z' {
        let u = c as u32;
        proof {
            assert(u + 32 < 128);
        }
        let l = (u + 32) as u8;
        l as char
    } else {
        c
    }
}

/// Folds a string to ASCII lower case.
pub fn ascii_lowercase(s: &str) -> (r: String)
    ensures
        r@ == spec_lower(s@),
{
    let len = s.unicode_len();
    let mut out = String::new();
    let mut i: usize = 0;
    while i < len
        invariant
            i <= len,
            len == s@.len(),
            out@ == s@.subrange(0, i as int).map_values(|c: char| spec_lower_char(c)),
        decreases len - i,
    {
        let c = s.get_char(i);
        let l = lower_char(c);
        push_char(&mut out, l);
        proof {
            assert(s@.subrange(0, i + 1).map_values(|ch: char| spec_lower_char(ch)) =~= s@
                .subrange(0, i as int).map_values(|ch: char| spec_lower_char(ch)).push(
                spec_lower_char(s@[i as int]),
            ));
        }
        i = i + 1;
    }
    proof {
        assert(s@.subrange(0, len as int) =~= s@);
    }
    out
}

/// A decimal digit.
pub open spec fn spec_is_digit(c: char) -> bool {
    '0' <= c && c <= '9'
}

/// The value of a decimal digit.
pub open spec fn spec_digit_val(c: char) -> int {
    c as int - '0' as int
}

/// Every character is a decimal digit.
pub open spec fn spec_all_digits(s: Seq<char>) -> bool {
    forall|i: int| 0 <= i < s.len() ==> spec_is_digit(#[trigger] s[i])
}

/// The number a digit string denotes.
pub open spec fn spec_digits_val(s: Seq<char>) -> int
    decreases s.len(),
{
    if s.len() == 0 {
        0
    } else {
        spec_digits_val(s.drop_last()) * 10 + spec_digit_val(s.last())
    }
}

/// A digit string denotes a non-negative number.
pub proof fn lemma_digits_val_nonneg(s: Seq<char>)
    requires
        spec_all_digits(s),
    ensures
        spec_digits_val(s) >= 0,
    decreases s.len(),
{
    if s.len() > 0 {
        assert(spec_all_digits(s.drop_last()));
        lemma_digits_val_nonneg(s.drop_last());
    }
}

/// A digit string denotes at least what any prefix of it denotes.
pub proof fn lemma_digits_val_prefix(s: Seq<char>, i: int)
    requires
        spec_all_digits(s),
        0 <= i <= s.len(),
    ensures
        spec_digits_val(s) >= spec_digits_val(s.subrange(0, i)),
    decreases s.len() - i,
{
    if i < s.len() {
        lemma_digits_val_prefix(s, i + 1);
        assert(s.subrange(0, i + 1).drop_last() =~= s.subrange(0, i));
        assert(spec_all_digits(s.subrange(0, i)));
        lemma_digits_val_nonneg(s.subrange(0, i));
    } else {
        assert(s.subrange(0, i) =~= s);
    }
}

/// Parses a decimal number: accepted exactly when the string is non-empty,
/// all digits, and the value fits the word.
pub fn parse_u64(s: &str) -> (r: Option<u64>)
    ensures
        r is Some <==> (s@.len() >= 1 && spec_all_digits(s@) && spec_digits_val(s@) <= u64::MAX),
        r is Some ==> r.unwrap() == spec_digits_val(s@),
{
    let len = s.unicode_len();
    if len == 0 {
        return None;
    }
    let mut acc: u64 = 0;
    let mut i: usize = 0;
    while i < len
        invariant
            0 < len == s@.len(),
            i <= len,
            spec_all_digits(s@.subrange(0, i as int)),
            acc == spec_digits_val(s@.subrange(0, i as int)),
        decreases len - i,
    {
        let c = s.get_char(i);
        if c < '0' || c > '9' {
            return None;
        }
        let d = (c as u32) - 48;
        proof {
            assert(d == spec_digit_val(s@[i as int]));
            assert(s@.subrange(0, i + 1).drop_last() =~= s@.subrange(0, i as int));
        }
        if acc > (u64::MAX - (d as u64)) / 10 {
            proof {
                assert(spec_all_digits(s@.subrange(0, i + 1)));
                assert(spec_digits_val(s@.subrange(0, i + 1)) > u64::MAX);
                if spec_all_digits(s@) {
                    lemma_digits_val_prefix(s@, i + 1);
                }
            }
            return None;
        }
        acc = acc * 10 + (d as u64);
        i = i + 1;
    }
    proof {
        assert(s@.subrange(0, len as int) =~= s@);
    }
    Some(acc)
}

/// Character-for-character string equality.
pub fn str_eq(a: &str, b: &str) -> (r: bool)
    ensures
        r == (a@ == b@),
{
    let alen = a.unicode_len();
    let blen = b.unicode_len();
    if alen != blen {
        return false;
    }
    let mut i: usize = 0;
    while i < alen
        invariant
            i <= alen,
            alen == a@.len(),
            alen == b@.len(),
            forall|j: int| 0 <= j < i ==> a@[j] == b@[j],
        decreases alen - i,
    {
        if a.get_char(i) != b.get_char(i) {
            return false;
        }
        i = i + 1;
    }
    proof {
        assert(a@ =~= b@);
    }
    true
}

/// Whether a string equals the ASCII lower-case folding of another: how
/// case-insensitive verbs and arguments are matched.
pub fn eq_lower(input: &str, expect: &str) -> (r: bool)
    ensures
        r == (spec_lower(input@) == expect@),
{
    let low = ascii_lowercase(input);
    str_eq(low.as_str(), expect)
}

} // verus!
