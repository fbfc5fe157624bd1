//! Reading of switches and numbers out of configuration strings.
use vstd::prelude::*;

verus! {

/// The Unicode property White_Space.
pub open spec fn is_white_space(c: char) -> bool {
    let u = c as u32;
    ||| 0x9 <= u <= 0xd
    ||| u == 0x20
    ||| u == 0x85
    ||| u == 0xa0
    ||| u == 0x1680
    ||| 0x2000 <= u <= 0x200a
    ||| u == 0x2028
    ||| u == 0x2029
    ||| u == 0x202f
    ||| u == 0x205f
    ||| u == 0x3000
}

/// `s` without its leading white space.
pub open spec fn trimmed_start(s: Seq<char>) -> Seq<char>
    decreases s.len(),
{
    if s.len() > 0 && is_white_space(s[0]) {
        trimmed_start(s.drop_first())
    } else {
        s
    }
}

/// `s` without its trailing white space.
pub open spec fn trimmed_end(s: Seq<char>) -> Seq<char>
    decreases s.len(),
{
    if s.len() > 0 && is_white_space(s.last()) {
        trimmed_end(s.drop_last())
    } else {
        s
    }
}

/// `s` without the white space at both ends.
pub open spec fn trimmed(s: Seq<char>) -> Seq<char> {
    trimmed_end(trimmed_start(s))
}

/// `str::trim`: the string without leading and trailing characters of the Unicode property
/// White_Space.
#[verifier::external_body]
fn trim(s: &str) -> (r: &str)
    ensures
        r@ == trimmed(s@),
{
    s.trim()
}

/// The lower-case form of an ASCII capital; any other character is its own.
pub open spec fn lower(c: char) -> char {
    if 'A' <= c <= 'Z' {
        (c as u32 + 32) as char
    } else {
        c
    }
}

/// `str::to_ascii_lowercase`: the string with each of the letters A to Z replaced by its lower-case
/// form.
#[verifier::external_body]
fn to_lower(s: &str) -> (r: String)
    ensures
        r@ == s@.map_values(|c: char| lower(c)),
{
    s.to_ascii_lowercase()
}

/// What a case-insensitive setting says: no white space around it, and lower case.
pub open spec fn keyword(raw: Seq<char>) -> Seq<char> {
    trimmed(raw).map_values(|c: char| lower(c))
}

/// Reads a case-insensitive setting.
pub(crate) fn read_keyword(raw: &str) -> (r: String)
    ensures
        r@ == keyword(raw@),
{
    to_lower(trim(raw))
}

/// A decimal digit.
pub open spec fn is_digit(c: char) -> bool {
    '0' <= c <= '9'
}

/// Value of a run of decimal digits.
pub open spec fn digits_value(s: Seq<char>) -> nat
    decreases s.len(),
{
    if s.len() == 0 {
        0
    } else {
        digits_value(s.drop_last()) * 10 + (s.last() as u32 - '0' as u32) as nat
    }
}

/// One or more decimal digits.
pub open spec fn is_digits(s: Seq<char>) -> bool {
    s.len() > 0 && forall|i: int| 0 <= i < s.len() ==> is_digit(#[trigger] s[i])
}

/// The number that `s` writes out: decimal digits behind an optional sign.
pub open spec fn signed_value(s: Seq<char>) -> Option<int> {
    if is_digits(s) {
        Some(digits_value(s) as int)
    } else if s.len() > 0 && s[0] == '+' && is_digits(s.drop_first()) {
        Some(digits_value(s.drop_first()) as int)
    } else if s.len() > 0 && s[0] == '-' && is_digits(s.drop_first()) {
        Some(-(digits_value(s.drop_first()) as int))
    } else {
        None
    }
}

/// `str::parse::<i64>`: an optional `+` or `-` and then decimal digits only, where the number fits.
#[verifier::external_body]
pub(crate) fn parse_i64(s: &str) -> (r: Option<i64>)
    ensures
        r == (match signed_value(s@) {
            Some(v) => if i64::MIN <= v <= i64::MAX {
                Some(v as i64)
            } else {
                None
            },
            None => None,
        }),
{
    s.parse::<i64>().ok()
}

/// The number that `s` writes out without a minus sign.
pub open spec fn unsigned_value(s: Seq<char>) -> Option<nat> {
    if is_digits(s) {
        Some(digits_value(s))
    } else if s.len() > 0 && s[0] == '+' && is_digits(s.drop_first()) {
        Some(digits_value(s.drop_first()))
    } else {
        None
    }
}

/// The number that `s` writes out, where it is at most `max`.
pub open spec fn unsigned_up_to(s: Seq<char>, max: int) -> Option<int> {
    match unsigned_value(s) {
        Some(v) => if v <= max {
            Some(v as int)
        } else {
            None
        },
        None => None,
    }
}

/// `str::parse::<u64>`: an optional `+` and then decimal digits only, where the number fits.
#[verifier::external_body]
pub(crate) fn parse_u64(s: &str) -> (r: Option<u64>)
    ensures
        opt_u64(r) == unsigned_up_to(s@, u64::MAX as int),
{
    s.parse::<u64>().ok()
}

/// An optional word as an optional integer.
pub open spec fn opt_u64(v: Option<u64>) -> Option<int> {
    match v {
        Some(x) => Some(x as int),
        None => None,
    }
}

/// An optional word as an optional integer.
pub open spec fn opt_u32(v: Option<u32>) -> Option<int> {
    match v {
        Some(x) => Some(x as int),
        None => None,
    }
}

/// A number of 32 bits, by the same grammar.
pub(crate) fn parse_u32(s: &str) -> (r: Option<u32>)
    ensures
        opt_u32(r) == unsigned_up_to(s@, u32::MAX as int),
{
    match parse_u64(s) {
        Some(v) => if v <= 0xffff_ffff {
            Some(v as u32)
        } else {
            None
        },
        None => None,
    }
}

/// The characters of an optional string.
pub open spec fn opt_view(raw: Option<&str>) -> Option<Seq<char>> {
    match raw {
        Some(s) => Some(s@),
        None => None,
    }
}

/// The number that `raw` writes out between white space, where it is present and at most `max`.
pub open spec fn setting_value(raw: Option<Seq<char>>, max: int) -> Option<int> {
    match raw {
        Some(s) => unsigned_up_to(trimmed(s), max),
        None => None,
    }
}

/// Reads an unsigned setting of 64 bits, ignoring white space around it.
pub(crate) fn setting_u64(raw: Option<&str>) -> (r: Option<u64>)
    ensures
        opt_u64(r) == setting_value(opt_view(raw), u64::MAX as int),
{
    match raw {
        Some(s) => parse_u64(trim(s)),
        None => None,
    }
}

/// Reads an unsigned setting of 32 bits, ignoring white space around it.
pub(crate) fn setting_u32(raw: Option<&str>) -> (r: Option<u32>)
    ensures
        opt_u32(r) == setting_value(opt_view(raw), u32::MAX as int),
{
    match raw {
        Some(s) => parse_u32(trim(s)),
        None => None,
    }
}

/// The character of a decimal digit.
pub open spec fn digit_char(d: int) -> char {
    (48 + d) as char
}

/// Decimal notation of a number.
pub open spec fn decimal(n: nat) -> Seq<char>
    decreases n,
{
    if n < 10 {
        seq![digit_char(n as int)]
    } else {
        decimal(n / 10).push(digit_char((n % 10) as int))
    }
}

/// A decimal digit.
fn digit_text(d: u64) -> (s: &'static str)
    requires
        d < 10,
    ensures
        s@ == seq![digit_char(d as int)],
{
    proof {
        reveal_strlit("0");
        reveal_strlit("1");
        reveal_strlit("2");
        reveal_strlit("3");
        reveal_strlit("4");
        reveal_strlit("5");
        reveal_strlit("6");
        reveal_strlit("7");
        reveal_strlit("8");
        reveal_strlit("9");
    }
    match d {
        0 => "0",
        1 => "1",
        2 => "2",
        3 => "3",
        4 => "4",
        5 => "5",
        6 => "6",
        7 => "7",
        8 => "8",
        _ => "9",
    }
}

/// Appends the decimal notation of `n`.
fn push_decimal(out: &mut String, n: u64)
    ensures
        final(out)@ == old(out)@ + decimal(n as nat),
    decreases n,
{
    if n >= 10 {
        push_decimal(out, n / 10);
    }
    out.append(digit_text(n % 10));
    assert(out@ =~= old(out)@ + decimal(n as nat));
}

/// Numbers in decimal notation with a dot between one and the next.
pub open spec fn dotted(parts: Seq<u64>) -> Seq<char>
    decreases parts.len(),
{
    if parts.len() == 0 {
        Seq::empty()
    } else if parts.len() == 1 {
        decimal(parts[0] as nat)
    } else {
        dotted(parts.drop_last()).push('.') + decimal(parts.last() as nat)
    }
}

/// Writes numbers in dotted decimal notation.
pub(crate) fn dotted_string(parts: &[u64]) -> (s: String)
    ensures
        s@ == dotted(parts@),
{
    proof {
        reveal_strlit(".");
    }
    let mut out = String::new();
    let mut i: usize = 0;
    while i < parts.len()
        invariant
            i <= parts@.len(),
            "."@ == seq!['.'],
            out@ == dotted(parts@.take(i as int)),
        decreases parts@.len() - i,
    {
        let ghost before = parts@.take(i as int);
        let ghost now = parts@.take(i + 1);
        if i > 0 {
            out.append(".");
        }
        push_decimal(&mut out, parts[i]);
        proof {
            assert(now.drop_last() =~= before);
            assert(now.last() == parts@[i as int]);
            if i == 0 {
                assert(out@ =~= decimal(parts@[0] as nat));
            }
            assert(out@ =~= dotted(now));
        }
        i = i + 1;
    }
    assert(parts@.take(parts@.len() as int) =~= parts@);
    out
}

/// Whether two strings hold the same characters.
pub fn same_text(a: &str, b: &str) -> (r: bool)
    ensures
        r == (a@ == b@),
{
    let n: usize = a.unicode_len();
    if n != b.unicode_len() {
        return false;
    }
    let mut i: usize = 0;
    while i < n
        invariant
            i <= n,
            n == a@.len(),
            n == b@.len(),
            forall|j: int| 0 <= j < i ==> a@[j] == b@[j],
        decreases n - i,
    {
        if a.get_char(i) != b.get_char(i) {
            return false;
        }
        i = i + 1;
    }
    assert(a@ =~= b@);
    true
}

/// The spellings of an enabled switch.
pub open spec fn is_on_word(s: Seq<char>) -> bool {
    s == "1"@ || s == "true"@ || s == "yes"@ || s == "on"@
}

/// The switch is set to one of the spellings of "on", possibly between white space.
pub open spec fn is_switched_on(raw: Option<Seq<char>>) -> bool {
    match raw {
        Some(s) => is_on_word(trimmed(s)),
        None => false,
    }
}

/// Reads an opt-in switch.
pub fn switched_on(raw: Option<&str>) -> (r: bool)
    ensures
        r == is_switched_on(opt_view(raw)),
{
    match raw {
        Some(s) => {
            let inner = trim(s);
            same_text(inner, "1") || same_text(inner, "true") || same_text(inner, "yes")
                || same_text(inner, "on")
        },
        None => false,
    }
}

/// A switch is on for its four spellings, between any white space, and for nothing else; an unset one
/// is off.
pub proof fn law_switches_have_four_spellings(raw: &str, r: bool, unset: bool)
    requires
        call_ensures(switched_on, (Some(raw),), r),
        call_ensures(switched_on, (None,), unset),
    ensures
        !unset,
        r <==> trimmed(raw@) == "1"@ || trimmed(raw@) == "true"@ || trimmed(raw@) == "yes"@ || trimmed(
            raw@,
        ) == "on"@,
{
}

/// Two texts are the same exactly where all their characters are.
pub proof fn law_same_texts_agree_everywhere(a: &str, b: &str, r: bool)
    requires
        call_ensures(same_text, (a, b), r),
    ensures
        r <==> a@.len() == b@.len() && forall|i: int|
            0 <= i < a@.len() ==> #[trigger] a@[i] == b@[i],
{
    if a@.len() == b@.len() && (forall|i: int| 0 <= i < a@.len() ==> #[trigger] a@[i] == b@[i]) {
        assert(a@ =~= b@);
    }
}

/// Written numbers read back: the decimal notation of a number consists of digits and has its value.
pub proof fn law_written_numbers_read_back(n: nat)
    ensures
        is_digits(decimal(n)),
        digits_value(decimal(n)) == n,
        n >= 10 ==> decimal(n)[0] != '0',
    decreases n,
{
    let d = (n % 10) as int;
    assert(digit_char(d) as u32 == 48 + d);
    if n >= 10 {
        law_written_numbers_read_back(n / 10);
        let s = decimal(n);
        assert(s.drop_last() =~= decimal(n / 10));
        assert(s.last() == digit_char(d));
        assert forall|i: int| 0 <= i < s.len() implies is_digit(#[trigger] s[i]) by {
            if i < s.len() - 1 {
                assert(s[i] == decimal(n / 10)[i]);
            }
        }
        assert(s[0] == decimal(n / 10)[0]);
        if n / 10 < 10 {
            assert(decimal(n / 10)[0] == digit_char((n / 10) as int));
            assert(digit_char((n / 10) as int) as u32 == 48 + n / 10);
        }
    } else {
        assert(decimal(n).drop_last() =~= Seq::<char>::empty());
        assert(digits_value(Seq::<char>::empty()) == 0);
        assert(decimal(n).last() == digit_char(d));
    }
}

/// Numbers in dotted notation stand in their order, each in decimal notation, with one dot between.
pub proof fn law_dotted_numbers_keep_their_order(a: u64, b: u64, c: u64, d: u64)
    ensures
        dotted(seq![a, b, c]) == decimal(a as nat) + seq!['.'] + decimal(b as nat) + seq!['.'] + decimal(
            c as nat,
        ),
        dotted(seq![a, b, c, d]) == decimal(a as nat) + seq!['.'] + decimal(b as nat) + seq!['.']
            + decimal(c as nat) + seq!['.'] + decimal(d as nat),
{
    assert(seq![a, b, c, d].drop_last() =~= seq![a, b, c]);
    assert(seq![a, b, c].drop_last() =~= seq![a, b]);
    assert(seq![a, b].drop_last() =~= seq![a]);
    assert(dotted(seq![a]) == decimal(a as nat));
    assert(dotted(seq![a, b]) =~= decimal(a as nat) + seq!['.'] + decimal(b as nat));
    assert(dotted(seq![a, b, c]) =~= decimal(a as nat) + seq!['.'] + decimal(b as nat) + seq!['.']
        + decimal(c as nat));
    assert(dotted(seq![a, b, c, d]) =~= decimal(a as nat) + seq!['.'] + decimal(b as nat) + seq!['.']
        + decimal(c as nat) + seq!['.'] + decimal(d as nat));
}

/// A setting that writes a number out in decimal notation is read as that number, where it fits, and as
/// none where it does not. A setting that is absent, empty or not made of digits is none.
pub(crate) proof fn law_settings_are_written_numbers(
    raw: &str,
    n: nat,
    wide: Option<u64>,
    narrow: Option<u32>,
    absent: Option<u64>,
)
    requires
        call_ensures(setting_u64, (Some(raw),), wide),
        call_ensures(setting_u32, (Some(raw),), narrow),
        call_ensures(setting_u64, (None,), absent),
    ensures
        absent is None,
        raw@ == decimal(n) ==> {
            &&& n <= u64::MAX ==> wide == Some(n as u64)
            &&& n > u64::MAX ==> wide is None
            &&& n <= u32::MAX ==> narrow == Some(n as u32)
            &&& n > u32::MAX ==> narrow is None
        },
        raw@.len() == 0 ==> wide is None && narrow is None,
        raw@ == seq!['-'] + decimal(n) ==> wide is None && narrow is None,
{
    law_written_numbers_read_back(n);
    let d = decimal(n);
    assert(d.len() > 0);
    assert(is_digit(d[0]) && is_digit(d[d.len() - 1]));
    if raw@ == d {
        assert(trimmed_start(d) == d);
        assert(trimmed_end(d) == d);
        assert(trimmed(raw@) == d);
        assert(d[0] != '+' && d[0] != '-');
    }
    if raw@.len() == 0 {
        assert(trimmed(raw@).len() == 0);
    }
    if raw@ == seq!['-'] + d {
        let s = raw@;
        assert(s[0] == '-');
        assert(s.last() == d.last());
        assert(trimmed_start(s) == s);
        assert(trimmed_end(s) == s);
        assert(!is_digit(s[0]));
        assert(!is_digits(s));
    }
}

/// White space around a text does not change what is read of it.
pub proof fn law_white_space_around_is_ignored(s: Seq<char>, c: char)
    requires
        is_white_space(c),
    ensures
        trimmed(seq![c] + s) == trimmed(s),
        trimmed(s.push(c)) == trimmed(s),
    decreases s.len(),
{
    assert((seq![c] + s).drop_first() =~= s);
    let t = s.push(c);
    assert(t.drop_last() =~= s);
    if s.len() == 0 {
        assert(t[0] == c);
        assert(t.drop_first() =~= s);
    } else if is_white_space(s[0]) {
        assert(t[0] == s[0]);
        assert(t.drop_first() =~= s.drop_first().push(c));
        law_white_space_around_is_ignored(s.drop_first(), c);
    } else {
        assert(t[0] == s[0]);
        assert(trimmed_start(t) == t);
        assert(trimmed_end(t) == trimmed_end(t.drop_last()));
    }
}

/// White space is stripped from both ends: what is left of a text neither begins nor ends with it.
pub proof fn law_nothing_is_left_to_strip(s: Seq<char>)
    ensures
        trimmed(s).len() > 0 ==> !is_white_space(trimmed(s)[0]) && !is_white_space(trimmed(s).last()),
    decreases s.len(),
{
    if s.len() > 0 && is_white_space(s[0]) {
        law_nothing_is_left_to_strip(s.drop_first());
    } else if s.len() > 0 {
        lemma_stripped_end(s);
    }
}

proof fn lemma_stripped_end(s: Seq<char>)
    ensures
        trimmed_end(s).len() <= s.len(),
        trimmed_end(s).len() > 0 ==> trimmed_end(s)[0] == s[0] && !is_white_space(trimmed_end(s).last()),
    decreases s.len(),
{
    if s.len() > 0 && is_white_space(s.last()) {
        lemma_stripped_end(s.drop_last());
    }
}

/// The decimal notation of a number reads as that number, signed or not, and has no white space to
/// strip; behind a minus sign it is the negative number, and no unsigned one.
pub proof fn law_decimal_notation_reads_as_its_number(n: nat)
    ensures
        trimmed(decimal(n)) == decimal(n),
        unsigned_value(decimal(n)) == Some(n),
        signed_value(decimal(n)) == Some(n as int),
        signed_value(seq!['-'] + decimal(n)) == Some(-(n as int)),
        unsigned_value(seq!['-'] + decimal(n)) is None,
        unsigned_value(seq!['+'] + decimal(n)) == Some(n),
{
    law_written_numbers_read_back(n);
    let d = decimal(n);
    assert(d.len() > 0);
    assert(is_digit(d[0]) && is_digit(d[d.len() - 1]));
    assert(trimmed_start(d) == d);
    assert(trimmed_end(d) == d);
    let minus = seq!['-'] + d;
    assert(minus.drop_first() =~= d);
    assert(minus[0] == '-' && !is_digit(minus[0]));
    let plus = seq!['+'] + d;
    assert(plus.drop_first() =~= d);
    assert(plus[0] == '+' && !is_digit(plus[0]));
}

/// A capital is lowered to its small letter, any other character is kept, and lowering it again changes
/// nothing.
pub proof fn law_letters_are_lowered_once(c: char)
    ensures
        'A' <= c <= 'Z' ==> lower(c) as u32 == c as u32 + 32 && 'a' <= lower(c) <= 'z',
        !('A' <= c <= 'Z') ==> lower(c) == c,
        lower(lower(c)) == lower(c),
{
}

} // verus!
