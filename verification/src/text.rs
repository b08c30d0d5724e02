use vstd::prelude::*;

verus! {

/// Appends one character to a string (std `String::push`).
#[verifier::external_body]
pub(crate) fn push_char(s: &mut String, c: char)
    ensures
        final(s)@ == old(s)@.push(c),
{
    s.push(c);
}

/// The characters of a string slice, in order.
pub fn chars_of(s: &str) -> (res: Vec<char>)
    ensures
        res@ == s@,
{
    let mut res: Vec<char> = Vec::new();
    for c in it: s.chars()
        invariant
            res@ == it.seq().take(it.index() as int),
    {
        res.push(c);
    }
    res
}

} // verus!

verus! {

/// Lower-case hexadecimal digit for a value below 16.
pub open spec fn hex_char_lower(n: int) -> char {
    if n < 10 { (n + 48) as char } else { (n - 10 + 97) as char }
}

/// Upper-case hexadecimal digit for a value below 16.
pub open spec fn hex_char_upper(n: int) -> char {
    if n < 10 { (n + 48) as char } else { (n - 10 + 65) as char }
}

/// Two hexadecimal digits per byte, high nibble first, in lower or upper case.
pub open spec fn hex_encode(bytes: Seq<u8>, upper: bool) -> Seq<char>
    decreases bytes.len(),
{
    if bytes.len() == 0 {
        Seq::empty()
    } else {
        let hi = (bytes[0] / 16) as int;
        let lo = (bytes[0] % 16) as int;
        let pair = if upper {
            seq![hex_char_upper(hi), hex_char_upper(lo)]
        } else {
            seq![hex_char_lower(hi), hex_char_lower(lo)]
        };
        pair + hex_encode(bytes.drop_first(), upper)
    }
}

proof fn lemma_hex_encode_snoc(bytes: Seq<u8>, b: u8, upper: bool)
    ensures
        hex_encode(bytes.push(b), upper) == hex_encode(bytes, upper) + hex_encode(seq![b], upper),
    decreases bytes.len(),
{
    if bytes.len() == 0 {
        assert(bytes.push(b) =~= seq![b]);
    } else {
        lemma_hex_encode_snoc(bytes.drop_first(), b, upper);
        assert(bytes.push(b).drop_first() =~= bytes.drop_first().push(b));
        let tail = hex_encode(seq![b], upper);
        assert(seq![b].drop_first() =~= Seq::<u8>::empty());
    }
}

/// Whether a character is a hexadecimal digit of the given case.
pub open spec fn is_hex_digit(c: char, upper: bool) -> bool {
    ||| '0' <= c <= '9'
    ||| upper && 'A' <= c <= 'F'
    ||| !upper && 'a' <= c <= 'f'
}

/// Hexadecimal text has two digits per byte, each a hexadecimal digit of the chosen case.
pub proof fn lemma_hex_encode_shape(bytes: Seq<u8>, upper: bool)
    ensures
        hex_encode(bytes, upper).len() == 2 * bytes.len(),
        forall|i: int| 0 <= i < hex_encode(bytes, upper).len() ==> is_hex_digit(#[trigger] hex_encode(bytes, upper)[i], upper),
    decreases bytes.len(),
{
    if bytes.len() > 0 {
        lemma_hex_encode_shape(bytes.drop_first(), upper);
        let hi = (bytes[0] / 16) as int;
        let lo = (bytes[0] % 16) as int;
        let rest = hex_encode(bytes.drop_first(), upper);
        let e = hex_encode(bytes, upper);
        assert(is_hex_digit(hex_char_upper(hi), true) && is_hex_digit(hex_char_upper(lo), true));
        assert(is_hex_digit(hex_char_lower(hi), false) && is_hex_digit(hex_char_lower(lo), false));
        assert forall|i: int| 0 <= i < e.len() implies is_hex_digit(#[trigger] e[i], upper) by {
            if i >= 2 {
                assert(e[i] == rest[i - 2]);
            }
        }
    }
}

fn hex_digit(n: u8, upper: bool) -> (c: char)
    requires
        n < 16,
    ensures
        c == (if upper { hex_char_upper(n as int) } else { hex_char_lower(n as int) }),
{
    if n < 10 {
        (n + 48) as char
    } else if upper {
        (n - 10 + 65) as char
    } else {
        (n - 10 + 97) as char
    }
}

/// Hexadecimal text of a byte string: two digits per byte, high nibble first.
pub fn hex_string(bytes: &[u8], upper: bool) -> (res: String)
    ensures
        res@ == hex_encode(bytes@, upper),
{
    let mut res = String::new();
    let n = bytes.len();
    for i in 0..n
        invariant
            n == bytes@.len(),
            res@ == hex_encode(bytes@.take(i as int), upper),
    {
        let b = bytes[i];
        push_char(&mut res, hex_digit(b / 16, upper));
        push_char(&mut res, hex_digit(b % 16, upper));
        proof {
            lemma_hex_encode_snoc(bytes@.take(i as int), b, upper);
            assert(bytes@.take(i as int).push(b) =~= bytes@.take(i + 1));
            assert(seq![b].drop_first() =~= Seq::<u8>::empty());
            assert(hex_encode(Seq::<u8>::empty(), upper) =~= Seq::<char>::empty());
            assert(seq![b][0] == b);
        }
    }
    assert(bytes@.take(n as int) =~= bytes@);
    res
}

} // verus!

verus! {

/// The decimal digit character of a value below 10.
pub open spec fn digit_char(n: int) -> char {
    (n + 48) as char
}

/// Decimal text of a natural number, without leading zeros.
pub open spec fn decimal(n: nat) -> Seq<char>
    decreases n,
{
    if n < 10 {
        seq![digit_char(n as int)]
    } else {
        decimal(n / 10).push(digit_char((n % 10) as int))
    }
}

/// Decimal text of an integer: a minus sign before the digits of a negative value.
pub open spec fn signed_decimal(n: int) -> Seq<char> {
    if n < 0 {
        seq!['-'] + decimal((-n) as nat)
    } else {
        decimal(n as nat)
    }
}

/// Appends the decimal text of `n`.
pub fn push_decimal(s: &mut String, n: u64)
    ensures
        final(s)@ == old(s)@ + decimal(n as nat),
    decreases n,
{
    if n >= 10 {
        push_decimal(s, n / 10);
    }
    let d = (n % 10) as u8;
    push_char(s, (d + 48) as char);
    assert(old(s)@ + decimal(n as nat) =~= (if n >= 10 { old(s)@ + decimal((n / 10) as nat) } else { old(s)@ }).push(digit_char((n % 10) as int)));
}

/// Decimal text of an unsigned number.
pub fn u64_to_string(n: u64) -> (res: String)
    ensures
        res@ == decimal(n as nat),
{
    let mut s = String::new();
    push_decimal(&mut s, n);
    assert(Seq::<char>::empty() + decimal(n as nat) =~= decimal(n as nat));
    s
}

/// Decimal text of a signed number.
pub fn i64_to_string(n: i64) -> (res: String)
    ensures
        res@ == signed_decimal(n as int),
{
    let mut s = String::new();
    if n < 0 {
        push_char(&mut s, '-');
        let m: u64 = ((-(n + 1)) as u64) + 1;
        push_decimal(&mut s, m);
        assert(s@ =~= seq!['-'] + decimal((-n) as nat));
    } else {
        push_decimal(&mut s, n as u64);
        assert(s@ =~= decimal(n as nat));
    }
    s
}

/// Why a text is not a number (`std::num::IntErrorKind`).
#[derive(Clone, Copy, Debug, PartialEq, Eq, Structural)]
pub enum ParseIntErrorKind {
    Empty,
    InvalidDigit,
    PosOverflow,
}

/// Whether a character is an ASCII decimal digit.
pub open spec fn is_digit(c: char) -> bool {
    '0' <= c <= '9'
}

/// Reading decimal digits left to right onto `acc`: the first character that is not a digit, or
/// whose digit takes the value past `u32::MAX`, ends the reading with an error.
pub open spec fn scan_u32(d: Seq<char>, acc: nat) -> Result<nat, ParseIntErrorKind>
    decreases d.len(),
{
    if d.len() == 0 {
        Ok(acc)
    } else if !is_digit(d[0]) {
        Err(ParseIntErrorKind::InvalidDigit)
    } else if acc * 10 + (d[0] as int - 48) > u32::MAX {
        Err(ParseIntErrorKind::PosOverflow)
    } else {
        scan_u32(d.drop_first(), (acc * 10 + (d[0] as int - 48)) as nat)
    }
}

/// What `str::parse::<u32>` gives: an empty text is `Empty`; a lone sign is an invalid digit;
/// one leading `+` is skipped; then the digits are read as `scan_u32` does.
pub open spec fn parse_u32_spec(s: Seq<char>) -> Result<u32, ParseIntErrorKind> {
    if s.len() == 0 {
        Err(ParseIntErrorKind::Empty)
    } else if (s[0] == '+' || s[0] == '-') && s.len() == 1 {
        Err(ParseIntErrorKind::InvalidDigit)
    } else {
        let d = if s[0] == '+' { s.drop_first() } else { s };
        match scan_u32(d, 0) {
            Ok(v) => Ok(v as u32),
            Err(e) => Err(e),
        }
    }
}

/// The message of a parse error, as `std::num::ParseIntError` displays it.
pub open spec fn parse_error_message(e: ParseIntErrorKind) -> Seq<char> {
    match e {
        ParseIntErrorKind::Empty => "cannot parse integer from empty string"@,
        ParseIntErrorKind::InvalidDigit => "invalid digit found in string"@,
        ParseIntErrorKind::PosOverflow => "number too large to fit in target type"@,
    }
}

/// The message of a parse error, as `std::num::ParseIntError` displays it.
pub fn parse_error_text(e: ParseIntErrorKind) -> (res: String)
    ensures
        res@ == parse_error_message(e),
{
    match e {
        ParseIntErrorKind::Empty => "cannot parse integer from empty string".to_owned(),
        ParseIntErrorKind::InvalidDigit => "invalid digit found in string".to_owned(),
        ParseIntErrorKind::PosOverflow => "number too large to fit in target type".to_owned(),
    }
}

/// Parses a decimal unsigned 32-bit number as `str::parse::<u32>` does.
pub fn parse_u32(s: &str) -> (res: Result<u32, ParseIntErrorKind>)
    ensures
        res == parse_u32_spec(s@),
{
    let cs = chars_of(s);
    if cs.len() == 0 {
        return Err(ParseIntErrorKind::Empty);
    }
    if (cs[0] == '+' || cs[0] == '-') && cs.len() == 1 {
        return Err(ParseIntErrorKind::InvalidDigit);
    }
    let mut start: usize = 0;
    if cs[0] == '+' {
        start = 1;
    }
    let ghost d = if s@[0] == '+' { s@.drop_first() } else { s@ };
    assert(d =~= cs@.skip(start as int));
    let mut value: u32 = 0;
    let mut i = start;
    assert(d.skip(0) =~= d);
    while i < cs.len()
        invariant
            start <= i <= cs@.len(),
            cs@ == s@,
            s@.len() > 0,
            !((s@[0] == '+' || s@[0] == '-') && s@.len() == 1),
            d == (if s@[0] == '+' { s@.drop_first() } else { s@ }),
            d =~= cs@.skip(start as int),
            scan_u32(d, 0) == scan_u32(d.skip(i - start), value as nat),
        decreases cs@.len() - i,
    {
        let c = cs[i];
        let ghost rest = d.skip(i - start);
        assert(rest[0] == c);
        if c < '0' || c > '9' {
            return Err(ParseIntErrorKind::InvalidDigit);
        }
        let dv = (c as u32) - 48;
        if value > 429496729 || (value == 429496729 && dv > 5) {
            return Err(ParseIntErrorKind::PosOverflow);
        }
        assert(rest.drop_first() =~= d.skip(i + 1 - start));
        value = value * 10 + dv;
        i = i + 1;
    }
    assert(d.skip(i - start) =~= Seq::<char>::empty());
    Ok(value)
}


/// Reading one more character after `d`: the reading of `d`, then that character's digit.
proof fn lemma_scan_push(d: Seq<char>, c: char, acc: nat)
    ensures
        scan_u32(d.push(c), acc) == match scan_u32(d, acc) {
            Ok(v) => if !is_digit(c) {
                Err(ParseIntErrorKind::InvalidDigit)
            } else if v * 10 + (c as int - 48) > u32::MAX {
                Err(ParseIntErrorKind::PosOverflow)
            } else {
                Ok((v * 10 + (c as int - 48)) as nat)
            },
            Err(e) => Err(e),
        },
    decreases d.len(),
{
    if d.len() == 0 {
        assert(d.push(c).drop_first() =~= Seq::<char>::empty());
        assert(d.push(c)[0] == c);
        reveal_with_fuel(scan_u32, 2);
    } else {
        assert(d.push(c)[0] == d[0]);
        assert(d.push(c).drop_first() =~= d.drop_first().push(c));
        if is_digit(d[0]) && acc * 10 + (d[0] as int - 48) <= u32::MAX {
            lemma_scan_push(d.drop_first(), c, (acc * 10 + (d[0] as int - 48)) as nat);
        }
    }
}

/// The digits of a number that fits in a `u32` read back as the number, and the text starts with
/// a digit.
proof fn lemma_scan_decimal(n: nat)
    requires
        n <= u32::MAX,
    ensures
        scan_u32(decimal(n), 0) == Ok::<nat, ParseIntErrorKind>(n),
        decimal(n).len() > 0,
        is_digit(decimal(n)[0]),
    decreases n,
{
    if n < 10 {
        let c = digit_char(n as int);
        assert(c as int == n + 48);
        assert(decimal(n) =~= Seq::<char>::empty().push(c));
        lemma_scan_push(Seq::<char>::empty(), c, 0);
    } else {
        lemma_scan_decimal(n / 10);
        let c = digit_char((n % 10) as int);
        assert(c as int == n % 10 + 48);
        lemma_scan_push(decimal(n / 10), c, 0);
        assert(decimal(n)[0] == decimal(n / 10)[0]);
    }
}

/// The decimal text of a number reads back as that number: `parse::<u32>` undoes `to_string`.
pub proof fn lemma_decimal_parses_back(n: u32)
    ensures
        parse_u32_spec(decimal(n as nat)) == Ok::<u32, ParseIntErrorKind>(n),
{
    lemma_scan_decimal(n as nat);
}

} // verus!

verus! {

/// Lexicographic order of texts by code point, which is the order of `str` (the byte order of
/// their UTF-8 encodings).
pub open spec fn text_less(a: Seq<char>, b: Seq<char>) -> bool
    decreases a.len(),
{
    if a.len() == 0 {
        b.len() > 0
    } else if b.len() == 0 {
        false
    } else if a[0] != b[0] {
        a[0] < b[0]
    } else {
        text_less(a.drop_first(), b.drop_first())
    }
}

/// Whether `a` comes before `b` in the order of `str`.
pub fn text_lt(a: &str, b: &str) -> (res: bool)
    ensures
        res == text_less(a@, b@),
{
    let x = chars_of(a);
    let y = chars_of(b);
    let mut i: usize = 0;
    assert(a@.skip(0) =~= a@);
    assert(b@.skip(0) =~= b@);
    while i < x.len() && i < y.len()
        invariant
            x@ == a@,
            y@ == b@,
            i <= x@.len(),
            i <= y@.len(),
            text_less(a@, b@) == text_less(a@.skip(i as int), b@.skip(i as int)),
        decreases x@.len() - i,
    {
        if x[i] != y[i] {
            assert(a@.skip(i as int)[0] == x@[i as int]);
            assert(b@.skip(i as int)[0] == y@[i as int]);
            return x[i] < y[i];
        }
        assert(a@.skip(i as int).drop_first() =~= a@.skip(i + 1));
        assert(b@.skip(i as int).drop_first() =~= b@.skip(i + 1));
        i = i + 1;
    }
    assert(a@.skip(i as int).len() == 0 || b@.skip(i as int).len() == 0);
    i >= x.len() && i < y.len()
}

/// Whether two texts are the same.
pub fn text_eq(a: &str, b: &str) -> (res: bool)
    ensures
        res == (a@ == b@),
{
    let x = chars_of(a);
    let y = chars_of(b);
    if x.len() != y.len() {
        return false;
    }
    let mut i: usize = 0;
    while i < x.len()
        invariant
            x@ == a@,
            y@ == b@,
            x@.len() == y@.len(),
            i <= x@.len(),
            forall|j: int| 0 <= j < i ==> x@[j] == y@[j],
        decreases x@.len() - i,
    {
        if x[i] != y[i] {
            return false;
        }
        i = i + 1;
    }
    assert(x@ =~= y@);
    true
}

} // verus!

verus! {

/// No text comes before itself.
pub proof fn lemma_text_less_irreflexive(a: Seq<char>)
    ensures
        !text_less(a, a),
    decreases a.len(),
{
    if a.len() > 0 {
        lemma_text_less_irreflexive(a.drop_first());
    }
}

/// The order of texts is transitive.
pub proof fn lemma_text_less_transitive(a: Seq<char>, b: Seq<char>, c: Seq<char>)
    requires
        text_less(a, b),
        text_less(b, c),
    ensures
        text_less(a, c),
    decreases a.len(),
{
    if a.len() > 0 && b.len() > 0 && c.len() > 0 && a[0] == b[0] && b[0] == c[0] {
        lemma_text_less_transitive(a.drop_first(), b.drop_first(), c.drop_first());
    }
}

/// Of two different texts, one comes before the other.
pub proof fn lemma_text_less_total(a: Seq<char>, b: Seq<char>)
    requires
        a != b,
    ensures
        text_less(a, b) || text_less(b, a),
    decreases a.len(),
{
    if a.len() > 0 && b.len() > 0 && a[0] == b[0] {
        if a.drop_first() == b.drop_first() {
            assert(a =~= seq![a[0]] + a.drop_first());
            assert(b =~= seq![b[0]] + b.drop_first());
        }
        lemma_text_less_total(a.drop_first(), b.drop_first());
    } else if a.len() == 0 && b.len() == 0 {
        assert(a =~= b);
    }
}

/// A text comes before another in exactly one way: they differ, and not both ways.
pub proof fn lemma_text_less_asymmetric(a: Seq<char>, b: Seq<char>)
    requires
        text_less(a, b),
    ensures
        !text_less(b, a),
        a != b,
{
    lemma_text_less_irreflexive(a);
    if text_less(b, a) {
        lemma_text_less_transitive(a, b, a);
    }
}

} // verus!

verus! {

/// "Not after" is transitive: if `b` is not before `a` and `c` not before `b`, then `c` is not
/// before `a`.
pub proof fn lemma_text_not_less_transitive(a: Seq<char>, b: Seq<char>, c: Seq<char>)
    requires
        !text_less(b, a),
        !text_less(c, b),
    ensures
        !text_less(c, a),
{
    if text_less(c, a) {
        if a != b {
            lemma_text_less_total(a, b);
            lemma_text_less_transitive(c, a, b);
        }
    }
}

} // verus!
