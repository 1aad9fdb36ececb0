use vstd::prelude::*;

verus! {

/// The character of a decimal digit `d` (`d < 10`).
pub open spec fn digit_char(d: nat) -> char {
    (48 + d) as char
}

/// The decimal representation of `n`, most significant digit first, no leading zeros.
pub open spec fn decimal(n: nat) -> Seq<char>
    decreases n,
{
    if n < 10 {
        seq![digit_char(n)]
    } else {
        decimal(n / 10).push(digit_char(n % 10))
    }
}

/// The decimal representation of a signed integer: a minus sign before negative values.
pub open spec fn signed_decimal(n: int) -> Seq<char> {
    if n < 0 {
        seq!['-'] + decimal((-n) as nat)
    } else {
        decimal(n as nat)
    }
}

/// Formats a `usize` with std's `Display` (`to_string`); the documentation of the integer
/// `Display` impls promises the plain decimal form, which is what the contract claims.
#[verifier::external_body]
pub fn usize_text(n: usize) -> (res: String)
    ensures
        res@ == decimal(n as nat),
{
    n.to_string()
}

/// Formats a `u32` with std's `Display` (`to_string`); the contract claims the plain decimal
/// form, as the integer `Display` documentation gives it.
#[verifier::external_body]
pub fn u32_text(n: u32) -> (res: String)
    ensures
        res@ == decimal(n as nat),
{
    n.to_string()
}

/// Formats an `i32` with std's `Display` (`to_string`); the contract claims the decimal form,
/// with a leading `-` for negative values, as the integer `Display` documentation gives it.
#[verifier::external_body]
pub fn i32_text(n: i32) -> (res: String)
    ensures
        res@ == signed_decimal(n as int),
{
    n.to_string()
}

/// Appends one character to a `String` (std's `String::push`); the contract claims the
/// character is added at the end and nothing else changes.
#[verifier::external_body]
pub fn push_char(s: &mut String, c: char)
    ensures
        final(s)@ == old(s)@.push(c),
{
    s.push(c);
}

/// Removes the last character of a `String` (std's `String::pop`); the contract claims it
/// returns `None` on an empty string and otherwise the last character, which is removed.
#[verifier::external_body]
pub fn pop_char(s: &mut String) -> (res: Option<char>)
    ensures
        old(s)@.len() == 0 ==> res is None && final(s)@ == old(s)@,
        old(s)@.len() > 0 ==> res == Some(old(s)@.last()) && final(s)@ == old(s)@.drop_last(),
{
    s.pop()
}

/// A new `String` holding the characters of `s`.
pub fn text_of(s: &str) -> (res: String)
    ensures
        res@ == s@,
{
    String::from_str(s)
}

/// `true` when the two strings hold the same characters.
pub fn same_text(a: &str, b: &str) -> (res: bool)
    ensures
        res == (a@ == b@),
{
    let n = a.unicode_len();
    if n != b.unicode_len() {
        return false;
    }
    let mut i: usize = 0;
    while i < n
        invariant
            n == a@.len(),
            n == b@.len(),
            i <= n,
            forall|j: int| 0 <= j < i ==> a@[j] == b@[j],
        decreases n - i,
    {
        if a.get_char(i) != b.get_char(i) {
            return false;
        }
        i = i + 1;
    }
    assert(a@ =~= b@);
    true
}

/// `true` when `s` ends with `suffix`.
pub fn ends_with(s: &str, suffix: &str) -> (res: bool)
    ensures
        res == suffix@.is_suffix_of(s@),
{
    let n = s.unicode_len();
    let m = suffix.unicode_len();
    if m > n {
        return false;
    }
    let off = n - m;
    let mut i: usize = 0;
    while i < m
        invariant
            n == s@.len(),
            m == suffix@.len(),
            off == n - m,
            i <= m,
            forall|j: int| 0 <= j < i ==> suffix@[j] == s@[off + j],
        decreases m - i,
    {
        if suffix.get_char(i) != s.get_char(off + i) {
            return false;
        }
        i = i + 1;
    }
    assert(suffix@ =~= s@.subrange(off as int, n as int));
    true
}


/// Whether `c` is a control character: Unicode general category Cc, which is exactly
/// U+0000 to U+001F and U+007F to U+009F.
pub open spec fn control_char(c: char) -> bool {
    (c as u32) <= 0x1f || (0x7f <= (c as u32) && (c as u32) <= 0x9f)
}

/// Whether Unicode classes `c` as alphabetic or numeric.
pub uninterp spec fn unicode_alphanumeric(c: char) -> bool;

/// Whether `c` is a control character (the same answer as std's `char::is_control`).
pub fn is_control(c: char) -> (res: bool)
    ensures
        res == control_char(c),
{
    let n = c as u32;
    n <= 0x1f || (0x7f <= n && n <= 0x9f)
}

/// std's `char::is_alphanumeric`; the contract claims only that the answer is the named
/// function of the character.
#[verifier::external_body]
fn is_alphanumeric(c: char) -> (res: bool)
    ensures
        res == unicode_alphanumeric(c),
{
    c.is_alphanumeric()
}

/// Which typed characters a text field accepts.
#[derive(Clone, Copy, Debug, PartialEq, Eq, Structural)]
pub enum CharRule {
    /// Anything but control characters (level names, sequence paths).
    Printable,
    /// Letters, digits, `-`, `_`, `.` and `/` (level file paths).
    PathChars,
    /// Letters, digits, `-`, `_` and `.` (file names).
    NameChars,
}

/// Whether `rule` accepts `c`, given whether `c` is a control character and whether it is
/// alphanumeric.
pub open spec fn rule_accepts(rule: CharRule, c: char, control: bool, alphanumeric: bool) -> bool {
    match rule {
        CharRule::Printable => !control,
        CharRule::PathChars => alphanumeric || c == '-' || c == '_' || c == '.' || c == '/',
        CharRule::NameChars => alphanumeric || c == '-' || c == '_' || c == '.',
    }
}

/// Whether `rule` accepts the character `c`.
pub open spec fn allows(rule: CharRule, c: char) -> bool {
    rule_accepts(rule, c, control_char(c), unicode_alphanumeric(c))
}

/// The characters of `s` that `rule` accepts, in order.
pub open spec fn kept(s: Seq<char>, rule: CharRule) -> Seq<char>
    decreases s.len(),
{
    if s.len() == 0 {
        Seq::empty()
    } else if allows(rule, s.last()) {
        kept(s.drop_last(), rule).push(s.last())
    } else {
        kept(s.drop_last(), rule)
    }
}

/// Decides whether `rule` accepts `c` from the two character classes of `c`.
pub fn accepts(rule: CharRule, c: char, control: bool, alphanumeric: bool) -> (res: bool)
    ensures
        res == rule_accepts(rule, c, control, alphanumeric),
{
    match rule {
        CharRule::Printable => !control,
        CharRule::PathChars => alphanumeric || c == '-' || c == '_' || c == '.' || c == '/',
        CharRule::NameChars => alphanumeric || c == '-' || c == '_' || c == '.',
    }
}

/// Types the characters of `s` that `rule` accepts into `buf`.
pub fn append_allowed(buf: &mut String, s: &str, rule: CharRule)
    ensures
        final(buf)@ == old(buf)@ + kept(s@, rule),
{
    let n = s.unicode_len();
    let ghost start = buf@;
    let mut i: usize = 0;
    assert(s@.take(0) =~= Seq::<char>::empty());
    assert(start =~= start + kept(s@.take(0), rule));
    while i < n
        invariant
            n == s@.len(),
            i <= n,
            buf@ == start + kept(s@.take(i as int), rule),
        decreases n - i,
    {
        let c = s.get_char(i);
        let ghost before = buf@;
        let control = is_control(c);
        let alnum = is_alphanumeric(c);
        assert(s@.take(i + 1).drop_last() =~= s@.take(i as int));
        assert(s@.take(i + 1).last() == c);
        if accepts(rule, c, control, alnum) {
            push_char(buf, c);
            assert(buf@ =~= start + kept(s@.take(i + 1), rule));
        } else {
            assert(buf@ =~= start + kept(s@.take(i + 1), rule));
        }
        i = i + 1;
    }
    assert(s@.take(n as int) =~= s@);
}

/// `s` with `.json` added unless it already ends with it.
pub open spec fn with_json_ext(s: Seq<char>) -> Seq<char> {
    if ".json"@.is_suffix_of(s) {
        s
    } else {
        s + ".json"@
    }
}

/// Adds the `.json` extension to a file name that lacks it.
pub fn json_file_name(name: String) -> (res: String)
    ensures
        res@ == with_json_ext(name@),
{
    if ends_with(name.as_str(), ".json") {
        name
    } else {
        let mut r = name;
        r.append(".json");
        r
    }
}

/// The extended name always ends with `.json`, and extending twice changes nothing more.
pub proof fn law_json_ext_idempotent(s: Seq<char>)
    ensures
        ".json"@.is_suffix_of(with_json_ext(s)),
        with_json_ext(with_json_ext(s)) == with_json_ext(s),
{
    let t = s + ".json"@;
    assert(t.subrange(t.len() - ".json"@.len(), t.len() as int) =~= ".json"@);
}

} // verus!
