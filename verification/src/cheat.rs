//! Cheat code parsing for the FCEUX format: `TYPE:ADDRESS:VALUE:DESCRIPTION`, with the
//! type `S` (substitute reads), `C` (compare) or `SC`/`CS`, and the address and value
//! in hexadecimal.

use crate::util::string_of_chars;
use vstd::prelude::*;

verus! {

/// What a cheat does.
#[derive(Clone, Copy, Debug, PartialEq, Eq, PartialOrd, Ord, Structural)]
pub enum CheatType {
    ReadSubstitute,
    Compare,
    ReadSubstituteCompare,
}

/// The cheat type that a field names.
pub open spec fn cheat_type_of(s: Seq<char>) -> Option<CheatType> {
    if s == seq!['S'] {
        Some(CheatType::ReadSubstitute)
    } else if s == seq!['C'] {
        Some(CheatType::Compare)
    } else if s == seq!['S', 'C'] || s == seq!['C', 'S'] {
        Some(CheatType::ReadSubstituteCompare)
    } else {
        None
    }
}

impl CheatType {
    /// The cheat type that the characters name.
    pub fn try_from_chars(s: &[char]) -> (r: Option<CheatType>)
        ensures
            r == cheat_type_of(s@),
    {
        if s.len() == 1 && s[0] == 'S' {
            assert(s@ =~= seq!['S']);
            Some(Self::ReadSubstitute)
        } else if s.len() == 1 && s[0] == 'C' {
            assert(s@ =~= seq!['C']);
            Some(Self::Compare)
        } else if s.len() == 2 && ((s[0] == 'S' && s[1] == 'C') || (s[0] == 'C' && s[1] == 'S')) {
            assert(s@ =~= seq!['S', 'C'] || s@ =~= seq!['C', 'S']);
            Some(Self::ReadSubstituteCompare)
        } else {
            proof {
                if s@.len() == 1 {
                    assert(s@ != seq!['S'] && s@ != seq!['C']) by {
                        assert(seq!['S'][0] == 'S' && seq!['C'][0] == 'C');
                    }
                }
                if s@.len() == 2 {
                    assert(s@ != seq!['S', 'C'] && s@ != seq!['C', 'S']) by {
                        assert(seq!['S', 'C'][0] == 'S' && seq!['S', 'C'][1] == 'C');
                        assert(seq!['C', 'S'][0] == 'C' && seq!['C', 'S'][1] == 'S');
                    }
                }
            }
            None
        }
    }

    /// The cheat type that a string names: `S`, `C`, `SC` or `CS`.
    pub fn try_from(s: &str) -> (r: Option<CheatType>)
        ensures
            r == cheat_type_of(s@),
    {
        let chars = chars_of(s);
        Self::try_from_chars(chars.as_slice())
    }

    /// The type compares the current value before substituting.
    pub fn is_compare(&self) -> (r: bool)
        ensures
            r == (*self == CheatType::Compare || *self == CheatType::ReadSubstituteCompare),
    {
        match self {
            Self::Compare | Self::ReadSubstituteCompare => true,
            Self::ReadSubstitute => false,
        }
    }
}

/// The characters of a string.
pub fn chars_of(s: &str) -> (r: Vec<char>)
    ensures
        r@ == s@,
{
    let mut out: Vec<char> = Vec::new();
    let n = s.unicode_len();
    let mut i: usize = 0;
    while i < n
        invariant
            i <= n,
            n == s@.len(),
            out@ == s@.subrange(0, i as int),
        decreases n - i,
    {
        out.push(s.get_char(i));
        i += 1;
    }
    out
}

/// The value of a hexadecimal digit.
pub open spec fn hex_digit(c: char) -> Option<nat> {
    if '0' <= c <= '9' {
        Some((c as nat - '0' as nat) as nat)
    } else if 'a' <= c <= 'f' {
        Some((c as nat - 'a' as nat + 10) as nat)
    } else if 'A' <= c <= 'F' {
        Some((c as nat - 'A' as nat + 10) as nat)
    } else {
        None
    }
}

/// The value of a string of hexadecimal digits, most significant first.
pub open spec fn hex_digits_value(s: Seq<char>) -> Option<nat>
    decreases s.len(),
{
    if s.len() == 0 {
        Some(0)
    } else {
        match (hex_digits_value(s.drop_last()), hex_digit(s.last())) {
            (Some(v), Some(d)) => Some(v * 16 + d),
            _ => None,
        }
    }
}

/// Parsing an unsigned hexadecimal number no greater than `max`: an optional `+`, then
/// at least one hexadecimal digit.
pub open spec fn parse_hex(s: Seq<char>, max: nat) -> Option<nat> {
    let digits = if s.len() > 0 && s[0] == '+' {
        s.drop_first()
    } else {
        s
    };
    if digits.len() == 0 {
        None
    } else {
        match hex_digits_value(digits) {
            Some(v) => if v <= max {
                Some(v)
            } else {
                None
            },
            None => None,
        }
    }
}

/// The value of a hexadecimal digit.
fn hex_digit_value(c: char) -> (r: Option<u32>)
    ensures
        r matches Some(v) ==> hex_digit(c) == Some(v as nat) && v < 16,
        r is None ==> hex_digit(c) is None,
{
    if '0' <= c && c <= '9' {
        Some(c as u32 - '0' as u32)
    } else if 'a' <= c && c <= 'f' {
        Some(c as u32 - 'a' as u32 + 10)
    } else if 'A' <= c && c <= 'F' {
        Some(c as u32 - 'A' as u32 + 10)
    } else {
        None
    }
}

/// Parse an unsigned hexadecimal number no greater than `max`.
pub fn parse_hex_chars(s: &[char], max: u32) -> (r: Option<u32>)
    ensures
        r matches Some(v) ==> parse_hex(s@, max as nat) == Some(v as nat),
        r is None ==> parse_hex(s@, max as nat) is None,
{
    let start: usize = if s.len() > 0 && s[0] == '+' { 1 } else { 0 };
    let ghost digits = if s@.len() > 0 && s@[0] == '+' { s@.drop_first() } else { s@ };
    assert(digits =~= s@.subrange(start as int, s@.len() as int));
    if start >= s.len() {
        return None;
    }
    let mut value: u32 = 0;
    let mut i = start;
    while i < s.len()
        invariant
            start <= i <= s@.len(),
            digits =~= s@.subrange(start as int, s@.len() as int),
            digits == (if s@.len() > 0 && s@[0] == '+' { s@.drop_first() } else { s@ }),
            start < s@.len(),
            hex_digits_value(s@.subrange(start as int, i as int)) == Some(value as nat),
            value <= max,
        decreases s@.len() - i,
    {
        let ghost prefix = s@.subrange(start as int, i as int + 1);
        assert(prefix.drop_last() =~= s@.subrange(start as int, i as int));
        match hex_digit_value(s[i]) {
            Some(d) => {
                if d > max || value > (max - d) / 16 {
                    proof {
                        let full = s@.subrange(start as int, s@.len() as int);
                        assert(hex_digits_value(prefix) == Some((value * 16 + d) as nat));
                        assert(value * 16 + d > max) by (nonlinear_arith)
                            requires d > max || value > (max - d) / 16, d < 16;
                        if hex_digits_value(full) is Some {
                            lemma_hex_value_grows(full, (i - start + 1) as nat);
                            assert(full.subrange(0, (i - start + 1) as int) =~= prefix);
                        }
                        assert(full == digits);
                        assert(digits.len() > 0);
                    }
                    return None;
                }
                assert(value * 16 + d <= max) by (nonlinear_arith)
                    requires d <= max, value <= (max - d) / 16;
                value = value * 16 + d;
            },
            None => {
                proof {
                    let full = s@.subrange(start as int, s@.len() as int);
                    lemma_hex_invalid_digit(full, (i - start) as nat);
                    assert(full == digits);
                }
                return None;
            },
        }
        i += 1;
    }
    Some(value)
}

/// A string of digits is worth at least as much as any of its prefixes.
pub proof fn lemma_hex_value_grows(s: Seq<char>, n: nat)
    requires
        n <= s.len(),
        hex_digits_value(s) is Some,
    ensures
        hex_digits_value(s.subrange(0, n as int)) is Some,
        hex_digits_value(s.subrange(0, n as int))->0 <= hex_digits_value(s)->0,
    decreases s.len(),
{
    if n < s.len() {
        assert(s.drop_last() =~= s.subrange(0, s.len() - 1));
        lemma_hex_value_grows(s.drop_last(), n);
        assert(s.drop_last().subrange(0, n as int) =~= s.subrange(0, n as int));
    } else {
        assert(s.subrange(0, n as int) =~= s);
    }
}

/// A string with a character that is not a hexadecimal digit has no value.
pub proof fn lemma_hex_invalid_digit(s: Seq<char>, k: nat)
    requires
        k < s.len(),
        hex_digit(s[k as int]) is None,
    ensures
        hex_digits_value(s) is None,
    decreases s.len(),
{
    if k + 1 < s.len() {
        lemma_hex_invalid_digit(s.drop_last(), k);
    }
}


/// The pieces of `s` between occurrences of `sep`: one more piece than separators.
pub open spec fn split_on(s: Seq<char>, sep: char) -> Seq<Seq<char>>
    decreases s.len(),
{
    if s.len() == 0 {
        seq![Seq::<char>::empty()]
    } else {
        let rest = split_on(s.drop_last(), sep);
        if s.last() == sep {
            rest.push(Seq::<char>::empty())
        } else {
            rest.update(rest.len() - 1, rest.last().push(s.last()))
        }
    }
}

/// Splitting always gives at least one piece.
pub proof fn lemma_split_nonempty(s: Seq<char>, sep: char)
    ensures
        split_on(s, sep).len() >= 1,
    decreases s.len(),
{
    if s.len() > 0 {
        lemma_split_nonempty(s.drop_last(), sep);
    }
}

/// Split characters at each `sep`.
pub fn split_chars(s: &[char], sep: char) -> (r: Vec<Vec<char>>)
    ensures
        r@.map_values(|v: Vec<char>| v@) == split_on(s@, sep),
{
    let mut fields: Vec<Vec<char>> = Vec::new();
    let mut current: Vec<char> = Vec::new();
    let mut i: usize = 0;
    while i < s.len()
        invariant
            i <= s@.len(),
            fields@.map_values(|v: Vec<char>| v@).push(current@) == split_on(s@.subrange(0, i as int), sep),
        decreases s@.len() - i,
    {
        let ghost before = fields@.map_values(|v: Vec<char>| v@).push(current@);
        proof {
            let t = s@.subrange(0, i as int + 1);
            assert(t.drop_last() =~= s@.subrange(0, i as int));
            assert(t.last() == s@[i as int]);
            lemma_split_nonempty(s@.subrange(0, i as int), sep);
        }
        if s[i] == sep {
            let mut done: Vec<char> = Vec::new();
            std::mem::swap(&mut done, &mut current);
            fields.push(done);
            assert(fields@.map_values(|v: Vec<char>| v@).push(current@) =~= before.push(Seq::<char>::empty()));
        } else {
            current.push(s[i]);
            assert(fields@.map_values(|v: Vec<char>| v@).push(current@) =~= before.update(
                before.len() - 1,
                before.last().push(s@[i as int]),
            ));
        }
        i += 1;
    }
    assert(s@.subrange(0, s@.len() as int) =~= s@);
    let ghost before = fields@.map_values(|v: Vec<char>| v@).push(current@);
    fields.push(current);
    assert(fields@.map_values(|v: Vec<char>| v@) =~= before);
    fields
}

/// A cheat, as a plain value.
pub struct CheatView {
    pub ty: CheatType,
    pub address: u16,
    pub value: u8,
    pub description: Option<Seq<char>>,
}

/// A cheat: what it does, at which address, with which value.
#[derive(Clone, Debug, PartialEq, Eq, PartialOrd, Ord)]
pub struct Cheat {
    pub ty: CheatType,
    pub address: u16,
    pub value: u8,
    pub description: Option<String>,
}

impl View for Cheat {
    type V = CheatView;

    open spec fn view(&self) -> CheatView {
        CheatView {
            ty: self.ty,
            address: self.address,
            value: self.value,
            description: match self.description {
                Some(d) => Some(d@),
                None => None,
            },
        }
    }
}

/// The cheat that a line describes: type, hexadecimal address up to `$FFFF`,
/// hexadecimal value up to `$FF`, and the fourth field, if any, as the description.
pub open spec fn parse_cheat(line: Seq<char>) -> Option<CheatView> {
    let f = split_on(line, ':');
    if f.len() < 3 {
        None
    } else {
        match (cheat_type_of(f[0]), parse_hex(f[1], 0xFFFF), parse_hex(f[2], 0xFF)) {
            (Some(t), Some(a), Some(v)) => Some(
                CheatView {
                    ty: t,
                    address: a as u16,
                    value: v as u8,
                    description: if f.len() >= 4 {
                        Some(f[3])
                    } else {
                        None
                    },
                },
            ),
            _ => None,
        }
    }
}

/// Unicode white space, as `char::is_whitespace` defines it.
pub open spec fn is_whitespace(c: char) -> bool {
    ||| '\t' <= c <= '\r'
    ||| c == ' '
    ||| c == '\u{85}'
    ||| c == '\u{A0}'
    ||| c == '\u{1680}'
    ||| '\u{2000}' <= c <= '\u{200A}'
    ||| c == '\u{2028}'
    ||| c == '\u{2029}'
    ||| c == '\u{202F}'
    ||| c == '\u{205F}'
    ||| c == '\u{3000}'
}

fn whitespace(c: char) -> (r: bool)
    ensures
        r == is_whitespace(c),
{
    ('\t' <= c && c <= '\r') || c == ' ' || c == '\u{85}' || c == '\u{A0}' || c == '\u{1680}' || (
    '\u{2000}' <= c && c <= '\u{200A}') || c == '\u{2028}' || c == '\u{2029}' || c == '\u{202F}'
        || c == '\u{205F}' || c == '\u{3000}'
}

/// `s` without leading white space.
pub open spec fn trim_start(s: Seq<char>) -> Seq<char>
    decreases s.len(),
{
    if s.len() > 0 && is_whitespace(s[0]) {
        trim_start(s.drop_first())
    } else {
        s
    }
}

/// `s` without trailing white space.
pub open spec fn trim_end(s: Seq<char>) -> Seq<char>
    decreases s.len(),
{
    if s.len() > 0 && is_whitespace(s.last()) {
        trim_end(s.drop_last())
    } else {
        s
    }
}

/// `s` without leading and trailing white space.
pub open spec fn trim(s: Seq<char>) -> Seq<char> {
    trim_end(trim_start(s))
}

/// `s` without a final carriage return.
pub open spec fn strip_cr(s: Seq<char>) -> Seq<char> {
    if s.len() > 0 && s.last() == '\r' {
        s.drop_last()
    } else {
        s
    }
}

/// The lines of `s`: split at `\n`, a carriage return before a `\n` removed, and no
/// empty line after a final `\n`.
pub open spec fn lines_of(s: Seq<char>) -> Seq<Seq<char>> {
    if s.len() == 0 {
        seq![]
    } else {
        let parts = split_on(s, '\n');
        let kept = if s.last() == '\n' {
            parts.drop_last()
        } else {
            parts
        };
        Seq::new(
            kept.len(),
            |i: int|
                if i < parts.len() - 1 {
                    strip_cr(kept[i])
                } else {
                    kept[i]
                },
        )
    }
}

/// The cheats that the lines describe, skipping the lines that describe none.
pub open spec fn parse_lines(lines: Seq<Seq<char>>) -> Seq<CheatView>
    decreases lines.len(),
{
    if lines.len() == 0 {
        seq![]
    } else {
        let rest = parse_lines(lines.drop_last());
        match parse_cheat(lines.last()) {
            Some(c) => rest.push(c),
            None => rest,
        }
    }
}

impl Cheat {
    /// Parse a cheat from its characters.
    pub fn from_chars(line: &[char]) -> (r: Option<Cheat>)
        ensures
            r matches Some(c) ==> parse_cheat(line@) == Some(c@),
            r is None ==> parse_cheat(line@) is None,
    {
        let fields = split_chars(line, ':');
        let ghost f = split_on(line@, ':');
        if fields.len() < 3 {
            return None;
        }
        assert(fields[0]@ == f[0] && fields[1]@ == f[1] && fields[2]@ == f[2]);
        let ty = match CheatType::try_from_chars(fields[0].as_slice()) {
            Some(t) => t,
            None => {
                return None;
            },
        };
        let address = match parse_hex_chars(fields[1].as_slice(), 0xFFFF) {
            Some(a) => a as u16,
            None => {
                return None;
            },
        };
        let value = match parse_hex_chars(fields[2].as_slice(), 0xFF) {
            Some(v) => v as u8,
            None => {
                return None;
            },
        };
        let description = if fields.len() >= 4 {
            assert(fields[3]@ == f[3]);
            Some(string_of_chars(&fields[3]))
        } else {
            None
        };
        Some(Cheat { ty, address, value, description })
    }

    /// Parse a cheat from a line in the FCEUX format, such as `S:0000:00:Infinite lives`.
    pub fn from(line: &str) -> (r: Option<Cheat>)
        ensures
            r matches Some(c) ==> parse_cheat(line@) == Some(c@),
            r is None ==> parse_cheat(line@) is None,
    {
        let chars = chars_of(line);
        Self::from_chars(chars.as_slice())
    }

    /// Parse every line of `lines`, after trimming white space around the whole text;
    /// lines that describe no cheat are skipped.
    pub fn from_multiple(lines: &str) -> (r: Vec<Cheat>)
        ensures
            r@.map_values(|c: Cheat| c@) == parse_lines(lines_of(trim(lines@))),
    {
        let chars = chars_of(lines);
        let trimmed = trim_chars(&chars);
        let n = trimmed.len();
        let mut out: Vec<Cheat> = Vec::new();
        if n == 0 {
            assert(out@.map_values(|c: Cheat| c@) =~= seq![]);
            return out;
        }
        let parts = split_chars(trimmed.as_slice(), '\n');
        proof {
            lemma_split_nonempty(trimmed@, '\n');
        }
        let kept = if trimmed[n - 1] == '\n' {
            parts.len() - 1
        } else {
            parts.len()
        };
        let ghost all = lines_of(trimmed@);
        assert(all.len() == kept);
        let mut i: usize = 0;
        while i < kept
            invariant
                i <= kept <= parts@.len(),
                n == trimmed@.len(),
                n > 0,
                parts@.map_values(|v: Vec<char>| v@) == split_on(trimmed@, '\n'),
                all == lines_of(trimmed@),
                all.len() == kept,
                out@.map_values(|c: Cheat| c@) == parse_lines(all.subrange(0, i as int)),
            decreases kept - i,
        {
            let part = &parts[i];
            let plen = part.len();
            let line: &[char] = if i < parts.len() - 1 && plen > 0 && part[plen - 1] == '\r' {
                slice_prefix(part.as_slice(), plen - 1)
            } else {
                part.as_slice()
            };
            proof {
                assert(parts@.map_values(|v: Vec<char>| v@)[i as int] == part@);
                if i < parts.len() - 1 && plen > 0 && part@[plen - 1] == '\r' {
                    assert(line@ =~= part@.drop_last());
                }
                assert(line@ == all[i as int]);
                let sub = all.subrange(0, i as int + 1);
                assert(sub.drop_last() =~= all.subrange(0, i as int));
                assert(sub.last() == all[i as int]);
            }
            let ghost prev = out@;
            match Cheat::from_chars(line) {
                Some(c) => {
                    out.push(c);
                    assert(out@.map_values(|c: Cheat| c@) =~= prev.map_values(|c: Cheat| c@).push(
                        c@,
                    ));
                },
                None => {},
            }
            i += 1;
        }
        assert(all.subrange(0, kept as int) =~= all);
        out
    }
}

/// The first `len` characters.
fn slice_prefix(s: &[char], len: usize) -> (r: &[char])
    requires
        len <= s@.len(),
    ensures
        r@ == s@.subrange(0, len as int),
{
    vstd::slice::slice_subrange(s, 0, len)
}

/// The characters without leading and trailing white space.
fn trim_chars(s: &Vec<char>) -> (r: Vec<char>)
    ensures
        r@ == trim(s@),
{
    let mut start: usize = 0;
    assert(s@.subrange(0, s@.len() as int) =~= s@);
    while start < s.len() && whitespace(s[start])
        invariant
            start <= s@.len(),
            trim_start(s@) == trim_start(s@.subrange(start as int, s@.len() as int)),
        decreases s@.len() - start,
    {
        assert(s@.subrange(start as int, s@.len() as int).drop_first() =~= s@.subrange(
            start as int + 1,
            s@.len() as int,
        ));
        start += 1;
    }
    let ghost rest = s@.subrange(start as int, s@.len() as int);
    assert(trim_start(rest) == rest);
    let mut end: usize = s.len();
    while end > start && whitespace(s[end - 1])
        invariant
            start <= end <= s@.len(),
            rest == s@.subrange(start as int, s@.len() as int),
            trim_end(rest) == trim_end(s@.subrange(start as int, end as int)),
        decreases end - start,
    {
        assert(s@.subrange(start as int, end as int).drop_last() =~= s@.subrange(
            start as int,
            end as int - 1,
        ));
        end -= 1;
    }
    let mut out: Vec<char> = Vec::new();
    let mut k = start;
    while k < end
        invariant
            start <= k <= end <= s@.len(),
            out@ == s@.subrange(start as int, k as int),
        decreases end - k,
    {
        out.push(s[k]);
        k += 1;
    }
    out
}

/// A change to the set of active cheats.
pub enum CheatRequest {
    Add(Cheat),
    Remove(Cheat),
    Clear,
}

/// The active cheats, in the order they were added.
pub struct CheatReceiver {
    pub cheats: Vec<Cheat>,
}

impl CheatReceiver {
    /// No active cheat.
    pub fn new() -> (r: CheatReceiver)
        ensures
            r.cheats@.len() == 0,
    {
        CheatReceiver { cheats: Vec::new() }
    }

    /// Apply a request: add a cheat at the end, remove every cheat equal to one, or
    /// remove them all.
    pub fn update(&mut self, request: CheatRequest)
        ensures
            request matches CheatRequest::Add(c) ==> final(self).cheats@ == old(self).cheats@.push(c),
            request matches CheatRequest::Remove(c) ==> final(self).cheats@.map_values(
                |x: Cheat| x@,
            ) == old(self).cheats@.map_values(|x: Cheat| x@).filter(|x: CheatView| x != c@),
            request is Clear ==> final(self).cheats@.len() == 0,
    {
        match request {
            CheatRequest::Add(cheat) => self.cheats.push(cheat),
            CheatRequest::Remove(cheat) => {
                let mut kept: Vec<Cheat> = Vec::new();
                let mut i: usize = 0;
                let ghost views = self.cheats@.map_values(|x: Cheat| x@);
                let ghost pred = |x: CheatView| x != cheat@;
                while i < self.cheats.len()
                    invariant
                        i <= self.cheats@.len(),
                        views == self.cheats@.map_values(|x: Cheat| x@),
                        pred == (|x: CheatView| x != cheat@),
                        kept@.map_values(|x: Cheat| x@) == views.subrange(0, i as int).filter(pred),
                    decreases self.cheats@.len() - i,
                {
                    let ghost prev = kept@.map_values(|x: Cheat| x@);
                    proof {
                        let sub = views.subrange(0, i as int + 1);
                        assert(sub.drop_last() =~= views.subrange(0, i as int));
                        assert(sub.last() == views[i as int]);
                        reveal_with_fuel(Seq::filter, 1);
                        assert(sub.filter(pred) == (if pred(views[i as int]) {
                            prev.push(views[i as int])
                        } else {
                            prev
                        }));
                    }
                    if !same_cheat(&self.cheats[i], &cheat) {
                        kept.push(copy_cheat(&self.cheats[i]));
                        assert(kept@.map_values(|x: Cheat| x@) =~= prev.push(views[i as int]));
                    }
                    i += 1;
                }
                assert(views.subrange(0, self.cheats@.len() as int) =~= views);
                self.cheats = kept;
            },
            CheatRequest::Clear => self.cheats.clear(),
        }
    }

    /// The first active cheat for `address`.
    pub fn contains(&self, address: u16) -> (r: Option<&Cheat>)
        ensures
            r matches Some(c) ==> first_for_address(self.cheats@, address) == Some(*c),
            r is None ==> first_for_address(self.cheats@, address) is None,
    {
        let mut i: usize = 0;
        assert(self.cheats@.skip(0) =~= self.cheats@);
        while i < self.cheats.len()
            invariant
                i <= self.cheats@.len(),
                first_for_address(self.cheats@, address) == first_for_address(
                    self.cheats@.skip(i as int),
                    address,
                ),
            decreases self.cheats@.len() - i,
        {
            assert(self.cheats@.skip(i as int).drop_first() =~= self.cheats@.skip(i as int + 1));
            if self.cheats[i].address == address {
                return Some(&self.cheats[i]);
            }
            i += 1;
        }
        None
    }
}

/// The first of `cheats` for `address`.
pub open spec fn first_for_address(cheats: Seq<Cheat>, address: u16) -> Option<Cheat>
    decreases cheats.len(),
{
    if cheats.len() == 0 {
        None
    } else if cheats[0].address == address {
        Some(cheats[0])
    } else {
        first_for_address(cheats.drop_first(), address)
    }
}

/// The two cheats are equal in every field.
fn same_cheat(a: &Cheat, b: &Cheat) -> (r: bool)
    ensures
        r == (a@ == b@),
{
    if a.ty != b.ty || a.address != b.address || a.value != b.value {
        return false;
    }
    match (&a.description, &b.description) {
        (Some(x), Some(y)) => {
            let same = x.eq(y);
            proof {
                if same {
                    assert(a@ == b@);
                } else {
                    assert(a@.description != b@.description);
                }
            }
            same
        },
        (None, None) => {
            assert(a@ == b@);
            true
        },
        _ => false,
    }
}

/// A copy of a cheat.
fn copy_cheat(c: &Cheat) -> (r: Cheat)
    ensures
        r@ == c@,
{
    let description = match &c.description {
        Some(d) => Some(d.clone()),
        None => None,
    };
    Cheat { ty: c.ty, address: c.address, value: c.value, description }
}

} // verus!
