//! Text rules: trimming, answers to yes/no questions, file names and numbers.

use vstd::prelude::*;
use vstd::string::*;

verus! {

/// The characters with the Unicode property `White_Space`.
pub open spec fn is_white_space(c: char) -> bool {
    ||| '\u{9}' <= c <= '\u{d}'
    ||| c == ' '
    ||| c == '\u{85}'
    ||| c == '\u{a0}'
    ||| c == '\u{1680}'
    ||| '\u{2000}' <= c <= '\u{200a}'
    ||| c == '\u{2028}'
    ||| c == '\u{2029}'
    ||| c == '\u{202f}'
    ||| c == '\u{205f}'
    ||| c == '\u{3000}'
}

/// `s` without the white space at its start.
pub open spec fn trim_start(s: Seq<char>) -> Seq<char>
    decreases s.len(),
{
    if s.len() > 0 && is_white_space(s.first()) {
        trim_start(s.drop_first())
    } else {
        s
    }
}

/// `s` without the white space at its end.
pub open spec fn trim_end(s: Seq<char>) -> Seq<char>
    decreases s.len(),
{
    if s.len() > 0 && is_white_space(s.last()) {
        trim_end(s.drop_last())
    } else {
        s
    }
}

/// `s` without the white space at either end.
pub open spec fn trimmed(s: Seq<char>) -> Seq<char> {
    trim_end(trim_start(s))
}

/// `str::trim` drops the characters with the property `White_Space` from both
/// ends of the string and keeps everything between them.
pub assume_specification[ str::trim ](s: &str) -> (res: &str)
    ensures
        res@ == trimmed(s@),
;

/// The ASCII capital letters mapped to their small letters, every other
/// character to itself.
pub open spec fn ascii_lower(c: char) -> char {
    if 'A' <= c <= 'Z' {
        (c as u32 + 32) as char
    } else {
        c
    }
}

/// The two texts differ at most in the case of ASCII letters.
pub open spec fn same_ignoring_ascii_case(a: Seq<char>, b: Seq<char>) -> bool {
    &&& a.len() == b.len()
    &&& forall|i: int| 0 <= i < a.len() ==> ascii_lower(#[trigger] a[i]) == ascii_lower(b[i])
}

/// `str::eq_ignore_ascii_case` compares two strings after mapping the ASCII
/// letters of both to small letters.
pub assume_specification[ str::eq_ignore_ascii_case ](s: &str, other: &str) -> (res: bool)
    ensures
        res == same_ignoring_ascii_case(s@, other@),
;

/// `String::push` appends one character to the end of the string.
pub assume_specification[ String::push ](s: &mut String, c: char)
    ensures
        final(s)@ == old(s)@.push(c),
;

/// A line that answers a yes/no question with yes: `y` in either case, or
/// nothing but white space.
pub open spec fn says_yes(line: Seq<char>) -> bool {
    ||| trimmed(line).len() == 0
    ||| same_ignoring_ascii_case(trimmed(line), "y"@)
}

/// Reads the answer to a `[Y/n]` question.
pub fn is_yes(line: &str) -> (res: bool)
    ensures
        res == says_yes(line@),
{
    let answer = line.trim();
    answer.is_empty() || answer.eq_ignore_ascii_case("y")
}

/// A character that a file name on the device may not hold.
pub open spec fn is_forbidden(c: char) -> bool {
    c == '\'' || c == '\n' || c == '?' || c == '/'
}

/// A file name with the forbidden characters taken out and the white space at
/// its ends dropped.
pub open spec fn sanitized(name: Seq<char>) -> Seq<char> {
    trimmed(name.filter(|c: char| !is_forbidden(c)))
}

/// Makes a file name fit for the device: drops `'`, newline, `?` and `/`, then
/// trims the rest.
pub fn sanitize_file_name(name: &str) -> (res: String)
    ensures
        res@ == sanitized(name@),
{
    let ghost keep = |c: char| !is_forbidden(c);
    let mut kept = String::new();
    proof {
        assert(name@.take(0).filter(keep) =~= Seq::<char>::empty()) by {
            reveal(Seq::filter);
        }
    }
    for c in chars: name.chars()
        invariant
            chars.seq() == name@,
            keep == |c: char| !is_forbidden(c),
            kept@ == name@.take(chars.index()).filter(keep),
    {
        proof {
            let i = chars.index();
            assert(name@.take(i + 1).drop_last() =~= name@.take(i));
            assert(name@.take(i + 1).last() == c);
            reveal(Seq::filter);
        }
        if c != '\'' && c != '\n' && c != '?' && c != '/' {
            kept.push(c);
        }
    }
    assert(name@.take(name@.len() as int) =~= name@);
    kept.as_str().trim().to_owned()
}

/// The decimal digit of a number below ten.
pub open spec fn digit(d: nat) -> char {
    ('0' as u32 + d) as char
}

/// A number in decimal notation, without leading zeros.
pub open spec fn decimal(n: nat) -> Seq<char>
    decreases n,
{
    if n < 10 {
        seq![digit(n)]
    } else {
        decimal(n / 10).push(digit(n % 10))
    }
}

/// Writes a number in decimal notation.
pub fn decimal_text(n: u64) -> (res: String)
    ensures
        res@ == decimal(n as nat),
    decreases n,
{
    let mut res = if n < 10 {
        String::new()
    } else {
        decimal_text(n / 10)
    };
    let d: u8 = (n % 10) as u8;
    res.push((48 + d) as char);
    assert(res@ =~= decimal(n as nat));
    res
}

/// `s` behind as many spaces as bring it to `width` characters.
pub open spec fn right_aligned(s: Seq<char>, width: nat) -> Seq<char> {
    if s.len() < width {
        Seq::new((width - s.len()) as nat, |i: int| ' ') + s
    } else {
        s
    }
}

/// Puts spaces before `s` until it is `width` characters long.
pub fn align_right(s: &str, width: usize) -> (res: String)
    ensures
        res@ == right_aligned(s@, width as nat),
{
    let length = s.unicode_len();
    let mut res = String::new();
    let mut filled: usize = length;
    while filled < width
        invariant
            length == s@.len(),
            length <= filled,
            filled <= width || filled == length,
            res@ == Seq::new((filled - length) as nat, |i: int| ' '),
        decreases width - filled,
    {
        res.push(' ');
        filled = filled + 1;
        assert(res@ =~= Seq::new((filled - length) as nat, |i: int| ' '));
    }
    res.append(s);
    assert(res@ =~= right_aligned(s@, width as nat));
    res
}

/// The view of an optional string.
pub open spec fn optional_view(s: Option<String>) -> Option<Seq<char>> {
    match s {
        Some(s) => Some(s@),
        None => None,
    }
}

/// A copy of an optional text.
pub fn copied(s: &Option<String>) -> (res: Option<String>)
    ensures
        res == *s,
{
    match s {
        Some(s) => Some(s.clone()),
        None => None,
    }
}

} // verus!
