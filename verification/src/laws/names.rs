//! Laws of names and answers.

use crate::pairing::chosen_nickname;
use crate::text::{
    is_forbidden, is_white_space, same_ignoring_ascii_case, sanitized, says_yes, trim_end,
    trim_start, trimmed,
};
use crate::wifi::{music_path, MUSIC_DIR};
use vstd::prelude::*;

verus! {

/// `s` neither starts nor ends in white space.
pub open spec fn is_trim(s: Seq<char>) -> bool {
    s.len() > 0 ==> !is_white_space(s.first()) && !is_white_space(s.last())
}

proof fn lemma_trim_start(s: Seq<char>) -> (from: int)
    ensures
        0 <= from <= s.len(),
        trim_start(s) == s.subrange(from, s.len() as int),
        trim_start(s).len() > 0 ==> !is_white_space(trim_start(s).first()),
    decreases s.len(),
{
    if s.len() > 0 && is_white_space(s.first()) {
        let rest = lemma_trim_start(s.drop_first());
        assert(s.drop_first().subrange(rest, s.len() - 1) =~= s.subrange(
            rest + 1,
            s.len() as int,
        ));
        rest + 1
    } else {
        assert(s.subrange(0, s.len() as int) =~= s);
        0
    }
}

proof fn lemma_trim_end(s: Seq<char>) -> (to: int)
    ensures
        0 <= to <= s.len(),
        trim_end(s) == s.subrange(0, to),
        trim_end(s).len() > 0 ==> !is_white_space(trim_end(s).last()),
    decreases s.len(),
{
    if s.len() > 0 && is_white_space(s.last()) {
        let rest = lemma_trim_end(s.drop_last());
        assert(s.drop_last().subrange(0, rest) =~= s.subrange(0, rest));
        rest
    } else {
        assert(s.subrange(0, s.len() as int) =~= s);
        s.len() as int
    }
}

/// Trimming leaves a part of the text that neither starts nor ends in white
/// space.
pub proof fn law_trimmed_is_trim(s: Seq<char>)
    ensures
        is_trim(trimmed(s)),
        exists|from: int, to: int|
            0 <= from <= to <= s.len() && trimmed(s) == #[trigger] s.subrange(from, to),
{
    let from = lemma_trim_start(s);
    let to = lemma_trim_end(trim_start(s));
    assert(trimmed(s) =~= s.subrange(from, from + to));
}

/// A text that neither starts nor ends in white space is left as it is.
pub proof fn law_trim_keeps(s: Seq<char>)
    requires
        is_trim(s),
    ensures
        trimmed(s) == s,
{
}

/// A sanitized name holds none of the forbidden characters, and neither starts
/// nor ends in white space.
pub proof fn law_sanitized_is_clean(name: Seq<char>)
    ensures
        forall|i: int|
            0 <= i < sanitized(name).len() ==> !is_forbidden(#[trigger] sanitized(name)[i]),
        is_trim(sanitized(name)),
{
    let keep = |c: char| !is_forbidden(c);
    let kept = name.filter(keep);
    law_trimmed_is_trim(kept);
    let (from, to) = choose|from: int, to: int|
        0 <= from <= to <= kept.len() && trimmed(kept) == #[trigger] kept.subrange(from, to);
    assert forall|i: int| 0 <= i < sanitized(name).len() implies !is_forbidden(
        #[trigger] sanitized(name)[i],
    ) by {
        assert(sanitized(name)[i] == kept[from + i]);
        name.lemma_filter_pred(keep, from + i);
    }
}

proof fn lemma_filter_keeps(s: Seq<char>, keep: spec_fn(char) -> bool)
    requires
        forall|i: int| 0 <= i < s.len() ==> keep(#[trigger] s[i]),
    ensures
        s.filter(keep) == s,
    decreases s.len(),
{
    reveal(Seq::filter);
    if s.len() > 0 {
        assert forall|i: int| 0 <= i < s.drop_last().len() implies keep(
            #[trigger] s.drop_last()[i],
        ) by {
            assert(s.drop_last()[i] == s[i]);
        }
        lemma_filter_keeps(s.drop_last(), keep);
        assert(s.drop_last().push(s.last()) =~= s);
    } else {
        assert(s.filter(keep) =~= s);
    }
}

/// A name that is fit for the device is left as it is.
pub proof fn law_clean_names_stay(name: Seq<char>)
    requires
        forall|i: int| 0 <= i < name.len() ==> !is_forbidden(#[trigger] name[i]),
        is_trim(name),
    ensures
        sanitized(name) == name,
{
    lemma_filter_keeps(name, |c: char| !is_forbidden(c));
    law_trim_keeps(name);
}

/// Sanitizing twice is sanitizing once.
pub proof fn law_sanitizing_is_idempotent(name: Seq<char>)
    ensures
        sanitized(sanitized(name)) == sanitized(name),
{
    law_sanitized_is_clean(name);
    law_clean_names_stay(sanitized(name));
}

/// Music lands directly in the music directory: what follows the directory and
/// its slash holds no slash.
pub proof fn law_music_stays_in_its_directory(name: Seq<char>)
    ensures
        music_path(name) == MUSIC_DIR@ + "/"@ + sanitized(name),
        !sanitized(name).contains('/'),
{
    law_sanitized_is_clean(name);
}

/// An answer of white space keeps the default nickname; any other answer is
/// the nickname, trimmed and not empty.
pub proof fn law_nickname_choice(default: Option<Seq<char>>, line: Seq<char>)
    ensures
        (forall|i: int| 0 <= i < line.len() ==> is_white_space(#[trigger] line[i]))
            ==> chosen_nickname(default, line) == default,
        (exists|i: int| 0 <= i < line.len() && !is_white_space(#[trigger] line[i])) ==> {
            &&& chosen_nickname(default, line) == Some(trimmed(line))
            &&& trimmed(line).len() > 0
            &&& is_trim(trimmed(line))
        },
{
    law_trimmed_is_trim(line);
    let (from, to) = choose|from: int, to: int|
        0 <= from <= to <= line.len() && trimmed(line) == #[trigger] line.subrange(from, to);
    if forall|i: int| 0 <= i < line.len() ==> is_white_space(#[trigger] line[i]) {
        if trimmed(line).len() > 0 {
            assert(trimmed(line).first() == line[from]);
        }
    } else {
        let i = choose|i: int| 0 <= i < line.len() && !is_white_space(#[trigger] line[i]);
        lemma_trim_keeps_ink(line, i);
    }
}

/// Trimming does not swallow a character that is no white space.
proof fn lemma_trim_keeps_ink(s: Seq<char>, i: int)
    requires
        0 <= i < s.len(),
        !is_white_space(s[i]),
    ensures
        trimmed(s).len() > 0,
    decreases s.len(),
{
    if is_white_space(s.first()) {
        assert(s.drop_first()[i - 1] == s[i]);
        lemma_trim_keeps_ink(s.drop_first(), i - 1);
    } else {
        lemma_trim_end_keeps_ink(s, i);
    }
}

proof fn lemma_trim_end_keeps_ink(s: Seq<char>, i: int)
    requires
        0 <= i < s.len(),
        !is_white_space(s[i]),
    ensures
        trim_end(s).len() > 0,
    decreases s.len(),
{
    if is_white_space(s.last()) {
        assert(s.drop_last()[i] == s[i]);
        lemma_trim_end_keeps_ink(s.drop_last(), i);
    }
}

/// Nothing but `y` or `Y`, or an empty answer, in white space or not, is a yes.
pub proof fn law_yes(line: Seq<char>)
    ensures
        says_yes(line) <==> trimmed(line).len() == 0 || trimmed(line) == seq!['y'] || trimmed(line)
            == seq!['Y'],
{
    reveal_strlit("y");
    let answer = trimmed(line);
    if same_ignoring_ascii_case(answer, "y"@) {
        assert(answer.len() == 1);
        assert(crate::text::ascii_lower(answer[0]) == crate::text::ascii_lower("y"@[0]));
        assert(answer =~= seq![answer[0]]);
    }
    if answer == seq!['y'] || answer == seq!['Y'] {
        assert(same_ignoring_ascii_case(answer, "y"@));
    }
}

/// Trimming takes away white space only, and only at the ends.
pub proof fn law_trimming_takes_white_space_only(s: Seq<char>)
    ensures
        exists|from: int, to: int|
            0 <= from <= to <= s.len() && trimmed(s) == #[trigger] s.subrange(from, to) && (
            forall|i: int|
                0 <= i < from || to <= i < s.len() ==> is_white_space(#[trigger] s[i])),
{
    let from = lemma_trim_start_white(s);
    let to = lemma_trim_end_white(trim_start(s));
    assert(trimmed(s) =~= s.subrange(from, from + to));
    assert forall|i: int| 0 <= i < from || from + to <= i < s.len() implies is_white_space(
        #[trigger] s[i],
    ) by {
        if i >= from {
            assert(trim_start(s)[i - from] == s[i]);
        }
    }
}

proof fn lemma_trim_start_white(s: Seq<char>) -> (from: int)
    ensures
        0 <= from <= s.len(),
        trim_start(s) == s.subrange(from, s.len() as int),
        forall|i: int| 0 <= i < from ==> is_white_space(#[trigger] s[i]),
    decreases s.len(),
{
    if s.len() > 0 && is_white_space(s.first()) {
        let rest = lemma_trim_start_white(s.drop_first());
        assert(s.drop_first().subrange(rest, s.len() - 1) =~= s.subrange(
            rest + 1,
            s.len() as int,
        ));
        assert forall|i: int| 0 <= i < rest + 1 implies is_white_space(#[trigger] s[i]) by {
            if i > 0 {
                assert(s.drop_first()[i - 1] == s[i]);
            }
        }
        rest + 1
    } else {
        assert(s.subrange(0, s.len() as int) =~= s);
        0
    }
}

proof fn lemma_trim_end_white(s: Seq<char>) -> (to: int)
    ensures
        0 <= to <= s.len(),
        trim_end(s) == s.subrange(0, to),
        forall|i: int| to <= i < s.len() ==> is_white_space(#[trigger] s[i]),
    decreases s.len(),
{
    if s.len() > 0 && is_white_space(s.last()) {
        let rest = lemma_trim_end_white(s.drop_last());
        assert(s.drop_last().subrange(0, rest) =~= s.subrange(0, rest));
        assert forall|i: int| rest <= i < s.len() implies is_white_space(#[trigger] s[i]) by {
            if i < s.len() - 1 {
                assert(s.drop_last()[i] == s[i]);
            }
        }
        rest
    } else {
        assert(s.subrange(0, s.len() as int) =~= s);
        s.len() as int
    }
}

/// A quote, a newline, a question mark or a slash makes no difference to the
/// sanitized name, wherever it stands.
pub proof fn law_sanitizing_passes_over(a: Seq<char>, c: char, b: Seq<char>)
    requires
        c == '\'' || c == '\n' || c == '?' || c == '/',
    ensures
        sanitized(a.push(c) + b) == sanitized(a + b),
{
    let keep = |c: char| !is_forbidden(c);
    Seq::filter_distributes_over_add(a.push(c), b, keep);
    Seq::filter_distributes_over_add(a, b, keep);
    reveal(Seq::filter);
    assert(a.push(c).drop_last() =~= a);
    assert(a.push(c).filter(keep) =~= a.filter(keep));
}

/// A name with none of these characters is only trimmed.
pub proof fn law_sanitizing_keeps_the_rest(name: Seq<char>)
    requires
        !name.contains('\''),
        !name.contains('\n'),
        !name.contains('?'),
        !name.contains('/'),
    ensures
        sanitized(name) == trimmed(name),
{
    let keep = |c: char| !is_forbidden(c);
    lemma_filter_keeps(name, keep);
}

} // verus!
