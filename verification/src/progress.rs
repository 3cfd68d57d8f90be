//! Progress bars: how they look, what they are labelled, and what an upload's
//! progress does to its bar.

use crate::text::optional_view;
use vstd::prelude::*;
use vstd::string::*;

verus! {

/// `indicatif::ProgressStyle`, the look of a progress bar.
#[verifier::external_type_specification]
#[verifier::external_body]
pub struct ExProgressStyle(indicatif::ProgressStyle);

/// `indicatif::style::TemplateError`, the error of a template that does not
/// parse.
#[verifier::external_type_specification]
#[verifier::external_body]
pub struct ExTemplateError(indicatif::style::TemplateError);

/// The template that a style was made from, and its progress characters.
pub uninterp spec fn style_parts(style: indicatif::ProgressStyle) -> (Seq<char>, Seq<char>);

/// Whether `ProgressStyle::with_template` takes a template.
pub uninterp spec fn template_parses(template: Seq<char>) -> bool;

/// The template of the bar of a file that is being uploaded.
pub const UPLOAD_TEMPLATE: &'static str =
    "{msg:.bold}  [{wide_bar:.cyan/blue}]  {bytes}/{total_bytes}  {binary_bytes_per_sec}";

/// The filled, current and empty cell of an upload's bar.
pub const UPLOAD_CHARS: &'static str = "=>-";

/// The template of the line that shows the directory being synced.
pub const SYNC_TEMPLATE: &'static str = "  {spinner:.dim} Syncing {msg}";

/// `ProgressStyle::with_template` parses a template: whether that succeeds
/// depends on the template alone, and the style then has the template and the
/// progress characters that indicatif starts with. It panics on a width that
/// does not fit its type, so templates with digits are left out.
#[verifier::external_body]
fn style_with_template(template: &str) -> (res: Result<
    indicatif::ProgressStyle,
    indicatif::style::TemplateError,
>)
    requires
        forall|i: int| 0 <= i < template@.len() ==> !('0' <= #[trigger] template@[i] <= '9'),
    ensures
        res is Ok <==> template_parses(template@),
        res is Ok ==> style_parts(res->Ok_0) == (template@, "\u{2588}\u{2591}"@),
{
    indicatif::ProgressStyle::with_template(template)
}

/// `ProgressStyle::progress_chars` gives a style other progress characters. It
/// panics on fewer than two and on characters of unequal width: printable
/// ASCII characters all have the same.
#[verifier::external_body]
fn with_progress_chars(style: indicatif::ProgressStyle, chars: &str) -> (res:
    indicatif::ProgressStyle)
    requires
        chars@.len() >= 2,
        forall|i: int| 0 <= i < chars@.len() ==> ' ' <= #[trigger] chars@[i] <= '~',
    ensures
        style_parts(res) == (style_parts(style).0, chars@),
{
    style.progress_chars(chars)
}

/// The look of an upload's bar, where its template parses.
pub fn upload_style() -> (res: Option<indicatif::ProgressStyle>)
    ensures
        res is Some <==> template_parses(UPLOAD_TEMPLATE@),
        res is Some ==> style_parts(res->Some_0) == (UPLOAD_TEMPLATE@, UPLOAD_CHARS@),
{
    proof {
        reveal_strlit("{msg:.bold}  [{wide_bar:.cyan/blue}]  {bytes}/{total_bytes}  {binary_bytes_per_sec}");
        reveal_strlit("=>-");
    }
    match style_with_template(UPLOAD_TEMPLATE) {
        Ok(style) => Some(with_progress_chars(style, UPLOAD_CHARS)),
        Err(_) => None,
    }
}

/// The look of the line that shows the directory being synced, where its
/// template parses.
pub fn sync_style() -> (res: Option<indicatif::ProgressStyle>)
    ensures
        res is Some <==> template_parses(SYNC_TEMPLATE@),
        res is Some ==> style_parts(res->Some_0) == (SYNC_TEMPLATE@, "\u{2588}\u{2591}"@),
{
    proof {
        reveal_strlit("  {spinner:.dim} Syncing {msg}");
    }
    match style_with_template(SYNC_TEMPLATE) {
        Ok(style) => Some(style),
        Err(_) => None,
    }
}

/// A character that separates the components of a path: `/` on every platform,
/// and `\` on some.
pub open spec fn is_separator(c: char, backslash: bool) -> bool {
    c == '/' || backslash && c == '\\'
}

/// What follows the last separator of a path.
pub open spec fn behind_last_separator(path: Seq<char>, backslash: bool) -> Seq<char>
    decreases path.len(),
{
    if path.len() == 0 || is_separator(path.last(), backslash) {
        Seq::empty()
    } else {
        behind_last_separator(path.drop_last(), backslash).push(path.last())
    }
}

/// The last component of a path without a prefix, where that is an ordinary
/// one. A separator at the end is passed over, and so is a `.` behind one.
pub open spec fn last_component(path: Seq<char>, backslash: bool) -> Option<Seq<char>>
    decreases path.len(),
{
    let name = behind_last_separator(path, backslash);
    if path.len() == 0 || name == seq!['.', '.'] || path == seq!['.'] {
        None
    } else if name.len() == 0 || name == seq!['.'] {
        last_component(path.drop_last(), backslash)
    } else {
        Some(name)
    }
}

/// A path that may start with a prefix, such as that of a drive or of a server.
pub open spec fn may_have_prefix(path: Seq<char>) -> bool {
    path.len() >= 2 && (path[1] == ':' || is_separator(path[0], true) && is_separator(
        path[1],
        true,
    ))
}

/// A path that may start with the prefix behind which some platforms take every
/// component as it is written.
pub open spec fn may_be_verbatim(path: Seq<char>) -> bool {
    path.len() >= 4 && path.take(4) == seq!['\\', '\\', '?', '\\']
}

/// A path that is read alike on every platform: `/` separates its components,
/// and it starts with no prefix.
pub open spec fn is_slash_path(path: Seq<char>) -> bool {
    !path.contains('\\') && !may_have_prefix(path)
}

/// A component of a path may start at `from`: at the start of the path, behind
/// a separator, or behind the prefix of a drive.
pub open spec fn may_start_at(path: Seq<char>, from: int) -> bool {
    from == 0 || is_separator(path[from - 1], true) || from == 2 && path[1] == ':'
}

/// Nothing but separators, and `.` as a whole component.
pub open spec fn is_passed_over(rest: Seq<char>) -> bool {
    &&& forall|i: int|
        0 <= i < rest.len() ==> is_separator(#[trigger] rest[i], true) || rest[i] == '.'
    &&& forall|i: int|
        0 <= i < rest.len() && #[trigger] rest[i] == '.' ==> i > 0 && is_separator(
            rest[i - 1],
            true,
        )
}

/// What holds on every platform of the last component of a path: it is an
/// ordinary name without `/`, it is a whole component, and nothing that counts
/// follows it.
pub open spec fn is_file_name(name: Seq<char>, path: Seq<char>) -> bool {
    &&& name.len() > 0
    &&& name != seq!['.']
    &&& name != seq!['.', '.']
    &&& !name.contains('/')
    &&& exists|from: int, to: int|
        0 <= from <= to <= path.len() && name == #[trigger] path.subrange(from, to)
            && may_start_at(path, from) && is_passed_over(path.subrange(to, path.len() as int))
}

/// `part` stands somewhere in `whole`.
pub open spec fn is_part_of(part: Seq<char>, whole: Seq<char>) -> bool {
    exists|from: int, to: int|
        0 <= from <= to <= whole.len() && part == #[trigger] whole.subrange(from, to)
}

/// `Path::file_name` gives the last component of a path, where that is an
/// ordinary one: a part of the path, and never empty. The platform decides
/// whether `\` separates components and which prefixes there are. So of a path
/// without a prefix the result is that of one reading or the other. Of a path
/// that may have one it is left open which component it is, but not what the
/// component is like; and behind the prefix `\\?\`, where a `/` may be part of a
/// name, that is left open too.
#[verifier::external_body]
fn file_name(path: &str) -> (res: Option<String>)
    ensures
        !may_have_prefix(path@) ==> optional_view(res) == last_component(path@, false)
            || optional_view(res) == last_component(path@, true),
        res is Some && !may_be_verbatim(path@) ==> is_file_name(res->Some_0@, path@),
        res is Some ==> res->Some_0@.len() > 0 && is_part_of(res->Some_0@, path@),
{
    std::path::Path::new(path).file_name().and_then(|n| n.to_str()).map(|n| n.to_owned())
}

/// The label of an upload: the file name where the path has one, else the
/// whole path.
pub fn label_or_path(name: Option<String>, path: &str) -> (res: String)
    ensures
        res@ == (match name {
            Some(name) => name@,
            None => path@,
        }),
{
    match name {
        Some(name) => name,
        None => path.to_owned(),
    }
}

/// The last component of a path, or the whole path where there is none.
pub open spec fn name_or_path(path: Seq<char>, backslash: bool) -> Seq<char> {
    match last_component(path, backslash) {
        Some(name) => name,
        None => path,
    }
}

/// What holds of the label of an upload to or from `path`.
pub open spec fn is_label(label: Seq<char>, path: Seq<char>) -> bool {
    &&& is_slash_path(path) ==> label == name_or_path(path, false)
    &&& !may_have_prefix(path) ==> label == name_or_path(path, false) || label == name_or_path(
        path,
        true,
    )
    &&& label == path || label.len() > 0 && is_part_of(label, path)
    &&& label == path || may_be_verbatim(path) || is_file_name(label, path)
}

/// Without a backslash it does not matter whether that is a separator.
proof fn lemma_readings_agree(path: Seq<char>)
    requires
        !path.contains('\\'),
    ensures
        behind_last_separator(path, false) == behind_last_separator(path, true),
        last_component(path, false) == last_component(path, true),
    decreases path.len(),
{
    if path.len() > 0 {
        assert(path.last() != '\\') by {
            assert(path.contains(path.last()));
        }
        assert forall|i: int| 0 <= i < path.len() - 1 implies #[trigger] path.drop_last()[i]
            != '\\' by {
            assert(path.contains(path[i]));
        }
        lemma_readings_agree(path.drop_last());
    }
}

/// The label that a path's upload is shown under.
pub fn upload_label(path: &str) -> (res: String)
    ensures
        is_label(res@, path@),
{
    proof {
        if is_slash_path(path@) {
            lemma_readings_agree(path@);
        }
    }
    label_or_path(file_name(path), path)
}

/// What a report on an upload's progress does to its bar.
pub struct BarUpdate {
    /// The position that the bar moves to.
    pub position: u64,
    /// The line that takes the bar's place, once the upload is complete.
    pub done: Option<String>,
}

/// The position that a bar moves to on a report that so many bytes are through.
pub open spec fn bar_position(sent: u64, total: u64) -> u64 {
    sent
}

/// The line that takes a bar's place on such a report, if it does.
pub open spec fn done_line(device_path: Seq<char>, sent: u64, total: u64) -> Option<Seq<char>> {
    if sent >= total {
        Some("Uploaded "@ + device_path)
    } else {
        None
    }
}

/// Takes a report that `sent` of `total` bytes of a synced file are through.
pub fn file_progress(device_path: &str, sent: u64, total: u64) -> (res: BarUpdate)
    ensures
        res.position == sent,
        res.position == bar_position(sent, total),
        match res.done {
            Some(line) => sent >= total && line@ == "Uploaded "@ + device_path@,
            None => sent < total,
        },
        optional_view(res.done) == done_line(device_path@, sent, total),
{
    let done = if sent >= total {
        Some("Uploaded ".to_owned().concat(device_path))
    } else {
        None
    };
    BarUpdate { position: sent, done }
}

} // verus!
