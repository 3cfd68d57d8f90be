//! Laws of progress bars and their labels.

use crate::progress::{
    bar_position, behind_last_separator, done_line, is_label, is_passed_over, is_separator,
    last_component, may_be_verbatim, may_have_prefix, may_start_at, SYNC_TEMPLATE, UPLOAD_CHARS,
    UPLOAD_TEMPLATE,
};
use vstd::prelude::*;

verus! {

/// The bar of a file stands at what has been sent. It gives way to a line that names
/// the file on the device once everything has been sent, and not before.
pub proof fn law_bars_follow_uploads(device_path: Seq<char>, sent: u64, total: u64)
    ensures
        bar_position(sent, total) == sent,
        done_line(device_path, sent, total) is Some <==> sent >= total,
        done_line(device_path, sent, total) is Some ==> done_line(
            device_path,
            sent,
            total,
        )->Some_0 == "Uploaded "@ + device_path,
{
}

/// An upload's bar shows the label, the bar in three characters, the bytes and the
/// rate; a sync's line shows that it syncs, and what.
pub proof fn law_styles()
    ensures
        UPLOAD_TEMPLATE@
            == "{msg:.bold}  [{wide_bar:.cyan/blue}]  {bytes}/{total_bytes}  {binary_bytes_per_sec}"@,
        UPLOAD_CHARS@ == "=>-"@,
        SYNC_TEMPLATE@ == "  {spinner:.dim} Syncing {msg}"@,
{
}

/// A head of a path: nothing, or something that ends in a separator.
pub open spec fn is_head(head: Seq<char>, backslash: bool) -> bool {
    head.len() == 0 || is_separator(head.last(), backslash)
}

/// An ordinary name: not empty, neither `.` nor `..`, and without separators.
pub open spec fn is_ordinary(name: Seq<char>, backslash: bool) -> bool {
    &&& name.len() > 0
    &&& name != seq!['.']
    &&& name != seq!['.', '.']
    &&& forall|i: int| 0 <= i < name.len() ==> !is_separator(#[trigger] name[i], backslash)
}

proof fn lemma_behind(head: Seq<char>, name: Seq<char>, backslash: bool)
    requires
        is_head(head, backslash),
        forall|i: int| 0 <= i < name.len() ==> !is_separator(#[trigger] name[i], backslash),
    ensures
        behind_last_separator(head + name, backslash) == name,
    decreases name.len(),
{
    if name.len() == 0 {
        assert(head + name =~= head);
    } else {
        assert((head + name).last() == name.last());
        assert(!is_separator(name[name.len() - 1], backslash));
        assert((head + name).drop_last() =~= head + name.drop_last());
        assert forall|i: int| 0 <= i < name.len() - 1 implies !is_separator(
            #[trigger] name.drop_last()[i],
            backslash,
        ) by {
            assert(!is_separator(name[i], backslash));
        }
        lemma_behind(head, name.drop_last(), backslash);
        assert(name.drop_last().push(name.last()) =~= name);
    }
}

proof fn lemma_last_component(head: Seq<char>, name: Seq<char>, rest: Seq<char>, backslash: bool)
    requires
        is_head(head, backslash),
        is_ordinary(name, backslash),
        is_passed_over(rest),
        !rest.contains('\\'),
    ensures
        last_component(head + name + rest, backslash) == Some(name),
    decreases rest.len(),
{
    let path = head + name + rest;
    if rest.len() == 0 {
        assert(path =~= head + name);
        lemma_behind(head, name, backslash);
        if path == seq!['.'] {
            assert(head.len() == 0 || name.len() == 0);
            assert(path =~= name);
        }
    } else {
        assert(path.drop_last() =~= head + name + rest.drop_last());
        assert forall|i: int| 0 <= i < rest.len() - 1 implies #[trigger] rest.drop_last()[i]
            != '\\' by {
            assert(rest.contains(rest[i]));
        }
        assert(is_passed_over(rest.drop_last())) by {
            assert forall|i: int| 0 <= i < rest.len() - 1 implies is_separator(
                #[trigger] rest.drop_last()[i],
                true,
            ) || rest.drop_last()[i] == '.' by {
                assert(is_separator(rest[i], true) || rest[i] == '.');
            }
            assert forall|i: int|
                0 <= i < rest.len() - 1 && #[trigger] rest.drop_last()[i] == '.' implies i > 0
                && is_separator(rest.drop_last()[i - 1], true) by {
                assert(rest[i] == '.');
            }
        }
        lemma_last_component(head, name, rest.drop_last(), backslash);
        assert(path.last() == rest.last());
        assert(rest.contains(rest.last()));
        assert(is_separator(rest[rest.len() - 1], true) || rest[rest.len() - 1] == '.');
        if rest.last() == '.' {
            assert(rest[rest.len() - 1] == '.');
            assert(rest.contains(rest[rest.len() - 2]));
            assert(rest[rest.len() - 2] == '/');
            let before = path.drop_last();
            assert(before.last() == '/');
            assert(seq!['.'][0] == '.');
            lemma_behind(before, seq!['.'], backslash);
            assert(before + seq!['.'] =~= path);
        } else {
            assert(behind_last_separator(path, backslash) =~= Seq::empty());
            assert(path[path.len() - 1] == '/');
            assert(path != seq!['.']);
        }
    }
}

/// The label of an upload is the file's name: what stands behind the last slash, with
/// slashes at the end, and `.` as a component there, passed over. So it is on every
/// path that starts with no prefix, where the name holds no backslash.
pub proof fn law_label_is_the_file_name(
    label: Seq<char>,
    head: Seq<char>,
    name: Seq<char>,
    rest: Seq<char>,
)
    requires
        is_label(label, head + name + rest),
        !may_have_prefix(head + name + rest),
        is_head(head, false),
        is_ordinary(name, true),
        is_passed_over(rest),
        !rest.contains('\\'),
    ensures
        label == name,
{
    assert forall|i: int| 0 <= i < name.len() implies !is_separator(
        #[trigger] name[i],
        false,
    ) by {
        assert(!is_separator(name[i], true));
    }
    lemma_last_component(head, name, rest, false);
    lemma_last_component(head, name, rest, true);
}

/// Where the name holds a backslash, the label is the name, or what stands behind its
/// last backslash.
pub proof fn law_label_with_a_backslash(
    label: Seq<char>,
    head: Seq<char>,
    left: Seq<char>,
    right: Seq<char>,
)
    requires
        is_label(label, head + left.push('\\') + right),
        !may_have_prefix(head + left.push('\\') + right),
        is_head(head, false),
        !left.contains('/'),
        is_ordinary(right, true),
    ensures
        label == left.push('\\') + right || label == right,
{
    let path = head + left.push('\\') + right;
    let name = left.push('\\') + right;
    let none = Seq::<char>::empty();
    assert(path =~= head + name + none);
    assert(path =~= (head + left.push('\\')) + right + none);
    assert forall|i: int| 0 <= i < name.len() implies !is_separator(
        #[trigger] name[i],
        false,
    ) by {
        if i < left.len() {
            assert(left.contains(left[i]));
        } else if i > left.len() {
            assert(!is_separator(right[i - left.len() - 1], true));
        }
    }
    assert(name[left.len() as int] == '\\');
    assert(seq!['.'][0] == '.');
    assert(seq!['.', '.'][0] == '.' && seq!['.', '.'][1] == '.');
    assert(is_ordinary(name, false)) by {
        assert(name != seq!['.']);
        assert(name != seq!['.', '.']);
    }
    lemma_last_component(head, name, none, false);
    assert((head + left.push('\\')).last() == '\\');
    lemma_last_component(head + left.push('\\'), right, none, true);
}

/// A path that ends above a directory has no file name, and is its own label.
pub proof fn law_label_is_the_path(label: Seq<char>, head: Seq<char>)
    requires
        is_label(label, head + seq!['.', '.']),
        !may_have_prefix(head + seq!['.', '.']),
        is_head(head, false),
    ensures
        label == head + seq!['.', '.'],
{
    assert(seq!['.', '.'][0] == '.' && seq!['.', '.'][1] == '.');
    lemma_behind(head, seq!['.', '.'], false);
    lemma_behind(head, seq!['.', '.'], true);
}

/// On any path, the label is the path itself or one of its components: a name without
/// a slash, neither `.` nor `..`, behind which the path holds nothing but separators
/// and `.` components. Only where a path starts with `\\?\` is no more said than that
/// the label is a part of it.
pub proof fn law_label_is_a_component(label: Seq<char>, path: Seq<char>)
    requires
        is_label(label, path),
        label != path,
    ensures
        label.len() > 0,
        exists|from: int, to: int|
            0 <= from <= to <= path.len() && label == #[trigger] path.subrange(from, to),
        path.len() < 4 || path.take(4) != seq!['\\', '\\', '?', '\\'] ==> {
            &&& !label.contains('/')
            &&& label != seq!['.']
            &&& label != seq!['.', '.']
            &&& exists|from: int, to: int|
                0 <= from <= to <= path.len() && label == #[trigger] path.subrange(from, to) && (
                from == 0 || path[from - 1] == '/' || path[from - 1] == '\\' || from == 2
                    && path[1] == ':') && (forall|i: int|
                    to <= i < path.len() ==> #[trigger] path[i] == '/' || path[i] == '\\'
                        || path[i] == '.')
        },
{
    if !may_be_verbatim(path) {
        let (from, to) = choose|from: int, to: int|
            0 <= from <= to <= path.len() && label == #[trigger] path.subrange(from, to)
                && may_start_at(path, from) && is_passed_over(
                path.subrange(to, path.len() as int),
            );
        let rest = path.subrange(to, path.len() as int);
        assert forall|i: int| to <= i < path.len() implies #[trigger] path[i] == '/' || path[i]
            == '\\' || path[i] == '.' by {
            assert(rest[i - to] == path[i]);
            assert(is_separator(rest[i - to], true) || rest[i - to] == '.');
        }
        assert(path.subrange(from, to) == label);
    }
}

} // verus!
