//! Laws of JSON documents.

use crate::json::{
    in_key_order, is_info_report, json_compact, member_line, precedes, shown_value, Json,
};
use vstd::prelude::*;

verus! {

proof fn lemma_precedes_irreflexive(a: Seq<char>)
    ensures
        !precedes(a, a),
    decreases a.len(),
{
    if a.len() > 0 {
        lemma_precedes_irreflexive(a.drop_first());
    }
}

proof fn lemma_precedes_asymmetric(a: Seq<char>, b: Seq<char>)
    requires
        precedes(a, b),
    ensures
        !precedes(b, a),
    decreases a.len(),
{
    if a.len() > 0 && a[0] == b[0] {
        lemma_precedes_asymmetric(a.drop_first(), b.drop_first());
    }
}

/// Two ascending sequences of the same keys agree up to any place.
proof fn lemma_key_order_unique(
    members: Map<Seq<char>, Json>,
    a: Seq<Seq<char>>,
    b: Seq<Seq<char>>,
    n: int,
)
    requires
        in_key_order(members, a),
        in_key_order(members, b),
        0 <= n <= a.len(),
    ensures
        n <= b.len(),
        a.take(n) == b.take(n),
    decreases n,
{
    if n > 0 {
        lemma_key_order_unique(members, a, b, n - 1);
        let k = n - 1;
        assert forall|i: int| 0 <= i < k implies a[i] == b[i] by {
            assert(a.take(k)[i] == b.take(k)[i]);
        }
        let key = a[k];
        assert(members.contains_key(key));
        assert(b.contains(key));
        let j = choose|j: int| 0 <= j < b.len() && b[j] == key;
        if j < k {
            assert(precedes(a[j], a[k]));
            lemma_precedes_irreflexive(key);
        }
        if j > k {
            let other = b[k];
            assert(members.contains_key(other));
            assert(a.contains(other));
            let i = choose|i: int| 0 <= i < a.len() && a[i] == other;
            assert(precedes(b[k], b[j]));
            lemma_precedes_asymmetric(other, key);
            if i < k {
                assert(b[i] == other);
                assert(precedes(b[i], b[k]));
                lemma_precedes_irreflexive(other);
            }
            if i == k {
                lemma_precedes_irreflexive(other);
            }
            if i > k {
                assert(precedes(a[k], a[i]));
            }
            assert(false);
        }
        assert(a.take(n) =~= b.take(n));
    } else {
        assert(a.take(0) =~= b.take(0));
    }
}

/// The keys of an object have one order only.
pub proof fn law_key_order_is_unique(
    members: Map<Seq<char>, Json>,
    a: Seq<Seq<char>>,
    b: Seq<Seq<char>>,
)
    requires
        in_key_order(members, a),
        in_key_order(members, b),
    ensures
        a == b,
{
    lemma_key_order_unique(members, a, b, a.len() as int);
    lemma_key_order_unique(members, b, a, b.len() as int);
    assert(a.take(a.len() as int) =~= a);
    assert(b.take(b.len() as int) =~= b);
}

/// What a device's information holds settles the report on it.
pub proof fn law_info_report_is_unique(info: Json, a: Seq<Seq<char>>, b: Seq<Seq<char>>)
    requires
        is_info_report(info, a),
        is_info_report(info, b),
    ensures
        a == b,
{
    if let Json::Object(members) = info {
        let ka = choose|keys: Seq<Seq<char>>| #[trigger]
            in_key_order(members, keys) && a == Seq::new(
                keys.len(),
                |i: int|
                    crate::json::member_line(keys[i], crate::json::shown_value(members[keys[i]])),
            );
        let kb = choose|keys: Seq<Seq<char>>| #[trigger]
            in_key_order(members, keys) && b == Seq::new(
                keys.len(),
                |i: int|
                    crate::json::member_line(keys[i], crate::json::shown_value(members[keys[i]])),
            );
        law_key_order_is_unique(members, ka, kb);
    }
}

/// A report, line by line, on the members of an object, in the ascending order of
/// their keys: the key, a colon, and the value, a string as it is, without quotes,
/// and anything else as compact JSON.
pub open spec fn reports(
    members: Map<Seq<char>, Json>,
    keys: Seq<Seq<char>>,
    lines: Seq<Seq<char>>,
) -> bool {
    &&& keys.len() == lines.len()
    &&& forall|k: Seq<char>| #[trigger] members.contains_key(k) <==> keys.contains(k)
    &&& forall|i: int, j: int|
        0 <= i < j < keys.len() ==> precedes(#[trigger] keys[i], #[trigger] keys[j])
    &&& forall|i: int|
        0 <= i < keys.len() ==> #[trigger] lines[i] == keys[i] + ": "@ + (
        if members[keys[i]] is Text {
            members[keys[i]]->Text_0
        } else {
            json_compact(members[keys[i]])
        })
}

/// The report on an object has one line for every member. The report on anything
/// else is its compact form, be it a string or not.
pub proof fn law_info_reports(info: Json, lines: Seq<Seq<char>>)
    requires
        is_info_report(info, lines),
    ensures
        match info {
            Json::Object(members) => exists|keys: Seq<Seq<char>>| #[trigger]
                reports(members, keys, lines),
            _ => lines == seq![json_compact(info)],
        },
{
    if let Json::Object(members) = info {
        let keys = choose|keys: Seq<Seq<char>>| #[trigger]
            in_key_order(members, keys) && lines == Seq::new(
                keys.len(),
                |i: int| member_line(keys[i], shown_value(members[keys[i]])),
            );
        assert forall|k: Seq<char>| #[trigger] members.contains_key(k) <==> keys.contains(k) by {
            if keys.contains(k) {
                let i = choose|i: int| 0 <= i < keys.len() && keys[i] == k;
                assert(members.contains_key(keys[i]));
            }
        }
        assert(reports(members, keys, lines));
    }
}

} // verus!
