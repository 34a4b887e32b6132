//! Light ids: the decimal strings the bridge uses, and their numeric order.

use vstd::prelude::*;

verus! {

broadcast use vstd::seq_lib::group_to_multiset_ensures;

/// A decimal digit.
pub open spec fn is_digit(c: char) -> bool {
    '0' <= c && c <= '9'
}

/// The number a decimal digit stands for.
pub open spec fn digit_value(c: char) -> nat {
    (c as u32 - '0' as u32) as nat
}

/// The number that a string of decimal digits spells.
pub open spec fn digits_value(s: Seq<char>) -> nat
    decreases s.len(),
{
    if s.len() == 0 {
        0
    } else {
        digits_value(s.drop_last()) * 10 + digit_value(s.last())
    }
}

/// A light id: a non-empty string of decimal digits whose number fits in a
/// `usize`.
pub open spec fn is_light_id(s: Seq<char>) -> bool {
    &&& s.len() > 0
    &&& forall|i: int| 0 <= i < s.len() ==> #[trigger] is_digit(s[i])
    &&& digits_value(s) <= usize::MAX
}

/// The strings of a sequence, as character sequences.
pub open spec fn views(v: Seq<String>) -> Seq<Seq<char>> {
    v.map_values(|s: String| s@)
}

/// A prefix spells a number no larger than the whole string.
proof fn lemma_prefix_value_le(s: Seq<char>, k: int)
    requires
        0 <= k <= s.len(),
    ensures
        digits_value(s.take(k)) <= digits_value(s),
    decreases s.len(),
{
    if k < s.len() {
        assert(s.take(k) =~= s.drop_last().take(k));
        lemma_prefix_value_le(s.drop_last(), k);
    } else {
        assert(s.take(k) =~= s);
    }
}

/// The number a light id spells, or `None` when `s` is not a light id.
pub fn parse_id(s: &str) -> (r: Option<usize>)
    ensures
        match r {
            Some(v) => is_light_id(s@) && v == digits_value(s@),
            None => !is_light_id(s@),
        },
{
    let n = s.unicode_len();
    if n == 0 {
        return None;
    }
    let mut acc: usize = 0;
    let mut i: usize = 0;
    while i < n
        invariant
            n == s@.len(),
            0 <= i <= n,
            forall|j: int| 0 <= j < i ==> #[trigger] is_digit(s@[j]),
            acc == digits_value(s@.take(i as int)),
        decreases n - i,
    {
        let c = s.get_char(i);
        if !('0' <= c && c <= '9') {
            assert(!is_digit(s@[i as int]));
            return None;
        }
        let d = (c as u32 - '0' as u32) as usize;
        assert(s@.take(i as int + 1).drop_last() =~= s@.take(i as int));
        if acc > (usize::MAX - d) / 10 {
            assert(acc * 10 + d > usize::MAX) by (nonlinear_arith)
                requires
                    acc > (usize::MAX - d) / 10,
                    d <= 9,
            ;
            proof {
                lemma_prefix_value_le(s@, i as int + 1);
            }
            return None;
        }
        assert(acc * 10 + d <= usize::MAX) by (nonlinear_arith)
            requires
                acc <= (usize::MAX - d) / 10,
                d <= 9,
        ;
        acc = acc * 10 + d;
        i += 1;
    }
    assert(s@.take(n as int) =~= s@);
    Some(acc)
}

/// The ids in numeric order (`"2", "10", "1"` gives `"1", "2", "10"`), or
/// `None` when one of them is not a light id. The result holds the same
/// strings, each as often as `ids` does.
pub fn sort_light_ids(ids: &Vec<String>) -> (r: Option<Vec<String>>)
    ensures
        r is None <==> exists|i: int| 0 <= i < ids@.len() && !is_light_id(#[trigger] ids@[i]@),
        r is Some ==> views(r->0@).to_multiset() == views(ids@).to_multiset(),
        r is Some ==> forall|a: int, b: int|
            0 <= a < b < r->0@.len() ==> digits_value(#[trigger] r->0@[a]@) <= digits_value(
                #[trigger] r->0@[b]@,
            ),
{
    let mut out: Vec<String> = Vec::new();
    let mut keys: Vec<usize> = Vec::new();
    let mut i: usize = 0;
    while i < ids.len()
        invariant
            0 <= i <= ids@.len(),
            keys@.len() == out@.len(),
            forall|t: int| 0 <= t < out@.len() ==> keys@[t] == digits_value(#[trigger] out@[t]@),
            forall|a: int, b: int| 0 <= a < b < keys@.len() ==> #[trigger] keys@[a] <= #[trigger] keys@[b],
            views(out@).to_multiset() == views(ids@.take(i as int)).to_multiset(),
            forall|t: int| 0 <= t < i ==> is_light_id(#[trigger] ids@[t]@),
        decreases ids@.len() - i,
    {
        let k = match parse_id(ids[i].as_str()) {
            Some(k) => k,
            None => {
                return None;
            },
        };
        let mut j: usize = out.len();
        while j > 0 && keys[j - 1] > k
            invariant
                j <= keys@.len(),
                forall|t: int| j <= t < keys@.len() ==> #[trigger] keys@[t] > k,
            decreases j,
        {
            j -= 1;
        }
        let ghost old_out = out@;
        let ghost old_keys = keys@;
        let item = ids[i].clone();
        keys.insert(j, k);
        out.insert(j, item);
        proof {
            assert(views(out@) =~= views(old_out).insert(j as int, ids@[i as int]@));
            assert(views(ids@.take(i as int + 1)) =~= views(ids@.take(i as int)).push(
                ids@[i as int]@,
            ));
            assert forall|a: int, b: int| 0 <= a < b < keys@.len() implies #[trigger] keys@[a]
                <= #[trigger] keys@[b] by {
                if b < j {
                } else if b == j {
                    assert(keys@[a] == old_keys[a]);
                } else if a < j {
                    assert(keys@[b] == old_keys[b - 1]);
                } else if a == j {
                    assert(keys@[b] == old_keys[b - 1]);
                } else {
                }
            }
            assert forall|t: int| 0 <= t < out@.len() implies keys@[t] == digits_value(
                #[trigger] out@[t]@,
            ) by {
                if t < j {
                } else if t == j {
                } else {
                    assert(out@[t] == old_out[t - 1]);
                }
            }
        }
        i += 1;
    }
    assert(ids@.take(ids@.len() as int) =~= ids@);
    Some(out)
}

} // verus!
