use vstd::prelude::*;

use crate::convert::{decode_separator, projection};
use crate::instant::Instant;
use crate::service::listing;

verus! {

/// Appends keep their order: when `states[k + 1]` is the store after the
/// append of `xs[k]` to `states[k]` (what `TimestampStore::append` and a
/// successful `append_timestamp` promise), the last state is the first
/// followed by all of `xs` in the order of the appends, and its listing in
/// any zone ends with one entry per append, in that order.
pub proof fn lemma_appends_keep_order(
    states: Seq<Seq<Instant>>,
    xs: Seq<Instant>,
    zone: Seq<char>,
)
    requires
        states.len() == xs.len() + 1,
        forall|k: int| 0 <= k < xs.len() ==> #[trigger] states[k + 1] == states[k].push(xs[k]),
    ensures
        states.last() == states[0] + xs,
        listing(states.last(), zone).len() == states[0].len() + xs.len(),
        forall|k: int|
            0 <= k < xs.len() ==> #[trigger] listing(states.last(), zone)[states[0].len() + k]
                == projection(xs[k], zone),
    decreases xs.len(),
{
    if xs.len() == 0 {
        assert(states[0] + xs =~= states[0]);
    } else {
        let n = xs.len() - 1;
        lemma_appends_keep_order(states.drop_last(), xs.drop_last(), zone);
        assert(states.drop_last().last() == states[n]);
        assert(states[n + 1] == states[n].push(xs[n]));
        assert(states[0] + xs =~= (states[0] + xs.drop_last()).push(xs[n]));
    }
}

/// Rendering the same instant in the same zone twice gives the same text.
pub proof fn lemma_projection_repeatable(a: Instant, b: Instant, zone_a: Seq<char>, zone_b: Seq<char>)
    requires
        a == b,
        zone_a == zone_b,
    ensures
        projection(a, zone_a) == projection(b, zone_b),
{
}

/// The text has no `%2F` in it.
pub open spec fn free_of_encoded_separator(s: Seq<char>) -> bool {
    forall|i: int| 0 <= i < s.len() - 2 ==> !(#[trigger] s[i] == '%' && s[i + 1] == '2' && s[i + 2] == 'F')
}

proof fn lemma_decode_first(s: Seq<char>)
    requires
        s.len() > 0,
    ensures
        decode_separator(s).len() > 0,
        decode_separator(s)[0] == if s.len() >= 3 && s[0] == '%' && s[1] == '2' && s[2] == 'F' {
            '/'
        } else {
            s[0]
        },
{
}

proof fn lemma_decode_leaves_no_separator(s: Seq<char>)
    ensures
        free_of_encoded_separator(decode_separator(s)),
    decreases s.len(),
{
    if s.len() == 0 {
    } else if s.len() >= 3 && s[0] == '%' && s[1] == '2' && s[2] == 'F' {
        let t = decode_separator(s.skip(3));
        lemma_decode_leaves_no_separator(s.skip(3));
        let r = seq!['/'] + t;
        assert forall|i: int| 0 <= i < r.len() - 2 implies !(#[trigger] r[i] == '%' && r[i + 1] == '2'
            && r[i + 2] == 'F') by {
            if i > 0 {
                assert(r[i] == t[i - 1] && r[i + 1] == t[i] && r[i + 2] == t[i + 1]);
            }
        }
    } else {
        let t = decode_separator(s.skip(1));
        lemma_decode_leaves_no_separator(s.skip(1));
        let r = seq![s[0]] + t;
        assert forall|i: int| 0 <= i < r.len() - 2 implies !(#[trigger] r[i] == '%' && r[i + 1] == '2'
            && r[i + 2] == 'F') by {
            if i > 0 {
                assert(r[i] == t[i - 1] && r[i + 1] == t[i] && r[i + 2] == t[i + 1]);
            } else if r[0] == '%' && r[1] == '2' && r[2] == 'F' {
                let s1 = s.skip(1);
                lemma_decode_first(s1);
                assert(s1[0] == '2');
                assert(!(s1.len() >= 3 && s1[0] == '%'));
                assert(t == seq![s1[0]] + decode_separator(s1.skip(1)));
                lemma_decode_first(s1.skip(1));
                assert(s[2] == 'F');
            }
        }
    }
}

proof fn lemma_decode_identity(s: Seq<char>)
    requires
        free_of_encoded_separator(s),
    ensures
        decode_separator(s) == s,
    decreases s.len(),
{
    if s.len() > 0 {
        assert(!(s[0] == '%' && s[1] == '2' && s[2] == 'F') || s.len() < 3);
        assert(free_of_encoded_separator(s.skip(1))) by {
            assert forall|i: int| 0 <= i < s.skip(1).len() - 2 implies !(#[trigger] s.skip(1)[i] == '%'
                && s.skip(1)[i + 1] == '2' && s.skip(1)[i + 2] == 'F') by {
                assert(s.skip(1)[i] == s[i + 1]);
            }
        }
        lemma_decode_identity(s.skip(1));
        assert(seq![s[0]] + s.skip(1) =~= s);
    }
}

/// A zone name whose `/` came as `%2F` names what the decoded text names:
/// decoding the decoded text again changes nothing, so every listing of
/// `raw` equals the listing of its decoded form.
pub proof fn lemma_encoded_separator(raw: Seq<char>)
    ensures
        decode_separator(decode_separator(raw)) == decode_separator(raw),
{
    lemma_decode_leaves_no_separator(raw);
    lemma_decode_identity(decode_separator(raw));
}

} // verus!
