//! The dispatch label `invoke:<id>|<actor>` that ties an execution context to the
//! Valence staged for it.
use vstd::prelude::*;
use vstd::string::StrSliceExecFns;
use vstd::string::StringExecFns;
use crate::bindings::string_push;
use crate::decimal::{
    decimal_chars, decimal_digits, is_ascii_digit, lemma_decimal_digits,
    lemma_parse_decimal_digits, parse_u64_range, spec_parse_u64,
};

verus! {

/// The text every dispatch label starts with.
pub open spec fn invoke_prefix() -> Seq<char> {
    seq!['i', 'n', 'v', 'o', 'k', 'e', ':']
}

/// Index of the first `|` in `s`, or `s.len()` when there is none.
pub open spec fn first_bar(s: Seq<char>) -> int
    decreases s.len(),
{
    if s.len() == 0 {
        0
    } else if s[0] == '|' {
        0
    } else {
        1 + first_bar(s.drop_first())
    }
}

/// The invoke id that a context label carries: strip the `invoke:` prefix, keep what comes
/// before the first `|` (all of the rest when there is none), and parse it as a `u64`.
pub open spec fn spec_parse_invoke_id(label: Seq<char>) -> Option<u64> {
    if label.len() >= invoke_prefix().len() && label.take(invoke_prefix().len() as int)
        == invoke_prefix() {
        let rest = label.skip(invoke_prefix().len() as int);
        spec_parse_u64(rest.take(first_bar(rest)))
    } else {
        None
    }
}

/// The label of the context staged under `invoke_id` for an actor rendered as `actor`.
pub open spec fn spec_invoke_label(invoke_id: u64, actor: Seq<char>) -> Seq<char> {
    invoke_prefix() + decimal_digits(invoke_id as nat) + seq!['|'] + actor
}

/// `first_bar` is the index `k` before which no `|` occurs and at which `s` ends or has `|`.
pub proof fn lemma_first_bar(s: Seq<char>, k: int)
    requires
        0 <= k <= s.len(),
        forall|j: int| 0 <= j < k ==> s[j] != '|',
        k == s.len() || s[k] == '|',
    ensures
        first_bar(s) == k,
    decreases k,
{
    if k > 0 {
        let t = s.drop_first();
        assert forall|j: int| 0 <= j < k - 1 implies t[j] != '|' by {
            assert(t[j] == s[j + 1]);
        }
        if k < s.len() {
            assert(t[k - 1] == s[k]);
        }
        lemma_first_bar(t, k - 1);
    }
}

/// A label keeps its actor text verbatim: it starts with `invoke:`, its first `|` comes
/// right after the id's digits, and everything after that `|` is exactly the actor text
/// (which may itself contain `|`).
pub proof fn lemma_label_keeps_actor_text(invoke_id: u64, actor: Seq<char>)
    ensures
        ({
            let label = spec_invoke_label(invoke_id, actor);
            &&& label.take(7) == seq!['i', 'n', 'v', 'o', 'k', 'e', ':']
            &&& 7 < first_bar(label) < label.len()
            &&& label[first_bar(label)] == '|'
            &&& label.skip(first_bar(label) + 1) == actor
            &&& label.len() == first_bar(label) + 1 + actor.len()
        }),
{
    let label = spec_invoke_label(invoke_id, actor);
    let digits = decimal_digits(invoke_id as nat);
    lemma_decimal_digits(invoke_id as nat);
    let k: int = 7int + digits.len() as int;
    assert(label =~= invoke_prefix() + digits + seq!['|'] + actor);
    assert forall|j: int| 0 <= j < k implies label[j] != '|' by {
        if j < 7 {
            assert(label[j] == invoke_prefix()[j]);
        } else {
            assert(label[j] == digits[j - 7]);
            assert(is_ascii_digit(digits[j - 7]));
        }
    }
    assert(label[k] == '|');
    lemma_first_bar(label, k);
    assert(label.skip(k + 1) =~= actor);
    assert(label.take(7) =~= seq!['i', 'n', 'v', 'o', 'k', 'e', ':']);
}

/// Parsing a label built for `invoke_id` gives `invoke_id` back, whatever the actor text.
pub proof fn lemma_invoke_label_roundtrip(invoke_id: u64, actor: Seq<char>)
    ensures
        spec_parse_invoke_id(spec_invoke_label(invoke_id, actor)) == Some(invoke_id),
{
    let label = spec_invoke_label(invoke_id, actor);
    let digits = decimal_digits(invoke_id as nat);
    lemma_decimal_digits(invoke_id as nat);
    lemma_parse_decimal_digits(invoke_id);
    assert(label.take(7) =~= invoke_prefix());
    let rest = label.skip(7);
    assert(rest =~= digits + seq!['|'] + actor);
    assert forall|j: int| 0 <= j < digits.len() implies rest[j] != '|' by {
        assert(rest[j] == digits[j]);
        assert(is_ascii_digit(digits[j]));
    }
    assert(rest[digits.len() as int] == '|');
    lemma_first_bar(rest, digits.len() as int);
    assert(rest.take(digits.len() as int) =~= digits);
}

/// Reads the invoke id out of an execution context label (`invoke:<id>` optionally followed
/// by `|` and more text). `None` when the label has another shape or the id is not a `u64`.
pub fn parse_invoke_id(label: &str) -> (r: Option<u64>)
    ensures
        r == spec_parse_invoke_id(label@),
{
    let n = label.unicode_len();
    let prefix: [char; 7] = ['i', 'n', 'v', 'o', 'k', 'e', ':'];
    assert(prefix@ =~= invoke_prefix());
    if n < 7 {
        return None;
    }
    let mut k: usize = 0;
    while k < 7
        invariant
            n == label@.len(),
            7 <= n,
            k <= 7,
            prefix@ == invoke_prefix(),
            forall|j: int| 0 <= j < k ==> label@[j] == invoke_prefix()[j],
        decreases 7 - k,
    {
        if label.get_char(k) != prefix[k] {
            assert(label@.take(7)[k as int] != invoke_prefix()[k as int]);
            return None;
        }
        k = k + 1;
    }
    assert(label@.take(7) =~= invoke_prefix());
    let ghost rest = label@.skip(7);
    let mut end: usize = 7;
    while end < n && label.get_char(end) != '|'
        invariant
            n == label@.len(),
            7 <= end <= n,
            rest == label@.skip(7),
            forall|j: int| 7 <= j < end ==> label@[j] != '|',
        decreases n - end,
    {
        end = end + 1;
    }
    proof {
        assert forall|j: int| 0 <= j < end - 7 implies rest[j] != '|' by {
            assert(rest[j] == label@[j + 7]);
        }
        if end < n {
            assert(rest[end - 7] == label@[end as int]);
        }
        lemma_first_bar(rest, end - 7);
        assert(rest.take(end - 7) =~= label@.subrange(7, end as int));
    }
    parse_u64_range(label, 7, end)
}

/// Builds the label `invoke:<invoke_id>|<actor_label>` of a staged execution context.
pub fn invoke_label(invoke_id: u64, actor_label: &str) -> (r: String)
    ensures
        r@ == spec_invoke_label(invoke_id, actor_label@),
        r@.skip(first_bar(r@) + 1) == actor_label@,
        spec_parse_invoke_id(r@) == Some(invoke_id),
{
    proof {
        lemma_label_keeps_actor_text(invoke_id, actor_label@);
        lemma_invoke_label_roundtrip(invoke_id, actor_label@);
    }
    let mut s = String::new();
    s.append("invoke:");
    proof {
        reveal_strlit("invoke:");
        assert(s@ =~= invoke_prefix());
    }
    let digits = decimal_chars(invoke_id);
    let mut k: usize = 0;
    while k < digits.len()
        invariant
            k <= digits@.len(),
            digits@ == decimal_digits(invoke_id as nat),
            s@ == invoke_prefix() + digits@.take(k as int),
        decreases digits@.len() - k,
    {
        string_push(&mut s, digits[k]);
        assert(digits@.take((k + 1) as int) =~= digits@.take(k as int).push(digits@[k as int]));
        k = k + 1;
    }
    assert(digits@.take(k as int) =~= digits@);
    string_push(&mut s, '|');
    s.append(actor_label);
    assert(s@ =~= spec_invoke_label(invoke_id, actor_label@));
    s
}

} // verus!
