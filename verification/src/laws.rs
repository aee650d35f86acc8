//! What holds of the library as a whole, stated over the models that the
//! contracts of its functions use.

use crate::common::{
    keys_distinct, lemma_position_of, lemma_written, lookup, position_of, written, Pairs,
};
use crate::header::{lemma_merged_distinct, merged};
use crate::locator::appended_query;
use crate::simple_http::{
    chain_outcome, deleted, dispatched, has_id, has_other_id, intercepts, lemma_ran_step, ran,
    responds, settled, stopped, BaseClient, DispatchError, Interceptor, InterceptorError, SimpleHTTPResponse,
    TransportOutcome,
};
use crate::stream::{after_read, all_filled, flattened, read_bytes};
use crate::template::{pair_text, placeholder, query_text, substituted};
use crate::text::{occurs_at, replaced};
use vstd::prelude::*;

verus! {

/// Headers of a call are never dropped when they are merged over the default
/// headers: after the merge every name that the call sets has the value of the
/// call, and every other name has the value that the defaults give it.
pub proof fn law_merge_keeps_call_headers(defaults: Pairs, call: Pairs, name: Seq<char>)
    requires
        keys_distinct(defaults),
        keys_distinct(call),
    ensures
        lookup(merged(defaults, call), name) == (if lookup(call, name) is Some {
            lookup(call, name)
        } else {
            lookup(defaults, name)
        }),
    decreases call.len(),
{
    if call.len() > 0 {
        let front = call.drop_last();
        let last = call.last();
        assert(forall|k: int| 0 <= k < front.len() ==> front[k] == call[k]);
        law_merge_keeps_call_headers(defaults, front, name);
        lemma_merged_distinct(defaults, front);
        lemma_written(merged(defaults, front), last.0, last.1);
        lemma_position_of(front, name);
        lemma_position_of(call, name);
        if name == last.0 {
            assert(position_of(front, name) is None) by {
                if position_of(front, name) is Some {
                    let i = position_of(front, name).unwrap();
                    assert(call[i].0 == call[call.len() - 1].0);
                }
            }
        } else {
            match position_of(call, name) {
                Some(i) => {
                    assert(i < front.len());
                },
                None => {},
            }
        }
    }
}

/// The query string of a parameter map holds every one of its parameters, as
/// key, `=`, value, between the start, the end and the `&` signs: none is
/// dropped and none is written over another.
pub proof fn law_query_holds_every_parameter(params: Pairs, i: int)
    requires
        0 <= i < params.len(),
    ensures
        exists|at: int|
            {
                &&& #[trigger] occurs_at(query_text(params), at, pair_text(params[i]))
                &&& (at == 0 || query_text(params)[at - 1] == '&')
                &&& (at + pair_text(params[i]).len() == query_text(params).len() || query_text(
                    params,
                )[at + pair_text(params[i]).len()] == '&')
            },
    decreases params.len(),
{
    let whole = query_text(params);
    let pair = pair_text(params[i]);
    if params.len() == 1 {
        assert(whole.subrange(0, pair.len() as int) == pair);
        assert(occurs_at(whole, 0, pair));
    } else {
        let front = params.drop_last();
        let head = query_text(front);
        let last = pair_text(params.last());
        assert(whole == head + seq!['&'] + last);
        if i == params.len() - 1 {
            let at: int = head.len() as int + 1;
            assert(whole.subrange(at, at + pair.len()) == pair);
            assert(occurs_at(whole, at, pair));
            assert(whole[at - 1] == '&');
        } else {
            assert(front[i] == params[i]);
            law_query_holds_every_parameter(front, i);
            let at = choose|at: int|
                {
                    &&& #[trigger] occurs_at(head, at, pair)
                    &&& (at == 0 || head[at - 1] == '&')
                    &&& (at + pair.len() == head.len() || head[at + pair.len()] == '&')
                };
            assert(whole.subrange(at, at + pair.len()) == head.subrange(at, at + pair.len()));
            assert(occurs_at(whole, at, pair));
            assert(whole[head.len() as int] == '&');
            if at > 0 {
                assert(whole[at - 1] == head[at - 1]);
            }
            if at + pair.len() < head.len() {
                assert(whole[at + pair.len()] == head[at + pair.len()]);
            }
        }
    }
}

/// Appending to a query string drops nothing: what the query string held
/// still stands at its start, and what was added stands at its end.
pub proof fn law_append_keeps_the_query(existing: Seq<char>, added: Seq<char>)
    ensures
        occurs_at(appended_query(Some(existing), added), 0, existing),
        occurs_at(
            appended_query(Some(existing), added),
            appended_query(Some(existing), added).len() - added.len(),
            added,
        ),
        appended_query(None, added) == added,
{
    let whole = appended_query(Some(existing), added);
    if existing.len() > 0 {
        assert(whole.subrange(0, existing.len() as int) == existing);
        assert(whole.subrange(whole.len() - added.len(), whole.len() as int) == added);
    } else {
        assert(whole.subrange(0, 0) == existing);
        assert(whole.subrange(0, whole.len() as int) == added);
    }
}

/// A parameter that is written twice is held once, with the value that was
/// written last; the other parameters are as they were.
pub proof fn law_last_write_wins(
    params: Pairs,
    key: Seq<char>,
    first: Seq<char>,
    second: Seq<char>,
)
    requires
        keys_distinct(params),
    ensures
        written(written(params, key, first), key, second) == written(params, key, second),
        lookup(written(written(params, key, first), key, second), key) == Some(second),
{
    lemma_written(params, key, first);
    lemma_written(written(params, key, first), key, second);
    lemma_position_of(params, key);
    lemma_position_of(written(params, key, first), key);
    assert(written(written(params, key, first), key, second) =~= written(params, key, second));
}

/// A timeout is an error of its own kind: a dispatch ends in it exactly when
/// the time ran out, and never when the transport came back, whatever it
/// came back with.
pub proof fn law_timeout_is_its_own_error<Res>(outcome: TransportOutcome<Res>)
    ensures
        settled(outcome) == Err::<Res, DispatchError>(DispatchError::Timeout) <==> outcome
            is TimedOut,
        outcome matches TransportOutcome::Completed(res) ==> settled(outcome) == Ok::<
            Res,
            DispatchError,
        >(res),
{
}

/// Through a transport that never comes back in time, a dispatch whose
/// interceptors let the request pass ends in a timeout: it returns nothing
/// that a transport made, neither a response nor a transport error.
pub proof fn law_silent_transport_times_out<
    Req,
    Res,
    C: BaseClient<Req, Res>,
    I: Interceptor<Req>,
>(
    chain: Seq<I>,
    client: C,
    timeout_millisecond: u64,
    request: Req,
    result: SimpleHTTPResponse<Res>,
)
    requires
        forall|sent: Req, outcome: TransportOutcome<Res>| #[trigger]
            responds(client, sent, timeout_millisecond, outcome) ==> outcome is TimedOut,
        dispatched(chain, client, timeout_millisecond, request, result),
    ensures
        result is Err,
        !(result->Err_0 is Interceptor) ==> result == Err::<Res, DispatchError>(
            DispatchError::Timeout,
        ),
{
}

/// What `n` reads into a buffer of `capacity` bytes, one after the other, take
/// from a queue, and what they leave in it. A read from an empty queue takes
/// nothing and leaves it empty.
pub open spec fn read_n(waiting: Seq<Seq<u8>>, capacity: int, n: nat) -> (Seq<u8>, Seq<Seq<u8>>)
    decreases n,
{
    if n == 0 || waiting.len() == 0 {
        (Seq::<u8>::empty(), waiting)
    } else {
        let later = read_n(after_read(waiting, capacity), capacity, (n - 1) as nat);
        (read_bytes(waiting, capacity) + later.0, later.1)
    }
}

/// A read loses nothing and repeats nothing: what it takes, followed by what
/// it leaves, is what waited. It takes no more than the buffer holds, and from
/// chunks that are not empty a buffer of at least one byte takes at least one
/// byte and leaves the chunks not empty.
pub proof fn law_read_loses_nothing(waiting: Seq<Seq<u8>>, capacity: int)
    requires
        waiting.len() > 0,
        capacity >= 0,
    ensures
        read_bytes(waiting, capacity) + flattened(after_read(waiting, capacity)) == flattened(
            waiting,
        ),
        read_bytes(waiting, capacity).len() <= capacity,
        all_filled(waiting) && capacity >= 1 ==> read_bytes(waiting, capacity).len() >= 1,
        all_filled(waiting) ==> all_filled(after_read(waiting, capacity)),
{
    let front = waiting[0];
    let left = after_read(waiting, capacity);
    if front.len() > capacity {
        let rest = front.subrange(capacity, front.len() as int);
        assert(left[0] == rest);
        assert(left.drop_first() =~= waiting.drop_first());
        assert(front.subrange(0, capacity) + rest =~= front);
        assert(flattened(left) == rest + flattened(waiting.drop_first()));
        assert(read_bytes(waiting, capacity) + flattened(left) =~= flattened(waiting));
        if all_filled(waiting) {
            assert forall|i: int| 0 <= i < left.len() implies (#[trigger] left[i]).len() > 0 by {
                if i > 0 {
                    assert(left[i] == waiting[i]);
                }
            }
        }
    } else {
        if all_filled(waiting) {
            assert(waiting[0].len() > 0);
            assert forall|i: int| 0 <= i < left.len() implies (#[trigger] left[i]).len() > 0 by {
                assert(left[i] == waiting[i + 1]);
            }
        }
    }
}

/// Reading again and again delivers the body as it was written: what any
/// number of reads take, one after the other, followed by what still waits,
/// is what waited at the start. So the bytes read are a prefix of the bytes
/// written, in order, none lost and none repeated.
pub proof fn law_reads_deliver_what_was_written(waiting: Seq<Seq<u8>>, capacity: int, n: nat)
    requires
        capacity >= 0,
    ensures
        read_n(waiting, capacity, n).0 + flattened(read_n(waiting, capacity, n).1) == flattened(
            waiting,
        ),
    decreases n,
{
    if n > 0 && waiting.len() > 0 {
        let left = after_read(waiting, capacity);
        law_read_loses_nothing(waiting, capacity);
        law_reads_deliver_what_was_written(left, capacity, (n - 1) as nat);
        let later = read_n(left, capacity, (n - 1) as nat);
        assert((read_bytes(waiting, capacity) + later.0) + flattened(later.1) =~= read_bytes(
            waiting,
            capacity,
        ) + (later.0 + flattened(later.1)));
    } else {
        assert(Seq::<u8>::empty() + flattened(waiting) =~= flattened(waiting));
    }
}

/// With a buffer of at least one byte, and chunks that are not empty, as many
/// reads as bytes wait deliver all of them and leave the queue empty: the
/// reader comes to the end of the body only after the last byte.
pub proof fn law_reads_reach_the_end(waiting: Seq<Seq<u8>>, capacity: int, n: nat)
    requires
        capacity >= 1,
        all_filled(waiting),
        n >= flattened(waiting).len(),
    ensures
        read_n(waiting, capacity, n).1.len() == 0,
        read_n(waiting, capacity, n).0 == flattened(waiting),
    decreases n,
{
    law_reads_deliver_what_was_written(waiting, capacity, n);
    if waiting.len() > 0 {
        assert(waiting[0].len() > 0);
        assert(flattened(waiting).len() >= waiting[0].len());
        law_read_loses_nothing(waiting, capacity);
        let left = after_read(waiting, capacity);
        assert(flattened(left).len() < flattened(waiting).len());
        law_reads_reach_the_end(left, capacity, (n - 1) as nat);
    }
    let end = read_n(waiting, capacity, n);
    assert(end.1 =~= Seq::<Seq<u8>>::empty());
    assert(flattened(end.1) =~= Seq::<u8>::empty());
    assert(end.0 + Seq::<u8>::empty() =~= end.0);
}

/// Whether `text` holds neither an opening nor a closing brace.
pub open spec fn brace_free(text: Seq<char>) -> bool {
    forall|i: int| 0 <= i < text.len() ==> text[i] != '{' && text[i] != '}'
}

/// Whether `pat` stands nowhere in `s`.
pub open spec fn free_of(s: Seq<char>, pat: Seq<char>) -> bool {
    forall|at: int| !occurs_at(s, at, pat)
}

/// A text in which the pattern stands nowhere is left as it is.
pub proof fn lemma_replaced_without_occurrence(s: Seq<char>, pat: Seq<char>, to: Seq<char>)
    requires
        free_of(s, pat),
    ensures
        replaced(s, pat, to) == s,
    decreases s.len(),
{
    if pat.len() > 0 && s.len() >= pat.len() {
        assert(!occurs_at(s, 0, pat));
        let tail = s.subrange(1, s.len() as int);
        assert forall|at: int| !occurs_at(tail, at, pat) by {
            if occurs_at(tail, at, pat) {
                assert(s.subrange(at + 1, at + 1 + pat.len()) == tail.subrange(
                    at,
                    at + pat.len(),
                ));
                assert(occurs_at(s, at + 1, pat));
            }
        }
        lemma_replaced_without_occurrence(tail, pat, to);
        assert(seq![s[0]] + tail == s);
    }
}

/// Where the placeholder of a name without an opening brace stands behind a
/// text in which it stands nowhere, that is its first occurrence: the value
/// takes its place, the text in front is kept, and what follows is treated
/// in the same way.
pub proof fn lemma_replaced_first_occurrence(
    head: Seq<char>,
    name: Seq<char>,
    value: Seq<char>,
    rest: Seq<char>,
)
    requires
        forall|i: int| 0 <= i < name.len() ==> name[i] != '{',
        free_of(head, placeholder(name)),
    ensures
        replaced(head + placeholder(name) + rest, placeholder(name), value) == head + value
            + replaced(rest, placeholder(name), value),
    decreases head.len(),
{
    let pat = placeholder(name);
    let s = head + pat + rest;
    assert(pat.len() == name.len() + 2);
    assert(pat[0] == '{');
    if head.len() == 0 {
        assert(s.subrange(0, pat.len() as int) == pat);
        assert(s.subrange(pat.len() as int, s.len() as int) == rest);
        assert(head + value + replaced(rest, pat, value) == value + replaced(rest, pat, value));
    } else {
        assert(!occurs_at(s, 0, pat)) by {
            if occurs_at(s, 0, pat) {
                let front = s.subrange(0, pat.len() as int);
                if head.len() >= pat.len() {
                    assert(head.subrange(0, pat.len() as int) == front);
                    assert(occurs_at(head, 0, pat));
                } else {
                    let h = head.len() as int;
                    assert(front[h] == s[h]);
                    assert(s[h] == pat[0]);
                    if h <= name.len() {
                        assert(pat[h] == name[h - 1]);
                    } else {
                        assert(pat[h] == '}');
                    }
                }
            }
        }
        let head_tail = head.subrange(1, head.len() as int);
        assert(s.subrange(1, s.len() as int) == head_tail + pat + rest);
        assert forall|at: int| !occurs_at(head_tail, at, pat) by {
            if occurs_at(head_tail, at, pat) {
                assert(head.subrange(at + 1, at + 1 + pat.len()) == head_tail.subrange(
                    at,
                    at + pat.len(),
                ));
                assert(occurs_at(head, at + 1, pat));
            }
        }
        lemma_replaced_first_occurrence(head_tail, name, value, rest);
        assert(seq![s[0]] + (head_tail + value + replaced(rest, pat, value)) == head + value
            + replaced(rest, pat, value));
    }
}

/// Path substitution puts the value in place of every occurrence of the
/// placeholder and alters nothing else. For a parameter whose name holds no
/// opening brace: where the placeholder stands behind a text in which it
/// stands nowhere, the value takes its place, the text in front is kept as it
/// is, and what follows is substituted in the same way.
pub proof fn law_path_substitution(
    head: Seq<char>,
    name: Seq<char>,
    value: Seq<char>,
    rest: Seq<char>,
)
    requires
        forall|i: int| 0 <= i < name.len() ==> name[i] != '{',
        free_of(head, placeholder(name)),
    ensures
        substituted(head + placeholder(name) + rest, seq![(name, value)]) == head + value
            + substituted(rest, seq![(name, value)]),
{
    let params = seq![(name, value)];
    reveal_with_fuel(substituted, 2);
    assert(params.drop_last() =~= Seq::<(Seq<char>, Seq<char>)>::empty());
    assert(params.last() == (name, value));
    lemma_replaced_first_occurrence(head, name, value, rest);
}

/// A template in which the placeholder of a parameter stands nowhere is not
/// altered by that parameter.
pub proof fn law_template_without_placeholder(
    template: Seq<char>,
    name: Seq<char>,
    value: Seq<char>,
)
    requires
        free_of(template, placeholder(name)),
    ensures
        substituted(template, seq![(name, value)]) == template,
{
    let params = seq![(name, value)];
    reveal_with_fuel(substituted, 2);
    assert(params.drop_last() =~= Seq::<(Seq<char>, Seq<char>)>::empty());
    assert(params.last() == (name, value));
    lemma_replaced_without_occurrence(template, placeholder(name), value);
}

/// The placeholder of another parameter is no occurrence of the placeholder of
/// this one, so substitution leaves it as it is: for two different names
/// without braces, the placeholder of the one stands nowhere in the
/// placeholder of the other.
pub proof fn law_other_placeholders_are_kept(name: Seq<char>, other: Seq<char>, value: Seq<char>)
    requires
        brace_free(name),
        brace_free(other),
        name != other,
    ensures
        free_of(placeholder(other), placeholder(name)),
        substituted(placeholder(other), seq![(name, value)]) == placeholder(other),
{
    let pat = placeholder(name);
    let host = placeholder(other);
    assert(pat.len() == name.len() + 2);
    assert(host.len() == other.len() + 2);
    assert forall|at: int| !occurs_at(host, at, pat) by {
        if occurs_at(host, at, pat) {
            let part = host.subrange(at, at + pat.len());
            assert(part[0] == host[at]);
            assert(pat[0] == '{');
            if at > 0 {
                if at <= other.len() {
                    assert(host[at] == other[at - 1]);
                } else {
                    assert(host[at] == '}');
                }
            }
            assert(at == 0);
            let end = pat.len() - 1;
            assert(part[end] == host[end]);
            assert(pat[end] == '}');
            if end < host.len() - 1 {
                assert(host[end] == other[end - 1]);
            }
            assert(pat.len() == host.len());
            assert(part == host);
            assert forall|i: int| 0 <= i < name.len() implies name[i] == other[i] by {
                assert(pat[i + 1] == name[i]);
                assert(host[i + 1] == other[i]);
            }
            assert(name =~= other);
        }
    }
    law_template_without_placeholder(host, name, value);
}

/// Whether an occurrence of `pat` in `x + y` begins in `x` and ends in `y`.
pub open spec fn straddles(x: Seq<char>, y: Seq<char>, pat: Seq<char>) -> bool {
    exists|at: int| 0 <= at < x.len() && x.len() < at + pat.len() && #[trigger] occurs_at(x + y, at, pat)
}

/// Where no occurrence of the pattern lies across the join of two texts, the
/// two are replaced in independently of each other.
pub proof fn lemma_replaced_split(x: Seq<char>, y: Seq<char>, pat: Seq<char>, to: Seq<char>)
    requires
        !straddles(x, y, pat),
    ensures
        replaced(x + y, pat, to) == replaced(x, pat, to) + replaced(y, pat, to),
    decreases x.len(),
{
    let s = x + y;
    if pat.len() == 0 {
    } else if x.len() == 0 {
        assert(s =~= y);
        assert(replaced(x, pat, to) + replaced(y, pat, to) =~= replaced(y, pat, to));
    } else if s.len() < pat.len() {
    } else if occurs_at(s, 0, pat) {
        assert(pat.len() <= x.len());
        assert(x.subrange(0, pat.len() as int) == s.subrange(0, pat.len() as int));
        let x_rest = x.subrange(pat.len() as int, x.len() as int);
        assert(s.subrange(pat.len() as int, s.len() as int) == x_rest + y);
        assert(!straddles(x_rest, y, pat)) by {
            if straddles(x_rest, y, pat) {
                let at = choose|at: int|
                    0 <= at < x_rest.len() && x_rest.len() < at + pat.len() && #[trigger] occurs_at(
                        x_rest + y,
                        at,
                        pat,
                    );
                assert((x_rest + y).subrange(at, at + pat.len()) == s.subrange(
                    at + pat.len(),
                    at + pat.len() + pat.len(),
                ));
                assert(occurs_at(s, at + pat.len(), pat));
            }
        }
        lemma_replaced_split(x_rest, y, pat, to);
        assert(to + (replaced(x_rest, pat, to) + replaced(y, pat, to)) == (to + replaced(
            x_rest,
            pat,
            to,
        )) + replaced(y, pat, to));
    } else {
        let x_rest = x.subrange(1, x.len() as int);
        assert(s.subrange(1, s.len() as int) == x_rest + y);
        assert(!straddles(x_rest, y, pat)) by {
            if straddles(x_rest, y, pat) {
                let at = choose|at: int|
                    0 <= at < x_rest.len() && x_rest.len() < at + pat.len() && #[trigger] occurs_at(
                        x_rest + y,
                        at,
                        pat,
                    );
                assert((x_rest + y).subrange(at, at + pat.len()) == s.subrange(
                    at + 1,
                    at + 1 + pat.len(),
                ));
                assert(occurs_at(s, at + 1, pat));
            }
        }
        lemma_replaced_split(x_rest, y, pat, to);
        if x.len() >= pat.len() {
            assert(x.subrange(0, pat.len() as int) == s.subrange(0, pat.len() as int));
        } else {
            assert(replaced(x_rest, pat, to) == x_rest);
            assert(seq![x[0]] + x_rest == x);
        }
        assert(seq![s[0]] + (replaced(x_rest, pat, to) + replaced(y, pat, to)) == (seq![x[0]]
            + replaced(x_rest, pat, to)) + replaced(y, pat, to));
    }
}

/// Replacing the placeholder of one name leaves the placeholder of another
/// name where it is, and treats the text in front of it and behind it as if
/// each stood alone. That holds for two different names without braces, in
/// any text.
pub proof fn lemma_replaced_around_other(
    front: Seq<char>,
    other: Seq<char>,
    back: Seq<char>,
    name: Seq<char>,
    value: Seq<char>,
)
    requires
        brace_free(name),
        brace_free(other),
        name != other,
    ensures
        replaced(front + placeholder(other) + back, placeholder(name), value) == replaced(
            front,
            placeholder(name),
            value,
        ) + placeholder(other) + replaced(back, placeholder(name), value),
{
    let pat = placeholder(name);
    let kept = placeholder(other);
    assert(pat.len() == name.len() + 2);
    assert(kept.len() == other.len() + 2);
    assert(!straddles(front, kept + back, pat)) by {
        if straddles(front, kept + back, pat) {
            let whole = front + (kept + back);
            let at = choose|at: int|
                0 <= at < front.len() && front.len() < at + pat.len() && #[trigger] occurs_at(
                    whole,
                    at,
                    pat,
                );
            let j = front.len() - at;
            assert(whole.subrange(at, at + pat.len())[j] == whole[front.len() as int]);
            assert(whole[front.len() as int] == kept[0]);
            if j <= name.len() {
                assert(pat[j] == name[j - 1]);
            } else {
                assert(pat[j] == '}');
            }
        }
    }
    assert(!straddles(kept, back, pat)) by {
        if straddles(kept, back, pat) {
            let whole = kept + back;
            let at = choose|at: int|
                0 <= at < kept.len() && kept.len() < at + pat.len() && #[trigger] occurs_at(
                    whole,
                    at,
                    pat,
                );
            assert(whole.subrange(at, at + pat.len())[0] == whole[at]);
            assert(whole[at] == kept[at]);
            if at > 0 {
                if at <= other.len() {
                    assert(kept[at] == other[at - 1]);
                } else {
                    assert(kept[at] == '}');
                }
            }
            assert(at == 0);
            let end = kept.len() - 1;
            assert(whole.subrange(0, pat.len() as int)[end] == whole[end]);
            assert(whole[end] == kept[end]);
            assert(kept[end] == '}');
            assert(pat[end] == name[end - 1]);
        }
    }
    lemma_replaced_split(front, kept + back, pat, value);
    lemma_replaced_split(kept, back, pat, value);
    law_other_placeholders_are_kept(name, other, value);
    lemma_replaced_without_occurrence(kept, pat, value);
    assert(front + kept + back =~= front + (kept + back));
    assert(replaced(front, pat, value) + (kept + replaced(back, pat, value)) =~= replaced(
        front,
        pat,
        value,
    ) + kept + replaced(back, pat, value));
}

/// Path substitution alters nothing but the placeholders of its parameters.
/// A placeholder whose name is no key of the map stays where it is, whatever
/// the map holds, and the text in front of it and behind it is substituted as
/// if each stood alone. That holds for every map of parameters whose names
/// are without braces, whatever their values, and in every template.
pub proof fn law_text_around_other_placeholder(
    front: Seq<char>,
    other: Seq<char>,
    back: Seq<char>,
    params: Pairs,
)
    requires
        brace_free(other),
        forall|i: int|
            0 <= i < params.len() ==> brace_free(#[trigger] params[i].0) && params[i].0 != other,
    ensures
        substituted(front + placeholder(other) + back, params) == substituted(front, params)
            + placeholder(other) + substituted(back, params),
    decreases params.len(),
{
    if params.len() > 0 {
        let first = params.drop_last();
        let last = params.last();
        assert(forall|i: int| 0 <= i < first.len() ==> first[i] == params[i]);
        assert(brace_free(params[params.len() - 1].0) && params[params.len() - 1].0 != other);
        law_text_around_other_placeholder(front, other, back, first);
        lemma_replaced_around_other(
            substituted(front, first),
            other,
            substituted(back, first),
            last.0,
            last.1,
        );
    }
}

/// Parameters whose placeholders stand nowhere in a template leave it as it is.
pub proof fn law_absent_parameters_change_nothing(template: Seq<char>, params: Pairs)
    requires
        forall|i: int| 0 <= i < params.len() ==> free_of(template, placeholder(#[trigger] params[i].0)),
    ensures
        substituted(template, params) == template,
    decreases params.len(),
{
    if params.len() > 0 {
        let first = params.drop_last();
        assert(forall|i: int| 0 <= i < first.len() ==> first[i] == params[i]);
        law_absent_parameters_change_nothing(template, first);
        assert(free_of(template, placeholder(params[params.len() - 1].0)));
        lemma_replaced_without_occurrence(template, placeholder(params.last().0), params.last().1);
    }
}

/// Of a map of several parameters only those count whose placeholders are
/// there. Where the placeholders of all parameters but the one at position
/// `at` stand neither in the template nor in what that one parameter makes
/// of it, the map makes of the template what that one parameter makes of it:
/// its value stands in place of every occurrence of its placeholder, and
/// everything else is as it was.
pub proof fn law_one_parameter_of_many(template: Seq<char>, params: Pairs, at: int)
    requires
        0 <= at < params.len(),
        forall|i: int|
            0 <= i < params.len() && i != at ==> free_of(
                template,
                placeholder(#[trigger] params[i].0),
            ) && free_of(
                replaced(template, placeholder(params[at].0), params[at].1),
                placeholder(params[i].0),
            ),
    ensures
        substituted(template, params) == replaced(
            template,
            placeholder(params[at].0),
            params[at].1,
        ),
    decreases params.len(),
{
    let first = params.drop_last();
    let last = params.last();
    let made = replaced(template, placeholder(params[at].0), params[at].1);
    assert(forall|i: int| 0 <= i < first.len() ==> first[i] == params[i]);
    if at == params.len() - 1 {
        law_absent_parameters_change_nothing(template, first);
    } else {
        assert(first[at] == params[at]);
        law_one_parameter_of_many(template, first, at);
        assert(free_of(made, placeholder(params[params.len() - 1].0)));
        lemma_replaced_without_occurrence(made, placeholder(last.0), last.1);
    }
}

/// The first `n` steps of a run only depend on the first `n` interceptors.
pub proof fn lemma_ran_depends_on_prefix<R, I: Interceptor<R>>(
    chain: Seq<I>,
    other: Seq<I>,
    n: int,
    before: R,
    state: R,
)
    requires
        0 <= n <= chain.len(),
        n <= other.len(),
        forall|j: int| 0 <= j < n ==> other[j] == chain[j],
        ran(chain, n, before, state),
    ensures
        ran(other, n, before, state),
    decreases n,
{
    if n > 0 {
        let mid = choose|mid: R|
            ran(chain, n - 1, before, mid) && #[trigger] intercepts(chain[n - 1], mid, Ok(state));
        lemma_ran_depends_on_prefix(chain, other, n - 1, before, mid);
        assert(ran(other, n - 1, before, mid) && intercepts(other[n - 1], mid, Ok(state)));
    }
}

/// In a run of `n` steps every one of the first `n` interceptors came back without failing.
pub proof fn lemma_ran_passes_every_step<R, I: Interceptor<R>>(
    chain: Seq<I>,
    n: int,
    before: R,
    state: R,
    k: int,
)
    requires
        0 <= k < n,
        ran(chain, n, before, state),
    ensures
        exists|given: R, made: R| #[trigger] intercepts(chain[k], given, Ok(made)),
    decreases n,
{
    let mid = choose|mid: R|
        ran(chain, n - 1, before, mid) && #[trigger] intercepts(chain[n - 1], mid, Ok(state));
    if k == n - 1 {
        assert(intercepts(chain[k], mid, Ok(state)));
    } else {
        lemma_ran_passes_every_step(chain, n - 1, before, mid, k);
    }
}

/// An interceptor at the front of a chain runs first: a run of the whole chain
/// is a step of the first interceptor on the request as it came in, followed
/// by a run of the rest on what that step made.
pub proof fn law_front_runs_first<R, I: Interceptor<R>>(
    first: I,
    rest: Seq<I>,
    k: int,
    before: R,
    after: R,
)
    requires
        0 <= k <= rest.len(),
    ensures
        ran(seq![first] + rest, k + 1, before, after) <==> exists|mid: R| #[trigger]
            intercepts(first, before, Ok(mid)) && ran(rest, k, mid, after),
    decreases k,
{
    let chain = seq![first] + rest;
    assert(chain[0] == first);
    if k == 0 {
        if ran(chain, 1, before, after) {
            let m = choose|m: R|
                ran(chain, 0, before, m) && #[trigger] intercepts(chain[0], m, Ok(after));
            assert(intercepts(first, before, Ok(after)) && ran(rest, 0, after, after));
        }
        if exists|mid: R| #[trigger] intercepts(first, before, Ok(mid)) && ran(rest, 0, mid, after) {
            let mid = choose|mid: R| #[trigger]
                intercepts(first, before, Ok(mid)) && ran(rest, 0, mid, after);
            lemma_ran_step(chain, 1, before, before, after);
        }
    } else {
        assert(chain[k] == rest[k - 1]);
        if ran(chain, k + 1, before, after) {
            let m = choose|m: R|
                ran(chain, k, before, m) && #[trigger] intercepts(chain[k], m, Ok(after));
            law_front_runs_first(first, rest, k - 1, before, m);
            let mid = choose|mid: R| #[trigger]
                intercepts(first, before, Ok(mid)) && ran(rest, k - 1, mid, m);
            lemma_ran_step(rest, k, mid, m, after);
            assert(intercepts(first, before, Ok(mid)) && ran(rest, k, mid, after));
        }
        if exists|mid: R| #[trigger] intercepts(first, before, Ok(mid)) && ran(rest, k, mid, after) {
            let mid = choose|mid: R| #[trigger]
                intercepts(first, before, Ok(mid)) && ran(rest, k, mid, after);
            let m = choose|m: R|
                ran(rest, k - 1, mid, m) && #[trigger] intercepts(rest[k - 1], m, Ok(after));
            law_front_runs_first(first, rest, k - 1, before, m);
            assert(intercepts(first, before, Ok(mid)) && ran(rest, k - 1, mid, m));
            lemma_ran_step(chain, k + 1, before, m, after);
        }
    }
}

/// Interceptors run in the order of the chain, and the chain is kept in the
/// order that adding gives it: with `a` added first, `b` added second and `c`
/// added at the front, the chain is `c`, `a`, `b`, and a run of it is a step
/// of `c`, then a step of `a` on what `c` made, then a step of `b` on what `a` made.
pub proof fn law_front_then_order_of_adding<R, I: Interceptor<R>>(
    a: I,
    b: I,
    c: I,
    before: R,
    after: R,
)
    ensures
        seq![c] + Seq::<I>::empty().push(a).push(b) == seq![c, a, b],
        ran(seq![c, a, b], 3, before, after) <==> exists|first: R, second: R|
            intercepts(c, before, Ok(first)) && #[trigger] intercepts(a, first, Ok(second))
                && intercepts(b, second, Ok(after)),
{
    let chain = seq![c, a, b];
    assert(seq![c] + Seq::<I>::empty().push(a).push(b) =~= chain);
    if ran(chain, 3, before, after) {
        let second = choose|m: R|
            ran(chain, 2, before, m) && #[trigger] intercepts(chain[2], m, Ok(after));
        let first = choose|m: R|
            ran(chain, 1, before, m) && #[trigger] intercepts(chain[1], m, Ok(second));
        let start = choose|m: R|
            ran(chain, 0, before, m) && #[trigger] intercepts(chain[0], m, Ok(first));
        assert(intercepts(c, before, Ok(first)) && intercepts(a, first, Ok(second)) && intercepts(
            b,
            second,
            Ok(after),
        ));
    }
    if exists|first: R, second: R|
        intercepts(c, before, Ok(first)) && #[trigger] intercepts(a, first, Ok(second))
            && intercepts(b, second, Ok(after)) {
        let (first, second) = choose|first: R, second: R|
            intercepts(c, before, Ok(first)) && #[trigger] intercepts(a, first, Ok(second))
                && intercepts(b, second, Ok(after));
        lemma_ran_step(chain, 1, before, before, first);
        lemma_ran_step(chain, 2, before, first, second);
        lemma_ran_step(chain, 3, before, second, after);
    }
}

/// The chain fails fast. Where the interceptor at position `k` fails on
/// whatever it is given, and those in front of it never fail, every run of the
/// chain ends in an error of that interceptor: the run stops at `k`, no
/// interceptor behind `k` has any part in it, and replacing what stands
/// behind `k` changes nothing.
pub proof fn law_chain_fails_fast<R, I: Interceptor<R>>(
    chain: Seq<I>,
    other: Seq<I>,
    k: int,
    before: R,
    outcome: Result<R, InterceptorError>,
)
    requires
        0 <= k < chain.len(),
        forall|given: R, made: R| !#[trigger] intercepts(chain[k], given, Ok(made)),
        forall|j: int, given: R, error: InterceptorError|
            0 <= j < k ==> !#[trigger] intercepts(chain[j], given, Err(error)),
        chain_outcome(chain, before, outcome),
        k < other.len(),
        forall|j: int| 0 <= j <= k ==> other[j] == chain[j],
    ensures
        outcome is Err,
        stopped(chain, k, before, outcome->Err_0),
        chain_outcome(other, before, outcome),
{
    match outcome {
        Ok(after) => {
            lemma_ran_passes_every_step(chain, chain.len() as int, before, after, k);
        },
        Err(error) => {
            let j = choose|j: int| #[trigger] stopped(chain, j, before, error);
            let mid = choose|mid: R|
                ran(chain, j, before, mid) && #[trigger] intercepts(chain[j], mid, Err(error));
            if j > k {
                lemma_ran_passes_every_step(chain, j, before, mid, k);
            }
            assert(j == k);
            lemma_ran_depends_on_prefix(chain, other, k, before, mid);
            assert(ran(other, k, before, mid) && intercepts(other[k], mid, Err(error)));
            assert(stopped(other, k, before, error));
        },
    }
}

/// Removing by identifier takes exactly the interceptor with that identifier
/// out of the chain. Where every interceptor of the chain has one identifier,
/// no two of them the same, and the interceptor at position `m` has the
/// identifier that is removed, the chain afterwards is the chain before
/// without position `m`: the others are all there, in the order they had, and
/// none of them has that identifier.
pub proof fn law_removal_keeps_the_others<R, I: Interceptor<R>>(
    before: Seq<I>,
    ids: Seq<Seq<char>>,
    m: int,
    after: Seq<I>,
)
    requires
        ids.len() == before.len(),
        forall|k: int, id: Seq<char>|
            0 <= k < before.len() && #[trigger] has_id::<R, I>(before[k], id) ==> id == ids[k],
        forall|i: int, j: int| 0 <= i < j < ids.len() ==> ids[i] != ids[j],
        0 <= m < before.len(),
        deleted::<R, I>(before, ids[m], after),
    ensures
        after == before.remove(m),
        forall|j: int| 0 <= j < after.len() ==> !has_id::<R, I>(#[trigger] after[j], ids[m]),
{
    let id = ids[m];
    if forall|j: int| 0 <= j < before.len() ==> has_other_id::<R, I>(#[trigger] before[j], id) {
        assert(has_other_id::<R, I>(before[m], id));
        let text = choose|text: String|
            text@ != id && #[trigger] call_ensures(I::get_id, (&before[m],), text);
        assert(has_id::<R, I>(before[m], text@));
    }
    let k = choose|k: int|
        0 <= k < before.len() && #[trigger] has_id::<R, I>(before[k], id) && (forall|j: int|
            0 <= j < k ==> has_other_id::<R, I>(#[trigger] before[j], id)) && after
            == before.remove(k);
    assert(k == m);
    assert forall|j: int| 0 <= j < after.len() implies !has_id::<R, I>(
        #[trigger] after[j],
        id,
    ) by {
        if j < m {
            assert(after[j] == before[j]);
        } else {
            assert(after[j] == before[j + 1]);
        }
    }
}

} // verus!
