use vstd::prelude::*;

use crate::exchange::{after_response, assistant_turn};
use crate::session::{after_input, is_exit, user_turn};
use crate::turn::TurnModel;

verus! {

/// The history after a run of exchanges: the user enters `inputs[k]` (already
/// trimmed) and the provider answers with the choices `replies[k]`, for each
/// `k` in order.
pub open spec fn after_exchanges(
    h: Seq<TurnModel>,
    inputs: Seq<Seq<char>>,
    replies: Seq<Seq<Seq<char>>>,
) -> Seq<TurnModel>
    recommends
        inputs.len() == replies.len(),
    decreases inputs.len(),
{
    if inputs.len() == 0 || replies.len() == 0 {
        h
    } else {
        after_exchanges(
            after_response(after_input(h, inputs[0]), replies[0]),
            inputs.drop_first(),
            replies.drop_first(),
        )
    }
}

/// Every exchange that succeeds, on an input that is not the exit word, adds
/// exactly two turns to the history: first the user's input, then the last
/// choice of the answer as the assistant's turn.
pub proof fn lemma_each_exchange_adds_two_turns(
    h: Seq<TurnModel>,
    inputs: Seq<Seq<char>>,
    replies: Seq<Seq<Seq<char>>>,
)
    requires
        inputs.len() == replies.len(),
        forall|k: int| 0 <= k < inputs.len() ==> !is_exit(#[trigger] inputs[k]),
        forall|k: int| 0 <= k < replies.len() ==> (#[trigger] replies[k]).len() > 0,
    ensures
        after_exchanges(h, inputs, replies).len() == h.len() + 2 * inputs.len(),
        after_exchanges(h, inputs, replies).subrange(0, h.len() as int) == h,
        forall|k: int|
            0 <= k < inputs.len() ==> {
                &&& after_exchanges(h, inputs, replies)[h.len() + 2 * k] == user_turn(
                    #[trigger] inputs[k],
                )
                &&& after_exchanges(h, inputs, replies)[h.len() + 2 * k + 1] == assistant_turn(
                    replies[k].last(),
                )
            },
    decreases inputs.len(),
{
    if inputs.len() > 0 {
        let h1 = after_response(after_input(h, inputs[0]), replies[0]);
        assert(!is_exit(inputs[0]));
        assert(replies[0].len() > 0);
        assert(h1 == h.push(user_turn(inputs[0])).push(assistant_turn(replies[0].last())));
        let rest_in = inputs.drop_first();
        let rest_re = replies.drop_first();
        assert forall|k: int| 0 <= k < rest_in.len() implies !is_exit(#[trigger] rest_in[k]) by {
            assert(rest_in[k] == inputs[k + 1]);
        }
        assert forall|k: int| 0 <= k < rest_re.len() implies (#[trigger] rest_re[k]).len() > 0 by {
            assert(rest_re[k] == replies[k + 1]);
        }
        lemma_each_exchange_adds_two_turns(h1, rest_in, rest_re);
        let r = after_exchanges(h, inputs, replies);
        assert(r == after_exchanges(h1, rest_in, rest_re));
        assert(r.subrange(0, h1.len() as int) == h1);
        assert(r.subrange(0, h.len() as int) =~= h1.subrange(0, h.len() as int));
        assert(h1.subrange(0, h.len() as int) =~= h);
        assert forall|k: int| 0 <= k < inputs.len() implies {
            &&& r[h.len() + 2 * k] == user_turn(#[trigger] inputs[k])
            &&& r[h.len() + 2 * k + 1] == assistant_turn(replies[k].last())
        } by {
            if k == 0 {
                assert(r[h.len() as int] == h1[h.len() as int]);
                assert(r[h.len() as int + 1] == h1[h.len() as int + 1]);
            } else {
                assert(rest_in[k - 1] == inputs[k]);
                assert(rest_re[k - 1] == replies[k]);
                assert(h1.len() + 2 * (k - 1) == h.len() + 2 * k);
            }
        }
    }
}

/// Nothing is ever removed or edited: whatever the inputs and answers, the
/// history before a run of exchanges is a prefix of the history after it.
pub proof fn lemma_history_is_kept(
    h: Seq<TurnModel>,
    inputs: Seq<Seq<char>>,
    replies: Seq<Seq<Seq<char>>>,
)
    ensures
        after_exchanges(h, inputs, replies).len() >= h.len(),
        after_exchanges(h, inputs, replies).subrange(0, h.len() as int) == h,
    decreases inputs.len(),
{
    if inputs.len() > 0 && replies.len() > 0 {
        let h0 = after_input(h, inputs[0]);
        let h1 = after_response(h0, replies[0]);
        assert(h0.subrange(0, h.len() as int) =~= h);
        assert(h1.subrange(0, h.len() as int) =~= h);
        lemma_history_is_kept(h1, inputs.drop_first(), replies.drop_first());
        let r = after_exchanges(h, inputs, replies);
        assert(r.subrange(0, h.len() as int) =~= r.subrange(0, h1.len() as int).subrange(
            0,
            h.len() as int,
        ));
    }
}

/// The history that the next request carries, after any run of earlier
/// exchanges and a new input that is not the exit word, is every turn made
/// before that run, then every turn of the run, then the new input as the
/// user's turn, in that order: the whole history is sent again, never cut.
pub proof fn lemma_request_carries_full_history(
    h: Seq<TurnModel>,
    inputs: Seq<Seq<char>>,
    replies: Seq<Seq<Seq<char>>>,
    input: Seq<char>,
)
    requires
        !is_exit(input),
    ensures
        ({
            let before = after_exchanges(h, inputs, replies);
            let sent = after_input(before, input);
            &&& sent == before.push(user_turn(input))
            &&& sent.len() == before.len() + 1
            &&& sent.subrange(0, h.len() as int) == h
        }),
{
    lemma_history_is_kept(h, inputs, replies);
    let before = after_exchanges(h, inputs, replies);
    let sent = after_input(before, input);
    assert(sent.subrange(0, h.len() as int) =~= before.subrange(0, h.len() as int));
}

} // verus!
