//! What the inference backend is given for a turn: the fixed system
//! instruction, the model name, and the replayed history.  The backend
//! call itself is a collaborator; here stand the decisions around it.

use vstd::prelude::*;

verus! {

use crate::models::Message;
use crate::models::MessageRole;
use crate::store::without_id;

/// The model asked for when none is configured.
pub fn default_model() -> (r: &'static str)
    ensures
        r@ == "llama3.2"@,
{
    "llama3.2"
}

/// The single fixed system instruction supplied once per inference call.
/// System-role messages never travel in the replayed history.
pub fn system_preamble() -> (r: &'static str)
    ensures
        r@ == "You are a helpful AI assistant running locally via Ollama. Be concise, accurate, and friendly. If you don't know something, say so."@,
{
    "You are a helpful AI assistant running locally via Ollama. Be concise, accurate, and friendly. If you don't know something, say so."
}

/// The messages that are replayed to the model: system-role records are
/// left out, everything else keeps its order.
pub open spec fn non_system(ms: Seq<Message>) -> Seq<Message>
    decreases ms.len(),
{
    if ms.len() == 0 {
        Seq::<Message>::empty()
    } else if ms.last().role is System {
        non_system(ms.drop_last())
    } else {
        non_system(ms.drop_last()).push(ms.last())
    }
}

/// Every replayed message comes from the given history and is not
/// system-role.
pub proof fn lemma_non_system_sound(ms: Seq<Message>)
    ensures
        forall|k: int|
            0 <= k < non_system(ms).len() ==> ms.contains(#[trigger] non_system(ms)[k])
                && !(non_system(ms)[k].role is System),
    decreases ms.len(),
{
    if ms.len() > 0 {
        lemma_non_system_sound(ms.drop_last());
        assert forall|k: int| 0 <= k < non_system(ms).len() implies ms.contains(
            #[trigger] non_system(ms)[k],
        ) && !(non_system(ms)[k].role is System) by {
            if k < non_system(ms.drop_last()).len() {
                assert(ms.drop_last().contains(non_system(ms.drop_last())[k]));
                let i = choose|i: int|
                    0 <= i < ms.drop_last().len() && ms.drop_last()[i] == non_system(
                        ms.drop_last(),
                    )[k];
                assert(ms[i] == non_system(ms)[k]);
            } else {
                assert(ms[ms.len() - 1] == non_system(ms)[k]);
            }
        }
    }
}

/// No message kept by `without_id` carries the filtered identity.
pub proof fn lemma_without_id_no_id(ms: Seq<Message>, id: Seq<char>)
    ensures
        forall|k: int|
            0 <= k < without_id(ms, id).len() ==> (#[trigger] without_id(ms, id)[k]).id@ != id,
    decreases ms.len(),
{
    if ms.len() > 0 {
        lemma_without_id_no_id(ms.drop_last(), id);
    }
}

/// History replayed to the model never includes the message just saved
/// for the current turn, nor any system-role message, whatever order the
/// store returned its records in.
pub proof fn lemma_replay_excludes(ms: Seq<Message>, saved_id: Seq<char>)
    ensures
        forall|k: int|
            0 <= k < non_system(without_id(ms, saved_id)).len() ==> (#[trigger] non_system(
                without_id(ms, saved_id),
            )[k]).id@ != saved_id && !(non_system(without_id(ms, saved_id))[k].role is System),
{
    let w = without_id(ms, saved_id);
    lemma_without_id_no_id(ms, saved_id);
    lemma_non_system_sound(w);
    assert forall|k: int| 0 <= k < non_system(w).len() implies (#[trigger] non_system(w)[k]).id@
        != saved_id && !(non_system(w)[k].role is System) by {
        assert(w.contains(non_system(w)[k]));
        let i = choose|i: int| 0 <= i < w.len() && w[i] == non_system(w)[k];
        assert(w[i].id@ != saved_id);
    }
}

/// The history handed to the model: the prepared history with system
/// records left out, order kept.
pub fn history_for_inference(history: &Vec<Message>) -> (r: Vec<Message>)
    ensures
        r@ == non_system(history@),
{
    let n = history.len();
    let mut out: Vec<Message> = Vec::new();
    let mut i: usize = 0;
    while i < n
        invariant
            n == history@.len(),
            0 <= i <= n,
            out@ == non_system(history@.subrange(0, i as int)),
        decreases n - i,
    {
        proof {
            assert(history@.subrange(0, i + 1).drop_last() =~= history@.subrange(0, i as int));
            assert(history@.subrange(0, i + 1).last() == history@[i as int]);
        }
        match history[i].role {
            MessageRole::System => {},
            _ => {
                out.push(history[i].clone());
            },
        }
        i = i + 1;
    }
    proof {
        assert(history@.subrange(0, n as int) =~= history@);
    }
    out
}

} // verus!
