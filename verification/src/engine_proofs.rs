//! What holds of the engine's requests and replies, whatever prompts are
//! pending.

use vstd::prelude::*;
use crate::engine::{
    merge_target, permissions_failure, prompt_for, prompt_sound, reply_outcome, request_outcome,
    selected, store_after_reply, store_after_request, HandleView, RequestView, SelectorView,
};
use crate::error::{ErrorClass, PromptError};
use crate::glob::{glob_matches, lemma_matches_itself};
use crate::messages::{HomePromptView, MetaDataView, PromptReplyView};
use crate::permissions::{distinct, lemma_distinct_same_tokens, subset_of};
use crate::resolver::{candidate_options, offers, pattern_options};
use crate::resolver_proofs::{lemma_first_is_kept, lemma_offered_patterns_match};
use crate::store::{
    answers, covers, first_answering, holds, ids_distinct, lemma_position,
    lemma_remove_keeps_distinct, lookup, position_of, same_requester,
};

verus! {

/// Where the first answering prompt stands: behind every prompt that does
/// not answer, and nowhere if none answers.
pub proof fn lemma_first_answering(
    store: Seq<HomePromptView>,
    requester: MetaDataView,
    path: Seq<char>,
    permissions: Seq<Seq<char>>,
    from: int,
)
    requires
        0 <= from <= store.len(),
    ensures
        from <= first_answering(store, requester, path, permissions, from) <= store.len(),
        first_answering(store, requester, path, permissions, from) < store.len() ==> answers(
            store[first_answering(store, requester, path, permissions, from)],
            requester,
            path,
            permissions,
        ),
        forall|k: int|
            from <= k < first_answering(store, requester, path, permissions, from) ==> !answers(
                #[trigger] store[k],
                requester,
                path,
                permissions,
            ),
    decreases store.len() - from,
{
    if from < store.len() && !answers(store[from], requester, path, permissions) {
        lemma_first_answering(store, requester, path, permissions, from + 1);
    }
}

/// A store takes in a prompt with a new identifier without two prompts
/// coming to share one.
pub proof fn lemma_push_keeps_distinct(store: Seq<HomePromptView>, prompt: HomePromptView)
    requires
        ids_distinct(store),
        !holds(store, prompt.meta_data.prompt_id),
    ensures
        ids_distinct(store.push(prompt)),
{
    let after = store.push(prompt);
    assert forall|i: int, j: int| 0 <= i < j < after.len() implies (
    #[trigger] after[i]).meta_data.prompt_id != (#[trigger] after[j]).meta_data.prompt_id by {
        if j < store.len() {
            assert(store[i].meta_data.prompt_id != store[j].meta_data.prompt_id);
        } else {
            assert(store[i].meta_data.prompt_id != prompt.meta_data.prompt_id);
        }
    }
}

/// A request changes the pending prompts by at most one: it adds its own
/// prompt behind the others, or leaves all as they were. No two prompts come
/// to share an identifier, and the prompt that the request is told of is
/// pending afterwards.
pub proof fn lemma_request_adds_at_most_one(store: Seq<HomePromptView>, request: RequestView)
    requires
        ids_distinct(store),
    ensures
        ids_distinct(store_after_request(store, request)),
        store_after_request(store, request) == store || store_after_request(store, request)
            == store.push(prompt_for(request)),
        request_outcome(store, request) is Err ==> store_after_request(store, request) == store,
        request_outcome(store, request) is Ok ==> holds(
            store_after_request(store, request),
            request_outcome(store, request)->Ok_0.prompt_id,
        ),
{
    let after = store_after_request(store, request);
    if request_outcome(store, request) is Ok {
        let handle = request_outcome(store, request)->Ok_0;
        if handle.merged {
            let at = first_answering(
                store,
                request.metadata,
                request.requested_path,
                request.requested_permissions,
                0,
            );
            lemma_first_answering(
                store,
                request.metadata,
                request.requested_path,
                request.requested_permissions,
                0,
            );
            lemma_position(store, at);
        } else {
            lemma_push_keeps_distinct(store, prompt_for(request));
            lemma_position(after, store.len() as int);
        }
    }
}

/// A request joins a prompt only if the prompt answers it: the prompt is the
/// same requester's and is pending, one of its patterns matches the
/// requested path, and it asks for every permission that the request asks
/// for.
pub proof fn lemma_joined_prompt_answers(store: Seq<HomePromptView>, request: RequestView)
    requires
        ids_distinct(store),
        request_outcome(store, request) is Ok,
        request_outcome(store, request)->Ok_0.merged,
    ensures
        ({
            let id = request_outcome(store, request)->Ok_0.prompt_id;
            &&& holds(store, id)
            &&& answers(
                lookup(store, id)->0,
                request.metadata,
                request.requested_path,
                request.requested_permissions,
            )
        }),
{
    let found = first_answering(
        store,
        request.metadata,
        request.requested_path,
        request.requested_permissions,
        0,
    );
    lemma_first_answering(
        store,
        request.metadata,
        request.requested_path,
        request.requested_permissions,
        0,
    );
    lemma_position(store, found);
}

/// A request that repeats an earlier one gets the earlier one's prompt.
///
/// The second request comes from the same requester, one of the patterns of
/// the first request's prompt matches its path, it asks for permissions that
/// the first asked for, and its own permissions are sound. Then it joins the
/// first request's prompt, provided that no older prompt answers it: the
/// oldest prompt that answers a request is the one it joins.
pub proof fn lemma_repeated_request_merges(
    store: Seq<HomePromptView>,
    first: RequestView,
    second: RequestView,
)
    requires
        ids_distinct(store),
        request_outcome(store, first) is Ok,
        same_requester(first.metadata, second.metadata),
        permissions_failure(second) is None,
        subset_of(second.requested_permissions, first.requested_permissions),
        ({
            let after = store_after_request(store, first);
            let id = request_outcome(store, first)->Ok_0.prompt_id;
            &&& covers(lookup(after, id)->0.pattern_options, second.requested_path)
            &&& forall|k: int|
                0 <= k < position_of(after, id) ==> !answers(
                    #[trigger] after[k],
                    second.metadata,
                    second.requested_path,
                    second.requested_permissions,
                )
        }),
    ensures
        ({
            let after = store_after_request(store, first);
            let id = request_outcome(store, first)->Ok_0.prompt_id;
            &&& request_outcome(after, second) == Ok::<HandleView, PromptError>(
                HandleView { prompt_id: id, merged: true },
            )
            &&& store_after_request(after, second) == after
        }),
{
    let after = store_after_request(store, first);
    let handle = request_outcome(store, first)->Ok_0;
    let id = handle.prompt_id;
    lemma_request_adds_at_most_one(store, first);
    let at = position_of(after, id);
    let prompt = after[at];
    assert(same_requester(prompt.meta_data, first.metadata)
        && subset_of(first.requested_permissions, prompt.requested_permissions)) by {
        if handle.merged {
            let found = first_answering(
                store,
                first.metadata,
                first.requested_path,
                first.requested_permissions,
                0,
            );
            lemma_first_answering(
                store,
                first.metadata,
                first.requested_path,
                first.requested_permissions,
                0,
            );
            lemma_position(store, found);
        } else {
            lemma_position(after, store.len() as int);
            assert forall|i: int| 0 <= i < first.requested_permissions.len() implies distinct(
                first.requested_permissions,
            ).contains(#[trigger] first.requested_permissions[i]) by {
                lemma_distinct_same_tokens(
                    first.requested_permissions,
                    first.requested_permissions[i],
                );
            }
        }
    }
    assert(subset_of(second.requested_permissions, prompt.requested_permissions)) by {
        assert forall|i: int| 0 <= i < second.requested_permissions.len() implies
            prompt.requested_permissions.contains(#[trigger] second.requested_permissions[i]) by {
            let token = second.requested_permissions[i];
            let j = choose|j: int|
                0 <= j < first.requested_permissions.len() && first.requested_permissions[j]
                    == token;
        }
    }
    assert(answers(
        prompt,
        second.metadata,
        second.requested_path,
        second.requested_permissions,
    ));
    lemma_first_answering(
        after,
        second.metadata,
        second.requested_path,
        second.requested_permissions,
        0,
    );
}

/// A request for the very path of an earlier request finds that path among
/// the patterns of the earlier request's prompt.
pub proof fn lemma_same_path_is_covered(store: Seq<HomePromptView>, first: RequestView)
    requires
        ids_distinct(store),
        request_outcome(store, first) is Ok,
    ensures
        covers(
            lookup(
                store_after_request(store, first),
                request_outcome(store, first)->Ok_0.prompt_id,
            )->0.pattern_options,
            first.requested_path,
        ),
{
    let after = store_after_request(store, first);
    let handle = request_outcome(store, first)->Ok_0;
    lemma_request_adds_at_most_one(store, first);
    if handle.merged {
        let found = first_answering(
            store,
            first.metadata,
            first.requested_path,
            first.requested_permissions,
            0,
        );
        lemma_first_answering(
            store,
            first.metadata,
            first.requested_path,
            first.requested_permissions,
            0,
        );
        lemma_position(store, found);
    } else {
        lemma_position(after, store.len() as int);
        let all = candidate_options(first.requested_path, first.home_dir);
        let offered = pattern_options(first.requested_path, first.home_dir);
        lemma_first_is_kept(all);
        assert(all[0].path_pattern == first.requested_path);
        lemma_matches_itself(first.requested_path);
        assert(offered[0].path_pattern == first.requested_path);
    }
}

/// A reply that names no pending prompt is answered "not found", and
/// nothing changes.
pub proof fn lemma_reply_to_unknown_prompt(store: Seq<HomePromptView>, reply: PromptReplyView)
    requires
        !holds(store, reply.prompt_id),
    ensures
        reply_outcome(store, reply) == Err::<crate::rule::DecisionView, PromptError>(
            PromptError::PromptNotFound,
        ),
        PromptError::PromptNotFound.class_of() == ErrorClass::NotFound,
        store_after_reply(store, reply) == store,
{
}

/// A reply that is turned down for its content leaves every prompt pending
/// and as it was, and the failure is one of input validation.
pub proof fn lemma_rejected_reply_changes_nothing(
    store: Seq<HomePromptView>,
    reply: PromptReplyView,
)
    requires
        reply_outcome(store, reply) is Err,
    ensures
        store_after_reply(store, reply) == store,
        holds(store, reply.prompt_id) ==> reply_outcome(store, reply)->Err_0.class_of()
            == ErrorClass::InputValidation,
        holds(store, reply.prompt_id) && reply.answer is Some && !offers(
            lookup(store, reply.prompt_id)->0.pattern_options,
            reply.answer->0.path_pattern,
        ) ==> reply_outcome(store, reply)->Err_0 == PromptError::InvalidPatternChoice,
{
}

/// An accepted reply ends exactly one prompt, its own: afterwards the prompt
/// is not found, neither by a lookup nor by a second reply, and the other
/// prompts are pending in their order.
pub proof fn lemma_answered_prompt_is_gone(store: Seq<HomePromptView>, reply: PromptReplyView)
    requires
        ids_distinct(store),
        reply_outcome(store, reply) is Ok,
    ensures
        ({
            let after = store_after_reply(store, reply);
            &&& after == store.remove(position_of(store, reply.prompt_id))
            &&& after.len() == store.len() - 1
            &&& ids_distinct(after)
            &&& selected(after, SelectorView::Id(reply.prompt_id)) is None
            &&& reply_outcome(after, reply) == Err::<crate::rule::DecisionView, PromptError>(
                PromptError::PromptNotFound,
            )
        }),
{
    let at = position_of(store, reply.prompt_id);
    lemma_remove_keeps_distinct(store, at);
}

/// A sound prompt offers only patterns that match its path, and the option
/// that it preselects is among them: the path itself.
pub proof fn lemma_sound_prompt_offers_matching_patterns(prompt: HomePromptView)
    requires
        prompt_sound(prompt),
    ensures
        forall|i: int|
            0 <= i < prompt.pattern_options.len() ==> glob_matches(
                #[trigger] prompt.pattern_options[i].path_pattern,
                prompt.requested_path,
            ),
        0 <= prompt.initial_pattern_option < prompt.pattern_options.len(),
        prompt.pattern_options[prompt.initial_pattern_option].path_pattern
            == prompt.requested_path,
{
    lemma_offered_patterns_match(prompt.requested_path, prompt.home_dir);
    lemma_first_is_kept(candidate_options(prompt.requested_path, prompt.home_dir));
}

} // verus!
