//! The prompt engine: it takes in access requests, keeps the prompts that
//! wait for an answer, and turns a reply into a decision.
//!
//! A request either joins a pending prompt whose answer will cover it, or
//! becomes a prompt of its own. A reply that is accepted ends its prompt.

use vstd::prelude::*;
use crate::error::PromptError;
use crate::messages::{
    HomePrompt, HomePromptView, MetaData, MetaDataView, PromptReply, PromptReplyView,
};
use crate::permissions::{
    distinct, is_subset, lemma_distinct_no_duplicates, lemma_distinct_same_tokens, subset_of,
    texts, without_repeats,
};
use crate::resolver::{lexically_within, offers, offers_pattern, pattern_options, resolve};
use crate::rule::{decide, decided, Decision, DecisionView};
use crate::store::{
    holds, ids_distinct, lookup, mergeable, position_of, without, PromptStore,
};

verus! {

/// An access request as a mathematical value.
pub struct RequestView {
    pub metadata: MetaDataView,
    pub requested_path: Seq<char>,
    pub requested_permissions: Seq<Seq<char>>,
    pub available_permissions: Seq<Seq<char>>,
    pub initial_permissions: Seq<Seq<char>>,
    pub home_dir: Seq<char>,
}

/// The prompt that stands for a request.
#[derive(Clone, Debug, PartialEq, Eq)]
pub struct PromptHandle {
    /// The identifier of the prompt.
    pub prompt_id: String,
    /// Whether the prompt was pending already.
    pub merged: bool,
}

/// A prompt handle as a mathematical value.
pub struct HandleView {
    pub prompt_id: Seq<char>,
    pub merged: bool,
}

impl View for PromptHandle {
    type V = HandleView;

    open spec fn view(&self) -> HandleView {
        HandleView { prompt_id: self.prompt_id@, merged: self.merged }
    }
}

/// Which pending prompt is meant.
#[derive(Clone, Debug, PartialEq, Eq)]
pub enum PromptSelector {
    /// The prompt with the identifier.
    Id(String),
    /// The prompt that came in last.
    Latest,
}

/// A selector as a mathematical value.
pub enum SelectorView {
    Id(Seq<char>),
    Latest,
}

impl View for PromptSelector {
    type V = SelectorView;

    open spec fn view(&self) -> SelectorView {
        match self {
            PromptSelector::Id(id) => SelectorView::Id(id@),
            PromptSelector::Latest => SelectorView::Latest,
        }
    }
}

/// What is wrong with the permissions of a request, if anything.
pub open spec fn permissions_failure(request: RequestView) -> Option<PromptError> {
    if request.requested_permissions.len() == 0 {
        Some(PromptError::EmptyPermissions)
    } else if !subset_of(request.requested_permissions, request.available_permissions) {
        Some(PromptError::PermissionNotAvailable)
    } else if !subset_of(request.initial_permissions, request.available_permissions) {
        Some(PromptError::InitialPermissionNotAvailable)
    } else {
        None
    }
}

/// The pending prompt that a request joins, if any.
pub open spec fn merge_target(store: Seq<HomePromptView>, request: RequestView) -> Option<
    HomePromptView,
> {
    mergeable(store, request.metadata, request.requested_path, request.requested_permissions)
}

/// The prompt that is made for a request that joins no other.
pub open spec fn prompt_for(request: RequestView) -> HomePromptView {
    HomePromptView {
        meta_data: request.metadata,
        requested_path: request.requested_path,
        home_dir: request.home_dir,
        requested_permissions: distinct(request.requested_permissions),
        available_permissions: distinct(request.available_permissions),
        initial_permissions: distinct(request.initial_permissions),
        pattern_options: pattern_options(request.requested_path, request.home_dir),
        initial_pattern_option: 0,
    }
}

/// What a request comes to, with the given prompts pending.
///
/// The permissions are looked at first. A request with sound permissions
/// joins the oldest pending prompt that answers it. One that no prompt
/// answers must lie under the home directory, and its identifier must be
/// new; it then becomes a prompt.
pub open spec fn request_outcome(store: Seq<HomePromptView>, request: RequestView) -> Result<
    HandleView,
    PromptError,
> {
    if permissions_failure(request) is Some {
        Err(permissions_failure(request)->0)
    } else if merge_target(store, request) is Some {
        Ok(
            HandleView {
                prompt_id: merge_target(store, request)->0.meta_data.prompt_id,
                merged: true,
            },
        )
    } else if !lexically_within(request.requested_path, request.home_dir) {
        Err(PromptError::PathOutsideHome)
    } else if holds(store, request.metadata.prompt_id) {
        Err(PromptError::DuplicatePromptId)
    } else {
        Ok(HandleView { prompt_id: request.metadata.prompt_id, merged: false })
    }
}

/// The pending prompts after a request: one more where the request became
/// a prompt, the same otherwise.
pub open spec fn store_after_request(store: Seq<HomePromptView>, request: RequestView) -> Seq<
    HomePromptView,
> {
    match request_outcome(store, request) {
        Ok(handle) => if handle.merged {
            store
        } else {
            store.push(prompt_for(request))
        },
        Err(_) => store,
    }
}

/// The prompt that a selector picks, if any.
pub open spec fn selected(store: Seq<HomePromptView>, selector: SelectorView) -> Option<
    HomePromptView,
> {
    match selector {
        SelectorView::Id(id) => lookup(store, id),
        SelectorView::Latest => if store.len() > 0 {
            Some(store.last())
        } else {
            None
        },
    }
}

/// Why a reply is turned down, if it is.
///
/// A reply to no pending prompt is not found. A reply to a pending prompt
/// must carry an answer whose pattern is one of the prompt's and whose
/// permissions are some of those that the prompt has available.
pub open spec fn reply_failure(store: Seq<HomePromptView>, reply: PromptReplyView) -> Option<
    PromptError,
> {
    match lookup(store, reply.prompt_id) {
        None => Some(PromptError::PromptNotFound),
        Some(prompt) => match reply.answer {
            None => Some(PromptError::MissingReply),
            Some(answer) => if !offers(prompt.pattern_options, answer.path_pattern) {
                Some(PromptError::InvalidPatternChoice)
            } else if answer.permissions.len() == 0 {
                Some(PromptError::EmptyPermissions)
            } else if !subset_of(answer.permissions, prompt.available_permissions) {
                Some(PromptError::PermissionNotAvailable)
            } else {
                None
            },
        },
    }
}

/// What a reply comes to, with the given prompts pending.
pub open spec fn reply_outcome(store: Seq<HomePromptView>, reply: PromptReplyView) -> Result<
    DecisionView,
    PromptError,
> {
    match reply_failure(store, reply) {
        Some(error) => Err(error),
        None => Ok(
            decided(
                reply.answer->0.path_pattern,
                reply.answer->0.permissions,
                reply.lifespan,
                reply.action,
            ),
        ),
    }
}

/// The pending prompts after a reply: without the answered prompt where the
/// reply was accepted, the same otherwise.
pub open spec fn store_after_reply(store: Seq<HomePromptView>, reply: PromptReplyView) -> Seq<
    HomePromptView,
> {
    if reply_failure(store, reply) is None {
        without(store, reply.prompt_id)
    } else {
        store
    }
}

/// What holds of every prompt that the engine has made: its path lies under
/// its home directory, its permissions are sets with the requested and the
/// preselected ones among the available ones, and its options are those
/// that the resolver derives, the first of them preselected.
pub open spec fn prompt_sound(prompt: HomePromptView) -> bool {
    &&& lexically_within(prompt.requested_path, prompt.home_dir)
    &&& prompt.requested_permissions.len() > 0
    &&& prompt.requested_permissions.no_duplicates()
    &&& prompt.available_permissions.no_duplicates()
    &&& prompt.initial_permissions.no_duplicates()
    &&& subset_of(prompt.requested_permissions, prompt.available_permissions)
    &&& subset_of(prompt.initial_permissions, prompt.available_permissions)
    &&& prompt.pattern_options == pattern_options(prompt.requested_path, prompt.home_dir)
    &&& prompt.initial_pattern_option == 0
}

/// Whether every prompt of the store is sound.
pub open spec fn all_sound(store: Seq<HomePromptView>) -> bool {
    forall|i: int| 0 <= i < store.len() ==> prompt_sound(#[trigger] store[i])
}

/// A list without repeats lies in another such list where the lists they
/// were made from do.
pub proof fn lemma_distinct_subset(inner: Seq<Seq<char>>, outer: Seq<Seq<char>>)
    requires
        subset_of(inner, outer),
    ensures
        subset_of(distinct(inner), distinct(outer)),
{
    assert forall|i: int| 0 <= i < distinct(inner).len() implies distinct(outer).contains(
        #[trigger] distinct(inner)[i],
    ) by {
        let token = distinct(inner)[i];
        lemma_distinct_same_tokens(inner, token);
        lemma_distinct_same_tokens(outer, token);
        let j = choose|j: int| 0 <= j < inner.len() && inner[j] == token;
        assert(outer.contains(inner[j]));
    }
}

/// A list without repeats has an item if the list it was made from has.
pub proof fn lemma_distinct_nonempty(list: Seq<Seq<char>>)
    requires
        list.len() > 0,
    ensures
        distinct(list).len() > 0,
{
    lemma_distinct_same_tokens(list, list[0]);
}

/// The prompt that is made for a request is sound.
pub proof fn lemma_new_prompt_is_sound(store: Seq<HomePromptView>, request: RequestView)
    requires
        request_outcome(store, request) is Ok,
        !request_outcome(store, request)->Ok_0.merged,
    ensures
        prompt_sound(prompt_for(request)),
{
    lemma_distinct_nonempty(request.requested_permissions);
    lemma_distinct_no_duplicates(request.requested_permissions);
    lemma_distinct_no_duplicates(request.available_permissions);
    lemma_distinct_no_duplicates(request.initial_permissions);
    lemma_distinct_subset(request.requested_permissions, request.available_permissions);
    lemma_distinct_subset(request.initial_permissions, request.available_permissions);
}

/// The prompt engine.
pub struct PromptEngine {
    store: PromptStore,
}

impl View for PromptEngine {
    type V = Seq<HomePromptView>;

    /// The pending prompts, oldest first.
    closed spec fn view(&self) -> Seq<HomePromptView> {
        self.store@
    }
}

impl PromptEngine {
    #[verifier::type_invariant]
    spec fn well_formed(&self) -> bool {
        ids_distinct(self.store@) && all_sound(self.store@)
    }

    /// An engine with no prompt pending.
    pub fn new() -> (engine: PromptEngine)
        ensures
            engine@ == Seq::<HomePromptView>::empty(),
    {
        PromptEngine { store: PromptStore::new() }
    }

    /// The pending prompts.
    pub fn store(&self) -> (store: &PromptStore)
        ensures
            store@ == self@,
            ids_distinct(self@),
            all_sound(self@),
    {
        proof {
            use_type_invariant(self);
        }
        &self.store
    }

    /// Takes in an access request and names the prompt that stands for it.
    ///
    /// `metadata` names the requester and carries the identifier that the
    /// prompt gets if one is made. See `request_outcome` for what the
    /// request comes to, and `store_after_request` for the prompts that are
    /// pending afterwards.
    pub fn request(
        &mut self,
        metadata: MetaData,
        requested_path: String,
        requested_permissions: Vec<String>,
        available_permissions: Vec<String>,
        initial_permissions: Vec<String>,
        home_dir: String,
    ) -> (result: Result<PromptHandle, PromptError>)
        ensures
            ({
                let request = RequestView {
                    metadata: metadata@,
                    requested_path: requested_path@,
                    requested_permissions: texts(requested_permissions@),
                    available_permissions: texts(available_permissions@),
                    initial_permissions: texts(initial_permissions@),
                    home_dir: home_dir@,
                };
                &&& match result {
                    Ok(handle) => Ok::<HandleView, PromptError>(handle@),
                    Err(error) => Err(error),
                } == request_outcome(old(self)@, request)
                &&& final(self)@ == store_after_request(old(self)@, request)
            }),
            ids_distinct(final(self)@),
            all_sound(final(self)@),
    {
        let ghost request = RequestView {
            metadata: metadata@,
            requested_path: requested_path@,
            requested_permissions: texts(requested_permissions@),
            available_permissions: texts(available_permissions@),
            initial_permissions: texts(initial_permissions@),
            home_dir: home_dir@,
        };
        let ghost before = self@;
        proof {
            use_type_invariant(&*self);
        }
        if requested_permissions.len() == 0 {
            return Err(PromptError::EmptyPermissions);
        }
        if !is_subset(&requested_permissions, &available_permissions) {
            return Err(PromptError::PermissionNotAvailable);
        }
        if !is_subset(&initial_permissions, &available_permissions) {
            return Err(PromptError::InitialPermissionNotAvailable);
        }
        match self.store.find_mergeable(
            requested_path.as_str(),
            &metadata,
            &requested_permissions,
        ) {
            Some(prompt) => {
                return Ok(
                    PromptHandle { prompt_id: prompt.meta_data.prompt_id.clone(), merged: true },
                );
            },
            None => {},
        }
        let resolution = match resolve(
            requested_path.as_str(),
            home_dir.as_str(),
            &requested_permissions,
            &available_permissions,
        ) {
            Ok(resolution) => resolution,
            Err(error) => {
                return Err(error);
            },
        };
        let prompt_id: String = metadata.prompt_id.clone();
        let prompt = HomePrompt {
            meta_data: metadata,
            requested_path,
            home_dir,
            requested_permissions: without_repeats(&requested_permissions),
            available_permissions: without_repeats(&available_permissions),
            initial_permissions: without_repeats(&initial_permissions),
            pattern_options: resolution.pattern_options,
            initial_pattern_option: resolution.initial_pattern_option,
        };
        // The store is changed outside the engine and put back, so that the
        // engine holds a sound store at every step.
        let mut store: PromptStore = PromptStore::new();
        core::mem::swap(&mut self.store, &mut store);
        let inserted = store.insert(prompt);
        proof {
            if inserted is Ok {
                lemma_new_prompt_is_sound(before, request);
            }
        }
        self.store = store;
        match inserted {
            Ok(()) => Ok(PromptHandle { prompt_id, merged: false }),
            Err(error) => Err(error),
        }
    }

    /// The pending prompt that the selector picks. A prompt that is not
    /// pending, because it was answered or dropped or never made, is not
    /// found; the caller then refreshes what it shows.
    pub fn get_current(&self, selector: &PromptSelector) -> (result: Result<
        &HomePrompt,
        PromptError,
    >)
        ensures
            match result {
                Ok(prompt) => selected(self@, selector@) == Some(prompt@) && prompt_sound(
                    prompt@,
                ),
                Err(error) => error == PromptError::PromptNotFound && selected(self@, selector@)
                    is None,
            },
    {
        proof {
            use_type_invariant(self);
        }
        match selector {
            PromptSelector::Id(id) => {
                self.store.get(id)
            },
            PromptSelector::Latest => match self.store.latest() {
                Some(prompt) => Ok(prompt),
                None => Err(PromptError::PromptNotFound),
            },
        }
    }

    /// Takes in the user's decision on a prompt. An accepted reply ends the
    /// prompt and gives the decision for the mediator; a reply that is
    /// turned down leaves every prompt as it was. See `reply_outcome` and
    /// `store_after_reply`.
    pub fn reply(&mut self, reply: PromptReply) -> (result: Result<Decision, PromptError>)
        ensures
            match result {
                Ok(decision) => Ok::<DecisionView, PromptError>(decision@),
                Err(error) => Err(error),
            } == reply_outcome(old(self)@, reply@),
            final(self)@ == store_after_reply(old(self)@, reply@),
            ids_distinct(final(self)@),
            all_sound(final(self)@),
    {
        let ghost before = self@;
        proof {
            use_type_invariant(&*self);
        }
        let prompt = match self.store.get(&reply.prompt_id) {
            Ok(prompt) => prompt,
            Err(error) => {
                return Err(error);
            },
        };
        let answer = match reply.prompt_reply {
            Some(crate::prompt_reply::PromptReply::HomePromptReply(answer)) => answer,
            None => {
                return Err(PromptError::MissingReply);
            },
        };
        if !offers_pattern(&prompt.pattern_options, &answer.path_pattern) {
            return Err(PromptError::InvalidPatternChoice);
        }
        if answer.permissions.len() == 0 {
            return Err(PromptError::EmptyPermissions);
        }
        if !is_subset(&answer.permissions, &prompt.available_permissions) {
            return Err(PromptError::PermissionNotAvailable);
        }
        let mut store: PromptStore = PromptStore::new();
        core::mem::swap(&mut self.store, &mut store);
        let _ = store.remove(&reply.prompt_id);
        proof {
            lemma_removal_keeps_sound(before, reply.prompt_id@);
        }
        self.store = store;
        Ok(decide(answer.path_pattern, answer.permissions, reply.lifespan, reply.action))
    }

    /// Drops the pending prompt with the identifier, unanswered: for a
    /// request that was withdrawn or has waited too long.
    pub fn remove(&mut self, id: &String) -> (result: Result<HomePrompt, PromptError>)
        ensures
            final(self)@ == without(old(self)@, id@),
            !holds(final(self)@, id@),
            ids_distinct(final(self)@),
            all_sound(final(self)@),
            match result {
                Ok(prompt) => lookup(old(self)@, id@) == Some(prompt@),
                Err(error) => error == PromptError::PromptNotFound && lookup(old(self)@, id@)
                    is None,
            },
    {
        let ghost before = self@;
        proof {
            use_type_invariant(&*self);
        }
        let mut store: PromptStore = PromptStore::new();
        core::mem::swap(&mut self.store, &mut store);
        let removed = store.remove(id);
        proof {
            lemma_removal_keeps_sound(before, id@);
        }
        self.store = store;
        removed
    }
}

/// Taking a prompt out leaves the others sound.
pub proof fn lemma_removal_keeps_sound(store: Seq<HomePromptView>, id: Seq<char>)
    requires
        all_sound(store),
    ensures
        all_sound(without(store, id)),
{
    if holds(store, id) {
        let at = position_of(store, id);
        let after = store.remove(at);
        assert forall|i: int| 0 <= i < after.len() implies prompt_sound(#[trigger] after[i]) by {
            let a = if i < at { i } else { i + 1 };
            assert(after[i] == store[a]);
        }
    }
}

} // verus!
