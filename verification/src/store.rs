//! The registry of pending prompts.
//!
//! Prompts are kept in the order in which they came in, and no two of them
//! share an identifier.

use vstd::prelude::*;
use crate::error::PromptError;
use crate::glob::{glob_matches, is_match};
use crate::home_prompt::{options_view, PatternOption, PatternOptionView};
use crate::messages::{HomePrompt, HomePromptView, MetaData, MetaDataView};
use crate::permissions::{is_subset, subset_of, texts};
use crate::text::chars_of;

verus! {

/// The views of a list of prompts, in order.
pub open spec fn prompts_view(prompts: Seq<HomePrompt>) -> Seq<HomePromptView> {
    Seq::new(prompts.len(), |i: int| prompts[i]@)
}

/// Whether a prompt with the identifier is pending.
pub open spec fn holds(store: Seq<HomePromptView>, id: Seq<char>) -> bool {
    exists|i: int| 0 <= i < store.len() && (#[trigger] store[i]).meta_data.prompt_id == id
}

/// Where the prompt with the identifier stands, for an identifier that is
/// held.
pub open spec fn position_of(store: Seq<HomePromptView>, id: Seq<char>) -> int {
    choose|i: int| 0 <= i < store.len() && (#[trigger] store[i]).meta_data.prompt_id == id
}

/// Whether no two prompts share an identifier.
pub open spec fn ids_distinct(store: Seq<HomePromptView>) -> bool {
    forall|i: int, j: int|
        0 <= i < j < store.len() ==> (#[trigger] store[i]).meta_data.prompt_id != (
        #[trigger] store[j]).meta_data.prompt_id
}

/// The prompt with the identifier, if one is pending.
pub open spec fn lookup(store: Seq<HomePromptView>, id: Seq<char>) -> Option<HomePromptView> {
    if holds(store, id) {
        Some(store[position_of(store, id)])
    } else {
        None
    }
}

/// The store without the prompt that has the identifier.
pub open spec fn without(store: Seq<HomePromptView>, id: Seq<char>) -> Seq<HomePromptView> {
    if holds(store, id) {
        store.remove(position_of(store, id))
    } else {
        store
    }
}

/// Whether two sets of metadata name the same requester: the same
/// application of the same publisher from the same store.
pub open spec fn same_requester(a: MetaDataView, b: MetaDataView) -> bool {
    &&& a.snap_name == b.snap_name
    &&& a.store_url == b.store_url
    &&& a.publisher == b.publisher
}

/// Whether one of the options has a pattern that matches the path.
pub open spec fn covers(options: Seq<PatternOptionView>, path: Seq<char>) -> bool {
    exists|i: int| 0 <= i < options.len() && glob_matches(#[trigger] options[i].path_pattern, path)
}

/// Whether a request by `requester` for `permissions` on `path` is answered
/// by the answer to `prompt`: the prompt is the same requester's, one of its
/// patterns matches the path, and it asks for each of the permissions.
pub open spec fn answers(
    prompt: HomePromptView,
    requester: MetaDataView,
    path: Seq<char>,
    permissions: Seq<Seq<char>>,
) -> bool {
    &&& same_requester(prompt.meta_data, requester)
    &&& covers(prompt.pattern_options, path)
    &&& subset_of(permissions, prompt.requested_permissions)
}

/// The position at or behind `from` of the first prompt that answers the
/// request, or the number of prompts where none does.
pub open spec fn first_answering(
    store: Seq<HomePromptView>,
    requester: MetaDataView,
    path: Seq<char>,
    permissions: Seq<Seq<char>>,
    from: int,
) -> int
    decreases store.len() - from,
{
    if from < 0 || from >= store.len() {
        store.len() as int
    } else if answers(store[from], requester, path, permissions) {
        from
    } else {
        first_answering(store, requester, path, permissions, from + 1)
    }
}

/// The oldest pending prompt that answers the request, if any does.
pub open spec fn mergeable(
    store: Seq<HomePromptView>,
    requester: MetaDataView,
    path: Seq<char>,
    permissions: Seq<Seq<char>>,
) -> Option<HomePromptView> {
    let at = first_answering(store, requester, path, permissions, 0);
    if at < store.len() {
        Some(store[at])
    } else {
        None
    }
}

/// In a store without shared identifiers, a prompt stands where its
/// identifier is found.
pub proof fn lemma_position(store: Seq<HomePromptView>, at: int)
    requires
        ids_distinct(store),
        0 <= at < store.len(),
    ensures
        holds(store, store[at].meta_data.prompt_id),
        position_of(store, store[at].meta_data.prompt_id) == at,
{
    let id = store[at].meta_data.prompt_id;
    let found = position_of(store, id);
    assert(store[found].meta_data.prompt_id == id);
    if found < at {
        assert(store[found].meta_data.prompt_id != store[at].meta_data.prompt_id);
    } else if at < found {
        assert(store[at].meta_data.prompt_id != store[found].meta_data.prompt_id);
    }
}

/// Whether the two sets of metadata name the same requester.
pub fn is_same_requester(a: &MetaData, b: &MetaData) -> (same: bool)
    ensures
        same == same_requester(a@, b@),
{
    a.snap_name == b.snap_name && a.store_url == b.store_url && a.publisher == b.publisher
}

/// Whether one of the options has a pattern that matches the path.
pub fn covers_path(options: &Vec<PatternOption>, path: &Vec<char>) -> (covered: bool)
    ensures
        covered == covers(options_view(options@), path@),
{
    let mut i: usize = 0;
    while i < options.len()
        invariant
            i <= options.len(),
            forall|k: int|
                0 <= k < i ==> !glob_matches(
                    #[trigger] options_view(options@)[k].path_pattern,
                    path@,
                ),
        decreases options.len() - i,
    {
        let pattern: Vec<char> = chars_of(options[i].path_pattern.as_str());
        if is_match(&pattern, path) {
            assert(glob_matches(options_view(options@)[i as int].path_pattern, path@));
            return true;
        }
        i = i + 1;
    }
    false
}

/// The pending prompts, oldest first.
pub struct PromptStore {
    prompts: Vec<HomePrompt>,
}

impl View for PromptStore {
    type V = Seq<HomePromptView>;

    closed spec fn view(&self) -> Seq<HomePromptView> {
        prompts_view(self.prompts@)
    }
}

impl PromptStore {
    #[verifier::type_invariant]
    spec fn well_formed(&self) -> bool {
        ids_distinct(prompts_view(self.prompts@))
    }

    /// A store without prompts.
    pub fn new() -> (store: PromptStore)
        ensures
            store@ == Seq::<HomePromptView>::empty(),
    {
        PromptStore { prompts: Vec::new() }
    }

    /// The number of pending prompts.
    pub fn len(&self) -> (len: usize)
        ensures
            len == self@.len(),
    {
        self.prompts.len()
    }

    /// Whether no prompt is pending.
    pub fn is_empty(&self) -> (empty: bool)
        ensures
            empty == (self@.len() == 0),
    {
        self.prompts.len() == 0
    }

    /// Where the prompt with the identifier stands.
    fn position(&self, id: &String) -> (found: Option<usize>)
        ensures
            ids_distinct(self@),
            match found {
                Some(at) => holds(self@, id@) && at == position_of(self@, id@) && at
                    < self.prompts.len(),
                None => !holds(self@, id@),
            },
    {
        proof {
            use_type_invariant(self);
        }
        let mut i: usize = 0;
        while i < self.prompts.len()
            invariant
                i <= self.prompts.len(),
                ids_distinct(self@),
                self@ == prompts_view(self.prompts@),
                forall|k: int| 0 <= k < i ==> (#[trigger] self@[k]).meta_data.prompt_id != id@,
            decreases self.prompts.len() - i,
        {
            if self.prompts[i].meta_data.prompt_id == *id {
                proof {
                    lemma_position(self@, i as int);
                }
                return Some(i);
            }
            i = i + 1;
        }
        None
    }

    /// Whether a prompt with the identifier is pending.
    pub fn contains(&self, id: &String) -> (found: bool)
        ensures
            found == holds(self@, id@),
    {
        self.position(id).is_some()
    }

    /// Takes in a prompt, behind those that are pending. Fails, and changes
    /// nothing, where a pending prompt has the same identifier.
    pub fn insert(&mut self, prompt: HomePrompt) -> (result: Result<(), PromptError>)
        ensures
            ids_distinct(final(self)@),
            match result {
                Ok(()) => !holds(old(self)@, prompt@.meta_data.prompt_id) && final(self)@ == old(
                    self,
                )@.push(prompt@),
                Err(error) => error == PromptError::DuplicatePromptId && holds(
                    old(self)@,
                    prompt@.meta_data.prompt_id,
                ) && final(self)@ == old(self)@,
            },
    {
        match self.position(&prompt.meta_data.prompt_id) {
            Some(_) => Err(PromptError::DuplicatePromptId),
            None => {
                let ghost before = self@;
                let ghost added = prompt@;
                // The list is changed outside the store and put back, so
                // that the store holds distinct identifiers at every step.
                let mut prompts: Vec<HomePrompt> = Vec::new();
                core::mem::swap(&mut self.prompts, &mut prompts);
                prompts.push(prompt);
                proof {
                    let after = before.push(added);
                    assert(prompts_view(prompts@) == after);
                    assert forall|i: int, j: int| 0 <= i < j < after.len() implies (
                    #[trigger] after[i]).meta_data.prompt_id != (
                    #[trigger] after[j]).meta_data.prompt_id by {
                        if j < before.len() {
                            assert(before[i].meta_data.prompt_id != before[j].meta_data.prompt_id);
                        } else {
                            assert(before[i].meta_data.prompt_id != added.meta_data.prompt_id);
                        }
                    }
                }
                self.prompts = prompts;
                Ok(())
            },
        }
    }

    /// The pending prompt with the identifier.
    pub fn get(&self, id: &String) -> (result: Result<&HomePrompt, PromptError>)
        ensures
            ids_distinct(self@),
            match result {
                Ok(prompt) => lookup(self@, id@) == Some(prompt@),
                Err(error) => error == PromptError::PromptNotFound && lookup(self@, id@) is None,
            },
    {
        match self.position(id) {
            Some(at) => Ok(&self.prompts[at]),
            None => Err(PromptError::PromptNotFound),
        }
    }

    /// Takes the prompt with the identifier out of the store. The others
    /// stay in their order.
    pub fn remove(&mut self, id: &String) -> (result: Result<HomePrompt, PromptError>)
        ensures
            ids_distinct(final(self)@),
            final(self)@ == without(old(self)@, id@),
            !holds(final(self)@, id@),
            match result {
                Ok(prompt) => lookup(old(self)@, id@) == Some(prompt@),
                Err(error) => error == PromptError::PromptNotFound && lookup(old(self)@, id@)
                    is None,
            },
    {
        match self.position(id) {
            Some(at) => {
                let ghost before = self@;
                let mut prompts: Vec<HomePrompt> = Vec::new();
                core::mem::swap(&mut self.prompts, &mut prompts);
                let prompt = prompts.remove(at);
                proof {
                    assert(prompts_view(prompts@) == before.remove(at as int));
                    lemma_remove_keeps_distinct(before, at as int);
                }
                self.prompts = prompts;
                Ok(prompt)
            },
            None => Err(PromptError::PromptNotFound),
        }
    }

    /// The oldest pending prompt that answers a request by `requester` for
    /// `requested_permissions` on `requested_path`, if any does.
    pub fn find_mergeable(
        &self,
        requested_path: &str,
        requester: &MetaData,
        requested_permissions: &Vec<String>,
    ) -> (found: Option<&HomePrompt>)
        ensures
            ids_distinct(self@),
            match found {
                Some(prompt) => mergeable(
                    self@,
                    requester@,
                    requested_path@,
                    texts(requested_permissions@),
                ) == Some(prompt@),
                None => mergeable(
                    self@,
                    requester@,
                    requested_path@,
                    texts(requested_permissions@),
                ) is None,
            },
    {
        proof {
            use_type_invariant(self);
        }
        let path: Vec<char> = chars_of(requested_path);
        let ghost wanted = texts(requested_permissions@);
        let mut i: usize = 0;
        while i < self.prompts.len()
            invariant
                i <= self.prompts.len(),
                path@ == requested_path@,
                wanted == texts(requested_permissions@),
                self@ == prompts_view(self.prompts@),
                ids_distinct(self@),
                first_answering(self@, requester@, path@, wanted, 0) == first_answering(
                    self@,
                    requester@,
                    path@,
                    wanted,
                    i as int,
                ),
            decreases self.prompts.len() - i,
        {
            let prompt = &self.prompts[i];
            if is_same_requester(&prompt.meta_data, requester) && covers_path(
                &prompt.pattern_options,
                &path,
            ) && is_subset(requested_permissions, &prompt.requested_permissions) {
                return Some(prompt);
            }
            i = i + 1;
        }
        None
    }

    /// The prompt that has been pending longest.
    pub fn oldest(&self) -> (found: Option<&HomePrompt>)
        ensures
            match found {
                Some(prompt) => self@.len() > 0 && prompt@ == self@.first(),
                None => self@.len() == 0,
            },
    {
        if self.prompts.len() == 0 {
            None
        } else {
            Some(&self.prompts[0])
        }
    }

    /// The prompt that came in last.
    pub fn latest(&self) -> (found: Option<&HomePrompt>)
        ensures
            match found {
                Some(prompt) => self@.len() > 0 && prompt@ == self@.last(),
                None => self@.len() == 0,
            },
    {
        let n: usize = self.prompts.len();
        if n == 0 {
            None
        } else {
            Some(&self.prompts[n - 1])
        }
    }
}

/// Taking a prompt out leaves no shared identifier behind, and none that
/// the prompt had.
pub proof fn lemma_remove_keeps_distinct(store: Seq<HomePromptView>, at: int)
    requires
        ids_distinct(store),
        0 <= at < store.len(),
    ensures
        ids_distinct(store.remove(at)),
        !holds(store.remove(at), store[at].meta_data.prompt_id),
{
    let after = store.remove(at);
    let id = store[at].meta_data.prompt_id;
    assert forall|i: int, j: int| 0 <= i < j < after.len() implies (
    #[trigger] after[i]).meta_data.prompt_id != (#[trigger] after[j]).meta_data.prompt_id by {
        let a = if i < at { i } else { i + 1 };
        let b = if j < at { j } else { j + 1 };
        assert(after[i] == store[a]);
        assert(after[j] == store[b]);
        assert(store[a].meta_data.prompt_id != store[b].meta_data.prompt_id);
    }
    if holds(after, id) {
        let i = position_of(after, id);
        let a = if i < at { i } else { i + 1 };
        assert(after[i] == store[a]);
        if a < at {
            assert(store[a].meta_data.prompt_id != store[at].meta_data.prompt_id);
        } else {
            assert(store[at].meta_data.prompt_id != store[a].meta_data.prompt_id);
        }
    }
}

} // verus!
