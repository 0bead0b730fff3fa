//! The state of a session: the collection and its filter, the selection,
//! the mode, the response on display and the history.
use crate::history::{HistoryEntryView, ResponseHistory};
use crate::interpolation::VariableInterpolator;
use crate::models::{optional_response, optional_text, Request, Response, ResponseView};
use crate::string_map::{
    distinct_keys, lemma_absent_after_prefix, lemma_map_pair_values, lemma_push_map,
    map_pair_values, pairs_to_map, StringMap,
};
use crate::text::{contains, contains_text, lowercase, to_chars, to_lowercase};
use vstd::hash_set::StringHashSet;
use vstd::prelude::*;

verus! {

/// The modes of a session; one is active at a time.
#[derive(Debug, Clone, Copy, PartialEq, Eq, Structural)]
pub enum AppMode {
    Normal,
    Filter,
    Variables,
    History,
    Command,
}

/// The tabs in which a response is shown.
#[derive(Debug, Clone, Copy, PartialEq, Eq, Structural)]
pub enum ResponseTab {
    Pretty,
    Raw,
    Headers,
    Timeline,
}

impl ResponseTab {
    /// The tab after this one; the last is followed by the first.
    pub open spec fn next(self) -> ResponseTab {
        match self {
            ResponseTab::Pretty => ResponseTab::Raw,
            ResponseTab::Raw => ResponseTab::Headers,
            ResponseTab::Headers => ResponseTab::Timeline,
            ResponseTab::Timeline => ResponseTab::Pretty,
        }
    }

    /// The tab before this one; the first is preceded by the last.
    pub open spec fn previous(self) -> ResponseTab {
        match self {
            ResponseTab::Pretty => ResponseTab::Timeline,
            ResponseTab::Raw => ResponseTab::Pretty,
            ResponseTab::Headers => ResponseTab::Raw,
            ResponseTab::Timeline => ResponseTab::Headers,
        }
    }
}

/// Going to the next tab and back, or back and forth, changes nothing, and
/// four steps in one direction come round.
pub proof fn lemma_tabs_cycle(tab: ResponseTab)
    ensures
        tab.next().previous() == tab,
        tab.previous().next() == tab,
        tab.next().next().next().next() == tab,
        tab.previous().previous().previous().previous() == tab,
{
}

/// Which nodes of the JSON tree are open, and which one is selected.
pub struct JsonTreeState {
    pub expanded_paths: StringHashSet,
    pub selected_path: Option<String>,
}

impl JsonTreeState {
    /// A tree with every node closed and none selected.
    pub fn new() -> (t: JsonTreeState)
        ensures
            t.expanded_paths@ == Set::<Seq<char>>::empty(),
            t.selected_path is None,
    {
        JsonTreeState { expanded_paths: StringHashSet::new(), selected_path: None }
    }
}

/// A value of the variable file as it is shown: marked as such.
pub open spec fn marked_env(value: Seq<char>) -> Seq<char> {
    "(env) "@ + value
}

/// Whether a request matches a filter: the filter's text occurs in the
/// request's name, URL or method name, letter case set aside. The empty
/// filter matches every request.
pub open spec fn request_matches(request: Request, filter: Seq<char>) -> bool {
    filter.len() == 0 || {
        let f = lowercase(filter);
        ||| contains_text(lowercase(request.name@), f)
        ||| contains_text(lowercase(request.url@), f)
        ||| contains_text(lowercase(request.method.name()), f)
    }
}

/// Whether `indices` lists, in rising order, the positions of exactly the
/// requests of `collection` that match `filter`.
pub open spec fn is_filter_result(
    indices: Seq<usize>,
    collection: Seq<Request>,
    filter: Seq<char>,
) -> bool {
    &&& forall|j: int|
        0 <= j < indices.len() ==> (#[trigger] indices[j]) < collection.len() && request_matches(
            collection[indices[j] as int],
            filter,
        )
    &&& forall|j: int, k: int|
        0 <= j < k < indices.len() ==> (#[trigger] indices[j]) < (#[trigger] indices[k])
    &&& forall|i: int|
        0 <= i < collection.len() && request_matches(#[trigger] collection[i], filter)
            ==> indices.contains(i as usize)
}

/// Whether `indices` rise strictly and lie below `len`: they pick a part
/// of a list of that length, in its order.
pub open spec fn is_selection_of(indices: Seq<usize>, len: nat) -> bool {
    &&& forall|j: int| 0 <= j < indices.len() ==> (#[trigger] indices[j]) < len
    &&& forall|j: int, k: int|
        0 <= j < k < indices.len() ==> (#[trigger] indices[j]) < (#[trigger] indices[k])
}

/// Where a selection at `selected` stands after one step up.
pub open spec fn step_up(selected: nat) -> nat {
    if selected > 0 {
        (selected - 1) as nat
    } else {
        selected
    }
}

/// Where a selection at `selected` of a list of `len` items stands after
/// one step down.
pub open spec fn step_down(selected: nat, len: nat) -> nat {
    if selected + 1 < len {
        selected + 1
    } else {
        selected
    }
}

/// Where a selection stands after the steps `moves`, taken in order:
/// `true` is a step down, `false` a step up.
pub open spec fn after_steps(selected: nat, len: nat, moves: Seq<bool>) -> nat
    decreases moves.len(),
{
    if moves.len() == 0 {
        selected
    } else {
        let before = after_steps(selected, len, moves.drop_last());
        if moves.last() {
            step_down(before, len)
        } else {
            step_up(before)
        }
    }
}

/// A selection that is a position of the list stays one, whatever steps it
/// takes; on an empty list it stays at 0.
pub proof fn lemma_steps_stay_in_bounds(selected: nat, len: nat, moves: Seq<bool>)
    ensures
        selected < len ==> after_steps(selected, len, moves) < len,
        selected == 0 ==> after_steps(selected, len, moves) < len || (len == 0 && after_steps(
            selected,
            len,
            moves,
        ) == 0),
    decreases moves.len(),
{
    if moves.len() > 0 {
        lemma_steps_stay_in_bounds(selected, len, moves.drop_last());
    }
}

/// The state of a session. It belongs to the controller alone: every
/// change is the answer to one event, taken in the order in which the
/// events arrive.
pub struct AppState {
    pub collection: Vec<Request>,
    pub collection_path: std::path::PathBuf,
    pub selected_request_index: usize,
    pub filter_text: String,
    pub filtered_indices: Vec<usize>,
    pub mode: AppMode,
    pub response_tab: ResponseTab,
    pub current_response: Option<Response>,
    pub is_executing: bool,
    pub status_message: String,
    pub interpolator: VariableInterpolator,
    pub history: ResponseHistory,
    pub history_selected_index: usize,
    pub should_quit: bool,
    pub json_tree_state: JsonTreeState,
}

/// What a state holds.
pub struct StateView {
    pub collection: Seq<Request>,
    pub collection_path: std::path::PathBuf,
    pub selected_request_index: usize,
    pub filter_text: Seq<char>,
    pub filtered_indices: Seq<usize>,
    pub mode: AppMode,
    pub response_tab: ResponseTab,
    pub current_response: Option<ResponseView>,
    pub is_executing: bool,
    pub status_message: Seq<char>,
    pub in_memory: Map<Seq<char>, Seq<char>>,
    pub env_vars: Map<Seq<char>, Seq<char>>,
    pub process_env: Map<Seq<char>, Seq<char>>,
    pub history: Seq<HistoryEntryView>,
    pub max_entries: usize,
    pub history_selected_index: usize,
    pub should_quit: bool,
    pub expanded_paths: Set<Seq<char>>,
    pub selected_path: Option<Seq<char>>,
}

impl View for AppState {
    type V = StateView;

    open spec fn view(&self) -> StateView {
        StateView {
            collection: self.collection@,
            collection_path: self.collection_path,
            selected_request_index: self.selected_request_index,
            filter_text: self.filter_text@,
            filtered_indices: self.filtered_indices@,
            mode: self.mode,
            response_tab: self.response_tab,
            current_response: optional_response(self.current_response),
            is_executing: self.is_executing,
            status_message: self.status_message@,
            in_memory: self.interpolator.in_memory@,
            env_vars: self.interpolator.env_vars@,
            process_env: self.interpolator.process_env@,
            history: self.history.model(),
            max_entries: self.history.max_entries,
            history_selected_index: self.history_selected_index,
            should_quit: self.should_quit,
            expanded_paths: self.json_tree_state.expanded_paths@,
            selected_path: optional_text(self.json_tree_state.selected_path),
        }
    }
}

/// The positions of the requests of `collection` that match `filter`, in
/// rising order.
pub open spec fn matching_indices(collection: Seq<Request>, filter: Seq<char>) -> Seq<usize>
    decreases collection.len(),
{
    if collection.len() == 0 {
        Seq::empty()
    } else {
        let before = matching_indices(collection.drop_last(), filter);
        if request_matches(collection.last(), filter) {
            before.push((collection.len() - 1) as usize)
        } else {
            before
        }
    }
}

/// The matching positions are what a filter asks for: each matches, they
/// rise, and no matching request is left out.
pub proof fn lemma_matching_indices(collection: Seq<Request>, filter: Seq<char>)
    requires
        collection.len() <= usize::MAX,
    ensures
        is_filter_result(matching_indices(collection, filter), collection, filter),
        filter.len() == 0 ==> matching_indices(collection, filter) == Seq::new(
            collection.len(),
            |i: int| i as usize,
        ),
    decreases collection.len(),
{
    if collection.len() > 0 {
        let init = collection.drop_last();
        lemma_matching_indices(init, filter);
        let before = matching_indices(init, filter);
        let all = matching_indices(collection, filter);
        assert forall|i: int|
            0 <= i < collection.len() && request_matches(
                #[trigger] collection[i],
                filter,
            ) implies all.contains(i as usize) by {
            if i < init.len() {
                assert(init[i] == collection[i]);
                let w = before.index_of(i as usize);
                assert(all[w] == i as usize);
            } else {
                assert(all[all.len() - 1] == i as usize);
            }
        }
        assert forall|j: int| 0 <= j < all.len() implies (#[trigger] all[j]) < collection.len()
            && request_matches(collection[all[j] as int], filter) by {
            if j < before.len() {
                assert(init[before[j] as int] == collection[before[j] as int]);
            }
        }
        if filter.len() == 0 {
            assert(all =~= Seq::new(collection.len(), |i: int| i as usize));
        }
    } else {
        assert(matching_indices(collection, filter) =~= Seq::new(
            collection.len(),
            |i: int| i as usize,
        ));
    }
}

/// The state after the filter was set to `filter`: the matching requests
/// are listed and the first of them is selected.
pub open spec fn filtered_by(s: StateView, filter: Seq<char>) -> StateView {
    StateView {
        filter_text: filter,
        filtered_indices: matching_indices(s.collection, filter),
        selected_request_index: 0,
        ..s
    }
}

/// Whether the selection is a position of the filtered list, or the list
/// is empty.
pub open spec fn selection_in_bounds(s: StateView) -> bool {
    s.filtered_indices.len() == 0 || s.selected_request_index < s.filtered_indices.len()
}

/// Whether a state is in order: the filtered list picks requests of the
/// collection in their order, the selection is a position of it unless it
/// is empty, and the history keeps to its bound.
pub open spec fn well_formed(s: StateView) -> bool {
    &&& is_selection_of(s.filtered_indices, s.collection.len())
    &&& selection_in_bounds(s)
    &&& s.history.len() <= s.max_entries
}

/// The position in the collection of the request under the selection.
pub open spec fn current_position(s: StateView) -> Option<int> {
    if s.filtered_indices.len() == 0 {
        None
    } else if s.selected_request_index < s.filtered_indices.len()
        && s.filtered_indices[s.selected_request_index as int] < s.collection.len() {
        Some(s.filtered_indices[s.selected_request_index as int] as int)
    } else {
        None
    }
}

/// Tells whether `request` matches the filter whose lower-case form is
/// `lowered`.
fn matches_lowered(request: &Request, lowered: &Vec<char>) -> (r: bool)
    ensures
        r == {
            ||| contains_text(lowercase(request.name@), lowered@)
            ||| contains_text(lowercase(request.url@), lowered@)
            ||| contains_text(lowercase(request.method.name()), lowered@)
        },
{
    let name = to_chars(to_lowercase(request.name.as_str()).as_str());
    if contains(&name, lowered) {
        return true;
    }
    let url = to_chars(to_lowercase(request.url.as_str()).as_str());
    if contains(&url, lowered) {
        return true;
    }
    let method = to_chars(to_lowercase(request.method.as_str()).as_str());
    contains(&method, lowered)
}

impl AppState {
    /// Whether the state is in order.
    pub open spec fn wf(self) -> bool {
        well_formed(self@)
    }

    /// The state at the start of a session: every request listed, the first
    /// selected, normal mode, nothing on display.
    pub fn new(
        collection: Vec<Request>,
        collection_path: std::path::PathBuf,
        interpolator: VariableInterpolator,
        history: ResponseHistory,
    ) -> (s: AppState)
        ensures
            history.within_capacity() ==> s.wf(),
            s.collection == collection,
            s.collection_path == collection_path,
            s.interpolator == interpolator,
            s.history == history,
            s.filtered_indices@ == Seq::new(collection@.len(), |i: int| i as usize),
            s.selected_request_index == 0,
            s.filter_text@ == Seq::<char>::empty(),
            s.mode == AppMode::Normal,
            s.response_tab == ResponseTab::Pretty,
            s.current_response is None,
            !s.is_executing,
            s.status_message@ == "Ready"@,
            s.history_selected_index == 0,
            !s.should_quit,
    {
        let n = collection.len();
        let mut filtered: Vec<usize> = Vec::new();
        let mut i: usize = 0;
        while i < n
            invariant
                i <= n,
                filtered@ == Seq::new(i as nat, |j: int| j as usize),
            decreases n - i,
        {
            filtered.push(i);
            i = i + 1;
            assert(filtered@ == Seq::new(i as nat, |j: int| j as usize));
        }
        AppState {
            collection,
            collection_path,
            selected_request_index: 0,
            filter_text: String::new(),
            filtered_indices: filtered,
            mode: AppMode::Normal,
            response_tab: ResponseTab::Pretty,
            current_response: None,
            is_executing: false,
            status_message: String::from_str("Ready"),
            interpolator,
            history,
            history_selected_index: 0,
            should_quit: false,
            json_tree_state: JsonTreeState::new(),
        }
    }

    /// The request under the selection.
    pub fn get_current_request(&self) -> (r: Option<&Request>)
        requires
            self.filtered_indices@.len() == 0 || self.selected_request_index
                < self.filtered_indices@.len(),
        ensures
            match r {
                Some(request) => {
                    &&& self.filtered_indices@.len() > 0
                    &&& self.filtered_indices@[self.selected_request_index as int]
                        < self.collection@.len()
                    &&& *request == self.collection@[self.filtered_indices@[self.selected_request_index as int] as int]
                },
                None => self.filtered_indices@.len() == 0
                    || self.filtered_indices@[self.selected_request_index as int]
                    >= self.collection@.len(),
            },
    {
        if self.filtered_indices.len() == 0 {
            return None;
        }
        let actual = self.filtered_indices[self.selected_request_index];
        if actual < self.collection.len() {
            Some(&self.collection[actual])
        } else {
            None
        }
    }

    /// The requests that the filtered list picks, in its order. An index
    /// beyond the collection picks nothing.
    pub fn get_filtered_requests(&self) -> (r: Vec<&Request>)
        ensures
            r@.map_values(|q: &Request| *q) == self.filtered_indices@.filter(
                |i: usize| i < self.collection@.len(),
            ).map_values(|i: usize| self.collection@[i as int]),
    {
        let ghost inside = |i: usize| i < self.collection@.len();
        let ghost pick = |i: usize| self.collection@[i as int];
        let ghost deref = |q: &Request| *q;
        let mut r: Vec<&Request> = Vec::new();
        let mut k: usize = 0;
        proof {
            reveal(Seq::filter);
            assert(self.filtered_indices@.take(0).filter(inside).map_values(pick) == Seq::<
                Request,
            >::empty());
            assert(r@.map_values(deref) == Seq::<Request>::empty());
        }
        while k < self.filtered_indices.len()
            invariant
                k <= self.filtered_indices.len(),
                inside == (|i: usize| i < self.collection@.len()),
                pick == (|i: usize| self.collection@[i as int]),
                deref == (|q: &Request| *q),
                r@.map_values(deref) == self.filtered_indices@.take(k as int).filter(
                    inside,
                ).map_values(pick),
            decreases self.filtered_indices.len() - k,
        {
            let ghost before = r@;
            let ghost part = self.filtered_indices@.take(k as int).filter(inside);
            let i = self.filtered_indices[k];
            proof {
                reveal(Seq::filter);
                assert(self.filtered_indices@.take(k + 1).drop_last() == self.filtered_indices@.take(
                    k as int,
                ));
            }
            if i < self.collection.len() {
                r.push(&self.collection[i]);
                assert(r@.map_values(deref) == before.map_values(deref).push(
                    self.collection@[i as int],
                ));
                assert(part.push(i).map_values(pick) == part.map_values(pick).push(pick(i)));
            }
            k = k + 1;
        }
        assert(self.filtered_indices@.take(self.filtered_indices.len() as int)
            == self.filtered_indices@);
        r
    }

    /// Sets the filter, lists the requests that match it, and selects the
    /// first of them.
    pub fn update_filter(&mut self, filter: String)
        ensures
            final(self)@ == filtered_by(old(self)@, filter@),
            final(self).filter_text == filter,
            is_filter_result(final(self).filtered_indices@, old(self).collection@, filter@),
            filter@.len() == 0 ==> final(self).filtered_indices@ == Seq::new(
                old(self).collection@.len(),
                |i: int| i as usize,
            ),
            final(self).selected_request_index == 0,
            old(self).history.within_capacity() ==> final(self).wf(),
    {
        let all = filter.as_str().unicode_len() == 0;
        let lowered = to_chars(to_lowercase(filter.as_str()).as_str());
        let n = self.collection.len();
        proof {
            lemma_matching_indices(self.collection@, filter@);
        }
        let mut indices: Vec<usize> = Vec::new();
        let mut i: usize = 0;
        while i < n
            invariant
                i <= n,
                n == self.collection@.len(),
                all == (filter@.len() == 0),
                lowered@ == lowercase(filter@),
                indices@ == matching_indices(self.collection@.take(i as int), filter@),
            decreases n - i,
        {
            proof {
                assert(self.collection@.take(i + 1).drop_last() == self.collection@.take(i as int));
            }
            if all || matches_lowered(&self.collection[i], &lowered) {
                indices.push(i);
            }
            i = i + 1;
        }
        assert(self.collection@.take(n as int) == self.collection@);
        self.filter_text = filter;
        self.filtered_indices = indices;
        self.selected_request_index = 0;
    }

    /// Moves the selection one request up, unless it is at the first.
    pub fn move_selection_up(&mut self)
        ensures
            final(self)@ == (StateView {
                selected_request_index: step_up(
                    old(self).selected_request_index as nat,
                ) as usize,
                ..old(self)@
            }),
            old(self).wf() ==> final(self).wf(),
    {
        if self.selected_request_index > 0 {
            self.selected_request_index = self.selected_request_index - 1;
        }
    }

    /// Moves the selection one request down, unless it is at the last.
    pub fn move_selection_down(&mut self)
        ensures
            final(self)@ == (StateView {
                selected_request_index: step_down(
                    old(self).selected_request_index as nat,
                    old(self).filtered_indices@.len(),
                ) as usize,
                ..old(self)@
            }),
            old(self).wf() ==> final(self).wf(),
    {
        let len = self.filtered_indices.len();
        if self.selected_request_index < len && self.selected_request_index + 1 < len {
            self.selected_request_index = self.selected_request_index + 1;
        }
    }

    /// Shows the next tab of the response.
    pub fn next_response_tab(&mut self)
        ensures
            final(self)@ == (StateView {
                response_tab: old(self).response_tab.next(),
                ..old(self)@
            }),
    {
        self.response_tab = match self.response_tab {
            ResponseTab::Pretty => ResponseTab::Raw,
            ResponseTab::Raw => ResponseTab::Headers,
            ResponseTab::Headers => ResponseTab::Timeline,
            ResponseTab::Timeline => ResponseTab::Pretty,
        };
    }

    /// Shows the previous tab of the response.
    pub fn previous_response_tab(&mut self)
        ensures
            final(self)@ == (StateView {
                response_tab: old(self).response_tab.previous(),
                ..old(self)@
            }),
    {
        self.response_tab = match self.response_tab {
            ResponseTab::Pretty => ResponseTab::Timeline,
            ResponseTab::Raw => ResponseTab::Pretty,
            ResponseTab::Headers => ResponseTab::Raw,
            ResponseTab::Timeline => ResponseTab::Headers,
        };
    }

    /// Records `response` in the history as the newest entry for the
    /// request called `request_name`, under a fresh identifier and the
    /// present time. Writing the history to its store is left to the
    /// caller.
    pub fn save_response_to_history(&mut self, request_name: String, response: Response)
        ensures
            final(self).history.max_entries == old(self).history.max_entries,
            final(self).history.within_capacity(),
            exists|entry: crate::history::HistoryEntry|
                {
                    &&& entry.request_name == request_name
                    &&& entry.response == response
                    &&& final(self).history.entries@ == crate::history::retained(
                        old(self).history.entries@.push(entry),
                        old(self).history.max_entries as nat,
                    )
                },
            final(self).collection == old(self).collection,
            final(self).filtered_indices == old(self).filtered_indices,
            final(self).selected_request_index == old(self).selected_request_index,
            final(self).mode == old(self).mode,
    {
        self.history.add_entry(request_name, response);
    }

    /// Binds `key` to `value` in memory.
    pub fn set_variable(&mut self, key: String, value: String)
        ensures
            final(self)@ == (StateView {
                in_memory: old(self)@.in_memory.insert(key@, value@),
                ..old(self)@
            }),
            final(self).interpolator.resolve(key@) == Some(value@),
    {
        self.interpolator.set_variable(key, value);
    }

    /// Looks `key` up through the layers of the variable store.
    pub fn get_variable(&self, key: &str) -> (r: Option<String>)
        ensures
            match r {
                Some(v) => self.interpolator.resolve(key@) == Some(v@),
                None => self.interpolator.resolve(key@) is None,
            },
    {
        self.interpolator.get_variable(key)
    }

    /// The variables to show: those of the variable file, each value
    /// marked `(env)`, overlaid by those set in memory.
    pub fn get_all_variables(&self) -> (all: StringMap)
        ensures
            all@ == self.interpolator.env_vars@.map_values(|v: Seq<char>| marked_env(v))
                .union_prefer_right(self.interpolator.in_memory@),
    {
        let ghost f = |v: Seq<char>| marked_env(v);
        let env = &self.interpolator.env_vars;
        let memory = &self.interpolator.in_memory;
        let n = env.len();
        let ghost target = map_pair_values(env.pairs(), f);
        proof {
            lemma_map_pair_values(env.pairs(), f);
        }
        let mut all = StringMap::new();
        let mut i: usize = 0;
        assert(target.subrange(0, 0) == Seq::<(Seq<char>, Seq<char>)>::empty());
        assert(pairs_to_map(target.subrange(0, 0)) =~= Map::<Seq<char>, Seq<char>>::empty());
        while i < n
            invariant
                i <= n,
                n == env.pairs().len(),
                f == (|v: Seq<char>| marked_env(v)),
                target == map_pair_values(env.pairs(), f),
                distinct_keys(target),
                all@ == pairs_to_map(target.subrange(0, i as int)),
            decreases n - i,
        {
            let key = env.key_at(i).clone();
            let mut value = String::from_str("(env) ");
            value.append(env.value_at(i).as_str());
            proof {
                let prefix = target.subrange(0, i as int);
                lemma_absent_after_prefix(target, i as int);
                assert forall|j: int| 0 <= j < prefix.len() implies prefix[j].0 != key@ by {
                    assert(target[j].0 != target[i as int].0);
                }
                lemma_push_map(prefix, key@, value@);
                assert(prefix.push((key@, value@)) == target.subrange(0, i + 1));
            }
            all.insert(key, value);
            i = i + 1;
        }
        assert(target.subrange(0, n as int) == target);
        let ghost base = all@;
        let m = memory.len();
        let mut k: usize = 0;
        assert(memory.pairs().subrange(0, 0) == Seq::<(Seq<char>, Seq<char>)>::empty());
        assert(all@ =~= base.union_prefer_right(pairs_to_map(memory.pairs().subrange(0, 0))));
        while k < m
            invariant
                k <= m,
                m == memory.pairs().len(),
                distinct_keys(memory.pairs()),
                all@ == base.union_prefer_right(
                    pairs_to_map(memory.pairs().subrange(0, k as int)),
                ),
            decreases m - k,
        {
            let key = memory.key_at(k).clone();
            let value = memory.value_at(k).clone();
            proof {
                let prefix = memory.pairs().subrange(0, k as int);
                lemma_absent_after_prefix(memory.pairs(), k as int);
                assert forall|j: int| 0 <= j < prefix.len() implies prefix[j].0 != key@ by {
                    assert(memory.pairs()[j].0 != memory.pairs()[k as int].0);
                }
                lemma_push_map(prefix, key@, value@);
                assert(prefix.push((key@, value@)) == memory.pairs().subrange(0, k + 1));
                assert(base.union_prefer_right(pairs_to_map(prefix)).insert(key@, value@)
                    =~= base.union_prefer_right(pairs_to_map(prefix).insert(key@, value@)));
            }
            all.insert(key, value);
            k = k + 1;
        }
        assert(memory.pairs().subrange(0, m as int) == memory.pairs());
        all
    }

    /// Opens the node of the JSON tree at `path` if it is closed, and
    /// closes it if it is open.
    pub fn toggle_json_node(&mut self, path: String)
        ensures
            final(self)@ == (StateView {
                expanded_paths: if old(self)@.expanded_paths.contains(path@) {
                    old(self)@.expanded_paths.remove(path@)
                } else {
                    old(self)@.expanded_paths.insert(path@)
                },
                ..old(self)@
            }),
    {
        if self.json_tree_state.expanded_paths.contains(path.as_str()) {
            self.json_tree_state.expanded_paths.remove(path.as_str());
        } else {
            self.json_tree_state.expanded_paths.insert(path);
        }
    }

    /// Whether the node of the JSON tree at `path` is open.
    pub fn is_json_node_expanded(&self, path: &str) -> (b: bool)
        ensures
            b == self@.expanded_paths.contains(path@),
    {
        self.json_tree_state.expanded_paths.contains(path)
    }
}

impl Default for JsonTreeState {
    fn default() -> (t: JsonTreeState)
        ensures
            t.expanded_paths@ == Set::<Seq<char>>::empty(),
            t.selected_path is None,
    {
        JsonTreeState::new()
    }
}

} // verus!
