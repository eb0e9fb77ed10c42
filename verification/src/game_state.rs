use crate::command_buffer::{CommandBuffer, CommandBufferView};
use crate::lookup::{
    first_index, lemma_first_index_absent, lemma_first_index_found, lemma_first_index_is_first,
    lemma_first_index_push,
};
use crate::window::Window;
use vstd::prelude::*;

verus! {

/// One state of the game. The manager calls `on_enter` when the state
/// becomes current and `on_leave` when another state is switched to; the
/// loop calls `update` and `draw` once per frame. `dt` is the time since
/// the frame before, in nanoseconds. `update` may name the state to switch
/// to once the frame is drawn.
pub trait GameState {
    fn on_enter(&mut self);

    fn on_leave(&mut self);

    fn update(&mut self, dt: u64, window: &Window) -> Option<String>;

    fn draw(&mut self, command_buffer: &mut CommandBuffer, dt: u64);
}

/// A call that the manager made on the state of the given name, with
/// what it handed over: an update gets the delta and the window, a draw
/// gets the command buffer as it stood and the delta.
pub enum StateCall {
    Enter(Seq<char>),
    Leave(Seq<char>),
    Update(Seq<char>, u64, Window),
    Draw(Seq<char>, CommandBufferView, u64),
}

/// What a manager is, apart from the states themselves: the registered
/// names, the name of the current state (empty when there is none), and
/// the calls it has made so far, oldest first.
pub struct ManagerModel {
    pub names: Set<Seq<char>>,
    pub current: Seq<char>,
    pub calls: Seq<StateCall>,
}

impl ManagerModel {
    /// A manager with the given names that has not switched yet.
    pub open spec fn initial(names: Set<Seq<char>>) -> ManagerModel {
        ManagerModel { names, current: Seq::empty(), calls: Seq::empty() }
    }

    /// Whether a state is current: the current name is not empty and is
    /// registered.
    pub open spec fn has_current(self) -> bool {
        self.current.len() > 0 && self.names.contains(self.current)
    }

    /// The manager after `switch(name)`: the current state, if there is
    /// one, is left; then, if `name` is registered, its state is entered
    /// and becomes current.
    pub open spec fn switched(self, name: Seq<char>) -> ManagerModel {
        let left = if self.has_current() {
            self.calls.push(StateCall::Leave(self.current))
        } else {
            self.calls
        };
        if self.names.contains(name) {
            ManagerModel {
                names: self.names,
                current: name,
                calls: left.push(StateCall::Enter(name)),
            }
        } else {
            ManagerModel { names: self.names, current: self.current, calls: left }
        }
    }

    /// The manager after it let the current state update with `dt` and
    /// `window`: one more call if there is a current state, else nothing.
    pub open spec fn updated(self, dt: u64, window: Window) -> ManagerModel {
        if self.has_current() {
            ManagerModel {
                calls: self.calls.push(StateCall::Update(self.current, dt, window)),
                ..self
            }
        } else {
            self
        }
    }

    /// The manager after it let the current state draw into `buffer` with
    /// `dt`: one more call if there is a current state, else nothing.
    pub open spec fn drawn(self, buffer: CommandBufferView, dt: u64) -> ManagerModel {
        if self.has_current() {
            ManagerModel {
                calls: self.calls.push(StateCall::Draw(self.current, buffer, dt)),
                ..self
            }
        } else {
            self
        }
    }

    /// The manager after the frame at `time` with the delta `dt`, in
    /// which the update asked for `wish`: the current state updates with
    /// the delta and the window, then draws with the delta into the
    /// recording that the window starts at `time`, and only then the
    /// switch takes place.
    pub open spec fn ticked(
        self,
        wish: Option<Seq<char>>,
        time: u64,
        dt: u64,
        window: Window,
    ) -> ManagerModel {
        let drawn = self.updated(dt, window).drawn(window.frame_start(time), dt);
        match wish {
            Some(name) => drawn.switched(name),
            None => drawn,
        }
    }

    /// The manager after switching to each of `targets` in turn.
    pub open spec fn switched_all(self, targets: Seq<Seq<char>>) -> ManagerModel
        decreases targets.len(),
    {
        if targets.len() == 0 {
            self
        } else {
            self.switched_all(targets.drop_last()).switched(targets.last())
        }
    }
}

/// The name that an update asked for, as plain characters.
pub open spec fn wish_of(wish: Option<String>) -> Option<Seq<char>> {
    match wish {
        Some(name) => Some(name@),
        None => None,
    }
}

/// How often `calls` enters the state `name`.
pub open spec fn count_enters(calls: Seq<StateCall>, name: Seq<char>) -> nat
    decreases calls.len(),
{
    if calls.len() == 0 {
        0
    } else {
        count_enters(calls.drop_last(), name) + if calls.last() == StateCall::Enter(name) {
            1nat
        } else {
            0nat
        }
    }
}

/// How often `calls` leaves the state `name`.
pub open spec fn count_leaves(calls: Seq<StateCall>, name: Seq<char>) -> nat
    decreases calls.len(),
{
    if calls.len() == 0 {
        0
    } else {
        count_leaves(calls.drop_last(), name) + if calls.last() == StateCall::Leave(name) {
            1nat
        } else {
            0nat
        }
    }
}

/// How many of the switches to `targets`, made in turn from `start`, named
/// an unknown state while `name` was current: each of them left `name`
/// without entering anything.
pub open spec fn count_failed_leaves(
    start: ManagerModel,
    targets: Seq<Seq<char>>,
    name: Seq<char>,
) -> nat
    decreases targets.len(),
{
    if targets.len() == 0 {
        0
    } else {
        let before = start.switched_all(targets.drop_last());
        count_failed_leaves(start, targets.drop_last(), name) + if before.has_current()
            && before.current == name && !before.names.contains(targets.last()) {
            1nat
        } else {
            0nat
        }
    }
}

/// Whether `name` is the current state of `model`, as a number.
pub open spec fn holds_current(model: ManagerModel, name: Seq<char>) -> nat {
    if model.has_current() && model.current == name {
        1
    } else {
        0
    }
}

proof fn lemma_count_push(calls: Seq<StateCall>, call: StateCall, name: Seq<char>)
    ensures
        count_enters(calls.push(call), name) == count_enters(calls, name) + if call
            == StateCall::Enter(name) {
            1nat
        } else {
            0nat
        },
        count_leaves(calls.push(call), name) == count_leaves(calls, name) + if call
            == StateCall::Leave(name) {
            1nat
        } else {
            0nat
        },
{
    assert(calls.push(call).drop_last() == calls);
}

/// The books of enter and leave calls balance. Across any sequence of
/// switches made from a fresh manager, and for every name but the empty
/// one: the state was entered as often as it was left, plus once if it is
/// current now, less once for each switch that named an unknown state
/// while it was current. A state under the empty name is never current,
/// so it is never left.
pub proof fn lemma_call_accounting(
    names: Set<Seq<char>>,
    targets: Seq<Seq<char>>,
    name: Seq<char>,
)
    ensures
        ({
            let start = ManagerModel::initial(names);
            let end = start.switched_all(targets);
            &&& end.names == names
            &&& name.len() > 0 ==> count_enters(end.calls, name) + count_failed_leaves(
                start,
                targets,
                name,
            ) == count_leaves(end.calls, name) + holds_current(end, name)
            &&& name.len() == 0 ==> count_leaves(end.calls, name) == 0 && count_failed_leaves(
                start,
                targets,
                name,
            ) == 0 && holds_current(end, name) == 0
        }),
    decreases targets.len(),
{
    let start = ManagerModel::initial(names);
    if targets.len() > 0 {
        lemma_call_accounting(names, targets.drop_last(), name);
        let before = start.switched_all(targets.drop_last());
        let target = targets.last();
        let left = if before.has_current() {
            before.calls.push(StateCall::Leave(before.current))
        } else {
            before.calls
        };
        if before.has_current() {
            lemma_count_push(before.calls, StateCall::Leave(before.current), name);
        }
        if names.contains(target) {
            lemma_count_push(left, StateCall::Enter(target), name);
        }
    }
}

/// While no state is registered under the empty name, a manager makes no
/// call before its first switch to a registered name, and has a current
/// state ever after.
pub proof fn lemma_no_call_without_current(names: Set<Seq<char>>, targets: Seq<Seq<char>>)
    requires
        !names.contains(Seq::<char>::empty()),
    ensures
        ({
            let end = ManagerModel::initial(names).switched_all(targets);
            &&& end.names == names
            &&& end.current.len() > 0 ==> names.contains(end.current)
            &&& !end.has_current() ==> end.calls.len() == 0
        }),
    decreases targets.len(),
{
    if targets.len() > 0 {
        lemma_no_call_without_current(names, targets.drop_last());
        let target = targets.last();
        if names.contains(target) {
            assert(target.len() > 0) by {
                if target.len() == 0 {
                    assert(target == Seq::<char>::empty());
                }
            }
        }
    }
}

/// Enter and leave calls pair up. Across any sequence of switches made
/// from a fresh manager: a state has been left at most once more than it
/// has been entered exactly when at most one switch, or two if the state
/// is current now, named an unknown state while it was current. While no
/// state is current, a state has been entered as often as left exactly
/// when no such switch took place and, for the empty name, it was never
/// entered; both hold of every state where the empty name is not
/// registered.
pub proof fn lemma_enter_leave_pairing(
    names: Set<Seq<char>>,
    targets: Seq<Seq<char>>,
    name: Seq<char>,
)
    ensures
        ({
            let start = ManagerModel::initial(names);
            let end = start.switched_all(targets);
            let failed = count_failed_leaves(start, targets, name);
            let enters = count_enters(end.calls, name);
            let leaves = count_leaves(end.calls, name);
            &&& leaves <= enters + 1 <==> failed <= 1 + holds_current(end, name)
            &&& !end.has_current() ==> (leaves == enters <==> failed == 0 && (name.len() == 0
                ==> enters == 0))
            &&& !end.has_current() && !names.contains(Seq::<char>::empty()) ==> leaves == enters
        }),
{
    lemma_call_accounting(names, targets, name);
    if !names.contains(Seq::<char>::empty()) {
        lemma_no_call_without_current(names, targets);
    }
}

/// A switch to an unknown name keeps the current state current and enters
/// nothing. The one call it makes is the leave of the current state, if
/// there is one.
pub proof fn lemma_unknown_switch(model: ManagerModel, name: Seq<char>)
    requires
        !model.names.contains(name),
    ensures
        model.switched(name).current == model.current,
        model.switched(name).names == model.names,
        model.switched(name).calls == (if model.has_current() {
            model.calls.push(StateCall::Leave(model.current))
        } else {
            model.calls
        }),
        forall|any: Seq<char>|
            count_enters(model.switched(name).calls, any) == count_enters(model.calls, any),
{
    assert forall|any: Seq<char>|
        count_enters(model.switched(name).calls, any) == count_enters(model.calls, any) by {
        if model.has_current() {
            lemma_count_push(model.calls, StateCall::Leave(model.current), any);
        }
    }
}

/// A switch to a registered name leaves the current state, if there is
/// one, exactly once, before it enters the state of that name exactly
/// once, and that state is current afterwards.
pub proof fn lemma_known_switch(model: ManagerModel, name: Seq<char>)
    requires
        model.names.contains(name),
    ensures
        model.switched(name).current == name,
        model.switched(name).calls == (if model.has_current() {
            model.calls.push(StateCall::Leave(model.current)).push(StateCall::Enter(name))
        } else {
            model.calls.push(StateCall::Enter(name))
        }),
{
}

/// The order of a frame, with what is handed over. While a state is
/// current, a frame in which the update asks for nothing makes two calls:
/// the update with the frame's delta and the window, then the draw with
/// the delta into the recording that the window starts at the frame's
/// time. One in which the update asks for a registered state goes on to
/// leave the current state and to enter the new one, which is current
/// from then on. The switch never comes before the draw.
pub proof fn lemma_frame_order(
    model: ManagerModel,
    name: Seq<char>,
    time: u64,
    dt: u64,
    window: Window,
)
    requires
        model.has_current(),
        model.names.contains(name),
    ensures
        model.ticked(None, time, dt, window).current == model.current,
        model.ticked(None, time, dt, window).calls == model.calls.push(
            StateCall::Update(model.current, dt, window),
        ).push(StateCall::Draw(model.current, window.frame_start(time), dt)),
        model.ticked(Some(name), time, dt, window).current == name,
        model.ticked(Some(name), time, dt, window).calls == model.calls.push(
            StateCall::Update(model.current, dt, window),
        ).push(StateCall::Draw(model.current, window.frame_start(time), dt)).push(
            StateCall::Leave(model.current),
        ).push(StateCall::Enter(name)),
{
}

/// Names and states after `state` is registered under `name`: as before
/// where the name is taken, else with the new pair at the end.
pub open spec fn registered<S>(
    names: Seq<Seq<char>>,
    states: Seq<S>,
    name: Seq<char>,
    state: S,
) -> (Seq<Seq<char>>, Seq<S>) {
    if first_index(names, name) is Some {
        (names, states)
    } else {
        (names.push(name), states.push(state))
    }
}

/// Adding under a taken name changes nothing. After `first` was added
/// under `name`, adding `second` under the same name leaves names and
/// states as they were; and if the name was free before, `first` is the
/// state that stands under it.
pub proof fn lemma_duplicate_add<S>(
    names: Seq<Seq<char>>,
    states: Seq<S>,
    name: Seq<char>,
    first: S,
    second: S,
)
    requires
        names.len() == states.len(),
    ensures
        ({
            let once = registered(names, states, name, first);
            let twice = registered(once.0, once.1, name, second);
            &&& twice == once
            &&& first_index(once.0, name) is Some
            &&& first_index(names, name) is None ==> once.1[first_index(once.0, name).unwrap()]
                == first
            &&& first_index(names, name) is Some ==> once.1[first_index(once.0, name).unwrap()]
                == states[first_index(names, name).unwrap()]
        }),
{
    lemma_first_index_push(names, name, name);
    lemma_first_index_is_first(names, name);
}

/// Registering keeps the names distinct: a name is added only where no
/// place holds it yet.
pub proof fn lemma_registered_keeps_names_distinct<S>(
    names: Seq<Seq<char>>,
    states: Seq<S>,
    name: Seq<char>,
    state: S,
)
    requires
        names.no_duplicates(),
    ensures
        registered(names, states, name, state).0.no_duplicates(),
{
    lemma_first_index_is_first(names, name);
}

struct Entry<S> {
    name: String,
    state: S,
}

/// Owns the states by name and knows which one is current. No name is
/// registered twice: a new manager is well-formed, and every method keeps
/// a well-formed manager well-formed.
pub struct GameStateManager<S: GameState> {
    entries: Vec<Entry<S>>,
    current_state: String,
    calls: Ghost<Seq<StateCall>>,
    wish: Ghost<Option<Seq<char>>>,
}

impl<S: GameState> GameStateManager<S> {
    /// The registered names, in the order in which they were added.
    pub closed spec fn names(&self) -> Seq<Seq<char>> {
        Seq::new(self.entries@.len(), |i: int| self.entries@[i].name@)
    }

    /// The registered states, each at the place of its name.
    pub closed spec fn states(&self) -> Seq<S> {
        Seq::new(self.entries@.len(), |i: int| self.entries@[i].state)
    }

    /// The name of the current state; empty when there is none.
    pub closed spec fn current(&self) -> Seq<char> {
        self.current_state@
    }

    /// The manager's own record of the calls it has made on its states,
    /// oldest first, each with what it handed over. It is written beside
    /// each call; the methods that make the calls state the calls
    /// themselves as well. Calls that others make on a state are not in
    /// it.
    pub closed spec fn calls(&self) -> Seq<StateCall> {
        self.calls@
    }

    /// What the last update handed out: the name of the state it asked
    /// for, or nothing. Nothing before the first update and after an
    /// update without a current state.
    pub closed spec fn last_wish(&self) -> Option<Seq<char>> {
        self.wish@
    }

    /// Whether the manager is well-formed: no name is registered twice.
    pub open spec fn wf(&self) -> bool {
        self.names().no_duplicates()
    }

    /// Where the state registered under `name` stands, if one is.
    pub open spec fn index_of(&self, name: Seq<char>) -> Option<int> {
        first_index(self.names(), name)
    }

    /// Where the current state stands, if there is one.
    pub open spec fn current_index(&self) -> Option<int> {
        if self.current().len() > 0 {
            self.index_of(self.current())
        } else {
            None
        }
    }

    /// Names, current name and calls.
    pub open spec fn model(&self) -> ManagerModel {
        ManagerModel {
            names: self.names().to_set(),
            current: self.current(),
            calls: self.calls(),
        }
    }

    /// Every name has its state: there are as many of the one as of the
    /// other, and a name's place is a state's place.
    pub proof fn lemma_names_match_states(&self, name: Seq<char>)
        ensures
            self.names().len() == self.states().len(),
            self.index_of(name) matches Some(i) ==> 0 <= i < self.states().len(),
    {
        lemma_first_index_is_first(self.names(), name);
    }

    /// A manager without states.
    pub fn new() -> (manager: GameStateManager<S>)
        ensures
            manager.names() == Seq::<Seq<char>>::empty(),
            manager.states() == Seq::<S>::empty(),
            manager.current() == Seq::<char>::empty(),
            manager.calls() == Seq::<StateCall>::empty(),
            manager.last_wish() is None,
            manager.wf(),
    {
        GameStateManager {
            entries: Vec::new(),
            current_state: String::new(),
            calls: Ghost(Seq::empty()),
            wish: Ghost(None),
        }
    }

    fn position(&self, name: &String) -> (found: Option<usize>)
        ensures
            match found {
                Some(i) => i < self.names().len() && self.index_of(name@) == Some(i as int),
                None => self.index_of(name@) is None,
            },
    {
        let mut i: usize = 0;
        while i < self.entries.len()
            invariant
                i <= self.entries@.len(),
                forall|j: int| 0 <= j < i ==> self.names()[j] != name@,
            decreases self.entries@.len() - i,
        {
            if self.entries[i].name == *name {
                proof {
                    lemma_first_index_found(self.names(), name@, i as int);
                }
                return Some(i);
            }
            i += 1;
        }
        proof {
            lemma_first_index_absent(self.names(), name@);
        }
        None
    }

    /// Registers `state` under `name`. Where the name is already taken,
    /// nothing changes: the state that was registered first stays.
    pub fn add_state(&mut self, name: &str, state: S)
        ensures
            (final(self).names(), final(self).states()) == registered(
                old(self).names(),
                old(self).states(),
                name@,
                state,
            ),
            old(self).wf() ==> final(self).wf(),
            final(self).current() == old(self).current(),
            final(self).calls() == old(self).calls(),
            final(self).last_wish() == old(self).last_wish(),
    {
        let owned = name.to_owned();
        proof {
            if self.wf() {
                lemma_registered_keeps_names_distinct(self.names(), self.states(), name@, state);
            }
        }
        match self.position(&owned) {
            Some(_) => {},
            None => {
                self.entries.push(Entry { name: owned, state });
                proof {
                    assert(self.names() == old(self).names().push(name@));
                    assert(self.states() == old(self).states().push(state));
                }
            },
        }
    }

    /// Whether a state is registered under `name`.
    pub fn has_state(&self, name: &str) -> (known: bool)
        ensures
            known == (self.index_of(name@) is Some),
    {
        let owned = name.to_owned();
        self.position(&owned).is_some()
    }

    /// The name of the current state; empty when no switch has succeeded.
    pub fn current_name(&self) -> (name: &String)
        ensures
            name@ == self.current(),
    {
        &self.current_state
    }

    /// Leaves the current state, if there is one; then, if `name` is
    /// registered, enters its state and makes it current. Where `name` is
    /// unknown, the current state stays current. No name is added or
    /// removed. The state that is left is what one call of `on_leave`
    /// made of it, the state that is entered what one call of `on_enter`
    /// made of it, and a state that is both went through the two in this
    /// order; no other state changes.
    pub fn switch(&mut self, name: &str)
        ensures
            final(self).model() == old(self).model().switched(name@),
            final(self).last_wish() == old(self).last_wish(),
            final(self).names() == old(self).names(),
            final(self).states().len() == old(self).states().len(),
            forall|i: int|
                0 <= i < old(self).states().len() && old(self).current_index() != Some(i)
                    && old(self).index_of(name@) != Some(i) ==> final(self).states()[i] == old(
                    self,
                ).states()[i],
            old(self).current_index() matches Some(i) ==> old(self).index_of(name@) != Some(i)
                ==> exists|leaving: &mut S|
                mut_ref_current(leaving) == old(self).states()[i] && mut_ref_future(leaving)
                    == final(self).states()[i] && call_ensures(S::on_leave, (leaving,), ()),
            old(self).index_of(name@) matches Some(i) ==> old(self).current_index() != Some(i)
                ==> exists|entering: &mut S|
                mut_ref_current(entering) == old(self).states()[i] && mut_ref_future(entering)
                    == final(self).states()[i] && call_ensures(S::on_enter, (entering,), ()),
            old(self).current_index() matches Some(i) ==> old(self).index_of(name@) == Some(i)
                ==> exists|leaving: &mut S, entering: &mut S|
                mut_ref_current(leaving) == old(self).states()[i] && mut_ref_future(leaving)
                    == mut_ref_current(entering) && mut_ref_future(entering) == final(self).states()[i] && call_ensures(S::on_leave, (leaving,), ()) && call_ensures(
                    S::on_enter,
                    (entering,),
                    (),
                ),
    {
        let owned = name.to_owned();
        proof {
            lemma_first_index_is_first(self.names(), self.current());
            lemma_first_index_is_first(self.names(), name@);
        }
        if !self.current_state.as_str().is_empty() {
            match self.position(&self.current_state) {
                Some(i) => {
                    self.entries[i].state.on_leave();
                    self.calls = Ghost(self.calls@.push(StateCall::Leave(self.current_state@)));
                },
                None => {},
            }
        }
        assert(self.names() == old(self).names());
        match self.position(&owned) {
            Some(i) => {
                self.entries[i].state.on_enter();
                self.calls = Ghost(self.calls@.push(StateCall::Enter(owned@)));
                self.current_state = owned;
            },
            None => {},
        }
        assert(self.names() == old(self).names());
    }

    /// Lets the current state update, handing it `dt` and `window`, and
    /// hands out what the update returned; nothing where no state is
    /// current. The current state afterwards is what this one call made
    /// of it; no other state changes.
    pub fn update_current(&mut self, dt: u64, window: &Window) -> (wish: Option<String>)
        ensures
            final(self).model() == old(self).model().updated(dt, *window),
            final(self).last_wish() == wish_of(wish),
            old(self).current_index() matches Some(i) ==> exists|state: &mut S|
                mut_ref_current(state) == old(self).states()[i] && mut_ref_future(state)
                    == final(self).states()[i] && call_ensures(
                    S::update,
                    (state, dt, window),
                    wish,
                ),
            old(self).current_index() is None ==> wish is None && final(self).states() == old(
                self,
            ).states(),
            final(self).names() == old(self).names(),
            final(self).states().len() == old(self).states().len(),
            forall|i: int|
                0 <= i < old(self).states().len() && old(self).current_index() != Some(i)
                    ==> final(self).states()[i] == old(self).states()[i],
    {
        proof {
            lemma_first_index_is_first(self.names(), self.current());
        }
        self.wish = Ghost(None);
        if self.current_state.as_str().is_empty() {
            return None;
        }
        match self.position(&self.current_state) {
            Some(i) => {
                let wish = self.entries[i].state.update(dt, window);
                self.calls = Ghost(
                    self.calls@.push(StateCall::Update(self.current_state@, dt, *window)),
                );
                self.wish = Ghost(wish_of(wish));
                assert(self.names() == old(self).names());
                wish
            },
            None => None,
        }
    }

    /// Lets the current state draw, handing it `command_buffer` and `dt`;
    /// where no state is current, the buffer stays as it is. The current
    /// state and the buffer afterwards are what this one call made of
    /// them; no other state changes.
    pub fn draw_current(&mut self, command_buffer: &mut CommandBuffer, dt: u64)
        ensures
            final(self).model() == old(self).model().drawn(old(command_buffer)@, dt),
            final(self).last_wish() == old(self).last_wish(),
            old(self).current_index() matches Some(i) ==> exists|
                state: &mut S,
                buffer: &mut CommandBuffer,
            |
                mut_ref_current(state) == old(self).states()[i] && mut_ref_future(state)
                    == final(self).states()[i] && mut_ref_current(buffer) == *old(command_buffer)
                    && mut_ref_future(buffer) == *final(command_buffer) && call_ensures(
                    S::draw,
                    (state, buffer, dt),
                    (),
                ),
            old(self).current_index() is None ==> *final(command_buffer) == *old(command_buffer)
                && final(self).states() == old(self).states(),
            final(self).names() == old(self).names(),
            final(self).states().len() == old(self).states().len(),
            forall|i: int|
                0 <= i < old(self).states().len() && old(self).current_index() != Some(i)
                    ==> final(self).states()[i] == old(self).states()[i],
    {
        proof {
            lemma_first_index_is_first(self.names(), self.current());
        }
        if self.current_state.as_str().is_empty() {
            return ;
        }
        let ghost handed = command_buffer@;
        match self.position(&self.current_state) {
            Some(i) => {
                self.entries[i].state.draw(command_buffer, dt);
                self.calls = Ghost(
                    self.calls@.push(StateCall::Draw(self.current_state@, handed, dt)),
                );
                assert(self.names() == old(self).names());
            },
            None => {},
        }
    }

    /// The current state, to be used and changed in place; nothing where
    /// no state is current.
    pub fn get_current_state(&mut self) -> (state: Option<&mut S>)
        ensures
            match state {
                Some(s) => old(self).current_index() is Some && *s == old(self).states()[old(
                    self,
                ).current_index().unwrap()] && final(self).states() == old(self).states().update(
                    old(self).current_index().unwrap(),
                    *final(s),
                ),
                None => old(self).current_index() is None && final(self).states() == old(
                    self,
                ).states(),
            },
            final(self).names() == old(self).names(),
            final(self).current() == old(self).current(),
            final(self).calls() == old(self).calls(),
            final(self).last_wish() == old(self).last_wish(),
            final(self).states().len() == old(self).states().len(),
            old(self).current_index() matches Some(i) ==> 0 <= i < old(self).states().len(),
    {
        proof {
            lemma_first_index_is_first(self.names(), self.current());
        }
        if !self.current_state.as_str().is_empty() {
            match self.position(&self.current_state) {
                Some(i) => Some(&mut self.entries[i].state),
                None => None,
            }
        } else {
            None
        }
    }
}

} // verus!
