//! Key bindings, the queue of triggered actions and the set of held ones.

use vstd::prelude::*;
use winit::keyboard::KeyCode;

verus! {

/// winit's physical key code, carried through as an opaque value.
#[verifier::external_type_specification]
#[verifier::external_body]
pub struct ExKeyCode(KeyCode);

/// Relies on the `PartialEq` that winit derives for `KeyCode`, a fieldless
/// enum: two codes are equal exactly when they are the same key.
pub assume_specification[ <KeyCode as PartialEq>::eq ](a: &KeyCode, b: &KeyCode) -> (r: bool)
    ensures
        r == (*a == *b),
;

/// A named thing the user can do, bound to keys.
#[derive(Clone, Debug)]
pub struct Action {
    name: String,
}

impl View for Action {
    type V = Seq<char>;

    closed spec fn view(&self) -> Seq<char> {
        self.name@
    }
}

impl PartialEq for Action {
    fn eq(&self, other: &Action) -> (r: bool)
        ensures
            r == (self@ == other@),
    {
        self.name == other.name
    }
}

impl vstd::std_specs::cmp::PartialEqSpecImpl for Action {
    open spec fn obeys_eq_spec() -> bool {
        true
    }

    open spec fn eq_spec(&self, other: &Action) -> bool {
        self@ == other@
    }
}

impl Action {
    pub fn new(name: &str) -> (r: Self)
        ensures
            r@ == name@,
    {
        Action { name: String::from_str(name) }
    }

    pub fn name(&self) -> (r: &str)
        ensures
            r@ == self@,
    {
        self.name.as_str()
    }

    fn duplicate(&self) -> (r: Self)
        ensures
            r@ == self@,
    {
        Action { name: self.name.clone() }
    }
}

/// A key going down or up; `key` is `None` for a key the window system
/// could not identify.
#[derive(Clone, Copy, Debug)]
pub struct KeyEvent {
    pub key: Option<KeyCode>,
    pub pressed: bool,
}

/// The action bound to `key`: the last binding made for it.
pub open spec fn binding(bindings: Seq<(KeyCode, Seq<char>)>, key: KeyCode) -> Option<Seq<char>>
    decreases bindings.len(),
{
    if bindings.len() == 0 {
        None
    } else if bindings.last().0 == key {
        Some(bindings.last().1)
    } else {
        binding(bindings.drop_last(), key)
    }
}

proof fn lemma_push_names(names: Seq<Seq<char>>, a: Seq<char>)
    requires
        names.no_duplicates(),
        !names.to_set().contains(a),
    ensures
        names.push(a).no_duplicates(),
        names.push(a).to_set() == names.to_set().insert(a),
{
    let now = names.push(a);
    assert forall|x: Seq<char>| now.to_set().contains(x) <==> names.to_set().insert(a).contains(
        x,
    ) by {
        if names.contains(x) {
            let j = choose|j: int| 0 <= j < names.len() && names[j] == x;
            assert(now[j] == x);
        }
        if x == a {
            assert(now[names.len() as int] == a);
        }
        if now.contains(x) && x != a {
            let j = choose|j: int| 0 <= j < now.len() && now[j] == x;
            assert(names[j] == x);
        }
    }
    assert(now.to_set() =~= names.to_set().insert(a));
    assert forall|k: int, l: int| 0 <= k < now.len() && 0 <= l < now.len() && k != l implies now[k]
        != now[l] by {
        if k < names.len() && l < names.len() {
            assert(now[k] == names[k] && now[l] == names[l]);
        } else if k < names.len() {
            assert(names.contains(now[k]));
        } else if l < names.len() {
            assert(names.contains(now[l]));
        }
    }
}

proof fn lemma_remove_names(names: Seq<Seq<char>>, i: int)
    requires
        names.no_duplicates(),
        0 <= i < names.len(),
    ensures
        names.remove(i).no_duplicates(),
        names.remove(i).to_set() == names.to_set().remove(names[i]),
{
    let now = names.remove(i);
    let a = names[i];
    assert forall|x: Seq<char>| now.to_set().contains(x) <==> names.to_set().remove(a).contains(
        x,
    ) by {
        if now.contains(x) {
            let j = choose|j: int| 0 <= j < now.len() && now[j] == x;
            if j < i {
                assert(names[j] == x);
            } else {
                assert(names[j + 1] == x);
            }
        }
        if names.contains(x) && x != a {
            let j = choose|j: int| 0 <= j < names.len() && names[j] == x;
            if j < i {
                assert(now[j] == x);
            } else {
                assert(j != i);
                assert(now[j - 1] == x);
            }
        }
    }
    assert(now.to_set() =~= names.to_set().remove(a));
    assert forall|k: int, l: int| 0 <= k < now.len() && 0 <= l < now.len() && k != l implies now[k]
        != now[l] by {
        let k2 = if k < i {
            k
        } else {
            k + 1
        };
        let l2 = if l < i {
            l
        } else {
            l + 1
        };
        assert(now[k] == names[k2] && now[l] == names[l2]);
    }
}

/// Turns key events into actions: a queue of the actions triggered since the
/// last reset, and the set of actions whose key is held down.
pub struct InputHandler {
    keys_to_actions: Vec<(KeyCode, Action)>,
    action_queue: Vec<Action>,
    active_actions: Vec<Action>,
}

impl InputHandler {
    /// The key bindings, in the order they were made.
    pub closed spec fn bindings(&self) -> Seq<(KeyCode, Seq<char>)> {
        self.keys_to_actions@.map_values(|p: (KeyCode, Action)| (p.0, p.1@))
    }

    /// The actions triggered since the last reset, in order.
    pub closed spec fn queue(&self) -> Seq<Seq<char>> {
        self.action_queue@.map_values(|a: Action| a@)
    }

    /// The actions whose key is held down.
    pub closed spec fn active(&self) -> Set<Seq<char>> {
        self.active_actions@.map_values(|a: Action| a@).to_set()
    }

    pub closed spec fn wf(&self) -> bool {
        self.active_actions@.map_values(|a: Action| a@).no_duplicates()
    }

    pub fn new() -> (r: Self)
        ensures
            r.wf(),
            r.bindings().len() == 0,
            r.queue().len() == 0,
            r.active() == Set::<Seq<char>>::empty(),
    {
        let r = InputHandler {
            keys_to_actions: Vec::new(),
            action_queue: Vec::new(),
            active_actions: Vec::new(),
        };
        assert(r.active_actions@.map_values(|a: Action| a@) =~= Seq::<Seq<char>>::empty());
        r
    }

    /// Binds `key` to `action`, replacing an earlier binding of the key.
    pub fn add_action(&mut self, key: KeyCode, action: Action)
        requires
            old(self).wf(),
        ensures
            final(self).wf(),
            final(self).bindings() == old(self).bindings().push((key, action@)),
            final(self).queue() == old(self).queue(),
            final(self).active() == old(self).active(),
    {
        self.keys_to_actions.push((key, action));
        assert(self.bindings() =~= old(self).bindings().push((key, action@)));
    }

    fn bound_action(&self, key: KeyCode) -> (r: Option<Action>)
        ensures
            match r {
                Some(a) => binding(self.bindings(), key) == Some(a@),
                None => binding(self.bindings(), key) is None,
            },
    {
        let mut i = self.keys_to_actions.len();
        assert(self.bindings().subrange(0, i as int) =~= self.bindings());
        while i > 0
            invariant
                i <= self.keys_to_actions@.len(),
                binding(self.bindings(), key) == binding(self.bindings().subrange(0, i as int), key),
            decreases i,
        {
            let ghost head = self.bindings().subrange(0, i as int);
            assert(head.last() == (self.keys_to_actions@[i - 1].0, self.keys_to_actions@[i - 1].1@));
            assert(head.drop_last() =~= self.bindings().subrange(0, i - 1));
            let found = self.keys_to_actions[i - 1].0 == key;
            if found {
                return Some(self.keys_to_actions[i - 1].1.duplicate());
            }
            i = i - 1;
        }
        None
    }

    fn active_position(&self, action: &Action) -> (r: Option<usize>)
        ensures
            match r {
                Some(i) => i < self.active_actions@.len() && self.active_actions@[i as int]@
                    == action@,
                None => !self.active().contains(action@),
            },
    {
        let mut i: usize = 0;
        while i < self.active_actions.len()
            invariant
                i <= self.active_actions@.len(),
                forall|k: int| 0 <= k < i ==> (#[trigger] self.active_actions@[k])@ != action@,
            decreases self.active_actions@.len() - i,
        {
            if self.active_actions[i] == *action {
                return Some(i);
            }
            i = i + 1;
        }
        proof {
            let names = self.active_actions@.map_values(|a: Action| a@);
            if names.to_set().contains(action@) {
                assert(names.contains(action@));
                let k = choose|k: int| 0 <= k < names.len() && names[k] == action@;
                assert(self.active_actions@[k]@ == action@);
            }
        }
        None
    }

    /// Records a key event: a pressed key activates its action, a released
    /// one deactivates it, and either way the action joins the queue. A key
    /// without a binding, or one that was not identified, changes nothing.
    pub fn submit_key_event(&mut self, event: KeyEvent)
        requires
            old(self).wf(),
        ensures
            final(self).wf(),
            final(self).bindings() == old(self).bindings(),
            match event.key {
                Some(k) => match binding(old(self).bindings(), k) {
                    Some(a) => {
                        &&& final(self).queue() == old(self).queue().push(a)
                        &&& final(self).active() == if event.pressed {
                            old(self).active().insert(a)
                        } else {
                            old(self).active().remove(a)
                        }
                    },
                    None => final(self).queue() == old(self).queue() && final(self).active()
                        == old(self).active(),
                },
                None => final(self).queue() == old(self).queue() && final(self).active()
                    == old(self).active(),
            },
    {
        let key = match event.key {
            Some(k) => k,
            None => {
                return ;
            },
        };
        let action = match self.bound_action(key) {
            Some(a) => a,
            None => {
                return ;
            },
        };
        let position = self.active_position(&action);
        let ghost names = self.active_actions@.map_values(|a: Action| a@);
        let ghost a = action@;
        if event.pressed {
            if position.is_none() {
                self.active_actions.push(action.duplicate());
                proof {
                    let now = self.active_actions@.map_values(|a: Action| a@);
                    assert(now =~= names.push(a));
                    lemma_push_names(names, a);
                }
            } else {
                proof {
                    let i = position->0 as int;
                    assert(names[i] == a);
                    assert(self.active() =~= old(self).active().insert(a));
                }
            }
        } else {
            match position {
                Some(i) => {
                    self.active_actions.remove(i);
                    proof {
                        let now = self.active_actions@.map_values(|a: Action| a@);
                        assert(now =~= names.remove(i as int));
                        assert(names[i as int] == a);
                        lemma_remove_names(names, i as int);
                    }
                },
                None => {
                    assert(self.active() =~= old(self).active().remove(a));
                },
            }
        }
        self.action_queue.push(action);
        assert(self.queue() =~= old(self).queue().push(a));
    }

    /// The actions triggered since the last reset, in order.
    pub fn actions(&self) -> (r: &[Action])
        ensures
            r@.map_values(|a: Action| a@) == self.queue(),
    {
        self.action_queue.as_slice()
    }

    /// Forgets the queued actions; held keys stay active.
    pub fn reset(&mut self)
        requires
            old(self).wf(),
        ensures
            final(self).wf(),
            final(self).queue().len() == 0,
            final(self).bindings() == old(self).bindings(),
            final(self).active() == old(self).active(),
    {
        self.action_queue.clear();
        assert(self.queue() =~= Seq::<Seq<char>>::empty());
    }

    pub fn is_action_active(&self, action: &Action) -> (r: bool)
        ensures
            r == self.active().contains(action@),
    {
        match self.active_position(action) {
            Some(i) => {
                proof {
                    let names = self.active_actions@.map_values(|a: Action| a@);
                    assert(names[i as int] == action@);
                    assert(names.contains(action@));
                }
                true
            },
            None => false,
        }
    }
}

/// Whether one of `actions` is the one that asks to leave the application.
pub fn quit_requested(actions: &[Action]) -> (r: bool)
    ensures
        r == exists|i: int| 0 <= i < actions@.len() && (#[trigger] actions@[i])@ == "quit"@,
{
    let quit = Action::new("quit");
    let mut i: usize = 0;
    while i < actions.len()
        invariant
            i <= actions@.len(),
            quit@ == "quit"@,
            forall|k: int| 0 <= k < i ==> (#[trigger] actions@[k])@ != "quit"@,
        decreases actions@.len() - i,
    {
        if actions[i] == quit {
            return true;
        }
        i = i + 1;
    }
    false
}

} // verus!
