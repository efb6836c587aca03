//! The table that binds physical keys to logical buttons.
//!
//! The table is a map from key name to button in which no button occurs
//! twice: a button has at most one key.  It is stored by button, one slot per
//! button, which makes "at most one key per button" structural and leaves
//! "no key in two slots" as the invariant of the type.

use crate::input::{button_at, lemma_position_round_trip, Input, BUTTON_COUNT};
use vstd::prelude::*;

verus! {

/// No button is the value of two keys.
pub open spec fn injective(table: Map<Seq<char>, Input>) -> bool {
    forall|j: Seq<char>, k: Seq<char>|
        #![trigger table[j], table[k]]
        table.contains_key(j) && table.contains_key(k) && table[j] == table[k] ==> j == k
}

/// The table after `key` is bound to `button`: the key that `button` had, if
/// any, is gone, and `key` now belongs to `button` alone.
pub open spec fn rebind(table: Map<Seq<char>, Input>, key: Seq<char>, button: Input) -> Map<
    Seq<char>,
    Input,
> {
    Map::new(
        |k: Seq<char>| k == key || (table.contains_key(k) && table[k] != button),
        |k: Seq<char>|
            if k == key {
                button
            } else {
                table[k]
            },
    )
}

/// The table after the bindings of `calls` were made in order.
pub open spec fn rebind_all(table: Map<Seq<char>, Input>, calls: Seq<(Seq<char>, Input)>) -> Map<
    Seq<char>,
    Input,
>
    decreases calls.len(),
{
    if calls.len() == 0 {
        table
    } else {
        rebind(rebind_all(table, calls.drop_last()), calls.last().0, calls.last().1)
    }
}

/// The key names of a list of bindings, as the contracts speak of them.
pub open spec fn binding_views(pairs: Seq<(String, Input)>) -> Seq<(Seq<char>, Input)> {
    Seq::new(pairs.len(), |i: int| (pairs[i].0@, pairs[i].1))
}

/// The key name held in slot `i`.
spec fn slot_key(slots: Seq<Option<String>>, i: int) -> Option<Seq<char>> {
    match slots[i] {
        Some(name) => Some(name@),
        None => None,
    }
}

/// One slot per button, and no key name in two slots.
spec fn slots_valid(slots: Seq<Option<String>>) -> bool {
    &&& slots.len() == BUTTON_COUNT
    &&& forall|i: int, j: int|
        #![trigger slot_key(slots, i), slot_key(slots, j)]
        0 <= i < j < BUTTON_COUNT && slot_key(slots, i) is Some ==> slot_key(slots, i) != slot_key(
            slots,
            j,
        )
}

/// The map from key name to button that the slots stand for.
spec fn slots_table(slots: Seq<Option<String>>) -> Map<Seq<char>, Input> {
    Map::new(
        |k: Seq<char>| exists|i: int| 0 <= i < BUTTON_COUNT && #[trigger] slot_key(slots, i) == Some(k),
        |k: Seq<char>|
            button_at(
                choose|i: int| 0 <= i < BUTTON_COUNT && #[trigger] slot_key(slots, i) == Some(k),
            ),
    )
}

/// A filled slot is an entry of the table.
proof fn lemma_slot_is_entry(slots: Seq<Option<String>>, i: int)
    requires
        slots_valid(slots),
        0 <= i < BUTTON_COUNT,
        slot_key(slots, i) is Some,
    ensures
        slots_table(slots).contains_key(slot_key(slots, i)->0),
        slots_table(slots)[slot_key(slots, i)->0] == button_at(i),
{
    let k = slot_key(slots, i)->0;
    let w = choose|w: int| 0 <= w < BUTTON_COUNT && #[trigger] slot_key(slots, w) == Some(k);
    assert(slot_key(slots, w) == slot_key(slots, i));
    assert(w == i);
}

/// An entry of the table is a filled slot.
proof fn lemma_entry_is_slot(slots: Seq<Option<String>>, k: Seq<char>) -> (i: int)
    requires
        slots_valid(slots),
        slots_table(slots).contains_key(k),
    ensures
        0 <= i < BUTTON_COUNT,
        slot_key(slots, i) == Some(k),
        slots_table(slots)[k] == button_at(i),
{
    choose|i: int| 0 <= i < BUTTON_COUNT && #[trigger] slot_key(slots, i) == Some(k)
}

/// Valid slots stand for an injective table.
proof fn lemma_slots_injective(slots: Seq<Option<String>>)
    requires
        slots_valid(slots),
    ensures
        injective(slots_table(slots)),
{
    let table = slots_table(slots);
    assert forall|j: Seq<char>, k: Seq<char>|
        #![trigger table[j], table[k]]
        table.contains_key(j) && table.contains_key(k) && table[j] == table[k] implies j == k by {
        let a = lemma_entry_is_slot(slots, j);
        let b = lemma_entry_is_slot(slots, k);
        assert(a == b);
    }
}

/// Binding keeps a table injective.
pub proof fn lemma_rebind_injective(table: Map<Seq<char>, Input>, key: Seq<char>, button: Input)
    requires
        injective(table),
    ensures
        injective(rebind(table, key, button)),
{
    let after = rebind(table, key, button);
    assert forall|j: Seq<char>, k: Seq<char>|
        #![trigger after[j], after[k]]
        after.contains_key(j) && after.contains_key(k) && after[j] == after[k] implies j == k by {
        if j != key && k != key {
            assert(table[j] == table[k]);
        }
    }
}

/// The key-to-button table of a configuration.
pub struct ButtonMap {
    keys: Vec<Option<String>>,
}

impl View for ButtonMap {
    type V = Map<Seq<char>, Input>;

    closed spec fn view(&self) -> Map<Seq<char>, Input> {
        slots_table(self.keys@)
    }
}

impl ButtonMap {
    #[verifier::type_invariant]
    spec fn well_formed(&self) -> bool {
        slots_valid(self.keys@)
    }

    /// A table without bindings.
    pub fn new() -> (table: ButtonMap)
        ensures
            table@ == Map::<Seq<char>, Input>::empty(),
            injective(table@),
    {
        let mut keys: Vec<Option<String>> = Vec::new();
        let mut i: usize = 0;
        while i < BUTTON_COUNT
            invariant
                i <= BUTTON_COUNT,
                keys@.len() == i,
                forall|j: int| 0 <= j < i ==> keys@[j] is None,
            decreases BUTTON_COUNT - i,
        {
            keys.push(None);
            i = i + 1;
        }
        assert(slots_table(keys@) =~= Map::<Seq<char>, Input>::empty());
        ButtonMap { keys }
    }

    /// The button that `key` is bound to.
    pub fn button_for(&self, key: &str) -> (button: Option<Input>)
        ensures
            button == (if self@.contains_key(key@) {
                Some(self@[key@])
            } else {
                None
            }),
            injective(self@),
    {
        proof {
            use_type_invariant(&*self);
            lemma_slots_injective(self.keys@);
        }
        let wanted = key.to_owned();
        let mut i: usize = 0;
        while i < BUTTON_COUNT
            invariant
                i <= BUTTON_COUNT,
                slots_valid(self.keys@),
                wanted@ == key@,
                forall|j: int| 0 <= j < i ==> slot_key(self.keys@, j) != Some(key@),
            decreases BUTTON_COUNT - i,
        {
            let hit = match &self.keys[i] {
                Some(name) => *name == wanted,
                None => false,
            };
            if hit {
                proof {
                    lemma_slot_is_entry(self.keys@, i as int);
                }
                return Input::from_index(i);
            }
            i = i + 1;
        }
        proof {
            if self@.contains_key(key@) {
                let at = lemma_entry_is_slot(self.keys@, key@);
            }
        }
        None
    }

    /// The key that `button` is bound to.
    pub fn key_for(&self, button: Input) -> (key: Option<&String>)
        ensures
            match key {
                Some(name) => self@.contains_key(name@) && self@[name@] == button,
                None => forall|k: Seq<char>| self@.contains_key(k) ==> self@[k] != button,
            },
            injective(self@),
    {
        proof {
            use_type_invariant(&*self);
            lemma_slots_injective(self.keys@);
            lemma_position_round_trip(button);
        }
        let at = button.index();
        let key = self.keys[at].as_ref();
        proof {
            match key {
                Some(name) => {
                    lemma_slot_is_entry(self.keys@, at as int);
                },
                None => {
                    assert forall|k: Seq<char>| self@.contains_key(k) implies self@[k] != button by {
                        let i = lemma_entry_is_slot(self.keys@, k);
                    }
                },
            }
        }
        key
    }

    /// Binds `key` to `button`.  The key that `button` had is dropped, and so
    /// is the binding that `key` had to another button.
    pub fn assign(&mut self, key: String, button: Input)
        ensures
            final(self)@ == rebind(old(self)@, key@, button),
            injective(final(self)@),
    {
        proof {
            use_type_invariant(&*self);
            lemma_position_round_trip(button);
        }
        let at = button.index();
        let mut keys: Vec<Option<String>> = Vec::new();
        let mut i: usize = 0;
        while i < BUTTON_COUNT
            invariant
                i <= BUTTON_COUNT,
                at == button.position(),
                slots_valid(self.keys@),
                keys@.len() == i,
                forall|j: int|
                    0 <= j < i ==> #[trigger] slot_key(keys@, j) == (if j == at || slot_key(
                        self.keys@,
                        j,
                    ) == Some(key@) {
                        None
                    } else {
                        slot_key(self.keys@, j)
                    }),
            decreases BUTTON_COUNT - i,
        {
            let kept = match &self.keys[i] {
                Some(name) => if i == at || *name == key {
                    None
                } else {
                    Some(name.clone())
                },
                None => None,
            };
            let ghost filled = keys@;
            keys.push(kept);
            proof {
                assert forall|j: int| 0 <= j < i + 1 implies #[trigger] slot_key(keys@, j) == (if j
                    == at || slot_key(self.keys@, j) == Some(key@) {
                    None
                } else {
                    slot_key(self.keys@, j)
                }) by {
                    if j < i {
                        assert(keys@[j] == filled[j]);
                        assert(slot_key(filled, j) == slot_key(keys@, j));
                    }
                }
            }
            i = i + 1;
        }
        let ghost cleared = keys@;
        keys.set(at, Some(key));
        proof {
            let before = self.keys@;
            let after = keys@;
            assert forall|j: int| 0 <= j < BUTTON_COUNT implies #[trigger] slot_key(after, j) == (if j
                == at {
                Some(key@)
            } else if slot_key(before, j) == Some(key@) {
                None
            } else {
                slot_key(before, j)
            }) by {
                assert(slot_key(cleared, j) == (if j == at || slot_key(before, j) == Some(key@) {
                    None
                } else {
                    slot_key(before, j)
                }));
            }
            assert(slots_valid(after));
            let want = rebind(slots_table(before), key@, button);
            let got = slots_table(after);
            assert forall|k: Seq<char>| #[trigger] want.contains_key(k) implies got.contains_key(k)
                && got[k] == want[k] by {
                if k == key@ {
                    assert(slot_key(after, at as int) == Some(k));
                    lemma_slot_is_entry(after, at as int);
                } else {
                    let j = lemma_entry_is_slot(before, k);
                    lemma_position_round_trip(button_at(j));
                    assert(j != at);
                    assert(slot_key(after, j) == Some(k));
                    lemma_slot_is_entry(after, j);
                }
            }
            assert forall|k: Seq<char>| #[trigger] got.contains_key(k) implies want.contains_key(
                k,
            ) by {
                let j = lemma_entry_is_slot(after, k);
                if j != at {
                    assert(slot_key(before, j) == Some(k));
                    lemma_slot_is_entry(before, j);
                    lemma_button_at_distinct(j, at as int);
                }
            }
            assert(got =~= want);
            lemma_slots_injective(after);
        }
        self.keys = keys;
    }

    /// Every binding once, in the order of the buttons.
    pub fn bindings(&self) -> (pairs: Vec<(String, Input)>)
        ensures
            pairs@.len() <= BUTTON_COUNT,
            forall|i: int|
                0 <= i < pairs@.len() ==> self@.contains_key(#[trigger] pairs@[i].0@)
                    && self@[pairs@[i].0@] == pairs@[i].1,
            forall|k: Seq<char>|
                self@.contains_key(k) ==> exists|i: int|
                    0 <= i < pairs@.len() && (#[trigger] pairs@[i]).0@ == k,
            forall|i: int, j: int|
                0 <= i < j < pairs@.len() ==> (#[trigger] pairs@[i]).1.position() < (
                #[trigger] pairs@[j]).1.position(),
    {
        proof {
            use_type_invariant(&*self);
        }
        let mut pairs: Vec<(String, Input)> = Vec::new();
        let mut i: usize = 0;
        while i < BUTTON_COUNT
            invariant
                i <= BUTTON_COUNT,
                slots_valid(self.keys@),
                pairs@.len() <= i,
                forall|n: int|
                    0 <= n < pairs@.len() ==> self@.contains_key(#[trigger] pairs@[n].0@)
                        && self@[pairs@[n].0@] == pairs@[n].1,
                forall|n: int| 0 <= n < pairs@.len() ==> (#[trigger] pairs@[n]).1.position() < i,
                forall|j: int|
                    0 <= j < i && slot_key(self.keys@, j) is Some ==> exists|n: int|
                        0 <= n < pairs@.len() && (#[trigger] pairs@[n]).0@ == slot_key(
                            self.keys@,
                            j,
                        )->0,
                forall|m: int, n: int|
                    0 <= m < n < pairs@.len() ==> (#[trigger] pairs@[m]).1.position() < (
                    #[trigger] pairs@[n]).1.position(),
            decreases BUTTON_COUNT - i,
        {
            match &self.keys[i] {
                Some(name) => {
                    let button = match Input::from_index(i) {
                        Some(b) => b,
                        None => Input::Up,
                    };
                    proof {
                        lemma_slot_is_entry(self.keys@, i as int);
                        lemma_button_at_position(i as int);
                    }
                    let ghost earlier = pairs@;
                    pairs.push((name.clone(), button));
                    proof {
                        let last = earlier.len() as int;
                        assert(pairs@[last].0@ == slot_key(self.keys@, i as int)->0);
                        assert forall|j: int|
                            0 <= j < i + 1 && slot_key(self.keys@, j) is Some implies exists|n: int|
                            0 <= n < pairs@.len() && (#[trigger] pairs@[n]).0@ == slot_key(
                                self.keys@,
                                j,
                            )->0 by {
                            if j < i {
                                let n = choose|n: int|
                                    0 <= n < earlier.len() && (#[trigger] earlier[n]).0@
                                        == slot_key(self.keys@, j)->0;
                                assert(pairs@[n] == earlier[n]);
                            }
                        }
                    }
                },
                None => {},
            }
            i = i + 1;
        }
        proof {
            assert forall|k: Seq<char>| self@.contains_key(k) implies exists|n: int|
                0 <= n < pairs@.len() && (#[trigger] pairs@[n]).0@ == k by {
                let j = lemma_entry_is_slot(self.keys@, k);
            }
        }
        pairs
    }

    /// The table that results from making the bindings of `pairs` in order,
    /// starting with none.
    pub fn from_bindings(pairs: Vec<(String, Input)>) -> (table: ButtonMap)
        ensures
            table@ == rebind_all(Map::<Seq<char>, Input>::empty(), binding_views(pairs@)),
            injective(table@),
    {
        let mut table = ButtonMap::new();
        let ghost calls = binding_views(pairs@);
        let mut i: usize = 0;
        while i < pairs.len()
            invariant
                i <= pairs@.len(),
                calls == binding_views(pairs@),
                table@ == rebind_all(Map::<Seq<char>, Input>::empty(), calls.take(i as int)),
                injective(table@),
            decreases pairs@.len() - i,
        {
            let name = pairs[i].0.clone();
            let button = pairs[i].1;
            table.assign(name, button);
            proof {
                let next = calls.take(i as int + 1);
                assert(next.drop_last() =~= calls.take(i as int));
                assert(next.last() == calls[i as int]);
            }
            i = i + 1;
        }
        proof {
            assert(calls.take(pairs@.len() as int) =~= calls);
        }
        table
    }
}

impl Clone for ButtonMap {
    fn clone(&self) -> (copy: ButtonMap)
        ensures
            copy@ == self@,
    {
        proof {
            use_type_invariant(&*self);
        }
        let mut keys: Vec<Option<String>> = Vec::new();
        let mut i: usize = 0;
        while i < BUTTON_COUNT
            invariant
                i <= BUTTON_COUNT,
                slots_valid(self.keys@),
                keys@.len() == i,
                forall|j: int| 0 <= j < i ==> #[trigger] slot_key(keys@, j) == slot_key(self.keys@, j),
            decreases BUTTON_COUNT - i,
        {
            let slot = match &self.keys[i] {
                Some(name) => Some(name.clone()),
                None => None,
            };
            let ghost filled = keys@;
            keys.push(slot);
            proof {
                assert forall|j: int| 0 <= j < i + 1 implies #[trigger] slot_key(keys@, j)
                    == slot_key(self.keys@, j) by {
                    if j < i {
                        assert(keys@[j] == filled[j]);
                        assert(slot_key(filled, j) == slot_key(keys@, j));
                    }
                }
            }
            i = i + 1;
        }
        proof {
            assert(slots_valid(keys@));
            assert(slots_table(keys@) =~= slots_table(self.keys@)) by {
                assert forall|k: Seq<char>| #[trigger]
                    slots_table(keys@).contains_key(k) implies slots_table(self.keys@).contains_key(k)
                    && slots_table(keys@)[k] == slots_table(self.keys@)[k] by {
                    let j = lemma_entry_is_slot(keys@, k);
                    assert(slot_key(self.keys@, j) == Some(k));
                    lemma_slot_is_entry(self.keys@, j);
                }
                assert forall|k: Seq<char>| #[trigger]
                    slots_table(self.keys@).contains_key(k) implies slots_table(keys@).contains_key(
                    k,
                ) by {
                    let j = lemma_entry_is_slot(self.keys@, k);
                    assert(slot_key(keys@, j) == Some(k));
                    lemma_slot_is_entry(keys@, j);
                }
            }
        }
        ButtonMap { keys }
    }
}

/// Positions below the button count name their own button.
proof fn lemma_button_at_position(i: int)
    requires
        0 <= i < BUTTON_COUNT,
    ensures
        button_at(i).position() == i,
{
}

/// Different positions name different buttons.
proof fn lemma_button_at_distinct(i: int, j: int)
    requires
        0 <= i < BUTTON_COUNT,
        0 <= j < BUTTON_COUNT,
        i != j,
    ensures
        button_at(i) != button_at(j),
{
    lemma_button_at_position(i);
    lemma_button_at_position(j);
}

/// Whatever bindings are made, and in whatever order, the table stays
/// injective after each of them: no button ever has two keys.
pub proof fn lemma_rebind_all_injective(
    table: Map<Seq<char>, Input>,
    calls: Seq<(Seq<char>, Input)>,
)
    requires
        injective(table),
    ensures
        forall|n: int| 0 <= n <= calls.len() ==> injective(#[trigger] rebind_all(table, calls.take(n))),
{
    assert forall|n: int| 0 <= n <= calls.len() implies injective(
        #[trigger] rebind_all(table, calls.take(n)),
    ) by {
        lemma_rebind_prefix_injective(table, calls.take(n));
    }
}

/// The table is injective after a whole list of bindings.
proof fn lemma_rebind_prefix_injective(table: Map<Seq<char>, Input>, calls: Seq<(Seq<char>, Input)>)
    requires
        injective(table),
    ensures
        injective(rebind_all(table, calls)),
    decreases calls.len(),
{
    if calls.len() > 0 {
        lemma_rebind_prefix_injective(table, calls.drop_last());
        lemma_rebind_injective(
            rebind_all(table, calls.drop_last()),
            calls.last().0,
            calls.last().1,
        );
    }
}

} // verus!
