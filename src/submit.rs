//! The submit phase's own decisions: which attendee slots an order marks as
//! used, and which components of a built order go into the submit payload.

use crate::text::has_prefix;
use vstd::prelude::*;

verus! {

/// The attendee slots chosen for one order.
#[derive(Clone, Debug, PartialEq, Eq)]
pub struct ViewerSelection {
    /// One entry per available slot, in slot order: whether the order marks
    /// that slot as used. A slot whose entry is false is left as it was.
    pub marks: Vec<bool>,
    /// The quantity that can be served: the requested one, clipped to the
    /// number of available slots.
    pub quantity: usize,
    /// Whether there are fewer available slots than the requested quantity,
    /// which calls for a warning.
    pub short: bool,
}

pub open spec fn min_nat(a: int, b: int) -> int {
    if a <= b {
        a
    } else {
        b
    }
}

/// Whether slot `i` (counted from 0) is marked: with named slots, exactly
/// the slots whose 1-based number is named; without, the first slots up to
/// the requested quantity.
pub open spec fn slot_marked(available: nat, quantity: nat, named: Seq<usize>, i: int) -> bool {
    if named.len() == 0 {
        i < min_nat(quantity as int, available as int)
    } else {
        named.contains((i + 1) as usize)
    }
}

fn names_slot(named: &Vec<usize>, number: usize) -> (r: bool)
    ensures
        r == named@.contains(number),
{
    let mut j: usize = 0;
    while j < named.len()
        invariant
            j <= named@.len(),
            forall|k: int| 0 <= k < j ==> named@[k] != number,
        decreases named@.len() - j,
    {
        if named[j] == number {
            assert(named@[j as int] == number);
            return true;
        }
        j = j + 1;
    }
    false
}

/// Chooses the attendee slots of an order with `available` slots, for the
/// requested `quantity` and the 1-based slot numbers in `named` (empty for
/// automatic choice). Named numbers that match no slot are ignored.
pub fn select_viewers(available: usize, quantity: usize, named: &Vec<usize>) -> (r: ViewerSelection)
    ensures
        r.marks@.len() == available,
        forall|i: int|
            0 <= i < available ==> #[trigger] r.marks@[i] == slot_marked(
                available as nat,
                quantity as nat,
                named@,
                i,
            ),
        r.quantity == min_nat(quantity as int, available as int),
        r.short == (0 < available && available < quantity),
{
    let served = if available < quantity {
        available
    } else {
        quantity
    };
    let mut marks: Vec<bool> = Vec::new();
    let mut i: usize = 0;
    while i < available
        invariant
            i <= available,
            served == min_nat(quantity as int, available as int),
            marks@.len() == i,
            forall|k: int|
                0 <= k < i ==> #[trigger] marks@[k] == slot_marked(
                    available as nat,
                    quantity as nat,
                    named@,
                    k,
                ),
        decreases available - i,
    {
        let mark = if named.len() == 0 {
            i < served
        } else {
            names_slot(named, i + 1)
        };
        marks.push(mark);
        i = i + 1;
    }
    ViewerSelection { marks, quantity: served, short: 0 < available && available < quantity }
}

/// The prefix of the components that carry attendee lists.
pub open spec fn viewer_prefix() -> Seq<char> {
    "dmViewer_"@
}

/// The prefix of the order components listed under the root component.
pub open spec fn order_prefix() -> Seq<char> {
    "order_"@
}

/// Whether a component key names an attendee list.
pub fn is_viewer_key(key: &str) -> (r: bool)
    ensures
        r == viewer_prefix().is_prefix_of(key@),
{
    has_prefix(key, "dmViewer_")
}

pub open spec fn texts(s: Seq<String>) -> Seq<Seq<char>> {
    s.map_values(|x: String| x@)
}

/// The order components among the keys listed under the root component,
/// in their order.
pub open spec fn order_keys(children: Seq<Seq<char>>) -> Seq<Seq<char>>
    decreases children.len(),
{
    if children.len() == 0 {
        Seq::empty()
    } else {
        let rest = order_keys(children.drop_last());
        if order_prefix().is_prefix_of(children.last()) {
            rest.push(children.last())
        } else {
            rest
        }
    }
}

/// The components of a built order that the submit payload carries, in
/// order: every input component, then the root component, then the order
/// components listed under the root.
pub fn submit_keys(input: &Vec<String>, root: &String, children: &Vec<String>) -> (r: Vec<String>)
    ensures
        texts(r@) == texts(input@).push(root@) + order_keys(texts(children@)),
{
    let mut keys: Vec<String> = Vec::new();
    let mut i: usize = 0;
    while i < input.len()
        invariant
            i <= input@.len(),
            texts(keys@) == texts(input@.subrange(0, i as int)),
        decreases input@.len() - i,
    {
        keys.push(input[i].clone());
        assert(texts(input@.subrange(0, i + 1)) =~= texts(input@.subrange(0, i as int)).push(
            input@[i as int]@,
        ));
        assert(texts(keys@) =~= texts(input@.subrange(0, i as int)).push(input@[i as int]@));
        i = i + 1;
    }
    assert(input@.subrange(0, input@.len() as int) =~= input@);
    keys.push(root.clone());
    assert(texts(keys@) =~= texts(input@).push(root@));
    let ghost head = texts(input@).push(root@);
    let mut j: usize = 0;
    while j < children.len()
        invariant
            j <= children@.len(),
            texts(keys@) == head + order_keys(texts(children@.subrange(0, j as int))),
        decreases children@.len() - j,
    {
        let ghost before = texts(children@.subrange(0, j as int));
        let ghost after = texts(children@.subrange(0, j + 1));
        assert(after.drop_last() =~= before);
        assert(after.last() == children@[j as int]@);
        if has_prefix(children[j].as_str(), "order_") {
            let ghost old_keys = keys@;
            keys.push(children[j].clone());
            assert(texts(keys@) =~= texts(old_keys).push(children@[j as int]@));
            assert(texts(keys@) =~= head + order_keys(after));
        }
        j = j + 1;
    }
    assert(children@.subrange(0, children@.len() as int) =~= children@);
    keys
}

} // verus!
