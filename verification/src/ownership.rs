//! The destruction order of everything a renderer owns.
//!
//! The underlying API counts no references: whoever creates an object
//! has to destroy it, once, and before the objects it depends on. The
//! renderer therefore keeps one list of what it owns, in the order in which
//! it will be destroyed. A component hands over its objects in the order
//! in which they have to go; components adopted later are destroyed
//! earlier. The instance is the root of the list and the last to go, and
//! the device goes only after everything created from it.
use vstd::prelude::*;
use crate::vk::Object;

verus! {

/// Whether an object is created from the device and so has to be destroyed
/// before it.
pub open spec fn is_device_child(object: Object) -> bool {
    match object {
        Object::Instance => false,
        Object::DebugReportCallback(_) => false,
        Object::Surface(_) => false,
        Object::Device => false,
        _ => true,
    }
}

/// Whether the device is destroyed somewhere after position `i`.
pub open spec fn device_follows(order: Seq<Object>, i: int) -> bool {
    exists|j: int| i < j < order.len() && #[trigger] order[j] == Object::Device
}

/// Whether a destruction order is sound: nothing occurs in it twice, the
/// instance is its last entry unless it is empty, and every object created
/// from the device is followed by the device.
pub open spec fn is_sound_order(order: Seq<Object>) -> bool {
    &&& order.no_duplicates()
    &&& order.len() > 0 ==> order.last() == Object::Instance
    &&& forall|i: int|
        0 <= i < order.len() && is_device_child(#[trigger] order[i]) ==> device_follows(order, i)
}

/// Whether a component's objects may be adopted by an owner whose
/// destruction order is `order`: the owner is alive, the objects are new
/// to it and distinct from one another, and objects created from the
/// device are only adopted once the device is owned.
pub open spec fn may_adopt(order: Seq<Object>, release: Seq<Object>) -> bool {
    &&& order.len() > 0
    &&& release.no_duplicates()
    &&& forall|i: int| 0 <= i < release.len() ==> !order.contains(#[trigger] release[i])
    &&& forall|i: int|
        0 <= i < release.len() && is_device_child(#[trigger] release[i]) ==> order.contains(
            Object::Device,
        )
}

/// Adopting a component keeps the destruction order sound.
pub proof fn lemma_adoption_is_sound(order: Seq<Object>, release: Seq<Object>)
    requires
        is_sound_order(order),
        may_adopt(order, release),
    ensures
        is_sound_order(release + order),
{
    let joined = release + order;
    let n = release.len() as int;
    assert forall|i: int, j: int| 0 <= i < j < joined.len() implies joined[i] != joined[j] by {
        if i < n && j >= n {
            assert(order.contains(order[j - n]));
        }
    }
    assert(joined.last() == order.last());
    assert forall|i: int| 0 <= i < joined.len() && is_device_child(#[trigger] joined[i]) implies
        device_follows(joined, i) by {
        if i < n {
            assert(is_device_child(release[i]));
            let k = choose|k: int| 0 <= k < order.len() && order[k] == Object::Device;
            assert(joined[k + n] == Object::Device);
        } else {
            assert(is_device_child(order[i - n]));
            let k = choose|k: int| i - n < k < order.len() && #[trigger] order[k] == Object::Device;
            assert(joined[k + n] == Object::Device);
        }
    }
}

/// The objects of each component, as sequences.
pub open spec fn each_view(releases: Seq<Vec<Object>>) -> Seq<Seq<Object>> {
    Seq::new(releases.len(), |i: int| releases[i]@)
}

/// The destruction order after an owner whose destruction order is `order`
/// has adopted the components from position `from` on, one after the
/// other; nothing if one of them may not be adopted when its turn comes.
pub open spec fn adoption(order: Seq<Object>, releases: Seq<Seq<Object>>, from: int) -> Option<
    Seq<Object>,
>
    decreases releases.len() - from,
{
    if from < 0 || from >= releases.len() {
        Some(order)
    } else if !may_adopt(order, releases[from]) {
        None
    } else {
        adoption(releases[from] + order, releases, from + 1)
    }
}

/// Whether every one of `objects` occurs in `order`.
pub open spec fn holds_all(order: Seq<Object>, objects: Seq<Object>) -> bool {
    forall|j: int| 0 <= j < objects.len() ==> order.contains(#[trigger] objects[j])
}

/// An order that holds two sequences of objects holds the two put
/// together.
pub proof fn lemma_holds_both(order: Seq<Object>, first: Seq<Object>, second: Seq<Object>)
    requires
        holds_all(order, first),
        holds_all(order, second),
    ensures
        holds_all(order, first + second),
{
    assert forall|j: int| 0 <= j < (first + second).len() implies order.contains(
        #[trigger] (first + second)[j],
    ) by {
        if j < first.len() {
            assert((first + second)[j] == first[j]);
        } else {
            assert((first + second)[j] == second[j - first.len()]);
        }
    }
}

/// Nothing is lost in adoption: after the components from position `from`
/// on were adopted, the destruction order holds every object of each of
/// them and everything that was owned before, and no component had an
/// object twice.
pub proof fn lemma_adoption_holds(order: Seq<Object>, releases: Seq<Seq<Object>>, from: int)
    requires
        0 <= from,
        adoption(order, releases, from) is Some,
    ensures
        holds_all(adoption(order, releases, from).unwrap(), order),
        forall|i: int|
            from <= i < releases.len() ==> holds_all(
                adoption(order, releases, from).unwrap(),
                #[trigger] releases[i],
            ),
        forall|i: int| from <= i < releases.len() ==> (#[trigger] releases[i]).no_duplicates(),
    decreases releases.len() - from,
{
    let after = adoption(order, releases, from).unwrap();
    if from >= releases.len() {
        assert forall|j: int| 0 <= j < order.len() implies after.contains(#[trigger] order[j]) by {
        }
    } else {
        let next = releases[from] + order;
        lemma_adoption_holds(next, releases, from + 1);
        assert forall|j: int| 0 <= j < order.len() implies after.contains(#[trigger] order[j]) by {
            assert(next[releases[from].len() + j] == order[j]);
        }
        assert forall|j: int| 0 <= j < releases[from].len() implies after.contains(
            #[trigger] releases[from][j],
        ) by {
            assert(next[j] == releases[from][j]);
        }
    }
}

/// The objects of the components from position `from` on, the last
/// component first.
pub open spec fn stacked(releases: Seq<Seq<Object>>, from: int) -> Seq<Object>
    decreases releases.len() - from,
{
    if from < 0 || from >= releases.len() {
        Seq::empty()
    } else {
        stacked(releases, from + 1) + releases[from]
    }
}

/// What is adopted later is destroyed earlier: after the components from
/// position `from` on were adopted, the destruction order is the objects
/// of the last component, then those of the one before it, and so on
/// down to the first, and then everything that was owned before.
pub proof fn lemma_adoption_stacks(order: Seq<Object>, releases: Seq<Seq<Object>>, from: int)
    requires
        0 <= from,
        adoption(order, releases, from) is Some,
    ensures
        adoption(order, releases, from) == Some(stacked(releases, from) + order),
    decreases releases.len() - from,
{
    if from >= releases.len() {
        assert(stacked(releases, from) + order =~= order);
    } else {
        lemma_adoption_stacks(releases[from] + order, releases, from + 1);
        assert(stacked(releases, from + 1) + (releases[from] + order) =~= stacked(releases, from)
            + order);
    }
}

/// Where the objects of a component stand among the stacked objects:
/// object `a` of component `i` stands behind all objects of the components
/// after it.
pub proof fn lemma_stacked_place(releases: Seq<Seq<Object>>, from: int, i: int, a: int)
    requires
        0 <= from <= i < releases.len(),
        0 <= a < releases[i].len(),
    ensures
        stacked(releases, i + 1).len() + releases[i].len() <= stacked(releases, from).len(),
        stacked(releases, from)[stacked(releases, i + 1).len() + a] == releases[i][a],
    decreases i - from,
{
    if from < i {
        lemma_stacked_place(releases, from + 1, i, a);
    }
}

/// A component that was adopted later is destroyed earlier, all of it:
/// among the stacked objects every object of component `i` stands before
/// every object of a component `j` before it.
pub proof fn lemma_later_component_goes_first(
    releases: Seq<Seq<Object>>,
    i: int,
    j: int,
    a: int,
    b: int,
)
    requires
        0 <= j < i < releases.len(),
        0 <= a < releases[i].len(),
        0 <= b < releases[j].len(),
    ensures
        ({
            let all = stacked(releases, 0);
            let first = stacked(releases, i + 1).len() + a;
            let second = stacked(releases, j + 1).len() + b;
            &&& first < second < all.len()
            &&& all[first] == releases[i][a]
            &&& all[second] == releases[j][b]
        }),
{
    lemma_stacked_place(releases, 0, i, a);
    lemma_stacked_place(releases, 0, j, b);
    lemma_stacked_place(releases, j + 1, i, a);
}

/// What a renderer owns, in the order in which it will be destroyed.
pub struct Ownership {
    order: Vec<Object>,
}

impl View for Ownership {
    type V = Seq<Object>;

    closed spec fn view(&self) -> Seq<Object> {
        self.order@
    }
}

fn holds(objects: &Vec<Object>, object: Object) -> (found: bool)
    ensures
        found == objects@.contains(object),
{
    let mut i: usize = 0;
    while i < objects.len()
        invariant
            i <= objects.len(),
            forall|k: int| 0 <= k < i ==> objects@[k] != object,
        decreases objects.len() - i,
    {
        if objects[i] == object {
            return true;
        }
        i += 1;
    }
    false
}

fn created_from_device(object: Object) -> (child: bool)
    ensures
        child == is_device_child(object),
{
    match object {
        Object::Instance => false,
        Object::DebugReportCallback(_) => false,
        Object::Surface(_) => false,
        Object::Device => false,
        _ => true,
    }
}

impl Ownership {
    #[verifier::type_invariant]
    closed spec fn sound(&self) -> bool {
        is_sound_order(self.order@)
    }

    /// A copy of the destruction order, which is sound at all times.
    pub fn destruction_order(&self) -> (order: Vec<Object>)
        ensures
            order@ == self@,
            is_sound_order(self@),
    {
        proof {
            use_type_invariant(self);
        }
        let mut order: Vec<Object> = Vec::new();
        let mut i: usize = 0;
        while i < self.order.len()
            invariant
                i <= self.order.len(),
                order@ == self.order@.subrange(0, i as int),
            decreases self.order.len() - i,
        {
            order.push(self.order[i]);
            i += 1;
            assert(order@ =~= self.order@.subrange(0, i as int));
        }
        assert(self.order@.subrange(0, self.order.len() as int) =~= self.order@);
        order
    }

    /// The owner of a fresh instance and nothing else.
    pub fn new() -> (owner: Ownership)
        ensures
            owner@ == seq![Object::Instance],
    {
        let mut order: Vec<Object> = Vec::new();
        order.push(Object::Instance);
        Ownership { order }
    }

    /// Whether the owner holds `object`.
    pub fn owns(&self, object: Object) -> (found: bool)
        ensures
            found == self@.contains(object),
    {
        holds(&self.order, object)
    }

    /// The number of objects the owner holds.
    pub fn len(&self) -> (n: usize)
        ensures
            n == self@.len(),
    {
        self.order.len()
    }

    /// Takes over the objects of a component, given in the order in which
    /// they have to be destroyed. They will be destroyed before everything
    /// that was adopted earlier. Either all of them are adopted or none.
    pub fn adopt(&mut self, release: &Vec<Object>) -> (adopted: bool)
        ensures
            adopted == may_adopt(old(self)@, release@),
            final(self)@ == if adopted {
                release@ + old(self)@
            } else {
                old(self)@
            },
    {
        proof {
            use_type_invariant(&*self);
        }
        if self.order.len() == 0 {
            return false;
        }
        let has_device = holds(&self.order, Object::Device);
        let mut joined: Vec<Object> = Vec::new();
        let mut i: usize = 0;
        while i < release.len()
            invariant
                i <= release.len(),
                has_device == self.order@.contains(Object::Device),
                joined@ == release@.subrange(0, i as int),
                joined@.no_duplicates(),
                forall|k: int| 0 <= k < i ==> !self.order@.contains(#[trigger] release@[k]),
                forall|k: int|
                    0 <= k < i && is_device_child(#[trigger] release@[k]) ==> has_device,
            decreases release.len() - i,
        {
            let object = release[i];
            if holds(&self.order, object) || holds(&joined, object) || (created_from_device(object)
                && !has_device) {
                proof {
                    if joined@.contains(object) {
                        let k = choose|k: int| 0 <= k < joined@.len() && joined@[k] == object;
                        assert(release@[k] == release@[i as int]);
                    }
                }
                return false;
            }
            joined.push(object);
            i += 1;
            assert(joined@ =~= release@.subrange(0, i as int));
        }
        assert(release@.subrange(0, release.len() as int) =~= release@);
        let mut j: usize = 0;
        while j < self.order.len()
            invariant
                j <= self.order.len(),
                joined@ == release@ + self.order@.subrange(0, j as int),
            decreases self.order.len() - j,
        {
            joined.push(self.order[j]);
            j += 1;
            assert(joined@ =~= release@ + self.order@.subrange(0, j as int));
        }
        assert(self.order@.subrange(0, self.order.len() as int) =~= self.order@);
        proof {
            lemma_adoption_is_sound(self.order@, release@);
        }
        self.order = joined;
        true
    }

    /// Takes over the objects of several components, one component after
    /// the other, as far as they may be adopted: it stops at the first
    /// component that may not, and says whether there was none.
    pub fn adopt_all(&mut self, releases: &Vec<Vec<Object>>) -> (adopted: bool)
        ensures
            adopted == (adoption(old(self)@, each_view(releases@), 0) is Some),
            adopted ==> adoption(old(self)@, each_view(releases@), 0) == Some(final(self)@),
    {
        let ghost all = each_view(releases@);
        let ghost before = self@;
        let mut i: usize = 0;
        while i < releases.len()
            invariant
                i <= releases.len(),
                all == each_view(releases@),
                before == old(self)@,
                adoption(before, all, 0) == adoption(self@, all, i as int),
            decreases releases.len() - i,
        {
            assert(all[i as int] == releases@[i as int]@);
            let ghost owned = self@;
            if !self.adopt(&releases[i]) {
                assert(adoption(owned, all, i as int) is None);
                return false;
            }
            i += 1;
        }
        true
    }

    /// Gives up everything the owner holds and returns it in the order in
    /// which it has to be destroyed. The owner holds nothing afterwards, so
    /// that tearing it down again destroys nothing.
    pub fn teardown(&mut self) -> (order: Vec<Object>)
        ensures
            order@ == old(self)@,
            is_sound_order(order@),
            final(self)@ == Seq::<Object>::empty(),
    {
        proof {
            use_type_invariant(&*self);
        }
        let mut order: Vec<Object> = Vec::new();
        core::mem::swap(&mut order, &mut self.order);
        order
    }
}

/// Everything that `n` teardowns in a row destroy, in order, when the
/// owner held `order` before the first of them: a teardown gives up what
/// the owner holds and leaves it holding nothing.
pub open spec fn teardowns(order: Seq<Object>, n: nat) -> Seq<Object>
    decreases n,
{
    if n == 0 {
        Seq::empty()
    } else {
        order + teardowns(Seq::empty(), (n - 1) as nat)
    }
}

/// However often an owner is torn down, no object is destroyed twice, and
/// nothing can be handed to it any more once it was torn down.
pub proof fn lemma_teardown_destroys_once(order: Seq<Object>, n: nat, offered: Seq<Object>)
    requires
        is_sound_order(order),
    ensures
        teardowns(order, n).no_duplicates(),
        n > 0 ==> teardowns(order, n) == order,
        !may_adopt(Seq::<Object>::empty(), offered),
    decreases n,
{
    if n > 0 {
        lemma_teardown_destroys_once(Seq::empty(), (n - 1) as nat, offered);
        if n > 1 {
            assert(teardowns(Seq::<Object>::empty(), (n - 1) as nat) =~= Seq::<Object>::empty());
        }
        assert(order + Seq::<Object>::empty() =~= order);
    }
}

/// In a sound order the device goes after every object created from it,
/// and the instance goes last of all.
pub proof fn lemma_device_outlives_dependents(order: Seq<Object>, i: int, d: int)
    requires
        is_sound_order(order),
        0 <= i < order.len(),
        0 <= d < order.len(),
        order[d] == Object::Device,
    ensures
        is_device_child(order[i]) ==> i < d,
        d < order.len() - 1,
        order[order.len() - 1] == Object::Instance,
{
    if is_device_child(order[i]) {
        let k = choose|k: int| i < k < order.len() && #[trigger] order[k] == Object::Device;
        assert(k == d);
    }
}

} // verus!
