//! Choosing a device memory type, and placing buffers in device memory.
use vstd::prelude::*;
use crate::vk::has_all;

verus! {

/// What the driver demands of the memory behind a buffer or an image.
#[derive(Clone, Copy, PartialEq, Eq, Structural, Debug)]
pub struct MemoryRequirements {
    pub size: u64,
    pub alignment: u64,
    /// Bit `i` is set when entry `i` of the device's type table may be used.
    pub memory_type_bits: u32,
}

/// One entry of the device's memory-type table.
#[derive(Clone, Copy, PartialEq, Eq, Structural, Debug)]
pub struct MemoryType {
    pub property_flags: u32,
    pub heap_index: u32,
}

/// The device's memory-type table, in the driver's order.
#[derive(Clone, PartialEq, Eq, Debug)]
pub struct PhysicalDeviceMemoryProperties {
    pub memory_types: Vec<MemoryType>,
}

impl View for PhysicalDeviceMemoryProperties {
    type V = Seq<MemoryType>;

    open spec fn view(&self) -> Seq<MemoryType> {
        self.memory_types@
    }
}

impl PhysicalDeviceMemoryProperties {
    pub fn new(memory_types: Vec<MemoryType>) -> (table: Self)
        ensures
            table@ == memory_types@,
    {
        PhysicalDeviceMemoryProperties { memory_types }
    }
}

/// Whether a requirement mask admits entry `index` of the type table.
pub open spec fn type_allowed(memory_type_bits: u32, index: int) -> bool {
    0 <= index < 32 && (memory_type_bits >> (index as u32)) & 1 == 1
}

/// Whether entry `index` is admitted by the mask and has exactly the
/// requested property flags.
pub open spec fn exact_candidate(bits: u32, table: Seq<MemoryType>, flags: u32, index: int) -> bool {
    0 <= index < table.len() && type_allowed(bits, index) && table[index].property_flags == flags
}

/// Whether entry `index` is admitted by the mask and has at least the
/// requested property flags.
pub open spec fn subset_candidate(bits: u32, table: Seq<MemoryType>, flags: u32, index: int) -> bool {
    0 <= index < table.len() && type_allowed(bits, index) && has_all(
        table[index].property_flags,
        flags,
    )
}

/// Whether `index` is the lowest exact candidate.
pub open spec fn first_exact(bits: u32, table: Seq<MemoryType>, flags: u32, index: int) -> bool {
    &&& exact_candidate(bits, table, flags, index)
    &&& forall|j: int| 0 <= j < index ==> !exact_candidate(bits, table, flags, j)
}

/// Whether `index` is the lowest subset candidate.
pub open spec fn first_subset(bits: u32, table: Seq<MemoryType>, flags: u32, index: int) -> bool {
    &&& subset_candidate(bits, table, flags, index)
    &&& forall|j: int| 0 <= j < index ==> !subset_candidate(bits, table, flags, j)
}

/// Whether `found` is the answer of the two-pass search: the lowest exact
/// candidate if there is one, else the lowest subset candidate if there is
/// one, else nothing.
pub open spec fn is_memorytype_choice(
    bits: u32,
    table: Seq<MemoryType>,
    flags: u32,
    found: Option<u32>,
) -> bool {
    match found {
        Some(index) => {
            ||| first_exact(bits, table, flags, index as int)
            ||| (first_subset(bits, table, flags, index as int) && forall|j: int|
                !exact_candidate(bits, table, flags, j))
        },
        None => forall|j: int| !subset_candidate(bits, table, flags, j),
    }
}

proof fn lemma_shift_step(bits: u32, index: u32)
    by (bit_vector)
    requires
        index < 32,
    ensures
        index < 31 ==> (bits >> index) >> 1 == bits >> ((index + 1) as u32),
        index == 31 ==> (bits >> index) >> 1 == 0,
        0u32 >> 1 == 0,
        0u32 & 1 == 0,
        bits >> 0 == bits,
{
}

/// The lowest index whose type the requirement mask admits and for which
/// `f(type_flags, flags)` holds, or nothing when there is none.
pub fn find_memorytype_index_f<F: Fn(u32, u32) -> bool>(
    memory_req: &MemoryRequirements,
    memory_prop: &PhysicalDeviceMemoryProperties,
    flags: u32,
    f: F,
) -> (found: Option<u32>)
    requires
        forall|a: u32, b: u32| call_requires(f, (a, b)),
    ensures
        match found {
            Some(index) => {
                &&& index < memory_prop@.len()
                &&& type_allowed(memory_req.memory_type_bits, index as int)
                &&& call_ensures(f, (memory_prop@[index as int].property_flags, flags), true)
                &&& forall|j: int|
                    0 <= j < index && type_allowed(memory_req.memory_type_bits, j)
                        ==> call_ensures(f, (#[trigger] memory_prop@[j].property_flags, flags), false)
            },
            None => forall|j: int|
                0 <= j < memory_prop@.len() && type_allowed(memory_req.memory_type_bits, j)
                    ==> call_ensures(f, (#[trigger] memory_prop@[j].property_flags, flags), false),
        },
{
    let bits: u32 = memory_req.memory_type_bits;
    let mut memory_type_bits: u32 = bits;
    let mut index: usize = 0;
    proof {
        lemma_shift_step(bits, 0);
    }
    while index < memory_prop.memory_types.len()
        invariant
            index <= memory_prop@.len(),
            bits == memory_req.memory_type_bits,
            index < 32 ==> memory_type_bits == bits >> (index as u32),
            index >= 32 ==> memory_type_bits == 0,
            forall|a: u32, b: u32| call_requires(f, (a, b)),
            forall|j: int|
                0 <= j < index && type_allowed(bits, j) ==> call_ensures(
                    f,
                    (#[trigger] memory_prop@[j].property_flags, flags),
                    false,
                ),
        decreases memory_prop@.len() - index,
    {
        proof {
            if index < 32 {
                lemma_shift_step(bits, index as u32);
            } else {
                lemma_shift_step(bits, 0);
            }
        }
        if memory_type_bits & 1 == 1 {
            if f(memory_prop.memory_types[index].property_flags, flags) {
                return Some(index as u32);
            }
        }
        memory_type_bits = memory_type_bits >> 1;
        index += 1;
    }
    None
}

/// The memory type to allocate from: an admitted type with exactly the
/// requested flags is preferred over one that merely has them all, and in
/// each pass the lowest index wins.
pub fn find_memorytype_index(
    memory_req: &MemoryRequirements,
    memory_prop: &PhysicalDeviceMemoryProperties,
    flags: u32,
) -> (found: Option<u32>)
    ensures
        is_memorytype_choice(memory_req.memory_type_bits, memory_prop@, flags, found),
        found matches Some(index) ==> subset_candidate(
            memory_req.memory_type_bits,
            memory_prop@,
            flags,
            index as int,
        ),
{
    let exact = |property_flags: u32, flags: u32| -> (r: bool)
        ensures
            r == (property_flags == flags),
        { property_flags == flags };
    let best_suitable_index = find_memorytype_index_f(memory_req, memory_prop, flags, exact);
    if best_suitable_index.is_some() {
        proof {
            lemma_exact_is_subset(flags);
        }
        return best_suitable_index;
    }
    let subset = |property_flags: u32, flags: u32| -> (r: bool)
        ensures
            r == has_all(property_flags, flags),
        { property_flags & flags == flags };
    find_memorytype_index_f(memory_req, memory_prop, flags, subset)
}

proof fn lemma_exact_is_subset(flags: u32)
    by (bit_vector)
    ensures
        flags & flags == flags,
{
}

/// What the two-pass search amounts to: if some admitted type has exactly
/// the requested flags, the lowest such type is found; if none has, but
/// some admitted type has all the requested flags, the lowest of those is
/// found; and if there is no such type either, nothing is found.
pub proof fn lemma_memorytype_choice(
    bits: u32,
    table: Seq<MemoryType>,
    flags: u32,
    found: Option<u32>,
)
    requires
        is_memorytype_choice(bits, table, flags, found),
    ensures
        (exists|i: int| exact_candidate(bits, table, flags, i)) ==> found is Some && first_exact(
            bits,
            table,
            flags,
            found.unwrap() as int,
        ),
        !(exists|i: int| exact_candidate(bits, table, flags, i)) && (exists|i: int|
            subset_candidate(bits, table, flags, i)) ==> found is Some && first_subset(
            bits,
            table,
            flags,
            found.unwrap() as int,
        ),
        !(exists|i: int| subset_candidate(bits, table, flags, i)) ==> found is None,
{
    lemma_exact_is_subset(flags);
    if exists|i: int| exact_candidate(bits, table, flags, i) {
        let i = choose|i: int| exact_candidate(bits, table, flags, i);
        assert(subset_candidate(bits, table, flags, i));
    }
}

/// The two-pass search has one answer and no other.
pub proof fn lemma_memorytype_choice_is_unique(
    bits: u32,
    table: Seq<MemoryType>,
    flags: u32,
    a: Option<u32>,
    b: Option<u32>,
)
    requires
        is_memorytype_choice(bits, table, flags, a),
        is_memorytype_choice(bits, table, flags, b),
    ensures
        a == b,
{
    lemma_exact_is_subset(flags);
    lemma_memorytype_choice(bits, table, flags, a);
    lemma_memorytype_choice(bits, table, flags, b);
    if a is Some && b is Some {
        let i = a.unwrap() as int;
        let j = b.unwrap() as int;
        if i < j {
            assert(exact_candidate(bits, table, flags, i) || subset_candidate(bits, table, flags, i));
        } else if j < i {
            assert(exact_candidate(bits, table, flags, j) || subset_candidate(bits, table, flags, j));
        }
    } else if a is Some {
        assert(subset_candidate(bits, table, flags, a.unwrap() as int));
    } else if b is Some {
        assert(subset_candidate(bits, table, flags, b.unwrap() as int));
    }
}

/// A type with exactly the requested flags also has them all, so whenever
/// the search finds nothing there was no exact candidate either, and an
/// exact candidate always makes the search succeed.
pub proof fn lemma_exact_candidate_is_subset_candidate(
    bits: u32,
    table: Seq<MemoryType>,
    flags: u32,
    index: int,
)
    requires
        exact_candidate(bits, table, flags, index),
    ensures
        subset_candidate(bits, table, flags, index),
{
    lemma_exact_is_subset(flags);
}

} // verus!
