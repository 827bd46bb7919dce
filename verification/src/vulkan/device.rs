//! Picking queues and memory types from what a physical device reports.

use std::collections::HashMap;
use vstd::prelude::*;

verus! {

/// The bit of a queue family's flags that says it takes graphics work.
pub const QUEUE_GRAPHICS: u32 = 1;

/// The most memory types that a device reports.
pub const MAX_MEMORY_TYPES: u32 = 32;

/// True when every bit of `wanted` is set in `flags`.
pub open spec fn contains_flags(flags: u32, wanted: u32) -> bool {
    flags & wanted == wanted
}

/// True when every bit of `wanted` is set in `flags`.
pub fn flags_contain(flags: u32, wanted: u32) -> (yes: bool)
    ensures
        yes == contains_flags(flags, wanted),
{
    flags & wanted == wanted
}

/// A queue: its family and its index in the family.
#[derive(Copy, Clone, Debug, PartialEq, Eq, Structural)]
pub struct QueueIndex {
    pub family: u32,
    pub queue: u32,
}

impl Default for QueueIndex {
    /// The first queue of the first family.
    fn default() -> (index: QueueIndex)
        ensures
            index == (QueueIndex { family: 0, queue: 0 }),
    {
        QueueIndex { family: 0, queue: 0 }
    }
}

impl QueueIndex {
    /// The queue number `queue` of the family `family`.
    pub fn new(family: u32, queue: u32) -> (index: QueueIndex)
        ensures
            index == (QueueIndex { family, queue }),
    {
        QueueIndex { family, queue }
    }
}

/// What a device reports of one queue family.
#[derive(Copy, Clone, Debug, PartialEq, Eq, Structural)]
pub struct QueueFamily {
    pub queue_flags: u32,
    pub queue_count: u32,
}

/// The three queues the engine works with: graphics, present and loading.
#[derive(Copy, Clone, Debug, PartialEq, Eq, Structural)]
pub struct QueueFamilyIndex {
    pub graphics: QueueIndex,
    pub present: QueueIndex,
    pub loading: QueueIndex,
}

impl Default for QueueFamilyIndex {
    /// All three on the first queue of the first family.
    fn default() -> (queues: QueueFamilyIndex)
        ensures
            queues == (QueueFamilyIndex {
                graphics: QueueIndex { family: 0, queue: 0 },
                present: QueueIndex { family: 0, queue: 0 },
                loading: QueueIndex { family: 0, queue: 0 },
            }),
    {
        QueueFamilyIndex {
            graphics: QueueIndex::default(),
            present: QueueIndex::default(),
            loading: QueueIndex::default(),
        }
    }
}

/// The queues that a device with `families` offers the engine, where the
/// first family can present to the surface or not. Graphics and present
/// share the first queue of the first family, which has to take graphics
/// work and present; loading gets that family's second queue, or, where it
/// has only one, the first queue of a second family that takes graphics work.
pub open spec fn find_queues(families: Seq<QueueFamily>, first_presents: bool) -> Option<
    QueueFamilyIndex,
>
    recommends
        families.len() >= 1,
{
    let first = QueueIndex { family: 0, queue: 0 };
    if contains_flags(families[0].queue_flags, QUEUE_GRAPHICS) && first_presents {
        if families[0].queue_count > 1 {
            Some(
                QueueFamilyIndex {
                    graphics: first,
                    present: first,
                    loading: QueueIndex { family: 0, queue: 1 },
                },
            )
        } else if contains_flags(families[1].queue_flags, QUEUE_GRAPHICS) {
            Some(
                QueueFamilyIndex {
                    graphics: first,
                    present: first,
                    loading: QueueIndex { family: 1, queue: 0 },
                },
            )
        } else {
            None
        }
    } else {
        None
    }
}

/// True where `find_queues` looks at a second family.
pub open spec fn needs_second_family(families: Seq<QueueFamily>, first_presents: bool) -> bool {
    families.len() >= 1 && contains_flags(families[0].queue_flags, QUEUE_GRAPHICS) && first_presents
        && families[0].queue_count <= 1
}

impl QueueFamilyIndex {
    /// The three queues, graphics first, then present, then loading.
    pub fn indices(&self) -> (indices: Vec<QueueIndex>)
        ensures
            indices@ == seq![self.graphics, self.present, self.loading],
    {
        let mut indices: Vec<QueueIndex> = Vec::new();
        indices.push(self.graphics);
        indices.push(self.present);
        indices.push(self.loading);
        assert(indices@ =~= seq![self.graphics, self.present, self.loading]);
        indices
    }

    /// The queues that a device offers the engine, from its queue families
    /// in the device's order and from whether the first family can present
    /// to the surface.
    pub fn find(families: &Vec<QueueFamily>, first_presents: bool) -> (found: Option<QueueFamilyIndex>)
        requires
            families@.len() >= 1,
            needs_second_family(families@, first_presents) ==> families@.len() >= 2,
        ensures
            found == find_queues(families@, first_presents),
    {
        let first = families[0];
        if flags_contain(first.queue_flags, QUEUE_GRAPHICS) && first_presents {
            if first.queue_count > 1 {
                return Some(
                    QueueFamilyIndex {
                        graphics: QueueIndex::new(0, 0),
                        present: QueueIndex::new(0, 0),
                        loading: QueueIndex::new(0, 1),
                    },
                );
            } else {
                let second = families[1];
                if flags_contain(second.queue_flags, QUEUE_GRAPHICS) {
                    return Some(
                        QueueFamilyIndex {
                            graphics: QueueIndex::new(0, 0),
                            present: QueueIndex::new(0, 0),
                            loading: QueueIndex::new(1, 0),
                        },
                    );
                }
            }
        }
        None
    }
}

/// How many queues each family is asked for after all of `indices` are
/// taken in, in order: a family asks for as many queues as reach its index
/// in the last mention of it.
pub open spec fn count_queues(indices: Seq<QueueIndex>) -> Map<u32, u32>
    decreases indices.len(),
{
    if indices.len() == 0 {
        Map::empty()
    } else {
        count_queues(indices.drop_last()).insert(
            indices.last().family,
            (indices.last().queue + 1) as u32,
        )
    }
}

/// How many queues to create in each family so that every queue of
/// `indices` exists: one entry per family, sized by the family's last
/// mention.
pub fn queue_counts(indices: &Vec<QueueIndex>) -> (counts: HashMap<u32, u32>)
    requires
        forall|i: int| 0 <= i < indices@.len() ==> indices@[i].queue < u32::MAX,
    ensures
        counts@ == count_queues(indices@),
{
    broadcast use vstd::std_specs::hash::group_hash_axioms;

    let mut counts: HashMap<u32, u32> = HashMap::new();
    let mut done: usize = 0;
    assert(indices@.take(0) =~= Seq::<QueueIndex>::empty());
    while done < indices.len()
        invariant
            done <= indices@.len(),
            forall|i: int| 0 <= i < indices@.len() ==> indices@[i].queue < u32::MAX,
            counts@ == count_queues(indices@.take(done as int)),
        decreases indices@.len() - done,
    {
        let index = indices[done];
        counts.insert(index.family, index.queue + 1);
        proof {
            assert(indices@.take(done + 1).drop_last() =~= indices@.take(done as int));
            assert(indices@.take(done + 1).last() == index);
        }
        done = done + 1;
    }
    assert(indices@.take(indices@.len() as int) =~= indices@);
    counts
}

/// True when memory type number `index` may hold the resource and has all
/// the wanted properties.
pub open spec fn suits(type_bits: u32, wanted: u32, flags: Seq<u32>, index: int) -> bool
    recommends
        0 <= index < 32,
        index < flags.len(),
{
    (type_bits & (1u32 << (index as u32))) != 0 && contains_flags(flags[index], wanted)
}

/// The first memory type among the device's first `count` that a resource
/// with the requirement `type_bits` may live in and that has all the
/// properties `wanted`, if there is one. `flags` holds the property flags of
/// the device's memory types.
pub fn get_memory_type_index(wanted: u32, type_bits: u32, flags: &Vec<u32>, count: u32) -> (found: Option<
    u32,
>)
    requires
        count <= MAX_MEMORY_TYPES,
        count <= flags@.len(),
    ensures
        match found {
            Some(index) => index < count && suits(type_bits, wanted, flags@, index as int) && forall|j: int|
                0 <= j < index ==> !suits(type_bits, wanted, flags@, j),
            None => forall|j: int| 0 <= j < count ==> !suits(type_bits, wanted, flags@, j),
        },
{
    let mut index: u32 = 0;
    while index < count
        invariant
            index <= count,
            count <= MAX_MEMORY_TYPES,
            count <= flags@.len(),
            forall|j: int| 0 <= j < index ==> !suits(type_bits, wanted, flags@, j),
        decreases count - index,
    {
        let suitable = (type_bits & (1u32 << index)) != 0;
        if suitable && flags_contain(flags[index as usize], wanted) {
            return Some(index);
        }
        index = index + 1;
    }
    None
}

/// What is known of one physical device when devices are looked through:
/// the queues it offers the engine, if any, and whether its surface support
/// is enough for a swapchain.
#[derive(Copy, Clone, Debug, PartialEq, Eq, Structural)]
pub struct Candidate {
    pub queues: Option<QueueFamilyIndex>,
    pub adequate: bool,
}

/// True for a device that the engine can use.
pub open spec fn usable(candidate: Candidate) -> bool {
    candidate.queues is Some && candidate.adequate
}

/// The first device, in the order that the instance lists them, that
/// offers the queues and can present a swapchain.
pub fn find_physical_device(candidates: &Vec<Candidate>) -> (found: Option<usize>)
    ensures
        match found {
            Some(index) => index < candidates@.len() && usable(candidates@[index as int]) && forall|j: int|
                0 <= j < index ==> !usable(candidates@[j]),
            None => forall|j: int| 0 <= j < candidates@.len() ==> !usable(candidates@[j]),
        },
{
    let mut index: usize = 0;
    while index < candidates.len()
        invariant
            index <= candidates@.len(),
            forall|j: int| 0 <= j < index ==> !usable(candidates@[j]),
        decreases candidates@.len() - index,
    {
        let candidate = candidates[index];
        match candidate.queues {
            Some(_) => {
                if candidate.adequate {
                    return Some(index);
                }
            },
            None => {},
        }
        index = index + 1;
    }
    None
}

/// How loud a message of the validation layer is.
#[derive(Copy, Clone, Debug, PartialEq, Eq, Structural)]
pub enum MessageLevel {
    Error,
    Warning,
    Trace,
}

/// The severity bit of an error message.
pub const SEVERITY_ERROR: u32 = 0x1000;

/// The severity bit of a warning.
pub const SEVERITY_WARNING: u32 = 0x100;

/// The level to log a message of the validation layer at, by its severity:
/// errors as errors, warnings as warnings, the rest as traces.
pub fn message_level(severity: u32) -> (level: MessageLevel)
    ensures
        level == if severity >= SEVERITY_ERROR {
            MessageLevel::Error
        } else if severity >= SEVERITY_WARNING {
            MessageLevel::Warning
        } else {
            MessageLevel::Trace
        },
{
    if severity >= SEVERITY_ERROR {
        MessageLevel::Error
    } else if severity >= SEVERITY_WARNING {
        MessageLevel::Warning
    } else {
        MessageLevel::Trace
    }
}

/// A version of the device interface: major, minor, patch.
#[derive(Copy, Clone, Debug, PartialEq, Eq, Structural)]
pub struct ApiVersion {
    pub major: u32,
    pub minor: u32,
    pub patch: u32,
}

/// The first version whose loader lists portability devices only on
/// request.
pub open spec fn portability_version() -> ApiVersion {
    ApiVersion { major: 1, minor: 3, patch: 216 }
}

/// True when `version` is `other` or a later version.
pub open spec fn at_least(version: ApiVersion, other: ApiVersion) -> bool {
    version.major > other.major || (version.major == other.major && (version.minor > other.minor || (
    version.minor == other.minor && version.patch >= other.patch)))
}

/// True when the instance has to ask for portability enumeration: on
/// macOS, from version 1.3.216 of the loader on.
pub fn needs_portability(version: ApiVersion, macos: bool) -> (needed: bool)
    ensures
        needed == (macos && at_least(version, portability_version())),
{
    macos && (version.major > 1 || (version.major == 1 && (version.minor > 3 || (version.minor == 3
        && version.patch >= 216))))
}

} // verus!
