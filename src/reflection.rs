use vstd::prelude::*;
use crate::valueref::RawValue;

verus! {

/// Name of the host instance-id property stamped on every native instance.
pub const INSTANCE_ID_PROPERTY: &'static str = "_ES_INSTANCE_ID_";

/// Property flags of the instance-id property: not configurable, not
/// writable, not enumerable.
pub const INSTANCE_ID_FLAGS: i32 = 0;

/// One registered native class.
pub struct ClassEntry {
    pub name: String,
    pub class_id: i32,
}

/// The table from native class names to engine class ids of one engine
/// instance, and the counter of host instance ids.
pub struct ClassRegistry {
    entries: Vec<ClassEntry>,
    next_instance_id: i32,
}

/// What the constructor callback must do to build one native instance: make an
/// object of class `class_id` and stamp `instance_id` on it.
#[derive(Debug, Clone, Copy, PartialEq, Eq, Structural)]
pub struct InstancePlan {
    pub class_id: i32,
    pub instance_id: i32,
}

impl ClassRegistry {
    /// Registered classes, by name.
    pub closed spec fn classes(&self) -> Map<Seq<char>, i32> {
        Map::new(
            |k: Seq<char>| exists|i: int| 0 <= i < self.entries@.len() && self.entries@[i].name@ == k,
            |k: Seq<char>|
                self.entries@[choose|i: int|
                    0 <= i < self.entries@.len() && self.entries@[i].name@ == k].class_id,
        )
    }

    /// Instance ids already handed out are those below this one.
    pub closed spec fn next_instance(&self) -> int {
        self.next_instance_id as int
    }

    pub closed spec fn wf(&self) -> bool {
        &&& forall|i: int, j: int|
            0 <= i < j < self.entries@.len() ==> #[trigger] self.entries@[i].name@
                != #[trigger] self.entries@[j].name@
        &&& self.next_instance_id >= 0
    }

    pub fn new() -> (r: ClassRegistry)
        ensures
            r.wf(),
            r.classes().dom() == Set::<Seq<char>>::empty(),
            r.next_instance() == 0,
    {
        let r = ClassRegistry { entries: Vec::new(), next_instance_id: 0 };
        assert(r.classes().dom() =~= Set::<Seq<char>>::empty());
        r
    }

    /// The position of `name` among the entries.
    fn find(&self, name: &str) -> (r: Option<usize>)
        requires
            self.wf(),
        ensures
            match r {
                Some(i) => i < self.entries@.len() && self.entries@[i as int].name@ == name@,
                None => forall|i: int|
                    0 <= i < self.entries@.len() ==> self.entries@[i].name@ != name@,
            },
    {
        let key = name.to_owned();
        let mut i: usize = 0;
        while i < self.entries.len()
            invariant
                i <= self.entries@.len(),
                key@ == name@,
                forall|j: int| 0 <= j < i ==> self.entries@[j].name@ != name@,
            decreases self.entries@.len() - i,
        {
            if self.entries[i].name == key {
                return Some(i);
            }
            i = i + 1;
        }
        None
    }

    /// The entry of a registered name holds the id registered for it.
    proof fn lemma_entry_lookup(&self, i: int)
        requires
            self.wf(),
            0 <= i < self.entries@.len(),
        ensures
            self.classes().contains_key(self.entries@[i].name@),
            self.classes()[self.entries@[i].name@] == self.entries@[i].class_id,
    {
        let k = self.entries@[i].name@;
        assert(self.classes().dom().contains(k));
        let j = choose|j: int| 0 <= j < self.entries@.len() && self.entries@[j].name@ == k;
        if j != i {
            if j < i {
                assert(self.entries@[j].name@ != self.entries@[i].name@);
            } else {
                assert(self.entries@[i].name@ != self.entries@[j].name@);
            }
        }
    }

    /// The class id registered under `name`, if any.
    pub fn lookup_class_id(&self, name: &str) -> (r: Option<i32>)
        requires
            self.wf(),
        ensures
            r == (if self.classes().contains_key(name@) {
                Some(self.classes()[name@])
            } else {
                None::<i32>
            }),
    {
        match self.find(name) {
            Some(i) => {
                proof {
                    self.lemma_entry_lookup(i as int);
                }
                Some(self.entries[i].class_id)
            },
            None => {
                assert(!self.classes().contains_key(name@));
                None
            },
        }
    }

    /// Whether `name` is registered.
    pub fn is_registered(&self, name: &str) -> (r: bool)
        requires
            self.wf(),
        ensures
            r == self.classes().contains_key(name@),
    {
        self.lookup_class_id(name).is_some()
    }

    /// Hands out the next host instance id, or `None` once every `i32` id
    /// has been used.
    fn take_instance_id(&mut self) -> (r: Option<i32>)
        requires
            old(self).wf(),
        ensures
            final(self).wf(),
            final(self).classes() == old(self).classes(),
            old(self).next_instance() < i32::MAX ==> r == Some(old(self).next_instance() as i32)
                && final(self).next_instance() == old(self).next_instance() + 1,
            old(self).next_instance() == i32::MAX ==> r is None && final(self).next_instance()
                == old(self).next_instance(),
    {
        if self.next_instance_id < i32::MAX {
            let id = self.next_instance_id;
            self.next_instance_id = id + 1;
            Some(id)
        } else {
            None
        }
    }
}

/// Records that the native class `class_name` has the engine class id
/// `class_id`. A name is non-empty and registered once: registering it again
/// is a programming error.
pub fn register_class_name(registry: &mut ClassRegistry, class_name: &str, class_id: i32)
    requires
        old(registry).wf(),
        class_name@.len() > 0,
        !old(registry).classes().contains_key(class_name@),
    ensures
        final(registry).wf(),
        final(registry).classes() == old(registry).classes().insert(class_name@, class_id),
        final(registry).next_instance() == old(registry).next_instance(),
{
    let ghost before = registry.entries@;
    assert forall|i: int| 0 <= i < before.len() implies before[i].name@ != class_name@ by {
        registry.lemma_entry_lookup(i);
    }
    registry.entries.push(ClassEntry { name: class_name.to_owned(), class_id });
    let ghost after = registry.entries@;
    assert(after.len() == before.len() + 1);
    assert forall|i: int| 0 <= i < after.len() - 1 implies #[trigger] after[i] == before[i] by {}
    assert(registry.wf());
    let ghost expected = old(registry).classes().insert(class_name@, class_id);
    assert forall|k: Seq<char>| #[trigger] registry.classes().contains_key(k) <==> expected.contains_key(k) by {
        if expected.contains_key(k) {
            if k == class_name@ {
                assert(after[after.len() - 1].name@ == k);
            } else {
                let j = choose|j: int| 0 <= j < before.len() && before[j].name@ == k;
                assert(after[j].name@ == k);
            }
        }
        if registry.classes().contains_key(k) {
            let j = choose|j: int| 0 <= j < after.len() && after[j].name@ == k;
            if j < before.len() {
                assert(before[j].name@ == k);
            }
        }
    }
    assert forall|k: Seq<char>| #[trigger] registry.classes().contains_key(k) implies registry.classes()[k] == expected[k] by {
        let j = choose|j: int| 0 <= j < after.len() && after[j].name@ == k;
        registry.lemma_entry_lookup(j);
        if j < before.len() {
            assert(before[j] == after[j]);
            old(registry).lemma_entry_lookup(j);
        }
    }
    assert(registry.classes() =~= expected);
}

/// The class id registered under `class_name`. Resolving a name that was never
/// registered is a programming error of the bridge.
pub fn resolve_class_id(registry: &ClassRegistry, class_name: &str) -> (r: i32)
    requires
        registry.wf(),
        registry.classes().contains_key(class_name@),
    ensures
        r == registry.classes()[class_name@],
{
    registry.lookup_class_id(class_name).unwrap()
}

/// The decision of the generic constructor callback: `class_name` is the
/// `name` property of the function being constructed with. It resolves to the
/// registered class id, and the new instance gets the next host instance id.
/// `None` once instance ids are exhausted. A name that was never registered is
/// a programming error of the bridge.
pub fn constructor(registry: &mut ClassRegistry, class_name: &str) -> (r: Option<InstancePlan>)
    requires
        old(registry).wf(),
        old(registry).classes().contains_key(class_name@),
    ensures
        final(registry).wf(),
        final(registry).classes() == old(registry).classes(),
        old(registry).next_instance() < i32::MAX <==> r is Some,
        r matches Some(p) ==> p.class_id == old(registry).classes()[class_name@]
            && p.instance_id == old(registry).next_instance()
            && final(registry).next_instance() == old(registry).next_instance() + 1,
        r is None ==> final(registry).next_instance() == old(registry).next_instance(),
{
    let class_id = resolve_class_id(registry, class_name);
    match registry.take_instance_id() {
        Some(instance_id) => Some(InstancePlan { class_id, instance_id }),
        None => None,
    }
}

/// What calling a native instance returns by default: `null`.
pub fn js_class_call() -> (r: RawValue)
    ensures
        r == RawValue::null_spec(),
{
    RawValue::null()
}

/// The class table after registering each of `later`, in order.
pub open spec fn registered_after(m: Map<Seq<char>, i32>, later: Seq<(Seq<char>, i32)>) -> Map<
    Seq<char>,
    i32,
>
    decreases later.len(),
{
    if later.len() == 0 {
        m
    } else {
        registered_after(m.insert(later[0].0, later[0].1), later.drop_first())
    }
}

/// Class id stability: once `name` is registered with `id`, registering any
/// further classes (each under a name not yet taken, as registration
/// demands) leaves `name` resolving to `id`; so every construction of that
/// class resolves to the id it was registered with.
pub proof fn lemma_class_id_stable(
    m: Map<Seq<char>, i32>,
    name: Seq<char>,
    id: i32,
    later: Seq<(Seq<char>, i32)>,
)
    requires
        m.contains_key(name),
        m[name] == id,
        forall|i: int| 0 <= i < later.len() ==> (#[trigger] later[i]).0 != name,
    ensures
        registered_after(m, later).contains_key(name),
        registered_after(m, later)[name] == id,
    decreases later.len(),
{
    if later.len() > 0 {
        let next = m.insert(later[0].0, later[0].1);
        assert(later[0].0 != name);
        let rest = later.drop_first();
        assert forall|i: int| 0 <= i < rest.len() implies (#[trigger] rest[i]).0 != name by {
            assert(rest[i] == later[i + 1]);
        }
        lemma_class_id_stable(next, name, id, rest);
    }
}

} // verus!
