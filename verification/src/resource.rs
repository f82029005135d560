//! The typed registry: one value of each kind of state, found by its type.

use vstd::prelude::*;
use crate::cursor::Pointer;
use crate::input::EntryBox;

verus! {

/// The open files, in the order in which they were opened.
pub struct FileBuff {
    names: Vec<String>,
}

impl View for FileBuff {
    type V = Seq<Seq<char>>;

    closed spec fn view(&self) -> Seq<Seq<char>> {
        Seq::new(self.names@.len(), |i: int| self.names@[i]@)
    }
}

impl FileBuff {
    /// Appends `name` after the names already held.
    pub fn insert(&mut self, name: String)
        ensures
            final(self)@ == old(self)@.push(name@),
    {
        self.names.push(name);
    }

    /// The names held, first opened first.
    pub fn names(&self) -> (names: &Vec<String>)
        ensures
            names@.len() == self@.len(),
            forall|i: int| 0 <= i < names@.len() ==> names@[i]@ == #[trigger] self@[i],
    {
        &self.names
    }
}

impl Default for FileBuff {
    /// No file is open.
    fn default() -> (files: FileBuff)
        ensures
            files@ == Seq::<Seq<char>>::empty(),
    {
        FileBuff { names: Vec::new() }
    }
}

/// The identity of a type that the registry can hold.
#[derive(Clone, Copy, Debug, PartialEq, Eq, Structural)]
pub enum Kind {
    /// The file names given to the program: a `Vec<String>`.
    Args,
    /// The [`Pointer`].
    Pointer,
    /// The [`EntryBox`].
    EntryBox,
    /// The [`FileBuff`].
    FileBuff,
}

/// A value of one of the kinds, with its type erased.
pub enum Slot {
    Args(Vec<String>),
    Pointer(Pointer),
    EntryBox(EntryBox),
    FileBuff(FileBuff),
}

impl Slot {
    /// The kind of the value held.
    pub open spec fn kind(self) -> Kind {
        match self {
            Slot::Args(_) => Kind::Args,
            Slot::Pointer(_) => Kind::Pointer,
            Slot::EntryBox(_) => Kind::EntryBox,
            Slot::FileBuff(_) => Kind::FileBuff,
        }
    }

    /// The kind of the value held.
    pub fn tag(&self) -> (k: Kind)
        ensures
            k == self.kind(),
    {
        match self {
            Slot::Args(_) => Kind::Args,
            Slot::Pointer(_) => Kind::Pointer,
            Slot::EntryBox(_) => Kind::EntryBox,
            Slot::FileBuff(_) => Kind::FileBuff,
        }
    }
}

/// A type that the registry can hold.
pub trait Stored: Sized {
    /// The identity of the type.
    spec fn kind() -> Kind;

    /// The value with its type erased.
    spec fn pack(self) -> Slot;

    /// The value that a slot of this kind holds.
    spec fn unpack(slot: Slot) -> Self;

    /// Erasing the type and restoring it gives the value back, and an erased
    /// value is of the type's kind.
    proof fn lemma_pack(self)
        ensures
            self.pack().kind() == Self::kind(),
            Self::unpack(self.pack()) == self,
    ;

    /// A slot of this kind is the erasure of the value it holds.
    proof fn lemma_unpack(slot: Slot)
        requires
            slot.kind() == Self::kind(),
        ensures
            Self::unpack(slot).pack() == slot,
    ;

    /// The identity of the type.
    fn key() -> (k: Kind)
        ensures
            k == Self::kind(),
    ;

    /// Erases the type of the value.
    fn erase(self) -> (slot: Slot)
        ensures
            slot == self.pack(),
    ;

    /// The value that a slot of this kind holds.
    fn restore(slot: &Slot) -> (value: &Self)
        requires
            slot.kind() == Self::kind(),
        ensures
            *value == Self::unpack(*slot),
    ;

    /// The value that a slot of this kind holds, for the caller to change
    /// in place: the slot then holds what the caller leaves.
    fn restore_mut(slot: &mut Slot) -> (value: &mut Self)
        requires
            old(slot).kind() == Self::kind(),
        ensures
            *value == Self::unpack(*old(slot)),
            *final(slot) == (*final(value)).pack(),
    ;
}

impl Stored for Pointer {
    open spec fn kind() -> Kind {
        Kind::Pointer
    }

    open spec fn pack(self) -> Slot {
        Slot::Pointer(self)
    }

    open spec fn unpack(slot: Slot) -> Pointer {
        slot->Pointer_0
    }

    proof fn lemma_pack(self) {
    }

    proof fn lemma_unpack(slot: Slot) {
    }

    fn key() -> (k: Kind) {
        Kind::Pointer
    }

    fn erase(self) -> (slot: Slot) {
        Slot::Pointer(self)
    }

    fn restore(slot: &Slot) -> (value: &Pointer) {
        match slot {
            Slot::Pointer(value) => value,
            _ => vstd::pervasive::unreached(),
        }
    }

    fn restore_mut(slot: &mut Slot) -> (value: &mut Pointer) {
        match slot {
            Slot::Pointer(value) => value,
            _ => vstd::pervasive::unreached(),
        }
    }
}

impl Stored for EntryBox {
    open spec fn kind() -> Kind {
        Kind::EntryBox
    }

    open spec fn pack(self) -> Slot {
        Slot::EntryBox(self)
    }

    open spec fn unpack(slot: Slot) -> EntryBox {
        slot->EntryBox_0
    }

    proof fn lemma_pack(self) {
    }

    proof fn lemma_unpack(slot: Slot) {
    }

    fn key() -> (k: Kind) {
        Kind::EntryBox
    }

    fn erase(self) -> (slot: Slot) {
        Slot::EntryBox(self)
    }

    fn restore(slot: &Slot) -> (value: &EntryBox) {
        match slot {
            Slot::EntryBox(value) => value,
            _ => vstd::pervasive::unreached(),
        }
    }

    fn restore_mut(slot: &mut Slot) -> (value: &mut EntryBox) {
        match slot {
            Slot::EntryBox(value) => value,
            _ => vstd::pervasive::unreached(),
        }
    }
}

impl Stored for FileBuff {
    open spec fn kind() -> Kind {
        Kind::FileBuff
    }

    open spec fn pack(self) -> Slot {
        Slot::FileBuff(self)
    }

    open spec fn unpack(slot: Slot) -> FileBuff {
        slot->FileBuff_0
    }

    proof fn lemma_pack(self) {
    }

    proof fn lemma_unpack(slot: Slot) {
    }

    fn key() -> (k: Kind) {
        Kind::FileBuff
    }

    fn erase(self) -> (slot: Slot) {
        Slot::FileBuff(self)
    }

    fn restore(slot: &Slot) -> (value: &FileBuff) {
        match slot {
            Slot::FileBuff(value) => value,
            _ => vstd::pervasive::unreached(),
        }
    }

    fn restore_mut(slot: &mut Slot) -> (value: &mut FileBuff) {
        match slot {
            Slot::FileBuff(value) => value,
            _ => vstd::pervasive::unreached(),
        }
    }
}

impl Stored for Vec<String> {
    open spec fn kind() -> Kind {
        Kind::Args
    }

    open spec fn pack(self) -> Slot {
        Slot::Args(self)
    }

    open spec fn unpack(slot: Slot) -> Vec<String> {
        slot->Args_0
    }

    proof fn lemma_pack(self) {
    }

    proof fn lemma_unpack(slot: Slot) {
    }

    fn key() -> (k: Kind) {
        Kind::Args
    }

    fn erase(self) -> (slot: Slot) {
        Slot::Args(self)
    }

    fn restore(slot: &Slot) -> (value: &Vec<String>) {
        match slot {
            Slot::Args(value) => value,
            _ => vstd::pervasive::unreached(),
        }
    }

    fn restore_mut(slot: &mut Slot) -> (value: &mut Vec<String>) {
        match slot {
            Slot::Args(value) => value,
            _ => vstd::pervasive::unreached(),
        }
    }
}

/// No two slots of the sequence are of one kind.
spec fn distinct(slots: Seq<Slot>) -> bool {
    forall|i: int, j: int| 0 <= i < j < slots.len() ==> slots[i].kind() != slots[j].kind()
}

/// Where the slot of a kind stands in the sequence, if there is one.
spec fn place(slots: Seq<Slot>, kind: Kind) -> Option<int> {
    if exists|i: int| 0 <= i < slots.len() && slots[i].kind() == kind {
        Some(choose|i: int| 0 <= i < slots.len() && slots[i].kind() == kind)
    } else {
        None
    }
}

/// The slots of the sequence, by kind.
spec fn by_kind(slots: Seq<Slot>) -> Map<Kind, Slot> {
    Map::new(|kind: Kind| place(slots, kind) is Some, |kind: Kind| slots[place(slots, kind)->0])
}

/// Putting a slot in the place of one of its own kind changes the value of
/// that kind and nothing else.
proof fn lemma_replace(slots: Seq<Slot>, i: int, slot: Slot)
    requires
        distinct(slots),
        0 <= i < slots.len(),
        slots[i].kind() == slot.kind(),
    ensures
        distinct(slots.update(i, slot)),
        by_kind(slots.update(i, slot)) == by_kind(slots).insert(slot.kind(), slot),
{
    let after = slots.update(i, slot);
    assert forall|kind: Kind| place(after, kind) == place(slots, kind) by {
        if place(slots, kind) is Some {
            let j = place(slots, kind)->0;
            assert(after[j].kind() == kind);
        }
        if place(after, kind) is Some {
            let j = place(after, kind)->0;
            assert(slots[j].kind() == kind);
        }
    }
    assert(by_kind(after) =~= by_kind(slots).insert(slot.kind(), slot));
}

/// Adding a slot of a kind that the sequence lacks adds the value of that
/// kind and changes nothing else.
proof fn lemma_append(slots: Seq<Slot>, slot: Slot)
    requires
        distinct(slots),
        place(slots, slot.kind()) is None,
    ensures
        distinct(slots.push(slot)),
        by_kind(slots.push(slot)) == by_kind(slots).insert(slot.kind(), slot),
{
    let after = slots.push(slot);
    assert(after[slots.len() as int].kind() == slot.kind());
    assert forall|kind: Kind| kind != slot.kind() implies place(after, kind) == place(slots, kind) by {
        if place(slots, kind) is Some {
            let j = place(slots, kind)->0;
            assert(after[j].kind() == kind);
        }
        if place(after, kind) is Some {
            let j = place(after, kind)->0;
            assert(slots[j].kind() == kind);
        }
    }
    assert(by_kind(after) =~= by_kind(slots).insert(slot.kind(), slot));
}

/// The registry. It holds at most one value of each kind.
pub struct Resource {
    slots: Vec<Slot>,
}

impl View for Resource {
    type V = Map<Kind, Slot>;

    /// The value held of each kind, by kind.
    closed spec fn view(&self) -> Map<Kind, Slot> {
        by_kind(self.slots@)
    }
}

impl Resource {
    /// No two of the values held are of one kind.
    pub closed spec fn wf(self) -> bool {
        distinct(self.slots@)
    }

    /// Whether a value of type `T` is held.
    pub open spec fn has<T: Stored>(self) -> bool {
        self@.contains_key(T::kind())
    }

    /// The value of type `T` that is held.
    pub open spec fn value<T: Stored>(self) -> T {
        T::unpack(self@[T::kind()])
    }

    /// The value held under a kind is of that kind.
    pub proof fn lemma_kinds(self)
        ensures
            forall|kind: Kind| #[trigger] self@.contains_key(kind) ==> self@[kind].kind() == kind,
    {
    }

    /// A value that is taken out for change and left as it was leaves the
    /// registry as it was.
    pub proof fn lemma_get_mut_idle<T: Stored>(self)
        requires
            self.has::<T>(),
        ensures
            self@.insert(T::kind(), self.value::<T>().pack()) == self@,
    {
        self.lemma_kinds();
        T::lemma_unpack(self@[T::kind()]);
        assert(self@.insert(T::kind(), self.value::<T>().pack()) =~= self@);
    }

    fn find(&self, kind: Kind) -> (found: Option<usize>)
        requires
            self.wf(),
        ensures
            found matches Some(i) ==> i < self.slots@.len() && self.slots@[i as int].kind() == kind,
            found is None ==> place(self.slots@, kind) is None,
    {
        let mut i: usize = 0;
        while i < self.slots.len()
            invariant
                i <= self.slots@.len(),
                forall|j: int| 0 <= j < i ==> self.slots@[j].kind() != kind,
                self.wf(),
            decreases self.slots@.len() - i,
        {
            if self.slots[i].tag() == kind {
                return Some(i);
            }
            i += 1;
        }
        None
    }

    /// Stores `value`, in place of the value of type `T` held before, if any.
    pub fn insert<T: Stored>(&mut self, value: T)
        requires
            old(self).wf(),
        ensures
            final(self).wf(),
            final(self)@ == old(self)@.insert(T::kind(), value.pack()),
    {
        proof {
            value.lemma_pack();
        }
        let slot = value.erase();
        match self.find(T::key()) {
            Some(i) => {
                proof {
                    lemma_replace(self.slots@, i as int, slot);
                }
                self.slots[i] = slot;
            },
            None => {
                proof {
                    lemma_append(self.slots@, slot);
                }
                self.slots.push(slot);
            },
        }
    }

    /// Whether a value of type `T` is held.
    pub fn contains<T: Stored>(&self) -> (held: bool)
        requires
            self.wf(),
        ensures
            held == self.has::<T>(),
    {
        self.find(T::key()).is_some()
    }

    /// The value of type `T`.
    pub fn get<T: Stored>(&self) -> (value: &T)
        requires
            self.wf(),
            self.has::<T>(),
        ensures
            *value == self.value::<T>(),
    {
        match self.find(T::key()) {
            Some(i) => T::restore(&self.slots[i]),
            None => vstd::pervasive::unreached(),
        }
    }

    /// The value of type `T`, for the caller to change in place.
    pub fn get_mut<T: Stored>(&mut self) -> (value: &mut T)
        requires
            old(self).wf(),
            old(self).has::<T>(),
        ensures
            *value == old(self).value::<T>(),
            final(self).wf(),
            final(self)@ == old(self)@.insert(T::kind(), (*final(value)).pack()),
    {
        match self.find(T::key()) {
            Some(i) => {
                proof {
                    let slots = self.slots@;
                    assert forall|after: T| #[trigger] after.pack().kind() == T::kind() by {
                        after.lemma_pack();
                    }
                    assert forall|slot: Slot| slot.kind() == T::kind() implies distinct(
                        #[trigger] slots.update(i as int, slot),
                    ) && by_kind(slots.update(i as int, slot)) == by_kind(slots).insert(
                        T::kind(),
                        slot,
                    ) by {
                        lemma_replace(slots, i as int, slot);
                    }
                }
                T::restore_mut(&mut self.slots[i])
            },
            None => vstd::pervasive::unreached(),
        }
    }
}

impl Default for Resource {
    /// The registry that holds nothing.
    fn default() -> (res: Resource)
        ensures
            res.wf(),
            res@ == Map::<Kind, Slot>::empty(),
    {
        let res = Resource { slots: Vec::new() };
        proof {
            assert(res@ =~= Map::<Kind, Slot>::empty());
        }
        res
    }
}

/// What a registry holds after the slots were inserted in turn, if it held
/// `base` before.
pub open spec fn inserted(base: Map<Kind, Slot>, slots: Seq<Slot>) -> Map<Kind, Slot>
    decreases slots.len(),
{
    if slots.len() == 0 {
        base
    } else {
        inserted(base, slots.drop_last()).insert(slots.last().kind(), slots.last())
    }
}

/// After any sequence of inserts, the value held of a kind is the one that
/// was inserted last of that kind.
pub proof fn lemma_latest_insert(base: Map<Kind, Slot>, slots: Seq<Slot>, i: int)
    requires
        0 <= i < slots.len(),
        forall|j: int| i < j < slots.len() ==> slots[j].kind() != slots[i].kind(),
    ensures
        inserted(base, slots).contains_key(slots[i].kind()),
        inserted(base, slots)[slots[i].kind()] == slots[i],
    decreases slots.len(),
{
    if i < slots.len() - 1 {
        lemma_latest_insert(base, slots.drop_last(), i);
    }
}

/// After any sequence of inserts, what is found of type `T` is the value of
/// that type that was inserted last.
pub proof fn lemma_retrieval<T: Stored>(base: Map<Kind, Slot>, slots: Seq<Slot>, i: int, value: T)
    requires
        0 <= i < slots.len(),
        slots[i] == value.pack(),
        forall|j: int| i < j < slots.len() ==> slots[j].kind() != T::kind(),
    ensures
        inserted(base, slots).contains_key(T::kind()),
        T::unpack(inserted(base, slots)[T::kind()]) == value,
{
    value.lemma_pack();
    lemma_latest_insert(base, slots, i);
}

/// After any sequence of inserts, a kind of which none was inserted is held
/// as it was held before, and is absent if it was absent before.
pub proof fn lemma_never_inserted(base: Map<Kind, Slot>, slots: Seq<Slot>, kind: Kind)
    requires
        forall|j: int| 0 <= j < slots.len() ==> slots[j].kind() != kind,
    ensures
        inserted(base, slots).contains_key(kind) == base.contains_key(kind),
        base.contains_key(kind) ==> inserted(base, slots)[kind] == base[kind],
    decreases slots.len(),
{
    if slots.len() > 0 {
        lemma_never_inserted(base, slots.drop_last(), kind);
    }
}

} // verus!
