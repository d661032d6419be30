use vstd::prelude::*;
use vstd::string::StringExecFns;

verus! {

/// The shader stages that can see a binding.
#[derive(Clone, Copy, Debug, PartialEq, Eq, Structural)]
pub struct ShaderStages {
    pub vertex: bool,
    pub fragment: bool,
    pub compute: bool,
}

/// What a binding exposes to the shader.
#[derive(Clone, Copy, Debug, PartialEq, Eq, Structural)]
pub enum BindingType {
    Uniform,
    Storage { read_only: bool },
    Texture,
    Sampler,
}

/// Why a bind group, or one of its entries, was refused.
#[derive(Clone, Copy, Debug, PartialEq, Eq, Structural)]
pub enum BindGroupError {
    /// An array count of zero.
    ZeroArrayCount,
    /// An array count on a binding that is not a texture.
    ArrayNotAllowed,
    /// No binding index is left for another entry.
    TooManyEntries,
    /// Finalizing a builder that holds no entry.
    Empty,
    /// Inserting into, or finalizing, a builder that was already finalized.
    AlreadyFinalized,
}

/// The layout half of a binding: who sees it, what it is, and whether it is an array.
#[derive(Clone, Copy, Debug, PartialEq, Eq, Structural)]
pub struct BindGroupLayoutEntry {
    pub visibility: ShaderStages,
    pub ty: BindingType,
    pub count: Option<u32>,
}

/// A binding placed at its index, as the layout object lists it.
#[derive(Clone, Copy, Debug, PartialEq, Eq, Structural)]
pub struct LayoutEntry {
    pub binding: u32,
    pub visibility: ShaderStages,
    pub ty: BindingType,
    pub count: Option<u32>,
}

/// A binding index paired with the position of the entry whose resource it exposes.
#[derive(Clone, Copy, Debug, PartialEq, Eq, Structural)]
pub struct GroupEntry {
    pub binding: u32,
    pub resource: usize,
}

/// Only a texture may be arrayed, and an array holds at least one element.
pub open spec fn layout_entry_valid(ty: BindingType, count: Option<u32>) -> bool {
    match count {
        None => true,
        Some(n) => n >= 1 && ty is Texture,
    }
}

/// `e` placed at binding index `binding`.
pub open spec fn placed(e: BindGroupLayoutEntry, binding: int) -> LayoutEntry {
    LayoutEntry { binding: binding as u32, visibility: e.visibility, ty: e.ty, count: e.count }
}

/// Refuses an array count of zero, and an array count on anything but a texture.
fn check_layout(ty: BindingType, count: Option<u32>) -> (r: Result<(), BindGroupError>)
    ensures
        count == Some(0u32) ==> r == Err::<(), BindGroupError>(BindGroupError::ZeroArrayCount),
        (count matches Some(n) && n >= 1 && !(ty is Texture)) ==> r == Err::<(), BindGroupError>(
            BindGroupError::ArrayNotAllowed,
        ),
        r is Ok <==> layout_entry_valid(ty, count),
{
    match count {
        Some(n) => {
            if n == 0 {
                return Err(BindGroupError::ZeroArrayCount);
            }
            match ty {
                BindingType::Texture => Ok(()),
                _ => Err(BindGroupError::ArrayNotAllowed),
            }
        },
        None => Ok(()),
    }
}

impl BindGroupLayoutEntry {
    pub fn new(visibility: ShaderStages, ty: BindingType, count: Option<u32>) -> (r: Result<
        Self,
        BindGroupError,
    >)
        ensures
            count == Some(0u32) ==> r == Err::<Self, BindGroupError>(
                BindGroupError::ZeroArrayCount,
            ),
            (count matches Some(n) && n >= 1 && !(ty is Texture)) ==> r == Err::<
                Self,
                BindGroupError,
            >(BindGroupError::ArrayNotAllowed),
            layout_entry_valid(ty, count) ==> r == Ok::<Self, BindGroupError>(
                (BindGroupLayoutEntry { visibility, ty, count }),
            ),
    {
        match check_layout(ty, count) {
            Ok(()) => Ok(BindGroupLayoutEntry { visibility, ty, count }),
            Err(e) => Err(e),
        }
    }

    /// This entry placed at binding index `binding`.
    pub fn to_wgpu(&self, binding: u32) -> (r: LayoutEntry)
        ensures
            r == placed(*self, binding as int),
    {
        LayoutEntry { binding, visibility: self.visibility, ty: self.ty, count: self.count }
    }
}

/// One binding of a group: the resource it exposes and its layout.
pub struct BindGroupEntry<R> {
    pub resource: R,
    pub layout: BindGroupLayoutEntry,
}

/// Where a builder stands: nothing inserted, entries inserted, or finalized.
#[derive(Clone, Copy, Debug, PartialEq, Eq, Structural)]
pub enum BuilderState {
    Empty,
    Accumulating,
    Finalized,
}

/// The layout entries that a finalized group lists: entry `i` at binding `i`.
pub open spec fn layout_plan<R>(entries: Seq<BindGroupEntry<R>>) -> Seq<LayoutEntry> {
    Seq::new(entries.len(), |i: int| placed(entries[i].layout, i))
}

/// The group entries that a finalized group lists: binding `i` exposes entry `i`'s resource.
pub open spec fn group_plan(n: nat) -> Seq<GroupEntry> {
    Seq::new(n, |i: int| GroupEntry { binding: i as u32, resource: i as usize })
}

/// Whether finalizing a builder in state `s` succeeds.
pub open spec fn finalize_accepted(s: BuilderState) -> bool {
    s is Accumulating
}

/// The state a builder is in after finalize is called in state `s`.
pub open spec fn state_after_finalize(s: BuilderState) -> BuilderState {
    if finalize_accepted(s) {
        BuilderState::Finalized
    } else {
        s
    }
}

/// Binding `i` of a finalized group, in the layout and in the binding set
/// alike, is the `i`-th inserted entry: its layout and its resource.
pub proof fn lemma_binding_follows_insertion<R>(entries: Seq<BindGroupEntry<R>>, i: int)
    requires
        0 <= i < entries.len() <= u32::MAX,
    ensures
        layout_plan(entries).len() == entries.len(),
        group_plan(entries.len()).len() == entries.len(),
        layout_plan(entries)[i].binding == i,
        layout_plan(entries)[i].visibility == entries[i].layout.visibility,
        layout_plan(entries)[i].ty == entries[i].layout.ty,
        layout_plan(entries)[i].count == entries[i].layout.count,
        group_plan(entries.len())[i].binding == i,
        group_plan(entries.len())[i].resource == i,
{
}

/// Inserting one more entry leaves the bindings of the earlier ones as they
/// were and places the new one at the next index.
pub proof fn lemma_insert_keeps_bindings<R>(entries: Seq<BindGroupEntry<R>>, e: BindGroupEntry<R>)
    requires
        entries.len() < u32::MAX,
    ensures
        layout_plan(entries.push(e)) == layout_plan(entries).push(placed(e.layout, entries.len() as int)),
        group_plan(entries.len() + 1) == group_plan(entries.len()).push(
            (GroupEntry { binding: entries.len() as u32, resource: entries.len() as usize }),
        ),
{
    assert(layout_plan(entries.push(e)) =~= layout_plan(entries).push(placed(e.layout, entries.len() as int)));
    assert(group_plan(entries.len() + 1) =~= group_plan(entries.len()).push(
        (GroupEntry { binding: entries.len() as u32, resource: entries.len() as usize }),
    ));
}

/// A builder with no entry cannot be finalized, and one that was finalized
/// cannot be finalized again.
pub proof fn lemma_finalize_at_most_once(s: BuilderState)
    ensures
        !finalize_accepted(BuilderState::Empty),
        finalize_accepted(s) ==> !finalize_accepted(state_after_finalize(s)),
        !finalize_accepted(s) ==> state_after_finalize(s) == s,
{
}

/// The two paired descriptions that a finalized builder yields: the layout
/// object and the binding set, with entries in the same order.
pub struct BindGroupDescriptors {
    pub layout_label: String,
    pub layout_entries: Vec<LayoutEntry>,
    pub label: String,
    pub entries: Vec<GroupEntry>,
}

/// An append-only builder of a bind group: each inserted entry gets the next
/// binding index, and finalizing yields the layout and the binding set at once.
pub struct BindGroup<R> {
    label: String,
    state: BuilderState,
    entries: Vec<BindGroupEntry<R>>,
    entry_labels: Vec<String>,
}

impl<R> BindGroup<R> {
    pub closed spec fn spec_label(&self) -> Seq<char> {
        self.label@
    }

    pub closed spec fn spec_state(&self) -> BuilderState {
        self.state
    }

    pub closed spec fn spec_entries(&self) -> Seq<BindGroupEntry<R>> {
        self.entries@
    }

    pub closed spec fn spec_entry_labels(&self) -> Seq<Seq<char>> {
        self.entry_labels@.map_values(|s: String| s@)
    }

    /// One name per entry, a binding index for each entry, every entry's
    /// layout valid, and the state agrees with the number of entries.
    pub open spec fn wf(&self) -> bool {
        &&& self.spec_entry_labels().len() == self.spec_entries().len()
        &&& self.spec_entries().len() <= u32::MAX
        &&& (self.spec_state() is Empty <==> self.spec_entries().len() == 0)
        &&& forall|i: int|
            0 <= i < self.spec_entries().len() ==> #[trigger] layout_entry_valid(
                self.spec_entries()[i].layout.ty,
                self.spec_entries()[i].layout.count,
            )
    }

    pub fn new(label: String) -> (r: Self)
        ensures
            r.wf(),
            r.spec_label() == label@,
            r.spec_state() == BuilderState::Empty,
            r.spec_entries().len() == 0,
            r.spec_entry_labels().len() == 0,
    {
        let r = BindGroup { label, state: BuilderState::Empty, entries: Vec::new(), entry_labels: Vec::new() };
        assert(r.spec_entry_labels() =~= Seq::<Seq<char>>::empty());
        r
    }

    pub fn len(&self) -> (r: usize)
        ensures
            r == self.spec_entries().len(),
    {
        self.entries.len()
    }

    pub fn state(&self) -> (r: BuilderState)
        ensures
            r == self.spec_state(),
    {
        self.state
    }

    pub fn label(&self) -> (r: &str)
        ensures
            r@ == self.spec_label(),
    {
        self.label.as_str()
    }

    /// The resource of the `i`-th inserted entry.
    pub fn resource(&self, i: usize) -> (r: &R)
        requires
            i < self.spec_entries().len(),
        ensures
            *r == self.spec_entries()[i as int].resource,
    {
        &self.entries[i].resource
    }

    /// The name the `i`-th entry was inserted under.
    pub fn entry_label(&self, i: usize) -> (r: &str)
        requires
            self.wf(),
            i < self.spec_entries().len(),
        ensures
            r@ == self.spec_entry_labels()[i as int],
    {
        self.entry_labels[i].as_str()
    }

    /// Appends an entry under a name and returns the binding index it got.
    pub fn insert(&mut self, label: String, entry: BindGroupEntry<R>) -> (r: Result<u32, BindGroupError>)
        requires
            old(self).wf(),
        ensures
            final(self).wf(),
            old(self).spec_state() is Finalized ==> r == Err::<u32, BindGroupError>(
                BindGroupError::AlreadyFinalized),
            !(old(self).spec_state() is Finalized) && entry.layout.count == Some(0u32) ==> r
                == Err::<u32, BindGroupError>(BindGroupError::ZeroArrayCount),
            !(old(self).spec_state() is Finalized) && (entry.layout.count matches Some(n) && n
                >= 1 && !(entry.layout.ty is Texture)) ==> r == Err::<u32, BindGroupError>(
                BindGroupError::ArrayNotAllowed,
            ),
            !(old(self).spec_state() is Finalized) && layout_entry_valid(
                entry.layout.ty,
                entry.layout.count,
            ) && old(self).spec_entries().len() >= u32::MAX ==> r == Err::<u32, BindGroupError>(
                BindGroupError::TooManyEntries,
            ),
            !(old(self).spec_state() is Finalized) && layout_entry_valid(
                entry.layout.ty,
                entry.layout.count,
            ) && old(self).spec_entries().len() < u32::MAX ==> r == Ok::<u32, BindGroupError>(
                old(self).spec_entries().len() as u32,
            ),
            r is Err ==> *final(self) == *old(self),
            r is Ok ==> {
                &&& final(self).spec_entries() == old(self).spec_entries().push(entry)
                &&& final(self).spec_entry_labels() == old(self).spec_entry_labels().push(label@)
                &&& final(self).spec_state() == BuilderState::Accumulating
                &&& final(self).spec_label() == old(self).spec_label()
            },
    {
        if let BuilderState::Finalized = self.state {
            return Err(BindGroupError::AlreadyFinalized);
        }
        if let Err(e) = check_layout(entry.layout.ty, entry.layout.count) {
            return Err(e);
        }
        let binding = self.entries.len();
        if binding >= u32::MAX as usize {
            return Err(BindGroupError::TooManyEntries);
        }
        self.entries.push(entry);
        self.entry_labels.push(label);
        self.state = BuilderState::Accumulating;
        assert(self.spec_entry_labels() =~= old(self).spec_entry_labels().push(label@));
        Ok(binding as u32)
    }

    /// The layout entries, each at the binding index given by its position.
    fn bind_group_layouts(&self) -> (r: Vec<LayoutEntry>)
        requires
            self.entries.len() <= u32::MAX,
        ensures
            r@ == layout_plan(self.entries@),
    {
        let mut r: Vec<LayoutEntry> = Vec::new();
        let mut i: usize = 0;
        while i < self.entries.len()
            invariant
                i <= self.entries.len() <= u32::MAX,
                r@ == layout_plan(self.entries@).take(i as int),
            decreases self.entries.len() - i,
        {
            r.push(self.entries[i].layout.to_wgpu(i as u32));
            i = i + 1;
            assert(r@ =~= layout_plan(self.entries@).take(i as int));
        }
        assert(r@ =~= layout_plan(self.entries@));
        r
    }

    /// The binding set: binding `i` exposes the resource of entry `i`.
    fn bind_group(&self) -> (r: Vec<GroupEntry>)
        requires
            self.entries.len() <= u32::MAX,
        ensures
            r@ == group_plan(self.entries.len() as nat),
    {
        let mut r: Vec<GroupEntry> = Vec::new();
        let mut i: usize = 0;
        while i < self.entries.len()
            invariant
                i <= self.entries.len() <= u32::MAX,
                r@ == group_plan(self.entries.len() as nat).take(i as int),
            decreases self.entries.len() - i,
        {
            r.push(GroupEntry { binding: i as u32, resource: i });
            i = i + 1;
            assert(r@ =~= group_plan(self.entries.len() as nat).take(i as int));
        }
        assert(r@ =~= group_plan(self.entries.len() as nat));
        r
    }

    /// Closes the builder and yields the layout and the binding set, both in
    /// insertion order; the layout is labelled `<label>_layout`.
    pub fn finalize(&mut self) -> (r: Result<BindGroupDescriptors, BindGroupError>)
        requires
            old(self).wf(),
        ensures
            final(self).wf(),
            final(self).spec_state() == state_after_finalize(old(self).spec_state()),
            final(self).spec_entries() == old(self).spec_entries(),
            final(self).spec_entry_labels() == old(self).spec_entry_labels(),
            final(self).spec_label() == old(self).spec_label(),
            old(self).spec_state() is Empty ==> r == Err::<BindGroupDescriptors, BindGroupError>(
                BindGroupError::Empty),
            old(self).spec_state() is Finalized ==> r == Err::<
                BindGroupDescriptors,
                BindGroupError,
            >(BindGroupError::AlreadyFinalized),
            r is Ok <==> finalize_accepted(old(self).spec_state()),
            r matches Ok(d) ==> {
                &&& d.label@ == old(self).spec_label()
                &&& d.layout_label@ == old(self).spec_label() + "_layout"@
                &&& d.layout_entries@ == layout_plan(old(self).spec_entries())
                &&& d.entries@ == group_plan(old(self).spec_entries().len())
                &&& forall|i: int|
                    0 <= i < d.layout_entries@.len() ==> layout_entry_valid(
                        #[trigger] d.layout_entries@[i].ty,
                        d.layout_entries@[i].count,
                    )
            },
    {
        match self.state {
            BuilderState::Empty => {
                return Err(BindGroupError::Empty);
            },
            BuilderState::Finalized => {
                return Err(BindGroupError::AlreadyFinalized);
            },
            BuilderState::Accumulating => {},
        }
        let layout_entries = self.bind_group_layouts();
        let entries = self.bind_group();
        let label = self.label.clone();
        let layout_label = self.label.clone().concat("_layout");
        self.state = BuilderState::Finalized;
        Ok(BindGroupDescriptors { layout_label, layout_entries, label, entries })
    }
}

} // verus!
