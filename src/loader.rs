use vstd::prelude::*;

use vulkano::pipeline::shader::ShaderInterfaceDefEntry;

verus! {

/// Declares vulkano's shader interface entry, carried through opaque.
#[verifier::external_type_specification]
#[verifier::external_body]
pub struct ExShaderInterfaceDefEntry(ShaderInterfaceDefEntry);

/// The input interface of the compute entry point: compute shaders take no vertex input,
/// so it has no entries.
#[derive(Debug, Copy, Clone, PartialEq, Eq, Hash)]
pub struct MainInput;

impl MainInput {
    pub fn elements(&self) -> (r: MainInputIter)
        ensures
            r.len() == 0,
    {
        MainInputIter { num: 0 }
    }
}

/// Walks the entries of `MainInput`; `num` counts those already handed out.
#[derive(Debug, Copy, Clone)]
pub struct MainInputIter {
    num: u16,
}

impl MainInputIter {
    #[verifier::type_invariant]
    spec fn within_interface(self) -> bool {
        self.num == 0
    }

    /// Entries left to hand out.
    pub closed spec fn len(self) -> nat {
        (0 - self.num) as nat
    }

    pub fn next(&mut self) -> (r: Option<ShaderInterfaceDefEntry>)
        ensures
            r is None,
            final(self).len() == old(self).len(),
    {
        None
    }

    pub fn size_hint(&self) -> (r: (usize, Option<usize>))
        ensures
            r.0 == self.len(),
            r.1 == Some(self.len() as usize),
    {
        proof {
            use_type_invariant(self);
        }
        let len = 0usize - self.num as usize;
        (len, Some(len))
    }
}

/// The output interface of the compute entry point: compute shaders write no attachments,
/// so it has no entries.
#[derive(Debug, Copy, Clone, PartialEq, Eq, Hash)]
pub struct MainOutput;

impl MainOutput {
    pub fn elements(&self) -> (r: MainOutputIter)
        ensures
            r.len() == 0,
    {
        MainOutputIter { num: 0 }
    }
}

/// Walks the entries of `MainOutput`; `num` counts those already handed out.
#[derive(Debug, Copy, Clone)]
pub struct MainOutputIter {
    num: u16,
}

impl MainOutputIter {
    #[verifier::type_invariant]
    spec fn within_interface(self) -> bool {
        self.num == 0
    }

    /// Entries left to hand out.
    pub closed spec fn len(self) -> nat {
        (0 - self.num) as nat
    }

    pub fn next(&mut self) -> (r: Option<ShaderInterfaceDefEntry>)
        ensures
            r is None,
            final(self).len() == old(self).len(),
    {
        None
    }

    pub fn size_hint(&self) -> (r: (usize, Option<usize>))
        ensures
            r.0 == self.len(),
            r.1 == Some(self.len() as usize),
    {
        proof {
            use_type_invariant(self);
        }
        let len = 0usize - self.num as usize;
        (len, Some(len))
    }
}

/// Which pipeline stages may access a binding.
#[derive(Clone, Copy, Debug, PartialEq, Eq, Structural)]
pub struct ShaderStages {
    pub vertex: bool,
    pub tessellation_control: bool,
    pub tessellation_evaluation: bool,
    pub geometry: bool,
    pub fragment: bool,
    pub compute: bool,
}

pub open spec fn compute_stages() -> ShaderStages {
    ShaderStages {
        vertex: false,
        tessellation_control: false,
        tessellation_evaluation: false,
        geometry: false,
        fragment: false,
        compute: true,
    }
}

pub open spec fn all_stages() -> ShaderStages {
    ShaderStages {
        vertex: true,
        tessellation_control: true,
        tessellation_evaluation: true,
        geometry: true,
        fragment: true,
        compute: true,
    }
}

impl ShaderStages {
    /// The compute stage alone.
    pub fn compute() -> (r: ShaderStages)
        ensures
            r == compute_stages(),
    {
        ShaderStages {
            vertex: false,
            tessellation_control: false,
            tessellation_evaluation: false,
            geometry: false,
            fragment: false,
            compute: true,
        }
    }

    /// Every stage.
    pub fn all() -> (r: ShaderStages)
        ensures
            r == all_stages(),
    {
        ShaderStages {
            vertex: true,
            tessellation_control: true,
            tessellation_evaluation: true,
            geometry: true,
            fragment: true,
            compute: true,
        }
    }
}

/// What a binding slot holds.
#[derive(Clone, Copy, Debug, PartialEq, Eq, Structural)]
pub enum DescriptorType {
    /// A two-dimensional storage image, read and written by the shader.
    StorageImage,
    /// A storage buffer.
    StorageBuffer,
    /// An array of sampled images, each paired with its sampler.
    SampledImageArray,
}

/// One binding slot of a descriptor set.
#[derive(Clone, Copy, Debug, PartialEq, Eq, Structural)]
pub struct DescriptorDesc {
    pub ty: DescriptorType,
    /// Number of array elements bound at this slot.
    pub array_count: u32,
    pub stages: ShaderStages,
    pub readonly: bool,
}

/// A push-constant byte range.
#[derive(Clone, Copy, Debug, PartialEq, Eq, Structural)]
pub struct PushConstantRange {
    pub offset: usize,
    pub size: usize,
    pub stages: ShaderStages,
}

impl PushConstantRange {
    /// The byte just past the range.
    pub open spec fn end(self) -> int {
        self.offset + self.size
    }
}

/// The binding layout that a compute shader declares: sets of bindings, numbered from zero,
/// whose bindings are numbered by the order in which they were added, and push-constant ranges.
#[derive(Clone, Debug)]
pub struct MainLayout {
    pub stages: ShaderStages,
    pub sets: Vec<Vec<DescriptorDesc>>,
    pub push_constants_ranges: Vec<PushConstantRange>,
}

/// The abstract content of a layout.
pub struct LayoutView {
    pub sets: Seq<Seq<DescriptorDesc>>,
    pub push_constants_ranges: Seq<PushConstantRange>,
}

/// The sets after `d` is appended to set `set`: missing sets up to `set` are created empty.
pub open spec fn sets_with(sets: Seq<Seq<DescriptorDesc>>, set: int, d: DescriptorDesc) -> Seq<
    Seq<DescriptorDesc>,
> {
    if set < sets.len() {
        sets.update(set, sets[set].push(d))
    } else {
        sets + Seq::new((set - sets.len()) as nat, |i: int| Seq::<DescriptorDesc>::empty()) + seq![
            seq![d],
        ]
    }
}

pub open spec fn storage_image_desc() -> DescriptorDesc {
    DescriptorDesc {
        ty: DescriptorType::StorageImage,
        array_count: 1,
        stages: compute_stages(),
        readonly: false,
    }
}

pub open spec fn storage_buffer_desc(readonly: bool) -> DescriptorDesc {
    DescriptorDesc {
        ty: DescriptorType::StorageBuffer,
        array_count: 1,
        stages: compute_stages(),
        readonly,
    }
}

pub open spec fn sampled_image_array_desc(count: u32, shared: bool) -> DescriptorDesc {
    DescriptorDesc {
        ty: DescriptorType::SampledImageArray,
        array_count: count,
        stages: if shared {
            all_stages()
        } else {
            compute_stages()
        },
        readonly: true,
    }
}

/// Whether some declared range starts at `offset` and is exactly `len` bytes long.
pub open spec fn push_constants_accepted(ranges: Seq<PushConstantRange>, offset: int, len: int) -> bool {
    exists|i: int| 0 <= i < ranges.len() && #[trigger] ranges[i].offset == offset && ranges[i].size == len
}

/// The sets built by appending each `(set, binding)` of `ops`, in order, to an empty layout.
pub open spec fn sets_of(ops: Seq<(nat, DescriptorDesc)>) -> Seq<Seq<DescriptorDesc>>
    decreases ops.len(),
{
    if ops.len() == 0 {
        Seq::empty()
    } else {
        sets_with(sets_of(ops.drop_last()), ops.last().0 as int, ops.last().1)
    }
}

/// How many of `ops` target set `set`.
pub open spec fn adds_to(ops: Seq<(nat, DescriptorDesc)>, set: nat) -> nat
    decreases ops.len(),
{
    if ops.len() == 0 {
        0
    } else {
        adds_to(ops.drop_last(), set) + if ops.last().0 == set {
            1nat
        } else {
            0nat
        }
    }
}

/// One more than the highest set that `ops` targets; zero when `ops` is empty.
pub open spec fn set_span(ops: Seq<(nat, DescriptorDesc)>) -> nat
    decreases ops.len(),
{
    if ops.len() == 0 {
        0
    } else {
        let rest = set_span(ops.drop_last());
        if ops.last().0 + 1 > rest {
            ops.last().0 + 1
        } else {
            rest
        }
    }
}

/// Whatever bindings are added, and in whatever order, the layout has one set for every index
/// from zero up to the highest set targeted, with no gap, and each set holds exactly as many
/// bindings as were added to it.
pub proof fn lemma_sets_contiguous(ops: Seq<(nat, DescriptorDesc)>)
    ensures
        sets_of(ops).len() == set_span(ops),
        forall|k: nat| k < set_span(ops) ==> #[trigger] sets_of(ops)[k as int].len() == adds_to(ops, k),
    decreases ops.len(),
{
    if ops.len() > 0 {
        lemma_sets_contiguous(ops.drop_last());
        let prev = sets_of(ops.drop_last());
        let (set, d) = ops.last();
        assert forall|k: nat| k < set_span(ops) implies #[trigger] sets_of(ops)[k as int].len()
            == adds_to(ops, k) by {
            if k < prev.len() {
                assert(adds_to(ops.drop_last(), k) == prev[k as int].len());
            } else {
                assert(adds_to(ops.drop_last(), k) == 0) by {
                    lemma_adds_beyond_span(ops.drop_last(), k);
                }
            }
        }
    }
}

proof fn lemma_adds_beyond_span(ops: Seq<(nat, DescriptorDesc)>, k: nat)
    requires
        k >= set_span(ops),
    ensures
        adds_to(ops, k) == 0,
    decreases ops.len(),
{
    if ops.len() > 0 {
        lemma_adds_beyond_span(ops.drop_last(), k);
    }
}

/// Declaring a push-constant range makes a payload of exactly that size at that offset
/// acceptable, and any accepted payload lies inside a declared range.
pub proof fn lemma_push_constants_round_trip(l: LayoutView, offset: usize, size: usize)
    ensures
        ({
            let ranges = l.push_constants_ranges.push(
                PushConstantRange { offset, size, stages: compute_stages() },
            );
            &&& push_constants_accepted(ranges, offset as int, size as int)
            &&& forall|o: int, n: int|
                #[trigger] push_constants_accepted(ranges, o, n) ==> exists|i: int|
                    0 <= i < ranges.len() && #[trigger] ranges[i].offset <= o && o + n
                        <= ranges[i].end()
        }),
{
    let ranges = l.push_constants_ranges.push(
        PushConstantRange { offset, size, stages: compute_stages() },
    );
    let last = (ranges.len() - 1) as int;
    assert(ranges[last].offset == offset && ranges[last].size == size);
}

impl View for MainLayout {
    type V = LayoutView;

    open spec fn view(&self) -> LayoutView {
        LayoutView {
            sets: self.sets@.map_values(|s: Vec<DescriptorDesc>| s@),
            push_constants_ranges: self.push_constants_ranges@,
        }
    }
}

impl MainLayout {
    /// An empty layout for the compute stage.
    pub fn new() -> (r: MainLayout)
        ensures
            r@.sets.len() == 0,
            r@.push_constants_ranges.len() == 0,
            r.stages == compute_stages(),
    {
        MainLayout {
            stages: ShaderStages::compute(),
            sets: Vec::new(),
            push_constants_ranges: Vec::new(),
        }
    }

    /// Appends `desc` as the next binding of set `set`, creating empty sets up to `set`.
    pub fn add_desc(&mut self, set: usize, desc: DescriptorDesc)
        ensures
            final(self)@.sets == sets_with(old(self)@.sets, set as int, desc),
            final(self)@.push_constants_ranges == old(self)@.push_constants_ranges,
            final(self).stages == old(self).stages,
    {
        let ghost old_sets = self@.sets;
        if set >= self.sets.len() {
            while self.sets.len() < set
                invariant
                    self.sets.len() <= set,
                    old(self).sets.len() <= self.sets.len(),
                    self.stages == old(self).stages,
                    self.push_constants_ranges == old(self).push_constants_ranges,
                    self@.sets =~= old_sets + Seq::new(
                        (self.sets.len() - old_sets.len()) as nat,
                        |i: int| Seq::<DescriptorDesc>::empty(),
                    ),
                decreases set - self.sets.len(),
            {
                let ghost before = self@.sets;
                self.sets.push(Vec::new());
                assert(self@.sets =~= before.push(Seq::<DescriptorDesc>::empty()));
            }
            let mut fresh: Vec<DescriptorDesc> = Vec::new();
            fresh.push(desc);
            self.sets.push(fresh);
            assert(self@.sets =~= sets_with(old_sets, set as int, desc));
        } else {
            self.sets[set].push(desc);
            assert(self@.sets =~= sets_with(old_sets, set as int, desc));
        }
    }

    /// Appends a two-dimensional storage image binding to set `set`.
    pub fn add_image(&mut self, set: usize)
        ensures
            final(self)@.sets == sets_with(old(self)@.sets, set as int, storage_image_desc()),
            final(self)@.push_constants_ranges == old(self)@.push_constants_ranges,
            final(self).stages == old(self).stages,
    {
        let desc = DescriptorDesc {
            ty: DescriptorType::StorageImage,
            array_count: 1,
            stages: ShaderStages::compute(),
            readonly: false,
        };
        self.add_desc(set, desc);
    }

    /// Appends a storage buffer binding to set `set`.
    pub fn add_buffer(&mut self, set: usize, readonly: bool)
        ensures
            final(self)@.sets == sets_with(old(self)@.sets, set as int, storage_buffer_desc(readonly)),
            final(self)@.push_constants_ranges == old(self)@.push_constants_ranges,
            final(self).stages == old(self).stages,
    {
        let desc = DescriptorDesc {
            ty: DescriptorType::StorageBuffer,
            array_count: 1,
            stages: ShaderStages::compute(),
            readonly,
        };
        self.add_desc(set, desc);
    }

    /// Appends an array of `count` sampled images to set `set`; a `shared` array is visible
    /// to every stage, another to the compute stage alone.
    pub fn add_sampled_image_array(&mut self, set: usize, count: u32, shared: bool)
        ensures
            final(self)@.sets == sets_with(
                old(self)@.sets,
                set as int,
                sampled_image_array_desc(count, shared),
            ),
            final(self)@.push_constants_ranges == old(self)@.push_constants_ranges,
            final(self).stages == old(self).stages,
    {
        let stages = if shared {
            ShaderStages::all()
        } else {
            ShaderStages::compute()
        };
        let desc = DescriptorDesc {
            ty: DescriptorType::SampledImageArray,
            array_count: count,
            stages,
            readonly: true,
        };
        self.add_desc(set, desc);
    }

    /// Declares a push-constant range of `size` bytes at byte `offset`.
    pub fn add_push_constant_range(&mut self, offset: usize, size: usize)
        ensures
            final(self)@.push_constants_ranges == old(self)@.push_constants_ranges.push(
                PushConstantRange { offset, size, stages: compute_stages() },
            ),
            final(self)@.sets == old(self)@.sets,
            final(self).stages == old(self).stages,
    {
        self.push_constants_ranges.push(
            PushConstantRange { offset, size, stages: ShaderStages::compute() },
        );
    }

    /// Whether a push-constant payload of `len` bytes written at byte `offset` matches a
    /// declared range exactly.
    pub fn accepts_push_constants(&self, offset: usize, len: usize) -> (r: bool)
        ensures
            r == push_constants_accepted(self@.push_constants_ranges, offset as int, len as int),
    {
        let mut i: usize = 0;
        while i < self.push_constants_ranges.len()
            invariant
                i <= self.push_constants_ranges.len(),
                forall|j: int|
                    0 <= j < i ==> !(#[trigger] self.push_constants_ranges@[j].offset == offset
                        && self.push_constants_ranges@[j].size == len),
            decreases self.push_constants_ranges.len() - i,
        {
            let range = self.push_constants_ranges[i];
            if range.offset == offset && range.size == len {
                return true;
            }
            i = i + 1;
        }
        false
    }

    pub fn num_sets(&self) -> (r: usize)
        ensures
            r == self@.sets.len(),
    {
        self.sets.len()
    }

    pub fn num_bindings_in_set(&self, set: usize) -> (r: Option<usize>)
        ensures
            r == (if set < self@.sets.len() {
                Some(self@.sets[set as int].len() as usize)
            } else {
                None
            }),
    {
        if set < self.sets.len() {
            Some(self.sets[set].len())
        } else {
            None
        }
    }

    pub fn descriptor(&self, set: usize, binding: usize) -> (r: Option<DescriptorDesc>)
        ensures
            r == (if set < self@.sets.len() && binding < self@.sets[set as int].len() {
                Some(self@.sets[set as int][binding as int])
            } else {
                None
            }),
    {
        if set < self.sets.len() && binding < self.sets[set].len() {
            Some(self.sets[set][binding])
        } else {
            None
        }
    }

    pub fn num_push_constants_ranges(&self) -> (r: usize)
        ensures
            r == self@.push_constants_ranges.len(),
    {
        self.push_constants_ranges.len()
    }

    pub fn push_constants_range(&self, num: usize) -> (r: Option<PushConstantRange>)
        ensures
            r == (if num < self@.push_constants_ranges.len() {
                Some(self@.push_constants_ranges[num as int])
            } else {
                None
            }),
    {
        if num < self.push_constants_ranges.len() {
            Some(self.push_constants_ranges[num])
        } else {
            None
        }
    }
}

} // verus!
