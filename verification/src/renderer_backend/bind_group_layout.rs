//! Bind group layouts: the ordered binding slots a pipeline expects, and the
//! builder that declares them.

use vstd::prelude::*;

verus! {

/// The shader stage a binding is visible to.
#[derive(Clone, Copy, Debug, PartialEq, Eq, Structural)]
pub enum ShaderStage {
    Vertex,
    Fragment,
    Compute,
}

/// The kind of resource a binding slot takes.
#[derive(Clone, Copy, Debug, PartialEq, Eq, Structural)]
pub enum BindingType {
    /// A view of a two-dimensional, filterable colour texture.
    Texture,
    /// A filtering sampler.
    Sampler,
}

/// One binding slot of a layout.
#[derive(Clone, Copy, Debug, PartialEq, Eq, Structural)]
pub struct BindGroupLayoutEntry {
    pub binding: u32,
    pub visibility: ShaderStage,
    pub ty: BindingType,
}

/// A finished layout: its label and its slots, in binding order.
#[derive(Debug, PartialEq, Eq)]
pub struct BindGroupLayout {
    pub label: String,
    pub entries: Vec<BindGroupLayoutEntry>,
}

/// The two slots a textured material takes, numbered from `first`: a texture
/// view, then a sampler, both read by the fragment stage.
pub open spec fn material_entries(first: nat) -> Seq<BindGroupLayoutEntry> {
    seq![
        BindGroupLayoutEntry {
            binding: first as u32,
            visibility: ShaderStage::Fragment,
            ty: BindingType::Texture,
        },
        BindGroupLayoutEntry {
            binding: (first + 1) as u32,
            visibility: ShaderStage::Fragment,
            ty: BindingType::Sampler,
        },
    ]
}

/// Slot `i` of the sequence has binding number `i`.
pub open spec fn numbered_in_order(entries: Seq<BindGroupLayoutEntry>) -> bool {
    forall|i: int| 0 <= i < entries.len() ==> (#[trigger] entries[i]).binding == i
}

/// Accumulates the slots of a layout. Slots are numbered in the order they
/// are added; `build` consumes the builder, so one builder gives one layout.
pub struct Builder {
    entries: Vec<BindGroupLayoutEntry>,
}

impl Builder {
    /// The slots declared so far.
    pub closed spec fn view(&self) -> Seq<BindGroupLayoutEntry> {
        self.entries@
    }

    pub fn new() -> (builder: Builder)
        ensures
            builder@ == Seq::<BindGroupLayoutEntry>::empty(),
    {
        Builder { entries: Vec::new() }
    }

    /// Number of slots declared so far.
    pub fn len(&self) -> (n: usize)
        ensures
            n == self@.len(),
    {
        self.entries.len()
    }

    /// Declares the slots of one textured material behind those declared so
    /// far, numbered on from them. The slot numbers are 32-bit, so there must
    /// be room for two more.
    pub fn add_material(&mut self)
        requires
            old(self)@.len() + 2 <= u32::MAX,
        ensures
            final(self)@ == old(self)@ + material_entries(old(self)@.len()),
            numbered_in_order(old(self)@) ==> numbered_in_order(final(self)@),
    {
        let first = self.entries.len() as u32;
        self.entries.push(
            BindGroupLayoutEntry {
                binding: first,
                visibility: ShaderStage::Fragment,
                ty: BindingType::Texture,
            },
        );
        self.entries.push(
            BindGroupLayoutEntry {
                binding: first + 1,
                visibility: ShaderStage::Fragment,
                ty: BindingType::Sampler,
            },
        );
        assert(self.entries@ =~= old(self).entries@ + material_entries(old(self).entries@.len()));
    }

    /// Finishes the layout under the given label.
    pub fn build(self, label: &str) -> (layout: BindGroupLayout)
        ensures
            layout.label@ == label@,
            layout.entries@ == self@,
    {
        BindGroupLayout { label: label.to_owned(), entries: self.entries }
    }
}

} // verus!
