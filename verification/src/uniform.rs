use vstd::prelude::*;

verus! {

/// Layout of one binding of a bind group: a uniform buffer without dynamic
/// offset, visible to the stages `visibility`.
pub struct UniformLayoutEntry<S> {
    pub binding: u32,
    pub visibility: S,
}

/// What one binding of a bind group refers to: the bytes of `buffer` from
/// `offset` on, `size` of them, or all the rest when `size` is `None`.
pub struct UniformGroupEntry<B> {
    pub binding: u32,
    pub buffer: B,
    pub offset: u64,
    pub size: Option<u64>,
}

/// Collects the uniform-buffer bindings of a bind group, the layout side and
/// the resource side in the same order. `B` is the handle of a buffer and `S`
/// a set of shader stages of the graphics API in use.
pub struct BindGroupBuilfer<B, S> {
    layout_entries: Vec<UniformLayoutEntry<S>>,
    group_entries: Vec<UniformGroupEntry<B>>,
}

/// Both sides describe the same bindings, in the same order.
pub open spec fn entries_match<B, S>(
    layout: Seq<UniformLayoutEntry<S>>,
    group: Seq<UniformGroupEntry<B>>,
) -> bool {
    &&& layout.len() == group.len()
    &&& forall|i: int| 0 <= i < layout.len() ==> #[trigger] layout[i].binding == group[i].binding
}

impl<B, S> BindGroupBuilfer<B, S> {
    /// The layout entries collected so far.
    pub closed spec fn layouts(&self) -> Seq<UniformLayoutEntry<S>> {
        self.layout_entries@
    }

    /// The resource entries collected so far.
    pub closed spec fn groups(&self) -> Seq<UniformGroupEntry<B>> {
        self.group_entries@
    }

    /// A builder with no binding yet.
    pub fn new() -> (r: Self)
        ensures
            r.layouts() == Seq::<UniformLayoutEntry<S>>::empty(),
            r.groups() == Seq::<UniformGroupEntry<B>>::empty(),
            entries_match(r.layouts(), r.groups()),
    {
        BindGroupBuilfer { layout_entries: Vec::new(), group_entries: Vec::new() }
    }

    /// Adds binding `binding`, which sees the whole of `buffer`.
    pub fn with_uniform_buffer(self, binding: u32, visibility: S, buffer: B) -> (r: Self)
        ensures
            r.layouts() == self.layouts().push(UniformLayoutEntry { binding, visibility }),
            r.groups() == self.groups().push(
                UniformGroupEntry { binding, buffer, offset: 0, size: None },
            ),
            entries_match(self.layouts(), self.groups()) ==> entries_match(r.layouts(), r.groups()),
    {
        let mut b = self;
        b.layout_entries.push(UniformLayoutEntry { binding, visibility });
        b.group_entries.push(UniformGroupEntry { binding, buffer, offset: 0, size: None });
        b
    }

    /// Adds binding `binding`, which sees `offset_size.1` bytes of `buffer`
    /// from `offset_size.0` on; a size of 0 means the rest of the buffer.
    pub fn with_uniform_buffer_range(
        self,
        binding: u32,
        visibility: S,
        buffer: B,
        offset_size: (u64, u64),
    ) -> (r: Self)
        ensures
            r.layouts() == self.layouts().push(UniformLayoutEntry { binding, visibility }),
            r.groups() == self.groups().push(
                UniformGroupEntry {
                    binding,
                    buffer,
                    offset: offset_size.0,
                    size: if offset_size.1 == 0 {
                        None
                    } else {
                        Some(offset_size.1)
                    },
                },
            ),
            entries_match(self.layouts(), self.groups()) ==> entries_match(r.layouts(), r.groups()),
    {
        let size = if offset_size.1 == 0 {
            None
        } else {
            Some(offset_size.1)
        };
        let mut b = self;
        b.layout_entries.push(UniformLayoutEntry { binding, visibility });
        b.group_entries.push(UniformGroupEntry { binding, buffer, offset: offset_size.0, size });
        b
    }

    /// The collected entries, layout side first.
    pub fn into_entries(self) -> (r: (Vec<UniformLayoutEntry<S>>, Vec<UniformGroupEntry<B>>))
        ensures
            r.0@ == self.layouts(),
            r.1@ == self.groups(),
    {
        (self.layout_entries, self.group_entries)
    }
}

} // verus!
