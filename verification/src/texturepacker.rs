use vstd::prelude::*;

verus! {

pub const DEFAULT_TEXTURE_WIDTH: u32 = 1024;

pub const DEFAULT_TEXTURE_HEIGHT: u32 = 1024;

/// A stable reference to a region in the packer's tree.
#[derive(Debug, Clone, Copy, PartialEq, Eq, Structural)]
pub struct Handle(pub usize);

/// One rectangular region of the packed texture.
#[derive(Debug, Clone, Copy, PartialEq, Eq, Structural)]
pub struct TexturePackerEntry {
    pub x: u32,
    pub y: u32,
    pub w: u32,
    pub h: u32,
    pub in_use: bool,
}

/// A node of the region tree. Nodes live in an arena; splitting a region
/// appends its children, so a child's index is always larger than its
/// parent's.
#[derive(Debug, Clone, Copy)]
pub struct TreeNode {
    pub value: TexturePackerEntry,
    pub parent: Option<usize>,
    pub first_child: Option<usize>,
    pub next_sibling: Option<usize>,
}

/// Both child links of a node point forward into the arena.
pub open spec fn link_ok(nodes: Seq<TreeNode>, i: int) -> bool {
    &&& (nodes[i].first_child matches Some(c) ==> i < c < nodes.len())
    &&& (nodes[i].next_sibling matches Some(s) ==> i < s < nodes.len())
}

/// A node is a leaf when it has no child, or a single child with no sibling.
pub open spec fn spec_is_leaf(nodes: Seq<TreeNode>, i: int) -> bool {
    match nodes[i].first_child {
        None => true,
        Some(c) => nodes[c as int].next_sibling is None,
    }
}

/// Whether the subtree rooted at `i` holds a free leaf region at least
/// `width` by `height`.
pub open spec fn subtree_has_fit(nodes: Seq<TreeNode>, i: int, width: u32, height: u32) -> bool
    decreases nodes.len() - i,
{
    if 0 <= i < nodes.len() {
        if spec_is_leaf(nodes, i) {
            !nodes[i].value.in_use && width <= nodes[i].value.w && height <= nodes[i].value.h
        } else {
            let c = nodes[i].first_child->0 as int;
            if i < c < nodes.len() {
                let s = nodes[c].next_sibling->0 as int;
                if c < s < nodes.len() {
                    subtree_has_fit(nodes, c, width, height) || subtree_has_fit(
                        nodes,
                        s,
                        width,
                        height,
                    )
                } else {
                    false
                }
            } else {
                false
            }
        }
    } else {
        false
    }
}

/// The number of nodes in the subtree rooted at `i`; the termination measure
/// of the packer's depth-first search.
pub open spec fn subtree_weight(nodes: Seq<TreeNode>, i: int) -> nat
    decreases nodes.len() - i,
{
    if 0 <= i < nodes.len() {
        if spec_is_leaf(nodes, i) {
            1
        } else {
            let c = nodes[i].first_child->0 as int;
            if i < c < nodes.len() {
                let s = nodes[c].next_sibling->0 as int;
                if c < s < nodes.len() {
                    1 + subtree_weight(nodes, c) + subtree_weight(nodes, s)
                } else {
                    1
                }
            } else {
                1
            }
        }
    } else {
        0
    }
}

/// The combined weight of all subtrees still to visit.
pub open spec fn stack_weight(nodes: Seq<TreeNode>, stack: Seq<usize>) -> nat
    decreases stack.len(),
{
    if stack.len() == 0 {
        0
    } else {
        subtree_weight(nodes, stack.last() as int) + stack_weight(nodes, stack.drop_last())
    }
}

/// Splitting off the last element of a search stack splits the "some subtree
/// fits" property accordingly.
pub proof fn lemma_stack_fit_pop(nodes: Seq<TreeNode>, prev: Seq<usize>, width: u32, height: u32)
    requires
        prev.len() > 0,
    ensures
        (exists|k: int|
            0 <= k < prev.len() && subtree_has_fit(nodes, #[trigger] prev[k] as int, width, height))
            <==> (subtree_has_fit(nodes, prev.last() as int, width, height) || exists|k: int|
            0 <= k < prev.len() - 1 && subtree_has_fit(
                nodes,
                #[trigger] prev.drop_last()[k] as int,
                width,
                height,
            )),
{
    let rest = prev.drop_last();
    if exists|k: int|
        0 <= k < prev.len() && subtree_has_fit(nodes, #[trigger] prev[k] as int, width, height) {
        let k = choose|k: int|
            0 <= k < prev.len() && subtree_has_fit(nodes, #[trigger] prev[k] as int, width, height);
        if k < prev.len() - 1 {
            assert(rest[k] == prev[k]);
        }
    }
    if exists|k: int|
        0 <= k < prev.len() - 1 && subtree_has_fit(nodes, #[trigger] rest[k] as int, width, height) {
        let k = choose|k: int|
            0 <= k < prev.len() - 1 && subtree_has_fit(nodes, #[trigger] rest[k] as int, width, height);
        assert(prev[k] == rest[k]);
    }
}

/// The weight of a stack with one more entry pushed on top.
pub proof fn lemma_stack_weight_push(nodes: Seq<TreeNode>, stack: Seq<usize>, top: usize)
    ensures
        stack_weight(nodes, stack.push(top)) == subtree_weight(nodes, top as int) + stack_weight(
            nodes,
            stack,
        ),
{
    assert(stack.push(top).last() == top);
    assert(stack.push(top).drop_last() =~= stack);
}

/// Pushing an element preserves an existing fit witness and adds its own.
pub proof fn lemma_stack_fit_push(nodes: Seq<TreeNode>, stack: Seq<usize>, top: usize, width: u32, height: u32)
    ensures
        (exists|k: int|
            0 <= k < stack.push(top).len() && subtree_has_fit(
                nodes,
                #[trigger] stack.push(top)[k] as int,
                width,
                height,
            )) <==> (subtree_has_fit(nodes, top as int, width, height) || exists|k: int|
            0 <= k < stack.len() && subtree_has_fit(nodes, #[trigger] stack[k] as int, width, height)),
{
    let pushed = stack.push(top);
    assert(pushed.last() == top);
    assert(pushed.drop_last() =~= stack);
    lemma_stack_fit_pop(nodes, pushed, width, height);
}

/// Manages packing of sub-rectangles into one texture as they are added,
/// splitting free regions first along the axis with more room.
#[derive(Debug)]
pub struct TexturePacker {
    pub w: u32,
    pub h: u32,
    pub nodes: Vec<TreeNode>,
}

impl TexturePacker {
    /// The arena is non-empty, every child link points forward, and every
    /// region lies within the texture.
    pub open spec fn wf(self) -> bool {
        &&& 1 <= self.nodes@.len()
        &&& forall|i: int| 0 <= i < self.nodes@.len() ==> link_ok(self.nodes@, i)
        &&& forall|i: int|
            0 <= i < self.nodes@.len() ==> {
                let v = (#[trigger] self.nodes@[i]).value;
                v.x + v.w <= self.w && v.y + v.h <= self.h
            }
    }

    pub fn new(texture_width: u32, texture_height: u32) -> (r: TexturePacker)
        ensures
            r.wf(),
            r.w == texture_width,
            r.h == texture_height,
            r.nodes@.len() == 1,
            r.nodes@[0].value == (TexturePackerEntry {
                x: 0u32,
                y: 0u32,
                w: texture_width,
                h: texture_height,
                in_use: false,
            }),
            spec_is_leaf(r.nodes@, 0),
    {
        TexturePacker {
            w: texture_width,
            h: texture_height,
            nodes: vec![
                TreeNode {
                    value: TexturePackerEntry {
                        x: 0,
                        y: 0,
                        w: texture_width,
                        h: texture_height,
                        in_use: false,
                    },
                    parent: None,
                    first_child: None,
                    next_sibling: None,
                },
            ],
        }
    }

    pub fn root(&self) -> (r: Handle)
        ensures
            r == (Handle(0usize)),
    {
        Handle(0)
    }

    pub fn get(&self, handle: Handle) -> (r: &TexturePackerEntry)
        requires
            handle.0 < self.nodes@.len(),
        ensures
            *r == self.nodes@[handle.0 as int].value,
    {
        &self.nodes[handle.0].value
    }

    pub fn is_leaf(&self, handle: Handle) -> (r: bool)
        requires
            self.wf(),
            handle.0 < self.nodes@.len(),
        ensures
            r == spec_is_leaf(self.nodes@, handle.0 as int),
    {
        proof {
            assert(link_ok(self.nodes@, handle.0 as int));
        }
        match self.nodes[handle.0].first_child {
            None => true,
            Some(c) => self.nodes[c].next_sibling.is_none(),
        }
    }

    pub fn is_left_child(&self, parent_handle: Handle, child_handle: Handle) -> (r: bool)
        requires
            parent_handle.0 < self.nodes@.len(),
        ensures
            r == (self.nodes@[parent_handle.0 as int].first_child == Some(child_handle.0)),
    {
        match self.nodes[parent_handle.0].first_child {
            Some(c) => c == child_handle.0,
            None => false,
        }
    }

    pub fn is_right_child(&self, parent_handle: Handle, child_handle: Handle) -> (r: bool)
        requires
            parent_handle.0 < self.nodes@.len(),
        ensures
            r == (self.nodes@[parent_handle.0 as int].first_child != Some(child_handle.0)),
    {
        !self.is_left_child(parent_handle, child_handle)
    }
    /// Searches the subtree rooted at `handle` depth-first, left child before
    /// right, for a free leaf region at least `width` by `height`. An exact
    /// match is marked used and returned; a larger region is split, first
    /// along the axis with more room, and the request is carved out of its
    /// left child. Returns `None` exactly when no free leaf of the subtree is
    /// large enough.
    pub fn insert_at(&mut self, width: u32, height: u32, handle: Handle) -> (r: Option<Handle>)
        requires
            old(self).wf(),
            handle.0 < old(self).nodes@.len(),
            old(self).nodes@.len() + 4 <= usize::MAX,
        ensures
            final(self).wf(),
            final(self).w == old(self).w,
            final(self).h == old(self).h,
            final(self).nodes@.len() >= old(self).nodes@.len(),
            r is Some <==> subtree_has_fit(old(self).nodes@, handle.0 as int, width, height),
            r matches Some(hh) ==> hh.0 < final(self).nodes@.len()
                && final(self).nodes@[hh.0 as int].value.w == width
                && final(self).nodes@[hh.0 as int].value.h == height
                && final(self).nodes@[hh.0 as int].value.in_use,
            forall|i: int|
                0 <= i < old(self).nodes@.len() && r != Some(Handle(i as usize)) ==> (
                #[trigger] final(self).nodes@[i]).value == old(self).nodes@[i].value,
            r is None ==> *final(self) == *old(self),
    {
        let ghost orig = *self;
        let mut stack: Vec<usize> = Vec::new();
        stack.push(handle.0);

        proof {
            assert(stack@ =~= seq![handle.0]);
            assert(stack@[0] == handle.0);
        }
        loop
            invariant
                orig == *old(self),
                *self == orig,
                self.wf(),
                handle.0 < self.nodes@.len(),
                self.nodes@.len() + 4 <= usize::MAX,
                forall|k: int| 0 <= k < stack@.len() ==> (#[trigger] stack@[k]) < self.nodes@.len(),
                subtree_has_fit(self.nodes@, handle.0 as int, width, height) <==> exists|k: int|
                    0 <= k < stack@.len() && subtree_has_fit(
                        self.nodes@,
                        #[trigger] stack@[k] as int,
                        width,
                        height,
                    ),
            decreases stack_weight(self.nodes@, stack@),
        {
            let ghost prev_stack = stack@;
            let node_idx = match stack.pop() {
                Some(i) => i,
                None => {
                    return None;
                },
            };
            proof {
                assert(prev_stack.last() == node_idx);
                assert(stack@ =~= prev_stack.drop_last());
                lemma_stack_fit_pop(self.nodes@, prev_stack, width, height);
            }

            if !self.is_leaf(Handle(node_idx)) {
                proof {
                    assert(link_ok(self.nodes@, node_idx as int));
                }
                let c = self.nodes[node_idx].first_child.unwrap();
                proof {
                    assert(link_ok(self.nodes@, c as int));
                }
                let s = self.nodes[c].next_sibling.unwrap();
                stack.push(s);
                stack.push(c);
                proof {
                    let nodes = self.nodes@;
                    let rest = prev_stack.drop_last();
                    assert(subtree_has_fit(nodes, node_idx as int, width, height) == (
                    subtree_has_fit(nodes, c as int, width, height) || subtree_has_fit(
                        nodes,
                        s as int,
                        width,
                        height,
                    )));
                    assert(stack@ =~= rest.push(s).push(c));
                    lemma_stack_fit_push(nodes, rest, s, width, height);
                    lemma_stack_fit_push(nodes, rest.push(s), c, width, height);
                    // the search space shrinks: the popped node weighs one
                    // more than its two children together
                    assert(stack_weight(nodes, prev_stack) == subtree_weight(
                        nodes,
                        node_idx as int,
                    ) + stack_weight(nodes, rest));
                    lemma_stack_weight_push(nodes, rest, s);
                    lemma_stack_weight_push(nodes, rest.push(s), c);
                    assert(subtree_weight(nodes, node_idx as int) == 1 + subtree_weight(
                        nodes,
                        c as int,
                    ) + subtree_weight(nodes, s as int));
                }
            } else {
                let entry = self.nodes[node_idx].value;
                if entry.in_use || width > entry.w || height > entry.h {
                    // an occupied or too-small leaf hosts nothing
                    proof {
                        assert(!subtree_has_fit(self.nodes@, node_idx as int, width, height));
                        assert(stack_weight(self.nodes@, prev_stack) == subtree_weight(
                            self.nodes@,
                            node_idx as int,
                        ) + stack_weight(self.nodes@, stack@));
                        assert(subtree_weight(self.nodes@, node_idx as int) == 1);
                    }
                } else if width == entry.w && height == entry.h {
                    // exact fit: take this leaf
                    proof {
                        assert(subtree_has_fit(self.nodes@, node_idx as int, width, height));
                    }
                    self.nodes[node_idx].value.in_use = true;
                    proof {
                        assert(self.nodes@ =~= orig.nodes@.update(
                            node_idx as int,
                            (TreeNode {
                                value: (TexturePackerEntry {
                                    x: entry.x,
                                    y: entry.y,
                                    w: entry.w,
                                    h: entry.h,
                                    in_use: true,
                                }),
                                parent: orig.nodes@[node_idx as int].parent,
                                first_child: orig.nodes@[node_idx as int].first_child,
                                next_sibling: orig.nodes@[node_idx as int].next_sibling,
                            }),
                        ));
                        assert forall|i: int| 0 <= i < self.nodes@.len() implies link_ok(
                            self.nodes@,
                            i,
                        ) by {
                            assert(link_ok(orig.nodes@, i));
                        }
                        assert forall|i: int|
                            0 <= i < self.nodes@.len() implies {
                                let v = (#[trigger] self.nodes@[i]).value;
                                v.x + v.w <= self.w && v.y + v.h <= self.h
                            } by {
                            assert(orig.nodes@[i].value.x + orig.nodes@[i].value.w <= orig.w
                                && orig.nodes@[i].value.y + orig.nodes@[i].value.h <= orig.h);
                        }
                        assert(self.wf());
                    }
                    return Some(Handle(node_idx));
                } else {
                    // split the region, first along the axis with more room,
                    // and carve the request out of the left child
                    proof {
                        assert(subtree_has_fit(self.nodes@, node_idx as int, width, height));
                    }
                    let dw = entry.w - width;
                    let dh = entry.h - height;
                    let left_idx = self.nodes.len();
                    let right_idx = left_idx + 1;

                    let (left_entry, right_entry): (TexturePackerEntry, TexturePackerEntry) = if dw
                        > dh {
                        // split along x
                        (
                            TexturePackerEntry {
                                x: entry.x,
                                y: entry.y,
                                w: width,
                                h: entry.h,
                                in_use: false,
                            },
                            TexturePackerEntry {
                                x: entry.x + width,
                                y: entry.y,
                                w: dw,
                                h: entry.h,
                                in_use: false,
                            },
                        )
                    } else {
                        // split along y
                        (
                            TexturePackerEntry {
                                x: entry.x,
                                y: entry.y,
                                w: entry.w,
                                h: height,
                                in_use: false,
                            },
                            TexturePackerEntry {
                                x: entry.x,
                                y: entry.y + height,
                                w: entry.w,
                                h: dh,
                                in_use: false,
                            },
                        )
                    };
                    self.nodes.push(
                        TreeNode {
                            value: left_entry,
                            parent: Some(node_idx),
                            first_child: None,
                            next_sibling: Some(right_idx),
                        },
                    );
                    self.nodes.push(
                        TreeNode {
                            value: right_entry,
                            parent: Some(node_idx),
                            first_child: None,
                            next_sibling: None,
                        },
                    );
                    self.nodes[node_idx].first_child = Some(left_idx);

                    if left_entry.w == width && left_entry.h == height {
                        // the left child already matches: take it
                        self.nodes[left_idx].value.in_use = true;
                        proof {
                            assert forall|i: int| 0 <= i < self.nodes@.len() implies link_ok(
                                self.nodes@,
                                i,
                            ) by {
                                if i < orig.nodes@.len() {
                                    assert(link_ok(orig.nodes@, i));
                                }
                            }
                            assert forall|i: int|
                                0 <= i < self.nodes@.len() implies {
                                    let v = (#[trigger] self.nodes@[i]).value;
                                    v.x + v.w <= self.w && v.y + v.h <= self.h
                                } by {
                                if i < orig.nodes@.len() {
                                    assert(orig.nodes@[i].value.x + orig.nodes@[i].value.w <= orig.w
                                        && orig.nodes@[i].value.y + orig.nodes@[i].value.h
                                        <= orig.h);
                                } else {
                                    assert(orig.nodes@[node_idx as int].value.x + orig.nodes@[node_idx as int].value.w
                                        <= orig.w && orig.nodes@[node_idx as int].value.y
                                        + orig.nodes@[node_idx as int].value.h <= orig.h);
                                }
                            }
                            assert(self.wf());
                        }
                        return Some(Handle(left_idx));
                    }

                    // the left child matches along one axis; one more split
                    // carves out an exact region
                    let ll_idx = self.nodes.len();
                    let lr_idx = ll_idx + 1;
                    let ll_entry = TexturePackerEntry {
                        x: entry.x,
                        y: entry.y,
                        w: width,
                        h: height,
                        in_use: true,
                    };
                    let lr_entry: TexturePackerEntry = if dw > dh {
                        // the first split ran along x; the remainder sits below
                        TexturePackerEntry {
                            x: entry.x,
                            y: entry.y + height,
                            w: width,
                            h: dh,
                            in_use: false,
                        }
                    } else {
                        // the first split ran along y; the remainder sits to the right
                        TexturePackerEntry {
                            x: entry.x + width,
                            y: entry.y,
                            w: dw,
                            h: height,
                            in_use: false,
                        }
                    };
                    self.nodes.push(
                        TreeNode {
                            value: ll_entry,
                            parent: Some(left_idx),
                            first_child: None,
                            next_sibling: Some(lr_idx),
                        },
                    );
                    self.nodes.push(
                        TreeNode {
                            value: lr_entry,
                            parent: Some(left_idx),
                            first_child: None,
                            next_sibling: None,
                        },
                    );
                    self.nodes[left_idx].first_child = Some(ll_idx);
                    proof {
                        assert forall|i: int| 0 <= i < self.nodes@.len() implies link_ok(
                            self.nodes@,
                            i,
                        ) by {
                            if i < orig.nodes@.len() {
                            assert(link_ok(orig.nodes@, i));
                            }
                        }
                        assert forall|i: int|
                            0 <= i < self.nodes@.len() implies {
                            let v = (#[trigger] self.nodes@[i]).value;
                            v.x + v.w <= self.w && v.y + v.h <= self.h
                            } by {
                            if i < orig.nodes@.len() {
                            assert(orig.nodes@[i].value.x + orig.nodes@[i].value.w <= orig.w
                                && orig.nodes@[i].value.y + orig.nodes@[i].value.h
                                <= orig.h);
                            } else {
                            assert(orig.nodes@[node_idx as int].value.x + orig.nodes@[node_idx as int].value.w
                                <= orig.w && orig.nodes@[node_idx as int].value.y
                                + orig.nodes@[node_idx as int].value.h <= orig.h);
                            }
                        }
                        assert(self.wf());
                    }
                    return Some(Handle(ll_idx));
                }
            }
        }
    }

    /// Finds or carves out a free region of exactly `width` by `height`,
    /// marking it used. Returns `None` exactly when no free leaf region is
    /// large enough to host the request.
    pub fn insert(&mut self, width: u32, height: u32) -> (r: Option<Handle>)
        requires
            old(self).wf(),
            old(self).nodes@.len() + 4 <= usize::MAX,
        ensures
            final(self).wf(),
            final(self).w == old(self).w,
            final(self).h == old(self).h,
            final(self).nodes@.len() >= old(self).nodes@.len(),
            r is Some <==> subtree_has_fit(old(self).nodes@, 0, width, height),
            r matches Some(hh) ==> hh.0 < final(self).nodes@.len()
                && final(self).nodes@[hh.0 as int].value.w == width
                && final(self).nodes@[hh.0 as int].value.h == height
                && final(self).nodes@[hh.0 as int].value.in_use,
            forall|i: int|
                0 <= i < old(self).nodes@.len() && r != Some(Handle(i as usize)) ==> (
                #[trigger] final(self).nodes@[i]).value == old(self).nodes@[i].value,
            r is None ==> *final(self) == *old(self),
    {
        let root = self.root();
        self.insert_at(width, height, root)
    }
}

impl Default for TexturePacker {
    /// A packer over a texture of the default dimensions.
    fn default() -> (r: TexturePacker)
        ensures
            r.wf(),
            r.w == DEFAULT_TEXTURE_WIDTH,
            r.h == DEFAULT_TEXTURE_HEIGHT,
            r.nodes@.len() == 1,
            r.nodes@[0].value == (TexturePackerEntry {
                x: 0u32,
                y: 0u32,
                w: DEFAULT_TEXTURE_WIDTH,
                h: DEFAULT_TEXTURE_HEIGHT,
                in_use: false,
            }),
            spec_is_leaf(r.nodes@, 0),
    {
        TexturePacker::new(DEFAULT_TEXTURE_WIDTH, DEFAULT_TEXTURE_HEIGHT)
    }
}

} // verus!
