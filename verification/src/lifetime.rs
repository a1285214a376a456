//! Ownership of native objects, and the order in which they are destroyed.
//!
//! Every native object is made through its parent and has to be destroyed
//! before it. An [`OwnershipTree`] keeps the objects in the order in which
//! they were made, each with its parent and with the call that destroys it.
//! Releasing an object releases everything that was made through it as
//! well, the latest first: no object is ever destroyed after its parent.

use vstd::prelude::*;
use crate::command::Command;
use crate::handle::Handle;
use crate::native::DestroyCall;

verus! {

/// What a native object is.
#[derive(Debug, Clone, Copy, PartialEq, Eq, Structural)]
pub enum ObjectKind {
    Instance,
    PhysicalDevice,
    Device,
    Queue,
    CommandPool,
    CommandBuffer,
    Semaphore,
    Surface,
    Swapchain,
    Image,
    ImageView,
    ShaderModule,
}

/// One object of an ownership tree.
#[derive(Debug, Clone, Copy, PartialEq, Eq, Structural)]
pub struct Node {
    pub kind: ObjectKind,
    pub handle: Handle,
    /// The place of the parent in the tree; none for a top-level context.
    pub parent: Option<usize>,
    /// Whether the object has not been released yet.
    pub live: bool,
    /// The call that destroys the object; none for an object that goes
    /// with its parent and has no destroy command of its own.
    pub destroy: Option<DestroyCall>,
}

/// An object that was released: its place in the tree and the call that
/// destroys it, if it has one.
#[derive(Debug, Clone, Copy, PartialEq, Eq, Structural)]
pub struct Released {
    pub id: usize,
    pub kind: ObjectKind,
    pub call: Option<DestroyCall>,
}

/// The native objects that exist, in the order in which they were made.
#[derive(Debug)]
pub struct OwnershipTree {
    nodes: Vec<Node>,
}

impl ObjectKind {
    /// The kind of object that an object of this kind is made through; none
    /// for a top-level context.
    pub open spec fn spec_parent_kind(self) -> Option<ObjectKind> {
        match self {
            ObjectKind::Instance => None,
            ObjectKind::PhysicalDevice => Some(ObjectKind::Instance),
            ObjectKind::Surface => Some(ObjectKind::Instance),
            ObjectKind::Device => Some(ObjectKind::PhysicalDevice),
            ObjectKind::Queue => Some(ObjectKind::Device),
            ObjectKind::CommandPool => Some(ObjectKind::Device),
            ObjectKind::Semaphore => Some(ObjectKind::Device),
            ObjectKind::Swapchain => Some(ObjectKind::Device),
            ObjectKind::ShaderModule => Some(ObjectKind::Device),
            ObjectKind::CommandBuffer => Some(ObjectKind::CommandPool),
            ObjectKind::Image => Some(ObjectKind::Swapchain),
            ObjectKind::ImageView => Some(ObjectKind::Image),
        }
    }

    /// The command that destroys an object of this kind; none for a kind
    /// whose objects go with their parent and are never destroyed alone.
    pub open spec fn spec_destroy_command(self) -> Option<Command> {
        match self {
            ObjectKind::Instance => Some(Command::DestroyInstance),
            ObjectKind::Device => Some(Command::DestroyDevice),
            ObjectKind::CommandPool => Some(Command::DestroyCommandPool),
            ObjectKind::Semaphore => Some(Command::DestroySemaphore),
            ObjectKind::Surface => Some(Command::DestroySurfaceKhr),
            ObjectKind::Swapchain => Some(Command::DestroySwapchainKhr),
            ObjectKind::ImageView => Some(Command::DestroyImageView),
            ObjectKind::ShaderModule => Some(Command::DestroyShaderModule),
            ObjectKind::PhysicalDevice
            | ObjectKind::Queue
            | ObjectKind::CommandBuffer
            | ObjectKind::Image => None,
        }
    }

    pub fn destroy_command(&self) -> (r: Option<Command>)
        ensures
            r == self.spec_destroy_command(),
    {
        match self {
            ObjectKind::Instance => Some(Command::DestroyInstance),
            ObjectKind::Device => Some(Command::DestroyDevice),
            ObjectKind::CommandPool => Some(Command::DestroyCommandPool),
            ObjectKind::Semaphore => Some(Command::DestroySemaphore),
            ObjectKind::Surface => Some(Command::DestroySurfaceKhr),
            ObjectKind::Swapchain => Some(Command::DestroySwapchainKhr),
            ObjectKind::ImageView => Some(Command::DestroyImageView),
            ObjectKind::ShaderModule => Some(Command::DestroyShaderModule),
            ObjectKind::PhysicalDevice
            | ObjectKind::Queue
            | ObjectKind::CommandBuffer
            | ObjectKind::Image => None,
        }
    }

    pub fn parent_kind(&self) -> (r: Option<ObjectKind>)
        ensures
            r == self.spec_parent_kind(),
    {
        match self {
            ObjectKind::Instance => None,
            ObjectKind::PhysicalDevice => Some(ObjectKind::Instance),
            ObjectKind::Surface => Some(ObjectKind::Instance),
            ObjectKind::Device => Some(ObjectKind::PhysicalDevice),
            ObjectKind::Queue => Some(ObjectKind::Device),
            ObjectKind::CommandPool => Some(ObjectKind::Device),
            ObjectKind::Semaphore => Some(ObjectKind::Device),
            ObjectKind::Swapchain => Some(ObjectKind::Device),
            ObjectKind::ShaderModule => Some(ObjectKind::Device),
            ObjectKind::CommandBuffer => Some(ObjectKind::CommandPool),
            ObjectKind::Image => Some(ObjectKind::Swapchain),
            ObjectKind::ImageView => Some(ObjectKind::Image),
        }
    }
}

/// Whether the objects are a well-formed tree: every parent was made before
/// its child and is of the kind that the child is made through, only a
/// top-level context has no parent, and no live object has a released
/// parent.
pub open spec fn well_formed(nodes: Seq<Node>) -> bool {
    nodes.len() <= usize::MAX && forall|i: int|
        0 <= i < nodes.len() ==> #[trigger] node_well_formed(nodes, i)
}

/// Whether the object at `i` has the parent it can have and the destroy
/// call that matches it.
pub open spec fn node_well_formed(nodes: Seq<Node>, i: int) -> bool {
    &&& match nodes[i].parent {
        Some(p) => p < i && nodes[i].kind.spec_parent_kind() == Some(nodes[p as int].kind) && (
        nodes[i].live ==> nodes[p as int].live),
        None => nodes[i].kind == ObjectKind::Instance,
    }
    &&& destroy_matches(nodes, nodes[i].kind, nodes[i].handle, nodes[i].parent, nodes[i].destroy)
}

/// The place of the object through whose table an object of `kind`, made
/// through `parent`, is destroyed. A context and a logical device are
/// destroyed through themselves and have none. An image view is destroyed
/// through the device of the swap-chain of its image. Every other object is
/// destroyed through its parent.
pub open spec fn dispatcher(nodes: Seq<Node>, kind: ObjectKind, parent: Option<usize>) -> Option<
    int,
> {
    match (kind, parent) {
        (ObjectKind::Instance, _) | (ObjectKind::Device, _) | (_, None) => None,
        (ObjectKind::ImageView, Some(image)) => match nodes[image as int].parent {
            Some(swapchain) => match nodes[swapchain as int].parent {
                Some(device) => Some(device as int),
                None => None,
            },
            None => None,
        },
        (_, Some(p)) => Some(p as int),
    }
}

/// Whether `destroy` is the destroy call of the object `handle` of `kind`
/// that was made through `parent`: it invokes the destroy command of the
/// kind, on that object, through the object that `dispatcher` names. An
/// object has no call where its kind has no destroy command, or where that
/// command belongs to an extension and did not resolve.
pub open spec fn destroy_matches(
    nodes: Seq<Node>,
    kind: ObjectKind,
    handle: Handle,
    parent: Option<usize>,
    destroy: Option<DestroyCall>,
) -> bool {
    match destroy {
        Some(call) => {
            &&& kind.spec_destroy_command() == Some(call.command)
            &&& call.object == handle
            &&& call.parent == (match dispatcher(nodes, kind, parent) {
                Some(d) => Some(nodes[d].handle),
                None => None,
            })
        },
        None => match kind.spec_destroy_command() {
            Some(command) => command.spec_is_optional(),
            None => true,
        },
    }
}

/// The destroy call of an object stays its destroy call where the objects
/// made before it keep their kinds, handles and parents.
pub proof fn lemma_destroy_matches_stable(a: Seq<Node>, b: Seq<Node>, i: int)
    requires
        well_formed(a),
        0 <= i < a.len() <= b.len(),
        forall|j: int|
            0 <= j < a.len() ==> (#[trigger] a[j]).kind == b[j].kind && a[j].handle == b[j].handle
                && a[j].parent == b[j].parent && a[j].destroy == b[j].destroy,
    ensures
        destroy_matches(b, b[i].kind, b[i].handle, b[i].parent, b[i].destroy),
{
    assert(node_well_formed(a, i));
    match a[i].parent {
        Some(p) => {
            assert(node_well_formed(a, p as int));
            assert(a[p as int].kind == b[p as int].kind);
            match a[p as int].parent {
                Some(q) => {
                    assert(node_well_formed(a, q as int));
                    assert(a[q as int].kind == b[q as int].kind);
                    match a[q as int].parent {
                        Some(d) => {
                            assert(a[d as int].kind == b[d as int].kind);
                        },
                        None => {},
                    }
                },
                None => {},
            }
        },
        None => {},
    }
}

/// Whether the object at `i` is `root` or was made, directly or through
/// others, through `root`.
pub open spec fn descends(nodes: Seq<Node>, i: int, root: int) -> bool
    decreases i,
{
    if i == root {
        true
    } else if 0 <= i < nodes.len() {
        match nodes[i].parent {
            Some(p) => p < i && descends(nodes, p as int, root),
            None => false,
        }
    } else {
        false
    }
}

/// Whether releasing `root` releases the object at `i`: it is live and
/// descends from `root`.
pub open spec fn doomed(nodes: Seq<Node>, i: int, root: int) -> bool {
    0 <= i < nodes.len() && nodes[i].live && descends(nodes, i, root)
}

/// What is handed out for the object at `i` when it is released.
pub open spec fn released_at(nodes: Seq<Node>, i: int) -> Released {
    Released { id: i as usize, kind: nodes[i].kind, call: nodes[i].destroy }
}

/// The objects before place `n` that releasing `root` releases, the latest
/// first.
pub open spec fn released_before(nodes: Seq<Node>, root: int, n: int) -> Seq<Released>
    decreases n,
{
    if n <= 0 {
        Seq::empty()
    } else if doomed(nodes, n - 1, root) {
        seq![released_at(nodes, n - 1)] + released_before(nodes, root, n - 1)
    } else {
        released_before(nodes, root, n - 1)
    }
}

/// The objects as they are after `root` has been released: what was doomed
/// is no longer live, and nothing else has changed.
pub open spec fn after_release(nodes: Seq<Node>, root: int) -> Seq<Node> {
    Seq::new(
        nodes.len(),
        |i: int|
            if doomed(nodes, i, root) {
                Node { live: false, ..nodes[i] }
            } else {
                nodes[i]
            },
    )
}

/// Nothing descends from an object that was made after it.
pub proof fn lemma_descends_later(nodes: Seq<Node>, i: int, root: int)
    requires
        descends(nodes, i, root),
    ensures
        i >= root,
    decreases i,
{
    if i != root {
        lemma_descends_later(nodes, nodes[i].parent->0 as int, root);
    }
}

/// What is released before a place holds exactly the doomed objects before
/// that place, each once, the later ones first.
pub proof fn lemma_released_before(nodes: Seq<Node>, root: int, n: int)
    requires
        0 <= n <= nodes.len() <= usize::MAX,
    ensures
        forall|k: int|
            0 <= k < released_before(nodes, root, n).len() ==> {
                let r = #[trigger] released_before(nodes, root, n)[k];
                &&& 0 <= r.id < n
                &&& doomed(nodes, r.id as int, root)
                &&& r == released_at(nodes, r.id as int)
            },
        forall|a: int, b: int|
            0 <= a < b < released_before(nodes, root, n).len() ==> (#[trigger] released_before(
                nodes,
                root,
                n,
            )[a]).id > (#[trigger] released_before(nodes, root, n)[b]).id,
        forall|i: int|
            0 <= i < n && doomed(nodes, i, root) ==> exists|k: int|
                0 <= k < released_before(nodes, root, n).len() && (#[trigger] released_before(
                    nodes,
                    root,
                    n,
                )[k]).id == i,
    decreases n,
{
    if n > 0 {
        lemma_released_before(nodes, root, n - 1);
        let rest = released_before(nodes, root, n - 1);
        let all = released_before(nodes, root, n);
        if doomed(nodes, n - 1, root) {
            assert(all[0] == released_at(nodes, n - 1));
            assert forall|k: int| 1 <= k < all.len() implies all[k] == rest[k - 1] by {}
            assert forall|i: int| 0 <= i < n && doomed(nodes, i, root) implies exists|k: int|
                0 <= k < all.len() && (#[trigger] all[k]).id == i by {
                if i == n - 1 {
                    assert(all[0].id == i);
                } else {
                    let k = choose|k: int| 0 <= k < rest.len() && (#[trigger] rest[k]).id == i;
                    assert(all[k + 1].id == i);
                }
            }
        }
    }
}

/// The law of destruction order: among the objects that a release hands
/// out, a child always comes before its parent.
pub proof fn lemma_children_first(nodes: Seq<Node>, root: int, child: int, parent: int)
    requires
        well_formed(nodes),
        0 <= child < released_before(nodes, root, nodes.len() as int).len(),
        0 <= parent < released_before(nodes, root, nodes.len() as int).len(),
        nodes[released_before(nodes, root, nodes.len() as int)[child].id as int].parent == Some(
            released_before(nodes, root, nodes.len() as int)[parent].id,
        ),
    ensures
        child < parent,
{
    lemma_released_before(nodes, root, nodes.len() as int);
    let all = released_before(nodes, root, nodes.len() as int);
    let c = all[child].id as int;
    assert(node_well_formed(nodes, c));
    if parent < child {
        assert(all[parent].id > all[child].id);
    }
}

/// A release hands out every live object that descends from the released
/// one, and no other.
pub proof fn lemma_release_complete(nodes: Seq<Node>, root: int, i: int)
    requires
        0 <= i < nodes.len() <= usize::MAX,
    ensures
        doomed(nodes, i, root) <==> exists|k: int|
            0 <= k < released_before(nodes, root, nodes.len() as int).len() && (
            #[trigger] released_before(nodes, root, nodes.len() as int)[k]).id == i,
{
    lemma_released_before(nodes, root, nodes.len() as int);
}

/// What a release hands out for an object is the destroy call of that
/// object: it invokes the destroy command of the object's kind, on that
/// object, through the object that its kind is destroyed through.
pub proof fn lemma_released_calls_match(nodes: Seq<Node>, root: int, k: int)
    requires
        well_formed(nodes),
        0 <= k < released_before(nodes, root, nodes.len() as int).len(),
    ensures
        ({
            let item = released_before(nodes, root, nodes.len() as int)[k];
            let i = item.id as int;
            &&& 0 <= i < nodes.len()
            &&& item.kind == nodes[i].kind
            &&& destroy_matches(nodes, nodes[i].kind, nodes[i].handle, nodes[i].parent, item.call)
        }),
{
    lemma_released_before(nodes, root, nodes.len() as int);
    let item = released_before(nodes, root, nodes.len() as int)[k];
    assert(node_well_formed(nodes, item.id as int));
}

/// A well-formed tree is well-formed after a release: where a parent is
/// released, so is every live child.
pub proof fn lemma_release_keeps_well_formed(nodes: Seq<Node>, root: int)
    requires
        well_formed(nodes),
    ensures
        well_formed(after_release(nodes, root)),
{
    let after = after_release(nodes, root);
    assert forall|i: int| 0 <= i < after.len() implies #[trigger] node_well_formed(after, i) by {
        assert(node_well_formed(nodes, i));
        lemma_destroy_matches_stable(nodes, after, i);
        match nodes[i].parent {
            Some(p) => {
                if after[i].live && doomed(nodes, p as int, root) {
                    if i == root {
                        lemma_descends_later(nodes, p as int, root);
                    } else {
                        assert(descends(nodes, i, root));
                    }
                }
            },
            None => {},
        }
    }
}

impl OwnershipTree {
    /// The objects of the tree, in the order in which they were made.
    pub closed spec fn view(&self) -> Seq<Node> {
        self.nodes@
    }

    /// Whether the tree is well-formed.
    pub open spec fn wf(&self) -> bool {
        well_formed(self@)
    }

    /// A tree without objects.
    pub fn new() -> (r: Self)
        ensures
            r@ == Seq::<Node>::empty(),
            r.wf(),
    {
        OwnershipTree { nodes: Vec::new() }
    }

    /// How many objects were ever made.
    pub fn len(&self) -> (r: usize)
        ensures
            r == self@.len(),
    {
        self.nodes.len()
    }

    /// The object at place `id`, if there is one.
    pub fn get(&self, id: usize) -> (r: Option<Node>)
        ensures
            r == (if id < self@.len() {
                Some(self@[id as int])
            } else {
                None
            }),
    {
        if id < self.nodes.len() {
            Some(self.nodes[id])
        } else {
            None
        }
    }

    /// Whether an object of `kind` can be made through `parent`: a
    /// top-level context has no parent, every other object has a live parent
    /// of the kind it is made through.
    pub open spec fn spec_accepts(&self, kind: ObjectKind, parent: Option<usize>) -> bool {
        match parent {
            None => kind == ObjectKind::Instance,
            Some(p) => p < self@.len() && self@[p as int].live && kind.spec_parent_kind() == Some(
                self@[p as int].kind,
            ),
        }
    }

    /// The handle of the object through whose table an object of `kind`,
    /// made through `parent`, is destroyed.
    fn dispatch_handle(&self, kind: ObjectKind, parent: Option<usize>) -> (r: Option<Handle>)
        requires
            self.wf(),
            self.spec_accepts(kind, parent),
        ensures
            r == (match dispatcher(self@, kind, parent) {
                Some(d) => Some(self@[d].handle),
                None => None,
            }),
    {
        match parent {
            None => None,
            Some(p) => match kind {
                ObjectKind::Instance | ObjectKind::Device => None,
                ObjectKind::ImageView => {
                    assert(node_well_formed(self@, p as int));
                    let image = self.nodes[p];
                    let swapchain_id: usize = image.parent.unwrap();
                    assert(node_well_formed(self@, swapchain_id as int));
                    let swapchain = self.nodes[swapchain_id];
                    let device_id: usize = swapchain.parent.unwrap();
                    Some(self.nodes[device_id].handle)
                },
                _ => Some(self.nodes[p].handle),
            },
        }
    }

    /// Enters an object that was made through `parent`, with the call that
    /// destroys it. The object gets the next place. Nothing is entered, and
    /// the tree is left as it is, where the parent is not one that the
    /// object can have been made through, or where the call is not the
    /// destroy call of the object.
    pub fn insert(
        &mut self,
        kind: ObjectKind,
        handle: Handle,
        parent: Option<usize>,
        destroy: Option<DestroyCall>,
    ) -> (r: Option<usize>)
        requires
            old(self).wf(),
        ensures
            final(self).wf(),
            r is Some <==> old(self).spec_accepts(kind, parent) && destroy_matches(
                old(self)@,
                kind,
                handle,
                parent,
                destroy,
            ),
            r matches Some(id) ==> id == old(self)@.len() && final(self)@ == old(self)@.push(
                Node { kind, handle, parent, live: true, destroy },
            ),
            r is None ==> final(self)@ == old(self)@,
    {
        let accepted = match parent {
            None => match kind {
                ObjectKind::Instance => true,
                _ => false,
            },
            Some(p) => {
                if p < self.nodes.len() {
                    let owner = self.nodes[p];
                    match kind.parent_kind() {
                        Some(k) => owner.live && k == owner.kind,
                        None => false,
                    }
                } else {
                    false
                }
            },
        };
        if !accepted {
            return None;
        }
        let matching = match destroy {
            Some(call) => {
                let command_matches = match kind.destroy_command() {
                    Some(command) => command == call.command,
                    None => false,
                };
                let parent_matches = match (self.dispatch_handle(kind, parent), call.parent) {
                    (Some(a), Some(b)) => a == b,
                    (None, None) => true,
                    _ => false,
                };
                command_matches && call.object == handle && parent_matches
            },
            None => match kind.destroy_command() {
                Some(command) => command.is_optional(),
                None => true,
            },
        };
        if !matching {
            return None;
        }
        let id: usize = self.nodes.len();
        self.nodes.push(Node { kind, handle, parent, live: true, destroy });
        let total: usize = self.nodes.len();
        proof {
            let before = old(self)@;
            assert(total == before.len() + 1);
            let after = self@;
            assert forall|i: int| 0 <= i < after.len() implies #[trigger] node_well_formed(
                after,
                i,
            ) by {
                if i < before.len() {
                    assert(node_well_formed(before, i));
                    lemma_destroy_matches_stable(before, after, i);
                } else {
                    match parent {
                        Some(p) => {
                            assert(node_well_formed(before, p as int));
                            match before[p as int].parent {
                                Some(q) => {
                                    assert(node_well_formed(before, q as int));
                                },
                                None => {},
                            }
                        },
                        None => {},
                    }
                }
            }
        }
        Some(id)
    }

    /// Releases the object at `id` and, with it, every live object that was
    /// made through it. What is handed out are the released objects, the
    /// latest first, each with the call that destroys it. Nothing is
    /// released where `id` is no place of the tree or the object there was
    /// released before.
    pub fn release(&mut self, id: usize) -> (r: Vec<Released>)
        requires
            old(self).wf(),
        ensures
            final(self).wf(),
            r@ == released_before(old(self)@, id as int, old(self)@.len() as int),
            final(self)@ == after_release(old(self)@, id as int),
    {
        let n: usize = self.nodes.len();
        let ghost before = self@;
        let mut marks: Vec<bool> = Vec::new();
        let mut i: usize = 0;
        while i < n
            invariant
                i <= n,
                n == before.len(),
                self@ == before,
                well_formed(before),
                marks@.len() == i,
                forall|j: int| 0 <= j < i ==> marks@[j] == doomed(before, j, id as int),
            decreases n - i,
        {
            let node = self.nodes[i];
            assert(node_well_formed(before, i as int));
            let reached = if i == id {
                true
            } else {
                match node.parent {
                    Some(p) => marks[p],
                    None => false,
                }
            };
            marks.push(node.live && reached);
            i = i + 1;
        }
        let mut out: Vec<Released> = Vec::new();
        let mut k: usize = n;
        while k > 0
            invariant
                k <= n,
                n == before.len(),
                self@.len() == n,
                marks@.len() == n,
                forall|j: int| 0 <= j < n ==> marks@[j] == doomed(before, j, id as int),
                forall|j: int| 0 <= j < k ==> self@[j] == before[j],
                forall|j: int| k <= j < n ==> self@[j] == after_release(before, id as int)[j],
                out@ + released_before(before, id as int, k as int) == released_before(
                    before,
                    id as int,
                    n as int,
                ),
            decreases k,
        {
            k = k - 1;
            let ghost rest = released_before(before, id as int, k as int);
            if marks[k] {
                let node = self.nodes[k];
                proof {
                    assert((out@.push(released_at(before, k as int)) + rest) =~= (out@ + (
                    seq![released_at(before, k as int)] + rest)));
                }
                out.push(Released { id: k, kind: node.kind, call: node.destroy });
                self.nodes.set(k, Node { live: false, ..node });
            }
        }
        proof {
            assert(out@ + Seq::<Released>::empty() =~= out@);
            assert(self@ =~= after_release(before, id as int));
            lemma_release_keeps_well_formed(before, id as int);
        }
        out
    }
}

} // verus!
