//! The bridge's central bookkeeping: stable view identifiers for protocol
//! surfaces, the per-view queues of texture ids, the inverse texture-to-view
//! map, the swap chain of every texture id, and the per-commit pipeline that
//! turns a surface commit into texture-table calls and a commit message for
//! the engine.
//!
//! The surrounding event loop owns the sockets, the GPU renderer and the
//! engine channel. It resolves each protocol callback to plain values — a
//! view id, an imported buffer, the committed surface attributes — calls the
//! corresponding method here, and then performs the calls and sends the
//! messages the method returns.

use std::collections::HashMap;
use std::collections::HashSet;

use vstd::prelude::*;
use vstd::pervasive::unreached;

use crate::texture_swap_chain::TextureSwapChain;
use crate::texture_swap_chain::push_evicting_oldest;
use crate::wayland_messages::ConfigureAction;
use crate::wayland_messages::OutboundMessage;
use crate::wayland_messages::PixelSize;
use crate::wayland_messages::Point;
use crate::wayland_messages::Rectangle;
use crate::wayland_messages::RegionRectangle;
use crate::wayland_messages::RepositionAction;
use crate::wayland_messages::ResizeEdge;
use crate::wayland_messages::SubsurfaceCommitMessage;
use crate::wayland_messages::SurfaceCommitMessage;
use crate::wayland_messages::SurfaceRole;
use crate::wayland_messages::TextureEngineCall;
use crate::wayland_messages::XdgPopupCommitMessage;
use crate::wayland_messages::XdgSurfaceCommitMessage;

verus! {

broadcast use vstd::std_specs::hash::group_hash_axioms;

/// How many texture ids a view keeps live at once: the two most recent
/// allocations, so the engine can still address the frame it may be showing
/// while the next one is imported.
pub const MAX_TEXTURE_IDS_PER_VIEW: usize = 2;

/// Per-surface bookkeeping: the surface's stable view id and the pixel size
/// of the last committed buffer, used to decide whether the next commit may
/// reuse the current texture id.
#[derive(Clone, Copy, PartialEq, Eq, Structural, Debug)]
pub struct MySurfaceState {
    pub view_id: u64,
    /// `None` until the first buffer commit.
    pub old_texture_size: Option<PixelSize>,
}

/// A pending buffer that the GPU layer imported successfully: the resulting
/// texture handle and the buffer's pixel size.
#[derive(Clone, Copy, PartialEq, Eq, Structural, Debug)]
pub struct ImportedBuffer {
    pub texture_handle: u64,
    pub size: PixelSize,
}

/// Everything one surface commit carries into the pipeline, as plain values
/// read from the surface's committed state.
#[derive(Clone, Debug)]
pub struct CommitInput {
    pub role: SurfaceRole,
    /// The imported pending buffer; `None` when the commit attached no
    /// buffer or the GPU import failed, which is recovered locally as "no
    /// buffer this commit". The caller must have forced its GPU
    /// synchronization point already: a handle given here is treated as
    /// consumable the moment the engine is notified.
    pub buffer: Option<ImportedBuffer>,
    pub buffer_delta: Option<Point>,
    pub scale: i32,
    pub input_region: Option<Vec<RegionRectangle>>,
    /// Window geometry the client declared, for shell surfaces.
    pub geometry: Option<Rectangle>,
    /// View id of the popup's parent, or 0 when it has none.
    pub popup_parent_view_id: u64,
    pub popup_geometry: Rectangle,
    pub subsurface_location: Point,
    /// Immediate children stacked below this surface, bottom to top.
    pub subsurfaces_below: Vec<u64>,
    /// Immediate children stacked above this surface, bottom to top.
    pub subsurfaces_above: Vec<u64>,
}

/// What one commit asks the surrounding loop to do: texture-table calls, in
/// order, then delivery of the commit message.
#[derive(Clone, Debug)]
pub struct CommitOutcome {
    pub engine_calls: Vec<TextureEngineCall>,
    pub message: SurfaceCommitMessage,
}

/// The bridge's state: identifier allocation and every registry keyed by
/// view or texture id.
pub struct ServerState {
    /// Next view id to hand out; ids start at 1 and are never reused.
    pub next_view_id: u64,
    /// Next texture id to hand out; ids start at 1 and are never reused.
    pub next_texture_id: i64,
    /// Live surfaces by view id.
    pub surfaces: HashMap<u64, MySurfaceState>,
    /// View ids currently mapped as toplevels.
    pub xdg_toplevels: HashSet<u64>,
    /// View ids currently mapped as popups.
    pub xdg_popups: HashSet<u64>,
    /// The up-to-two most recent texture ids of each view, oldest first.
    pub texture_ids_per_view_id: HashMap<u64, Vec<i64>>,
    /// The one view each texture id was allocated for.
    pub view_id_per_texture_id: HashMap<i64, u64>,
    /// The double-buffered swap chain of each texture id.
    pub texture_swapchains: HashMap<i64, TextureSwapChain>,
    /// Every view id ever handed out, live or destroyed.
    pub allocated_view_ids: Ghost<Set<u64>>,
}

impl ServerState {
    /// View-id bookkeeping: every id ever handed out lies below the
    /// allocation cursor, and every registry holds only ids that were handed
    /// out. A destroyed view's id therefore can never come back.
    pub open spec fn view_ids_wf(self) -> bool {
        &&& 1 <= self.next_view_id
        &&& forall|v: u64| #[trigger]
            self.allocated_view_ids@.contains(v) ==> v < self.next_view_id
        &&& forall|v: u64| #[trigger]
            self.surfaces@.contains_key(v) ==> self.allocated_view_ids@.contains(v)
                && self.surfaces@[v].view_id == v
        &&& forall|v: u64| #[trigger]
            self.xdg_toplevels@.contains(v) ==> self.allocated_view_ids@.contains(v)
        &&& forall|v: u64| #[trigger]
            self.xdg_popups@.contains(v) ==> self.allocated_view_ids@.contains(v)
    }

    /// Texture-id bookkeeping: per-view queues are bounded at two ids, hold
    /// only ids below the allocation cursor, and agree with the inverse map —
    /// a texture id belongs to exactly one view.
    pub open spec fn texture_ids_wf(self) -> bool {
        &&& 1 <= self.next_texture_id
        &&& forall|v: u64| #[trigger]
            self.texture_ids_per_view_id@.contains_key(v) ==> {
                &&& self.allocated_view_ids@.contains(v)
                &&& self.texture_ids_per_view_id@[v]@.len() <= MAX_TEXTURE_IDS_PER_VIEW
                &&& forall|i: int|
                    0 <= i < self.texture_ids_per_view_id@[v]@.len() ==> {
                        let t = #[trigger] self.texture_ids_per_view_id@[v]@[i];
                        &&& 1 <= t < self.next_texture_id
                        &&& self.view_id_per_texture_id@.contains_key(t)
                        &&& self.view_id_per_texture_id@[t] == v
                    }
            }
        &&& forall|t: i64| #[trigger]
            self.view_id_per_texture_id@.contains_key(t) ==> 1 <= t < self.next_texture_id
                && self.allocated_view_ids@.contains(self.view_id_per_texture_id@[t])
    }

    /// Swap-chain bookkeeping: chains exist only for handed-out texture ids
    /// and each is bounded at two handles.
    pub open spec fn swapchains_wf(self) -> bool {
        forall|t: i64| #[trigger]
            self.texture_swapchains@.contains_key(t) ==> 1 <= t < self.next_texture_id
                && self.texture_swapchains@[t].wf()
    }

    /// The whole state is well formed.
    pub open spec fn wf(self) -> bool {
        &&& self.view_ids_wf()
        &&& self.texture_ids_wf()
        &&& self.swapchains_wf()
    }

    /// The texture ids currently queued for a view, oldest first.
    pub open spec fn view_texture_ids(self, view_id: u64) -> Seq<i64> {
        if self.texture_ids_per_view_id@.contains_key(view_id) {
            self.texture_ids_per_view_id@[view_id]@
        } else {
            Seq::<i64>::empty()
        }
    }

    /// The handles currently held by a texture id's swap chain, oldest
    /// first.
    pub open spec fn swapchain_textures(self, texture_id: i64) -> Seq<u64> {
        if self.texture_swapchains@.contains_key(texture_id) {
            self.texture_swapchains@[texture_id].textures@
        } else {
            Seq::<u64>::empty()
        }
    }

    /// The texture id a commit of the given size may reuse: the view's most
    /// recent id, available only when the size equals the last committed
    /// size and the view has an id at all.
    pub open spec fn reused_texture_id(self, view_id: u64, size: PixelSize) -> Option<i64> {
        if self.surfaces@[view_id].old_texture_size == Some(size) && self.view_texture_ids(
            view_id,
        ).len() > 0 {
            Some(self.view_texture_ids(view_id).last())
        } else {
            None
        }
    }

    /// Empty bookkeeping, with both id counters at 1. The sockets, GPU and
    /// engine the surrounding process sets up around this state are its own
    /// concern.
    pub fn new() -> (s: ServerState)
        ensures
            s.wf(),
            s.next_view_id == 1,
            s.next_texture_id == 1,
            s.surfaces@ == Map::<u64, MySurfaceState>::empty(),
            s.xdg_toplevels@ == Set::<u64>::empty(),
            s.xdg_popups@ == Set::<u64>::empty(),
            s.texture_ids_per_view_id@ == Map::<u64, Vec<i64>>::empty(),
            s.view_id_per_texture_id@ == Map::<i64, u64>::empty(),
            s.texture_swapchains@ == Map::<i64, TextureSwapChain>::empty(),
            s.allocated_view_ids@ == Set::<u64>::empty(),
    {
        ServerState {
            next_view_id: 1,
            next_texture_id: 1,
            surfaces: HashMap::new(),
            xdg_toplevels: HashSet::new(),
            xdg_popups: HashSet::new(),
            texture_ids_per_view_id: HashMap::new(),
            view_id_per_texture_id: HashMap::new(),
            texture_swapchains: HashMap::new(),
            allocated_view_ids: Ghost(Set::empty()),
        }
    }

    /// Hands out a fresh view id: strictly increasing, never an id that was
    /// ever handed out before.
    pub fn get_new_view_id(&mut self) -> (view_id: u64)
        requires
            old(self).wf(),
            old(self).next_view_id < u64::MAX,
        ensures
            final(self).wf(),
            view_id == old(self).next_view_id,
            !old(self).allocated_view_ids@.contains(view_id),
            final(self).next_view_id == old(self).next_view_id + 1,
            final(self).allocated_view_ids@ == old(self).allocated_view_ids@.insert(view_id),
            final(self).next_texture_id == old(self).next_texture_id,
            final(self).surfaces == old(self).surfaces,
            final(self).xdg_toplevels == old(self).xdg_toplevels,
            final(self).xdg_popups == old(self).xdg_popups,
            final(self).texture_ids_per_view_id == old(self).texture_ids_per_view_id,
            final(self).view_id_per_texture_id == old(self).view_id_per_texture_id,
            final(self).texture_swapchains == old(self).texture_swapchains,
    {
        let view_id = self.next_view_id;
        self.next_view_id = self.next_view_id + 1;
        proof {
            self.allocated_view_ids@ = self.allocated_view_ids@.insert(view_id);
        }
        view_id
    }

    /// Hands out a fresh texture id: strictly increasing, never reused.
    pub fn get_new_texture_id(&mut self) -> (texture_id: i64)
        requires
            old(self).wf(),
            old(self).next_texture_id < i64::MAX,
        ensures
            final(self).wf(),
            texture_id == old(self).next_texture_id,
            final(self).next_texture_id == old(self).next_texture_id + 1,
            final(self).next_view_id == old(self).next_view_id,
            final(self).allocated_view_ids@ == old(self).allocated_view_ids@,
            final(self).surfaces == old(self).surfaces,
            final(self).xdg_toplevels == old(self).xdg_toplevels,
            final(self).xdg_popups == old(self).xdg_popups,
            final(self).texture_ids_per_view_id == old(self).texture_ids_per_view_id,
            final(self).view_id_per_texture_id == old(self).view_id_per_texture_id,
            final(self).texture_swapchains == old(self).texture_swapchains,
    {
        let texture_id = self.next_texture_id;
        self.next_texture_id = self.next_texture_id + 1;
        texture_id
    }

    /// Registers a freshly created surface: allocates its view id and
    /// records it as live with no committed buffer yet.
    pub fn new_surface(&mut self) -> (view_id: u64)
        requires
            old(self).wf(),
            old(self).next_view_id < u64::MAX,
        ensures
            final(self).wf(),
            view_id == old(self).next_view_id,
            !old(self).allocated_view_ids@.contains(view_id),
            !old(self).surfaces@.contains_key(view_id),
            final(self).next_view_id == old(self).next_view_id + 1,
            final(self).allocated_view_ids@ == old(self).allocated_view_ids@.insert(view_id),
            final(self).surfaces@ == old(self).surfaces@.insert(
                view_id,
                (MySurfaceState { view_id, old_texture_size: None }),
            ),
            final(self).next_texture_id == old(self).next_texture_id,
            final(self).xdg_toplevels == old(self).xdg_toplevels,
            final(self).xdg_popups == old(self).xdg_popups,
            final(self).texture_ids_per_view_id == old(self).texture_ids_per_view_id,
            final(self).view_id_per_texture_id == old(self).view_id_per_texture_id,
            final(self).texture_swapchains == old(self).texture_swapchains,
    {
        let view_id = self.get_new_view_id();
        self.surfaces.insert(view_id, MySurfaceState { view_id, old_texture_size: None });
        view_id
    }

    /// The live surface's bookkeeping, or `None` for an id whose surface was
    /// destroyed or never existed.
    pub fn surface_state(&self, view_id: u64) -> (r: Option<&MySurfaceState>)
        ensures
            match r {
                Some(s) => self.surfaces@.contains_key(view_id) && *s == self.surfaces@[view_id],
                None => !self.surfaces@.contains_key(view_id),
            },
    {
        self.surfaces.get(&view_id)
    }

    /// Maps a surface that acquired the toplevel role.
    pub fn new_toplevel(&mut self, view_id: u64)
        requires
            old(self).wf(),
            old(self).surfaces@.contains_key(view_id),
        ensures
            final(self).wf(),
            final(self).xdg_toplevels@ == old(self).xdg_toplevels@.insert(view_id),
            final(self).next_view_id == old(self).next_view_id,
            final(self).next_texture_id == old(self).next_texture_id,
            final(self).allocated_view_ids@ == old(self).allocated_view_ids@,
            final(self).surfaces == old(self).surfaces,
            final(self).xdg_popups == old(self).xdg_popups,
            final(self).texture_ids_per_view_id == old(self).texture_ids_per_view_id,
            final(self).view_id_per_texture_id == old(self).view_id_per_texture_id,
            final(self).texture_swapchains == old(self).texture_swapchains,
    {
        self.xdg_toplevels.insert(view_id);
    }

    /// Maps a surface that acquired the popup role.
    pub fn new_popup(&mut self, view_id: u64)
        requires
            old(self).wf(),
            old(self).surfaces@.contains_key(view_id),
        ensures
            final(self).wf(),
            final(self).xdg_popups@ == old(self).xdg_popups@.insert(view_id),
            final(self).next_view_id == old(self).next_view_id,
            final(self).next_texture_id == old(self).next_texture_id,
            final(self).allocated_view_ids@ == old(self).allocated_view_ids@,
            final(self).surfaces == old(self).surfaces,
            final(self).xdg_toplevels == old(self).xdg_toplevels,
            final(self).texture_ids_per_view_id == old(self).texture_ids_per_view_id,
            final(self).view_id_per_texture_id == old(self).view_id_per_texture_id,
            final(self).texture_swapchains == old(self).texture_swapchains,
    {
        self.xdg_popups.insert(view_id);
    }

    /// Unmaps a destroyed toplevel.
    pub fn toplevel_destroyed(&mut self, view_id: u64)
        requires
            old(self).wf(),
        ensures
            final(self).wf(),
            final(self).xdg_toplevels@ == old(self).xdg_toplevels@.remove(view_id),
            final(self).next_view_id == old(self).next_view_id,
            final(self).next_texture_id == old(self).next_texture_id,
            final(self).allocated_view_ids@ == old(self).allocated_view_ids@,
            final(self).surfaces == old(self).surfaces,
            final(self).xdg_popups == old(self).xdg_popups,
            final(self).texture_ids_per_view_id == old(self).texture_ids_per_view_id,
            final(self).view_id_per_texture_id == old(self).view_id_per_texture_id,
            final(self).texture_swapchains == old(self).texture_swapchains,
    {
        self.xdg_toplevels.remove(&view_id);
    }

    /// The engine call for a client's interactive-move request.
    pub fn move_request(&self, view_id: u64) -> (r: OutboundMessage)
        ensures
            r == (OutboundMessage::InteractiveMove { view_id }),
    {
        OutboundMessage::InteractiveMove { view_id }
    }

    /// The engine call for a client's interactive-resize request.
    pub fn resize_request(&self, view_id: u64, edge: ResizeEdge) -> (r: OutboundMessage)
        ensures
            r == (OutboundMessage::InteractiveResize { view_id, edge }),
    {
        OutboundMessage::InteractiveResize { view_id, edge }
    }

    /// The acknowledgement a popup reposition request earns: the client's
    /// token, echoed back unchanged for the process to send as the
    /// repositioned event.
    pub fn reposition_request(&self, token: u32) -> (r: RepositionAction)
        ensures
            r == (RepositionAction { token }),
    {
        RepositionAction { token }
    }

    /// Whether a committing shell surface is still owed its initial
    /// configure, given whether one was already sent for it.
    pub fn pending_initial_configure(&self, view_id: u64, initial_configure_sent: bool) -> (r:
        Option<ConfigureAction>)
        ensures
            r == (if self.xdg_toplevels@.contains(view_id) && !initial_configure_sent {
                Some(ConfigureAction::ConfigureToplevel)
            } else if self.xdg_popups@.contains(view_id) && !initial_configure_sent {
                Some(ConfigureAction::ConfigurePopup)
            } else {
                None::<ConfigureAction>
            }),
    {
        if self.xdg_toplevels.contains(&view_id) && !initial_configure_sent {
            Some(ConfigureAction::ConfigureToplevel)
        } else if self.xdg_popups.contains(&view_id) && !initial_configure_sent {
            Some(ConfigureAction::ConfigurePopup)
        } else {
            None
        }
    }

    /// Unregisters a destroyed surface: purges its id from every registry a
    /// released id could be observed in — the surface map and the
    /// toplevel/popup maps — and produces the one destroy notification the
    /// engine receives for it. The id itself stays allocated forever and is
    /// never handed out again.
    ///
    /// A destroy for an id with no live surface is a logic error: every
    /// surface is registered at creation and destroyed once, so the caller
    /// must hold a live id; this is what makes the notification unique per
    /// id.
    pub fn destroyed(&mut self, view_id: u64) -> (r: OutboundMessage)
        requires
            old(self).wf(),
            old(self).surfaces@.contains_key(view_id),
        ensures
            final(self).wf(),
            final(self).surfaces@ == old(self).surfaces@.remove(view_id),
            final(self).xdg_toplevels@ == old(self).xdg_toplevels@.remove(view_id),
            final(self).xdg_popups@ == old(self).xdg_popups@.remove(view_id),
            r == (OutboundMessage::DestroySurface { view_id }),
            final(self).next_view_id == old(self).next_view_id,
            final(self).next_texture_id == old(self).next_texture_id,
            final(self).allocated_view_ids@ == old(self).allocated_view_ids@,
            final(self).texture_ids_per_view_id == old(self).texture_ids_per_view_id,
            final(self).view_id_per_texture_id == old(self).view_id_per_texture_id,
            final(self).texture_swapchains == old(self).texture_swapchains,
    {
        self.surfaces.remove(&view_id);
        self.xdg_toplevels.remove(&view_id);
        self.xdg_popups.remove(&view_id);
        OutboundMessage::DestroySurface { view_id }
    }

    /// Allocates a fresh texture id for a view: enforces the two-id cap on
    /// the view's queue (evicting the oldest id, which stays registered with
    /// the engine), queues the new id and records its inverse mapping.
    fn allocate_view_texture_id(&mut self, view_id: u64) -> (texture_id: i64)
        requires
            old(self).wf(),
            old(self).surfaces@.contains_key(view_id),
            old(self).next_texture_id < i64::MAX,
        ensures
            final(self).wf(),
            texture_id == old(self).next_texture_id,
            final(self).next_texture_id == old(self).next_texture_id + 1,
            final(self).texture_ids_per_view_id@.dom() == old(
                self,
            ).texture_ids_per_view_id@.dom().insert(view_id),
            final(self).view_texture_ids(view_id) == push_evicting_oldest(
                old(self).view_texture_ids(view_id),
                texture_id,
            ),
            forall|v: u64|
                v != view_id && #[trigger] old(self).texture_ids_per_view_id@.contains_key(v)
                    ==> final(self).texture_ids_per_view_id@[v] == old(
                    self,
                ).texture_ids_per_view_id@[v],
            final(self).view_id_per_texture_id@ == old(self).view_id_per_texture_id@.insert(
                texture_id,
                view_id,
            ),
            final(self).next_view_id == old(self).next_view_id,
            final(self).allocated_view_ids@ == old(self).allocated_view_ids@,
            final(self).surfaces == old(self).surfaces,
            final(self).xdg_toplevels == old(self).xdg_toplevels,
            final(self).xdg_popups == old(self).xdg_popups,
            final(self).texture_swapchains == old(self).texture_swapchains,
    {
        let texture_id = self.get_new_texture_id();
        let mut ids: Vec<i64> = match self.texture_ids_per_view_id.remove(&view_id) {
            Some(l) => l,
            None => Vec::new(),
        };
        let ghost orig_ids = ids@;
        while ids.len() >= MAX_TEXTURE_IDS_PER_VIEW
            invariant
                ids@.len() <= orig_ids.len(),
                orig_ids.len() > 0 ==> ids@.len() >= 1,
                ids@ == orig_ids.skip(orig_ids.len() - ids@.len()),
            decreases ids@.len(),
        {
            ids.remove(0);
            proof {
                assert(ids@ =~= orig_ids.skip(orig_ids.len() - ids@.len()));
            }
        }
        ids.push(texture_id);
        proof {
            if orig_ids.len() < MAX_TEXTURE_IDS_PER_VIEW {
                assert(orig_ids.skip(0) =~= orig_ids);
                assert(ids@ =~= orig_ids.push(texture_id));
            } else {
                assert(orig_ids.skip(orig_ids.len() - 1) =~= seq![orig_ids.last()]);
                assert(ids@ =~= seq![orig_ids.last(), texture_id]);
            }
        }
        self.texture_ids_per_view_id.insert(view_id, ids);
        self.view_id_per_texture_id.insert(texture_id, view_id);
        proof {
            let pre = *old(self);
            let post = *self;
            assert(post.texture_ids_per_view_id@.dom() =~= pre.texture_ids_per_view_id@.dom()
                .insert(view_id));
            assert forall|v: u64| #[trigger]
                post.texture_ids_per_view_id@.contains_key(v) implies {
                &&& post.allocated_view_ids@.contains(v)
                &&& post.texture_ids_per_view_id@[v]@.len() <= MAX_TEXTURE_IDS_PER_VIEW
                &&& forall|i: int|
                    0 <= i < post.texture_ids_per_view_id@[v]@.len() ==> {
                        let t = #[trigger] post.texture_ids_per_view_id@[v]@[i];
                        &&& 1 <= t < post.next_texture_id
                        &&& post.view_id_per_texture_id@.contains_key(t)
                        &&& post.view_id_per_texture_id@[t] == v
                    }
            } by {
                if v == view_id {
                    assert forall|i: int|
                        0 <= i < post.texture_ids_per_view_id@[v]@.len() implies {
                        let t = #[trigger] post.texture_ids_per_view_id@[v]@[i];
                        &&& 1 <= t < post.next_texture_id
                        &&& post.view_id_per_texture_id@.contains_key(t)
                        &&& post.view_id_per_texture_id@[t] == v
                    } by {
                        let s = post.texture_ids_per_view_id@[v]@;
                        let t = s[i];
                        if i == s.len() - 1 {
                            assert(t == texture_id);
                        } else {
                            // A surviving id comes from the view's old queue.
                            let pres = pre.view_texture_ids(view_id);
                            assert(pre.texture_ids_per_view_id@.contains_key(view_id));
                            assert(t != texture_id);
                        }
                    }
                } else {
                    assert(pre.texture_ids_per_view_id@.contains_key(v));
                    assert forall|i: int|
                        0 <= i < post.texture_ids_per_view_id@[v]@.len() implies {
                        let t = #[trigger] post.texture_ids_per_view_id@[v]@[i];
                        &&& 1 <= t < post.next_texture_id
                        &&& post.view_id_per_texture_id@.contains_key(t)
                        &&& post.view_id_per_texture_id@[t] == v
                    } by {
                        let t = post.texture_ids_per_view_id@[v]@[i];
                        assert(pre.texture_ids_per_view_id@[v]@[i] == t);
                        assert(t != texture_id);
                    }
                }
            }
            assert forall|t: i64| #[trigger]
                post.view_id_per_texture_id@.contains_key(t) implies 1 <= t
                < post.next_texture_id && post.allocated_view_ids@.contains(
                post.view_id_per_texture_id@[t],
            ) by {
                if t != texture_id {
                    assert(pre.view_id_per_texture_id@.contains_key(t));
                }
            }
        }
        texture_id
    }

    /// Runs the per-commit pipeline for one surface.
    ///
    /// With no usable buffer the state is untouched and the message carries
    /// the -1 texture-id sentinel. With an imported buffer, the view's last
    /// committed size is recorded; the current texture id is reused exactly
    /// when the pixel size is unchanged, while a changed or first size
    /// allocates a fresh id and asks the engine to register it — exactly
    /// once — before the frame is announced. The swap chain of the resolved
    /// id receives the new handle, evicting its oldest one when full.
    ///
    /// A commit for an unregistered view id is a logic error: surfaces are
    /// registered at creation, so the caller must hold a live id.
    pub fn commit(&mut self, view_id: u64, input: CommitInput) -> (r: CommitOutcome)
        requires
            old(self).wf(),
            old(self).surfaces@.contains_key(view_id),
            old(self).next_texture_id < i64::MAX,
        ensures
            final(self).wf(),
            final(self).next_view_id == old(self).next_view_id,
            final(self).allocated_view_ids@ == old(self).allocated_view_ids@,
            final(self).xdg_toplevels == old(self).xdg_toplevels,
            final(self).xdg_popups == old(self).xdg_popups,
            input.buffer is None ==> {
                &&& *final(self) == *old(self)
                &&& r.engine_calls@ == Seq::<TextureEngineCall>::empty()
                &&& r.message == commit_message_spec(view_id, input, -1i64, None)
            },
            match input.buffer {
                Some(buffer) => {
                    let reuse = old(self).reused_texture_id(view_id, buffer.size);
                    &&& final(self).surfaces@ == old(self).surfaces@.insert(
                        view_id,
                        (MySurfaceState { view_id, old_texture_size: Some(buffer.size) }),
                    )
                    &&& match reuse {
                        Some(texture_id) => {
                            &&& r.message == commit_message_spec(
                                view_id,
                                input,
                                texture_id,
                                Some(buffer.size),
                            )
                            &&& r.engine_calls@ == seq![
                                (TextureEngineCall::MarkTextureFrameAvailable { texture_id }),
                            ]
                            &&& final(self).next_texture_id == old(self).next_texture_id
                            &&& final(self).texture_ids_per_view_id == old(
                                self,
                            ).texture_ids_per_view_id
                            &&& final(self).view_id_per_texture_id == old(
                                self,
                            ).view_id_per_texture_id
                            &&& swapchain_updated(
                                *old(self),
                                *final(self),
                                texture_id,
                                buffer.texture_handle,
                            )
                        },
                        None => {
                            let texture_id = old(self).next_texture_id;
                            &&& r.message == commit_message_spec(
                                view_id,
                                input,
                                texture_id,
                                Some(buffer.size),
                            )
                            &&& r.engine_calls@ == seq![
                                (TextureEngineCall::RegisterExternalTexture { texture_id }),
                                (TextureEngineCall::MarkTextureFrameAvailable { texture_id }),
                            ]
                            &&& final(self).next_texture_id == old(self).next_texture_id + 1
                            &&& final(self).texture_ids_per_view_id@.dom() == old(
                                self,
                            ).texture_ids_per_view_id@.dom().insert(view_id)
                            &&& final(self).view_texture_ids(view_id) == push_evicting_oldest(
                                old(self).view_texture_ids(view_id),
                                texture_id,
                            )
                            &&& forall|v: u64|
                                v != view_id && #[trigger] old(self).texture_ids_per_view_id@.contains_key(v)
                                    ==> final(self).texture_ids_per_view_id@[v] == old(self).texture_ids_per_view_id@[v]
                            &&& final(self).view_id_per_texture_id@ == old(
                                self,
                            ).view_id_per_texture_id@.insert(texture_id, view_id)
                            &&& swapchain_updated(
                                *old(self),
                                *final(self),
                                texture_id,
                                buffer.texture_handle,
                            )
                        },
                    }
                },
                None => true,
            },
    {
        let my: MySurfaceState = match self.surfaces.get(&view_id) {
            Some(s) => *s,
            None => unreached(),
        };
        match input.buffer {
            Some(buffer) => {
                let size = buffer.size;
                let size_changed = match my.old_texture_size {
                    Some(old_size) => old_size != size,
                    None => true,
                };
                self.surfaces.insert(
                    view_id,
                    MySurfaceState { view_id, old_texture_size: Some(size) },
                );
                let reuse: Option<i64> = if size_changed {
                    None
                } else {
                    match self.texture_ids_per_view_id.get(&view_id) {
                        Some(ids) => if ids.len() > 0 {
                            Some(ids[ids.len() - 1])
                        } else {
                            None
                        },
                        None => None,
                    }
                };
                let mut engine_calls: Vec<TextureEngineCall> = Vec::new();
                let texture_id = match reuse {
                    Some(texture_id) => texture_id,
                    None => {
                        let texture_id = self.allocate_view_texture_id(view_id);
                        engine_calls.push(
                            TextureEngineCall::RegisterExternalTexture { texture_id },
                        );
                        texture_id
                    },
                };
                let mut chain: TextureSwapChain = match self.texture_swapchains.remove(
                    &texture_id,
                ) {
                    Some(c) => c,
                    None => TextureSwapChain::new(),
                };
                chain.commit(buffer.texture_handle);
                self.texture_swapchains.insert(texture_id, chain);
                engine_calls.push(TextureEngineCall::MarkTextureFrameAvailable { texture_id });
                proof {
                    let pre = *old(self);
                    let post = *self;
                    assert(post.texture_swapchains@.dom() =~= pre.texture_swapchains@.dom()
                        .insert(texture_id));
                    if reuse is Some {
                        assert(engine_calls@ =~= seq![
                            (TextureEngineCall::MarkTextureFrameAvailable { texture_id }),
                        ]);
                    } else {
                        assert(engine_calls@ =~= seq![
                            (TextureEngineCall::RegisterExternalTexture { texture_id }),
                            (TextureEngineCall::MarkTextureFrameAvailable { texture_id }),
                        ]);
                    }
                    assert forall|t: i64| #[trigger]
                        post.texture_swapchains@.contains_key(t) implies 1 <= t
                        < post.next_texture_id && post.texture_swapchains@[t].wf() by {
                        if t != texture_id {
                            assert(pre.texture_swapchains@.contains_key(t));
                        }
                    }
                }
                let message = build_commit_message(view_id, input, texture_id, Some(size));
                CommitOutcome { engine_calls, message }
            },
            None => {
                let message = build_commit_message(view_id, input, -1, None);
                CommitOutcome { engine_calls: Vec::new(), message }
            },
        }
    }
}

/// How the swap-chain table changes when one texture id receives a new
/// handle: that chain gains the handle (evicting its oldest when full) and
/// every other chain is untouched.
pub open spec fn swapchain_updated(
    pre: ServerState,
    post: ServerState,
    texture_id: i64,
    handle: u64,
) -> bool {
    &&& post.texture_swapchains@.dom() == pre.texture_swapchains@.dom().insert(texture_id)
    &&& post.swapchain_textures(texture_id) == push_evicting_oldest(
        pre.swapchain_textures(texture_id),
        handle,
    )
    &&& forall|t: i64|
        t != texture_id && #[trigger] pre.texture_swapchains@.contains_key(t)
            ==> post.texture_swapchains@[t] == pre.texture_swapchains@[t]
}

/// The commit message a commit with the given resolved texture id and
/// imported size carries: the surface's committed attributes, the
/// role-specific sub-records (with the geometry fallback derived from the
/// buffer size), and the stacking lists.
pub open spec fn commit_message_spec(
    view_id: u64,
    input: CommitInput,
    texture_id: i64,
    size: Option<PixelSize>,
) -> SurfaceCommitMessage {
    SurfaceCommitMessage {
        view_id,
        role: input.role,
        texture_id,
        buffer_delta: input.buffer_delta,
        buffer_size: size,
        scale: input.scale,
        input_region: input.input_region,
        xdg_surface: if input.role is Toplevel || input.role is Popup {
            Some(
                (XdgSurfaceCommitMessage {
                    role: input.role,
                    geometry: match input.geometry {
                        Some(g) => Some(g),
                        None => Some(
                            (Rectangle {
                                loc: Point { x: 0, y: 0 },
                                size: match size {
                                    Some(s) => s,
                                    None => PixelSize { width: 0, height: 0 },
                                },
                            }),
                        ),
                    },
                }),
            )
        } else {
            None
        },
        xdg_popup: if input.role is Popup {
            Some(
                (XdgPopupCommitMessage {
                    parent_id: input.popup_parent_view_id,
                    geometry: input.popup_geometry,
                }),
            )
        } else {
            None
        },
        subsurface: if input.role is Subsurface {
            Some((SubsurfaceCommitMessage { location: input.subsurface_location }))
        } else {
            None
        },
        subsurfaces_below: input.subsurfaces_below,
        subsurfaces_above: input.subsurfaces_above,
    }
}

/// Assembles the commit message.
fn build_commit_message(
    view_id: u64,
    input: CommitInput,
    texture_id: i64,
    size: Option<PixelSize>,
) -> (r: SurfaceCommitMessage)
    ensures
        r == commit_message_spec(view_id, input, texture_id, size),
{
    let xdg_surface = match input.role {
        SurfaceRole::Toplevel | SurfaceRole::Popup => Some(
            XdgSurfaceCommitMessage {
                role: input.role,
                geometry: match input.geometry {
                    Some(g) => Some(g),
                    None => Some(
                        Rectangle {
                            loc: Point { x: 0, y: 0 },
                            size: match size {
                                Some(s) => s,
                                None => PixelSize { width: 0, height: 0 },
                            },
                        },
                    ),
                },
            },
        ),
        _ => None,
    };
    let xdg_popup = match input.role {
        SurfaceRole::Popup => Some(
            XdgPopupCommitMessage {
                parent_id: input.popup_parent_view_id,
                geometry: input.popup_geometry,
            },
        ),
        _ => None,
    };
    let subsurface = match input.role {
        SurfaceRole::Subsurface => Some(
            SubsurfaceCommitMessage { location: input.subsurface_location },
        ),
        _ => None,
    };
    SurfaceCommitMessage {
        view_id,
        role: input.role,
        texture_id,
        buffer_delta: input.buffer_delta,
        buffer_size: size,
        scale: input.scale,
        input_region: input.input_region,
        xdg_surface,
        xdg_popup,
        subsurface,
        subsurfaces_below: input.subsurfaces_below,
        subsurfaces_above: input.subsurfaces_above,
    }
}

/// Every identifier any registry holds was once handed out, and everything
/// handed out lies strictly below the allocation cursor; allocation always
/// returns the cursor. An id observed anywhere — even one whose surface was
/// destroyed long ago — can therefore never be returned by a later
/// allocation. A live surface's bookkeeping always answers a lookup with
/// the surface's own id.
pub proof fn lemma_view_ids_never_reused(s: ServerState)
    requires
        s.wf(),
    ensures
        forall|v: u64| #[trigger] s.allocated_view_ids@.contains(v) ==> v < s.next_view_id,
        forall|v: u64| #[trigger]
            s.surfaces@.contains_key(v) ==> s.allocated_view_ids@.contains(v)
                && s.surfaces@[v].view_id == v,
{
}

/// A view never has more than two distinct texture ids live in its per-view
/// queue.
pub proof fn lemma_view_texture_queue_bounded(s: ServerState, view_id: u64)
    requires
        s.wf(),
    ensures
        s.view_texture_ids(view_id).len() <= MAX_TEXTURE_IDS_PER_VIEW,
{
}

} // verus!
