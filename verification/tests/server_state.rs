use embedder::server_state::CommitInput;
use embedder::server_state::ImportedBuffer;
use embedder::server_state::ServerState;
use embedder::texture_swap_chain::TextureSwapChain;
use embedder::wayland_messages::ConfigureAction;
use embedder::wayland_messages::OutboundMessage;
use embedder::wayland_messages::PixelSize;
use embedder::wayland_messages::Point;
use embedder::wayland_messages::Rectangle;
use embedder::wayland_messages::RepositionAction;
use embedder::wayland_messages::ResizeEdge;
use embedder::wayland_messages::SurfaceRole;
use embedder::wayland_messages::TextureEngineCall;

fn plain_commit(role: SurfaceRole, buffer: Option<ImportedBuffer>) -> CommitInput {
    CommitInput {
        role,
        buffer,
        buffer_delta: None,
        scale: 1,
        input_region: None,
        geometry: None,
        popup_parent_view_id: 0,
        popup_geometry: Rectangle {
            loc: Point { x: 0, y: 0 },
            size: PixelSize { width: 0, height: 0 },
        },
        subsurface_location: Point { x: 0, y: 0 },
        subsurfaces_below: vec![],
        subsurfaces_above: vec![],
    }
}

fn buffer(handle: u64, width: i32, height: i32) -> Option<ImportedBuffer> {
    Some(ImportedBuffer { texture_handle: handle, size: PixelSize { width, height } })
}

#[test]
fn view_ids_are_fresh_and_strictly_increasing() {
    let mut s = ServerState::new();
    let a = s.new_surface();
    let b = s.new_surface();
    let c = s.new_surface();
    assert_eq!((a, b, c), (1, 2, 3));
    let msg = s.destroyed(b);
    assert_eq!(
        match msg {
            OutboundMessage::DestroySurface { view_id } => view_id,
            _ => panic!("expected a destroy notification"),
        },
        b
    );
    // The destroyed surface's id is never handed out again.
    let d = s.new_surface();
    assert_eq!(d, 4);
}

#[test]
fn commit_sequence_reuses_then_reallocates_texture_ids() {
    let mut s = ServerState::new();
    let v = s.new_surface();

    let r1 = s.commit(v, plain_commit(SurfaceRole::NoRole, buffer(100, 100, 100)));
    assert_eq!(r1.message.texture_id, 1);
    assert_eq!(
        r1.engine_calls,
        vec![
            TextureEngineCall::RegisterExternalTexture { texture_id: 1 },
            TextureEngineCall::MarkTextureFrameAvailable { texture_id: 1 },
        ]
    );

    let r2 = s.commit(v, plain_commit(SurfaceRole::NoRole, buffer(101, 100, 100)));
    assert_eq!(r2.message.texture_id, 1);
    assert_eq!(
        r2.engine_calls,
        vec![TextureEngineCall::MarkTextureFrameAvailable { texture_id: 1 }]
    );

    let r3 = s.commit(v, plain_commit(SurfaceRole::NoRole, buffer(102, 200, 200)));
    assert_eq!(r3.message.texture_id, 2);
    assert_eq!(
        r3.engine_calls,
        vec![
            TextureEngineCall::RegisterExternalTexture { texture_id: 2 },
            TextureEngineCall::MarkTextureFrameAvailable { texture_id: 2 },
        ]
    );
    // The first id was evicted from the view's queue but stays addressable.
    assert!(s.texture_swapchains.contains_key(&1));
    assert_eq!(s.view_id_per_texture_id.get(&1), Some(&v));
}

#[test]
fn view_queue_never_holds_more_than_two_ids() {
    let mut s = ServerState::new();
    let v = s.new_surface();
    for i in 0..5 {
        let side = 10 * (i + 1);
        s.commit(v, plain_commit(SurfaceRole::NoRole, buffer(200 + i as u64, side, side)));
        assert!(s.texture_ids_per_view_id.get(&v).unwrap().len() <= 2);
    }
    // Five size changes allocated five ids; the queue keeps the two newest.
    assert_eq!(s.texture_ids_per_view_id.get(&v).unwrap().as_slice(), &[4, 5]);
}

#[test]
fn commit_without_buffer_uses_sentinel_and_calls_nothing() {
    let mut s = ServerState::new();
    let v = s.new_surface();
    let r = s.commit(v, plain_commit(SurfaceRole::NoRole, None));
    assert_eq!(r.message.texture_id, -1);
    assert_eq!(r.message.buffer_size, None);
    assert!(r.engine_calls.is_empty());
    assert!(s.texture_swapchains.is_empty());
}

#[test]
fn import_failure_then_success_still_registers_once() {
    let mut s = ServerState::new();
    let v = s.new_surface();
    s.commit(v, plain_commit(SurfaceRole::NoRole, None));
    let r = s.commit(v, plain_commit(SurfaceRole::NoRole, buffer(300, 64, 64)));
    assert_eq!(r.message.texture_id, 1);
    assert_eq!(r.engine_calls.len(), 2);
}

#[test]
fn swap_chain_keeps_the_two_newest_handles() {
    let mut chain = TextureSwapChain::new();
    assert_eq!(chain.latest(), None);
    chain.commit(11);
    chain.commit(12);
    chain.commit(13);
    assert_eq!(chain.textures.as_slice(), &[12, 13]);
    assert_eq!(chain.latest(), Some(13));
}

#[test]
fn repeated_commits_double_buffer_the_swap_chain() {
    let mut s = ServerState::new();
    let v = s.new_surface();
    for h in 0..4u64 {
        s.commit(v, plain_commit(SurfaceRole::NoRole, buffer(400 + h, 32, 32)));
    }
    let chain = s.texture_swapchains.get(&1).unwrap();
    assert_eq!(chain.textures.as_slice(), &[402, 403]);
    assert_eq!(chain.latest(), Some(403));
}

#[test]
fn destroyed_surface_fails_lookup_and_notifies_once() {
    let mut s = ServerState::new();
    let v = s.new_surface();
    assert!(s.surface_state(v).is_some());
    let msg = s.destroyed(v);
    match msg {
        OutboundMessage::DestroySurface { view_id } => assert_eq!(view_id, v),
        _ => panic!("expected a destroy notification"),
    }
    assert!(s.surface_state(v).is_none());
}

#[test]
fn destruction_purges_the_toplevel_map() {
    let mut s = ServerState::new();
    let v = s.new_surface();
    s.new_toplevel(v);
    assert_eq!(
        s.pending_initial_configure(v, false),
        Some(ConfigureAction::ConfigureToplevel)
    );
    s.destroyed(v);
    // The released id is live in no registry any more.
    assert!(s.surface_state(v).is_none());
    assert_eq!(s.pending_initial_configure(v, false), None);
    assert!(!s.xdg_toplevels.contains(&v));
}

#[test]
fn destruction_purges_the_popup_map() {
    let mut s = ServerState::new();
    let v = s.new_surface();
    s.new_popup(v);
    assert_eq!(
        s.pending_initial_configure(v, false),
        Some(ConfigureAction::ConfigurePopup)
    );
    s.destroyed(v);
    assert_eq!(s.pending_initial_configure(v, false), None);
    assert!(!s.xdg_popups.contains(&v));
}

#[test]
fn reposition_request_echoes_the_token() {
    let s = ServerState::new();
    assert_eq!(s.reposition_request(77), RepositionAction { token: 77 });
}

#[test]
fn toplevel_gets_initial_configure_exactly_until_sent() {
    let mut s = ServerState::new();
    let v = s.new_surface();
    assert_eq!(s.pending_initial_configure(v, false), None);
    s.new_toplevel(v);
    assert_eq!(
        s.pending_initial_configure(v, false),
        Some(ConfigureAction::ConfigureToplevel)
    );
    assert_eq!(s.pending_initial_configure(v, true), None);
    s.toplevel_destroyed(v);
    assert_eq!(s.pending_initial_configure(v, false), None);
}

#[test]
fn popup_gets_initial_configure() {
    let mut s = ServerState::new();
    let v = s.new_surface();
    s.new_popup(v);
    assert_eq!(
        s.pending_initial_configure(v, false),
        Some(ConfigureAction::ConfigurePopup)
    );
    assert_eq!(s.pending_initial_configure(v, true), None);
}

#[test]
fn move_and_resize_requests_name_the_view() {
    let s = ServerState::new();
    match s.move_request(9) {
        OutboundMessage::InteractiveMove { view_id } => assert_eq!(view_id, 9),
        _ => panic!("expected an interactive move"),
    }
    match s.resize_request(9, ResizeEdge::BottomRight) {
        OutboundMessage::InteractiveResize { view_id, edge } => {
            assert_eq!(view_id, 9);
            assert_eq!(edge, ResizeEdge::BottomRight);
            assert_eq!(edge.code(), 10);
        },
        _ => panic!("expected an interactive resize"),
    }
}

#[test]
fn toplevel_message_carries_geometry_fallback() {
    let mut s = ServerState::new();
    let v = s.new_surface();
    s.new_toplevel(v);
    let r = s.commit(v, plain_commit(SurfaceRole::Toplevel, buffer(500, 30, 40)));
    assert_eq!(r.message.view_id, v);
    assert_eq!(r.message.role, SurfaceRole::Toplevel);
    let xdg = r.message.xdg_surface.unwrap();
    assert_eq!(
        xdg.geometry,
        Some(Rectangle {
            loc: Point { x: 0, y: 0 },
            size: PixelSize { width: 30, height: 40 },
        })
    );
    assert!(r.message.xdg_popup.is_none());
    assert!(r.message.subsurface.is_none());
}

#[test]
fn declared_geometry_wins_over_fallback() {
    let mut s = ServerState::new();
    let v = s.new_surface();
    s.new_toplevel(v);
    let mut input = plain_commit(SurfaceRole::Toplevel, buffer(501, 30, 40));
    let declared = Rectangle {
        loc: Point { x: 5, y: 6 },
        size: PixelSize { width: 7, height: 8 },
    };
    input.geometry = Some(declared);
    let r = s.commit(v, input);
    assert_eq!(r.message.xdg_surface.unwrap().geometry, Some(declared));
}

#[test]
fn popup_message_carries_parent_and_geometry() {
    let mut s = ServerState::new();
    let parent = s.new_surface();
    let v = s.new_surface();
    s.new_popup(v);
    let mut input = plain_commit(SurfaceRole::Popup, None);
    input.popup_parent_view_id = parent;
    input.popup_geometry = Rectangle {
        loc: Point { x: 1, y: 2 },
        size: PixelSize { width: 3, height: 4 },
    };
    let r = s.commit(v, input);
    let popup = r.message.xdg_popup.unwrap();
    assert_eq!(popup.parent_id, parent);
    assert_eq!(popup.geometry.loc, Point { x: 1, y: 2 });
    assert!(r.message.xdg_surface.is_some());
}

#[test]
fn subsurface_message_carries_location() {
    let mut s = ServerState::new();
    let v = s.new_surface();
    let mut input = plain_commit(SurfaceRole::Subsurface, None);
    input.subsurface_location = Point { x: -3, y: 9 };
    let r = s.commit(v, input);
    assert_eq!(r.message.subsurface.unwrap().location, Point { x: -3, y: 9 });
    assert!(r.message.xdg_surface.is_none());
}

#[test]
fn commit_message_carries_stacking_lists() {
    let mut s = ServerState::new();
    let below = s.new_surface();
    let v = s.new_surface();
    let above = s.new_surface();
    let mut input = plain_commit(SurfaceRole::NoRole, None);
    input.subsurfaces_below = vec![below];
    input.subsurfaces_above = vec![above];
    let r = s.commit(v, input);
    assert_eq!(r.message.subsurfaces_below, vec![below]);
    assert_eq!(r.message.subsurfaces_above, vec![above]);
}

#[test]
fn texture_ids_are_unique_per_view() {
    let mut s = ServerState::new();
    let v1 = s.new_surface();
    let v2 = s.new_surface();
    s.commit(v1, plain_commit(SurfaceRole::NoRole, buffer(600, 10, 10)));
    s.commit(v2, plain_commit(SurfaceRole::NoRole, buffer(601, 10, 10)));
    assert_eq!(s.view_id_per_texture_id.get(&1), Some(&v1));
    assert_eq!(s.view_id_per_texture_id.get(&2), Some(&v2));
    assert_eq!(s.texture_ids_per_view_id.get(&v1).unwrap().as_slice(), &[1]);
    assert_eq!(s.texture_ids_per_view_id.get(&v2).unwrap().as_slice(), &[2]);
}
