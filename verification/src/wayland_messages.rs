//! Plain-value forms of the protocol state a surface commit carries, and the
//! outbound messages and engine calls the bridge produces. The surrounding
//! process serializes these for its method channel; nothing here performs
//! delivery.

use vstd::prelude::*;

verus! {

/// A position in surface or buffer coordinates.
#[derive(Clone, Copy, PartialEq, Eq, Structural, Debug)]
pub struct Point {
    pub x: i32,
    pub y: i32,
}

/// A width and height in buffer pixels.
#[derive(Clone, Copy, PartialEq, Eq, Structural, Debug)]
pub struct PixelSize {
    pub width: i32,
    pub height: i32,
}

/// An axis-aligned rectangle: a location and a size.
#[derive(Clone, Copy, PartialEq, Eq, Structural, Debug)]
pub struct Rectangle {
    pub loc: Point,
    pub size: PixelSize,
}

/// How one rectangle of an input region combines with the previous ones.
#[derive(Clone, Copy, PartialEq, Eq, Structural, Debug)]
pub enum RegionKind {
    Add,
    Subtract,
}

/// One rectangle of a surface's input region.
#[derive(Clone, Copy, PartialEq, Eq, Structural, Debug)]
pub struct RegionRectangle {
    pub kind: RegionKind,
    pub rect: Rectangle,
}

/// The role a protocol surface carries.
#[derive(Clone, Copy, PartialEq, Eq, Structural, Debug)]
pub enum SurfaceRole {
    NoRole,
    Toplevel,
    Popup,
    Subsurface,
}

/// The edge or corner a client grabbed for an interactive resize.
#[derive(Clone, Copy, PartialEq, Eq, Structural, Debug)]
pub enum ResizeEdge {
    NoEdge,
    Top,
    Bottom,
    Left,
    TopLeft,
    BottomLeft,
    Right,
    TopRight,
    BottomRight,
}

/// The protocol code of a resize edge, as the engine's resize request
/// carries it.
pub open spec fn resize_edge_code(edge: ResizeEdge) -> i64 {
    match edge {
        ResizeEdge::NoEdge => 0,
        ResizeEdge::Top => 1,
        ResizeEdge::Bottom => 2,
        ResizeEdge::Left => 4,
        ResizeEdge::TopLeft => 5,
        ResizeEdge::BottomLeft => 6,
        ResizeEdge::Right => 8,
        ResizeEdge::TopRight => 9,
        ResizeEdge::BottomRight => 10,
    }
}

impl ResizeEdge {
    /// The protocol code of this edge.
    pub fn code(&self) -> (r: i64)
        ensures
            r == resize_edge_code(*self),
    {
        match *self {
            ResizeEdge::NoEdge => 0,
            ResizeEdge::Top => 1,
            ResizeEdge::Bottom => 2,
            ResizeEdge::Left => 4,
            ResizeEdge::TopLeft => 5,
            ResizeEdge::BottomLeft => 6,
            ResizeEdge::Right => 8,
            ResizeEdge::TopRight => 9,
            ResizeEdge::BottomRight => 10,
        }
    }
}

/// The shell-level part of a commit message, present for toplevels and
/// popups: the window geometry the client declared, or a fallback derived
/// from the buffer size.
#[derive(Clone, Copy, PartialEq, Eq, Structural, Debug)]
pub struct XdgSurfaceCommitMessage {
    pub role: SurfaceRole,
    pub geometry: Option<Rectangle>,
}

/// The popup-specific part of a commit message.
#[derive(Clone, Copy, PartialEq, Eq, Structural, Debug)]
pub struct XdgPopupCommitMessage {
    /// View id of the popup's parent surface, or 0 when it has none.
    pub parent_id: u64,
    pub geometry: Rectangle,
}

/// The subsurface-specific part of a commit message.
#[derive(Clone, Copy, PartialEq, Eq, Structural, Debug)]
pub struct SubsurfaceCommitMessage {
    pub location: Point,
}

/// Everything the engine learns about one surface commit. Built fresh per
/// commit and handed over the outbound channel; never stored.
#[derive(Clone, Debug)]
pub struct SurfaceCommitMessage {
    pub view_id: u64,
    pub role: SurfaceRole,
    /// Texture id the engine should sample for this surface, or -1 when this
    /// commit carried no usable buffer.
    pub texture_id: i64,
    pub buffer_delta: Option<Point>,
    pub buffer_size: Option<PixelSize>,
    pub scale: i32,
    pub input_region: Option<Vec<RegionRectangle>>,
    pub xdg_surface: Option<XdgSurfaceCommitMessage>,
    pub xdg_popup: Option<XdgPopupCommitMessage>,
    pub subsurface: Option<SubsurfaceCommitMessage>,
    /// View ids of the immediate children stacked below this surface, bottom
    /// to top.
    pub subsurfaces_below: Vec<u64>,
    /// View ids of the immediate children stacked above this surface, bottom
    /// to top.
    pub subsurfaces_above: Vec<u64>,
}

/// A texture-table call the engine must receive as part of a commit:
/// declaring a new external texture id, or announcing that a new frame is
/// ready under an id it already knows.
#[derive(Clone, Copy, PartialEq, Eq, Structural, Debug)]
pub enum TextureEngineCall {
    RegisterExternalTexture { texture_id: i64 },
    MarkTextureFrameAvailable { texture_id: i64 },
}

/// A named method invocation on the engine's platform channel. Delivery is
/// fire-and-forget: nothing comes back and nothing is retried.
#[derive(Clone, Debug)]
pub enum OutboundMessage {
    InteractiveMove { view_id: u64 },
    InteractiveResize { view_id: u64, edge: ResizeEdge },
    CommitSurface { message: SurfaceCommitMessage },
    DestroySurface { view_id: u64 },
}

/// The acknowledgement a popup reposition request asks for: the client's
/// token echoed back over the protocol once the surface is repositioned.
#[derive(Clone, Copy, PartialEq, Eq, Structural, Debug)]
pub struct RepositionAction {
    pub token: u32,
}

/// The initial configure a shell surface still owes its client.
#[derive(Clone, Copy, PartialEq, Eq, Structural, Debug)]
pub enum ConfigureAction {
    /// Send the toplevel its initial configure.
    ConfigureToplevel,
    /// Send the popup its initial configure; the protocol guarantees this
    /// cannot fail, so a failure is a collaborator bug.
    ConfigurePopup,
}

} // verus!
