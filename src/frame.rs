//! What each pass of the render loop decides from its events and framebuffer size.

use vstd::prelude::*;

verus! {

/// The keys that the render loop tells apart.
#[derive(Clone, Copy, PartialEq, Eq, Structural, Debug)]
pub enum Key {
    Escape,
    Other,
}

/// What happened to a key.
#[derive(Clone, Copy, PartialEq, Eq, Structural, Debug)]
pub enum KeyAction {
    Press,
    Release,
    Repeat,
}

/// A window event, as far as the render loop reads it.
#[derive(Clone, Copy, PartialEq, Eq, Structural, Debug)]
pub enum Input {
    Key { key: Key, action: KeyAction },
    Other,
}

/// The width and height of the framebuffer that the projection maps onto; its aspect
/// ratio is `width / height`.
#[derive(Clone, Copy, PartialEq, Eq, Structural, Debug)]
pub struct Aspect {
    pub width: u32,
    pub height: u32,
}

/// What one pass of the render loop does besides clearing and presenting.
#[derive(Clone, Copy, PartialEq, Eq, Structural, Debug)]
pub struct FramePlan {
    /// The window is to close once this frame is presented.
    pub close: bool,
    /// The aspect of this frame's projection, or `None` where the framebuffer has no
    /// area and nothing is drawn.
    pub aspect: Option<Aspect>,
}

/// True of the event that asks the window to close: a press of Escape.
pub open spec fn asks_to_close(e: Input) -> bool {
    e == (Input::Key { key: Key::Escape, action: KeyAction::Press })
}

/// The projection aspect for a framebuffer of the given size.
pub open spec fn aspect_of(width: i32, height: i32) -> Option<Aspect> {
    if width > 0 && height > 0 {
        Some(Aspect { width: width as u32, height: height as u32 })
    } else {
        None
    }
}

/// The plan of a frame, from the events polled for it and its framebuffer size.
pub open spec fn frame_plan(events: Seq<Input>, width: i32, height: i32) -> FramePlan {
    FramePlan {
        close: exists|i: int| 0 <= i < events.len() && asks_to_close(#[trigger] events[i]),
        aspect: aspect_of(width, height),
    }
}

/// True when two aspects have the same ratio.
pub open spec fn same_ratio(a: Aspect, b: Aspect) -> bool {
    a.width * b.height == b.width * a.height
}

/// Plans one frame from the events polled for it and the framebuffer size read for it.
pub fn plan_frame(events: &Vec<Input>, width: i32, height: i32) -> (r: FramePlan)
    ensures
        r == frame_plan(events@, width, height),
{
    let mut close = false;
    let mut i: usize = 0;
    while i < events.len()
        invariant
            i <= events@.len(),
            close == exists|j: int| 0 <= j < i && asks_to_close(#[trigger] events@[j]),
        decreases events@.len() - i,
    {
        let e = events[i];
        if e == (Input::Key { key: Key::Escape, action: KeyAction::Press }) {
            close = true;
        }
        i = i + 1;
    }
    let aspect = if width > 0 && height > 0 {
        Some(Aspect { width: width as u32, height: height as u32 })
    } else {
        None
    };
    FramePlan { close, aspect }
}

/// The projection is worked out anew for every frame from that frame's framebuffer:
/// whatever the frame before it saw, a frame whose framebuffer has area gets the ratio of
/// its own width to its own height, and its ratio differs from the earlier frame's exactly
/// when the two sizes are not in proportion.
pub proof fn lemma_aspect_follows_framebuffer(
    before: Seq<Input>,
    w1: i32,
    h1: i32,
    after: Seq<Input>,
    w2: i32,
    h2: i32,
)
    requires
        w1 > 0,
        h1 > 0,
        w2 > 0,
        h2 > 0,
    ensures
        ({
            let first = frame_plan(before, w1, h1);
            let second = frame_plan(after, w2, h2);
            &&& second.aspect == Some(Aspect { width: w2 as u32, height: h2 as u32 })
            &&& second.aspect->0.width * h2 == second.aspect->0.height * w2
            &&& same_ratio(first.aspect->0, second.aspect->0) <==> w1 * h2 == w2 * h1
        }),
{
    let (a1, b1, a2, b2) = (w1 as u32 as int, h1 as u32 as int, w2 as u32 as int, h2 as u32 as int);
    assert(a1 == w1 && b1 == h1 && a2 == w2 && b2 == h2);
    assert(a2 * h2 == b2 * w2) by (nonlinear_arith)
        requires
            a2 == w2,
            b2 == h2,
    ;
}

} // verus!
