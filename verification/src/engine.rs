//! The per-frame engine state that sits between the window backend and the
//! user's tick callback: it folds raw window events into dimensions, the
//! bounding box, pointer position and input state, snapshots a read-only
//! `Context` for each simulation tick, and applies the end-of-tick input
//! decay. The embedder owns the event loop, the pixel buffer and the render
//! sink; every decision about state is taken here.
use vstd::prelude::*;

use crate::fixed::{div_trunc, FRAC_ONE};
use crate::input::{decay_map, InputId, InputState, PressedState};
use crate::key::Key;
use crate::mapper::{dim_ok, spec_map_axis, BoundingBox, DIM_LIMIT, POINTER_LIMIT};
use crate::MouseButton;

verus! {

/// A discrete event from the window backend, already translated to logical
/// values. Auto-repeat key presses must be filtered out before this point.
pub enum WindowEvent {
    MouseButton { button: MouseButton, pressed: bool },
    Key { key: Key, pressed: bool },
    MouseEnter { entered: bool },
    MousePos { x: u32, y: u32 },
    FocusChanged { focused: bool },
    WindowClose,
    WindowResize {
        width: u32,
        height: u32,
        window_width: u32,
        window_height: u32,
        new_bounding_box: BoundingBox,
    },
}

/// What the engine accepts of an event: a resize must carry usable
/// dimensions and a well-formed bounding box.
pub open spec fn event_wf(e: WindowEvent) -> bool {
    match e {
        WindowEvent::WindowResize { width, height, window_width, window_height, new_bounding_box } => {
            &&& dim_ok(width)
            &&& dim_ok(height)
            &&& dim_ok(window_width)
            &&& dim_ok(window_height)
            &&& new_bounding_box.wf()
        },
        _ => true,
    }
}

/// The engine state a frame runs against.
pub struct EngineCore {
    /// Logical framebuffer dimensions.
    pub width: u32,
    pub height: u32,
    /// Physical window dimensions.
    pub window_width: u32,
    pub window_height: u32,
    /// Where the logical area sits inside the window.
    pub bounding_box: BoundingBox,
    /// Monotonically increasing tick counter exposed to the user callback.
    pub current_frame: u64,
    /// Pointer position in logical coordinates, 32.32 fixed point.
    pub mouse_x: i64,
    pub mouse_y: i64,
    pub is_mouse_in_window: bool,
    pub is_focused: bool,
    pub input: InputState,
    pub will_exit: bool,
}

/// Fields untouched by an input-only event.
pub open spec fn same_except_input(a: EngineCore, b: EngineCore) -> bool {
    &&& a.width == b.width
    &&& a.height == b.height
    &&& a.window_width == b.window_width
    &&& a.window_height == b.window_height
    &&& a.bounding_box == b.bounding_box
    &&& a.current_frame == b.current_frame
    &&& a.mouse_x == b.mouse_x
    &&& a.mouse_y == b.mouse_y
    &&& a.is_mouse_in_window == b.is_mouse_in_window
    &&& a.is_focused == b.is_focused
    &&& a.will_exit == b.will_exit
}

/// The pointer coordinate handed to the mapper: clamped into the accepted
/// dimension range.
pub open spec fn clamp_pos(x: u32) -> u32 {
    if x > DIM_LIMIT {
        DIM_LIMIT
    } else {
        x
    }
}

impl EngineCore {
    pub open spec fn wf(self) -> bool {
        &&& dim_ok(self.width)
        &&& dim_ok(self.height)
        &&& dim_ok(self.window_width)
        &&& dim_ok(self.window_height)
        &&& self.bounding_box.wf()
        &&& -POINTER_LIMIT <= self.mouse_x <= POINTER_LIMIT
        &&& -POINTER_LIMIT <= self.mouse_y <= POINTER_LIMIT
        &&& self.input.wf()
    }

    pub fn new(
        width: u32,
        height: u32,
        window_width: u32,
        window_height: u32,
        bounding_box: BoundingBox,
    ) -> (r: Self)
        requires
            dim_ok(width),
            dim_ok(height),
            dim_ok(window_width),
            dim_ok(window_height),
            bounding_box.wf(),
        ensures
            r.wf(),
            r.width == width,
            r.height == height,
            r.window_width == window_width,
            r.window_height == window_height,
            r.bounding_box == bounding_box,
            r.current_frame == 0,
            r.mouse_x == 0 && r.mouse_y == 0,
            !r.is_mouse_in_window,
            !r.is_focused,
            r.input@ == Map::<InputId, PressedState>::empty(),
            !r.will_exit,
    {
        Self {
            width,
            height,
            window_width,
            window_height,
            bounding_box,
            current_frame: 0,
            mouse_x: 0,
            mouse_y: 0,
            is_mouse_in_window: false,
            is_focused: false,
            input: InputState::new(),
            will_exit: false,
        }
    }

    /// Fold one window event into the state: button and key edges go to the
    /// input tracker, pointer motion is mapped through the bounding box into
    /// logical coordinates, a close request raises the exit flag, and a
    /// resize installs the new dimensions and box.
    pub fn handle_event(&mut self, event: WindowEvent)
        requires
            old(self).wf(),
            event_wf(event),
            old(self).input.entries@.len() < usize::MAX,
        ensures
            final(self).wf(),
            match event {
                WindowEvent::MouseButton { button, pressed } => {
                    &&& same_except_input(*final(self), *old(self))
                    &&& final(self).input@ == old(self).input@.insert(
                        InputId::Mouse(button),
                        if pressed {
                            PressedState::JustPressed
                        } else {
                            PressedState::JustReleased
                        },
                    )
                },
                WindowEvent::Key { key, pressed } => {
                    &&& same_except_input(*final(self), *old(self))
                    &&& final(self).input@ == old(self).input@.insert(
                        InputId::Key(key),
                        if pressed {
                            PressedState::JustPressed
                        } else {
                            PressedState::JustReleased
                        },
                    )
                },
                WindowEvent::MouseEnter { entered } => *final(self) == (EngineCore {
                    is_mouse_in_window: entered,
                    ..*old(self)
                }),
                WindowEvent::MousePos { x, y } => *final(self) == (EngineCore {
                    mouse_x: spec_map_axis(
                        old(self).bounding_box.num_x as int,
                        old(self).bounding_box.den_x as int,
                        old(self).window_width as int,
                        old(self).width as int,
                        clamp_pos(x) as int,
                    ) as i64,
                    mouse_y: spec_map_axis(
                        old(self).bounding_box.num_y as int,
                        old(self).bounding_box.den_y as int,
                        old(self).window_height as int,
                        old(self).height as int,
                        clamp_pos(y) as int,
                    ) as i64,
                    ..*old(self)
                }),
                WindowEvent::FocusChanged { focused } => *final(self) == (EngineCore {
                    is_focused: focused,
                    ..*old(self)
                }),
                WindowEvent::WindowClose => *final(self) == (EngineCore {
                    will_exit: true,
                    ..*old(self)
                }),
                WindowEvent::WindowResize {
                    width,
                    height,
                    window_width,
                    window_height,
                    new_bounding_box,
                } => *final(self) == (EngineCore {
                    width,
                    height,
                    window_width,
                    window_height,
                    bounding_box: new_bounding_box,
                    ..*old(self)
                }),
            },
    {
        match event {
            WindowEvent::MouseButton { button, pressed } => {
                if pressed {
                    self.input.press(InputId::Mouse(button));
                } else {
                    self.input.release(InputId::Mouse(button));
                }
            },
            WindowEvent::Key { key, pressed } => {
                if pressed {
                    self.input.press(InputId::Key(key));
                } else {
                    self.input.release(InputId::Key(key));
                }
            },
            WindowEvent::MouseEnter { entered } => {
                self.is_mouse_in_window = entered;
            },
            WindowEvent::MousePos { x, y } => {
                let px: u32 = if x > DIM_LIMIT {
                    DIM_LIMIT
                } else {
                    x
                };
                let py: u32 = if y > DIM_LIMIT {
                    DIM_LIMIT
                } else {
                    y
                };
                self.mouse_x = crate::mapper::map_axis(
                    self.bounding_box.num_x,
                    self.bounding_box.den_x,
                    self.window_width,
                    self.width,
                    px,
                );
                self.mouse_y = crate::mapper::map_axis(
                    self.bounding_box.num_y,
                    self.bounding_box.den_y,
                    self.window_height,
                    self.height,
                    py,
                );
            },
            WindowEvent::FocusChanged { focused } => {
                self.is_focused = focused;
            },
            WindowEvent::WindowClose => {
                self.will_exit = true;
            },
            WindowEvent::WindowResize {
                width,
                height,
                window_width,
                window_height,
                new_bounding_box,
            } => {
                self.width = width;
                self.height = height;
                self.window_width = window_width;
                self.window_height = window_height;
                self.bounding_box = new_bounding_box;
            },
        }
    }

    /// The read-only snapshot one simulation tick runs against.
    pub fn make_context(&self) -> (ctx: Context)
        requires
            self.wf(),
        ensures
            ctx.wf(),
            ctx.width == self.width,
            ctx.height == self.height,
            ctx.current_frame == self.current_frame,
            ctx.mouse_x == self.mouse_x,
            ctx.mouse_y == self.mouse_y,
            ctx.is_mouse_in_window == self.is_mouse_in_window,
            ctx.input@ == self.input@,
            ctx.will_exit == self.will_exit,
    {
        Context {
            width: self.width,
            height: self.height,
            current_frame: self.current_frame,
            mouse_x: self.mouse_x,
            mouse_y: self.mouse_y,
            is_mouse_in_window: self.is_mouse_in_window,
            input: self.input.duplicate(),
            will_exit: self.will_exit,
        }
    }

    /// End-of-tick housekeeping, run exactly once after the user callback
    /// returns: the tick counter advances, the input state decays, and the
    /// callback's exit request is taken over. Returns whether the loop goes
    /// on.
    pub fn end_tick(&mut self, ctx_will_exit: bool) -> (continue_running: bool)
        requires
            old(self).wf(),
            old(self).current_frame < u64::MAX,
        ensures
            final(self).wf(),
            final(self).input@ == decay_map(old(self).input@),
            final(self).current_frame == old(self).current_frame + 1,
            final(self).will_exit == ctx_will_exit,
            final(self).width == old(self).width,
            final(self).height == old(self).height,
            final(self).window_width == old(self).window_width,
            final(self).window_height == old(self).window_height,
            final(self).bounding_box == old(self).bounding_box,
            final(self).mouse_x == old(self).mouse_x,
            final(self).mouse_y == old(self).mouse_y,
            final(self).is_mouse_in_window == old(self).is_mouse_in_window,
            final(self).is_focused == old(self).is_focused,
            continue_running == !ctx_will_exit,
    {
        self.current_frame = self.current_frame + 1;
        self.input.decay();
        self.will_exit = ctx_will_exit;
        !ctx_will_exit
    }
}

/// The length of the RGB pixel buffer for a logical framebuffer: three
/// bytes per pixel.
pub fn pixel_buffer_len(width: u32, height: u32) -> (r: usize)
    requires
        dim_ok(width),
        dim_ok(height),
        width * height * 3 <= usize::MAX,
    ensures
        r == width * height * 3,
{
    proof {
        assert((width as int) * (height as int) <= 0x1_0000_0000) by (nonlinear_arith)
            requires
                width <= DIM_LIMIT,
                height <= DIM_LIMIT,
        ;
    }
    (width as usize) * (height as usize) * 3
}

/// The read-only per-tick view handed to the user callback: dimensions,
/// tick index, pointer position in logical coordinates, input queries, and
/// a settable exit request that the scheduler reads after the tick.
pub struct Context {
    pub width: u32,
    pub height: u32,
    pub current_frame: u64,
    /// Pointer position in logical coordinates, 32.32 fixed point; negative
    /// or beyond the logical dimensions when the pointer is in the
    /// letterbox margin.
    pub mouse_x: i64,
    pub mouse_y: i64,
    pub is_mouse_in_window: bool,
    pub input: InputState,
    pub will_exit: bool,
}

impl Context {
    pub open spec fn wf(self) -> bool {
        &&& dim_ok(self.width)
        &&& dim_ok(self.height)
        &&& -POINTER_LIMIT <= self.mouse_x <= POINTER_LIMIT
        &&& -POINTER_LIMIT <= self.mouse_y <= POINTER_LIMIT
        &&& self.input.wf()
    }

    /// The pointer coordinates truncated toward zero to whole logical
    /// pixels.
    pub open spec fn spec_integer_mouse(self) -> (int, int) {
        (div_trunc(self.mouse_x as int, FRAC_ONE as int), div_trunc(
            self.mouse_y as int,
            FRAC_ONE as int,
        ))
    }

    pub fn will_exit(&self) -> (r: bool)
        ensures
            r == self.will_exit,
    {
        self.will_exit
    }

    /// Request that the scheduler stops after this tick's render.
    pub fn exit(&mut self)
        ensures
            *final(self) == (Context { will_exit: true, ..*old(self) }),
    {
        self.will_exit = true;
    }

    /// Withdraw a pending exit request (a close request included).
    pub fn prevent_exit(&mut self)
        ensures
            *final(self) == (Context { will_exit: false, ..*old(self) }),
    {
        self.will_exit = false;
    }

    pub fn width(&self) -> (r: u32)
        ensures
            r == self.width,
    {
        self.width
    }

    pub fn height(&self) -> (r: u32)
        ensures
            r == self.height,
    {
        self.height
    }

    pub fn current_frame(&self) -> (r: u64)
        ensures
            r == self.current_frame,
    {
        self.current_frame
    }

    pub fn dimensions(&self) -> (r: (u32, u32))
        ensures
            r == (self.width, self.height),
    {
        (self.width, self.height)
    }

    /// The pointer's logical x coordinate, 32.32 fixed point.
    pub fn mouse_x(&self) -> (r: i64)
        ensures
            r == self.mouse_x,
    {
        self.mouse_x
    }

    /// The pointer's logical y coordinate, 32.32 fixed point.
    pub fn mouse_y(&self) -> (r: i64)
        ensures
            r == self.mouse_y,
    {
        self.mouse_y
    }

    pub fn mouse_pos(&self) -> (r: (i64, i64))
        ensures
            r == (self.mouse_x, self.mouse_y),
    {
        (self.mouse_x, self.mouse_y)
    }

    /// The pointer position truncated toward zero to whole logical pixels.
    pub fn integer_mouse_pos(&self) -> (r: (i32, i32))
        requires
            self.wf(),
        ensures
            (r.0 as int, r.1 as int) == self.spec_integer_mouse(),
    {
        let ix: i128 = crate::fixed::div_trunc_i128(self.mouse_x as i128, FRAC_ONE as i128);
        let iy: i128 = crate::fixed::div_trunc_i128(self.mouse_y as i128, FRAC_ONE as i128);
        proof {
            crate::fixed::lemma_div_trunc_bound(
                self.mouse_x as int,
                FRAC_ONE as int,
                POINTER_LIMIT as int,
            );
            crate::fixed::lemma_div_trunc_bound(
                self.mouse_y as int,
                FRAC_ONE as int,
                POINTER_LIMIT as int,
            );
        }
        (ix as i32, iy as i32)
    }

    pub fn is_mouse_in_window(&self) -> (r: bool)
        ensures
            r == self.is_mouse_in_window,
    {
        self.is_mouse_in_window
    }

    /// Whether the pointer is inside the window and over the logical area
    /// (not in a letterbox margin). The test is on the fixed-point
    /// coordinates themselves, so a pointer a fraction of a pixel left of
    /// or above the area reads as outside, although it truncates to pixel
    /// zero: "outside" is reported distinctly from a valid boundary
    /// coordinate.
    pub fn is_mouse_in_game_area(&self) -> (r: bool)
        requires
            self.wf(),
        ensures
            r == (self.is_mouse_in_window && 0 <= self.mouse_x && self.mouse_x < self.width
                * FRAC_ONE && 0 <= self.mouse_y && self.mouse_y < self.height * FRAC_ONE),
    {
        if !self.is_mouse_in_window() {
            return false;
        }
        self.mouse_x >= 0 && self.mouse_x < (self.width as i64) * FRAC_ONE && self.mouse_y >= 0
            && self.mouse_y < (self.height as i64) * FRAC_ONE
    }

    pub fn is_key_pressed(&self, key_code: Key) -> (r: bool)
        requires
            self.wf(),
        ensures
            r == (self.input@.contains_key(InputId::Key(key_code)) && self.input@[InputId::Key(
                key_code,
            )] != PressedState::JustReleased),
    {
        self.input.is_pressed(InputId::Key(key_code))
    }

    pub fn is_key_just_pressed(&self, key_code: Key) -> (r: bool)
        requires
            self.wf(),
        ensures
            r == (self.input@.contains_key(InputId::Key(key_code)) && self.input@[InputId::Key(
                key_code,
            )] == PressedState::JustPressed),
    {
        self.input.is_just_pressed(InputId::Key(key_code))
    }

    pub fn is_key_just_released(&self, key_code: Key) -> (r: bool)
        requires
            self.wf(),
        ensures
            r == (self.input@.contains_key(InputId::Key(key_code)) && self.input@[InputId::Key(
                key_code,
            )] == PressedState::JustReleased),
    {
        self.input.is_just_released(InputId::Key(key_code))
    }

    pub fn is_mouse_button_pressed(&self, mouse_button: MouseButton) -> (r: bool)
        requires
            self.wf(),
        ensures
            r == (self.input@.contains_key(InputId::Mouse(mouse_button))
                && self.input@[InputId::Mouse(mouse_button)] != PressedState::JustReleased),
    {
        self.input.is_pressed(InputId::Mouse(mouse_button))
    }

    pub fn is_mouse_button_just_pressed(&self, mouse_button: MouseButton) -> (r: bool)
        requires
            self.wf(),
        ensures
            r == (self.input@.contains_key(InputId::Mouse(mouse_button))
                && self.input@[InputId::Mouse(mouse_button)] == PressedState::JustPressed),
    {
        self.input.is_just_pressed(InputId::Mouse(mouse_button))
    }

    pub fn is_mouse_button_just_released(&self, mouse_button: MouseButton) -> (r: bool)
        requires
            self.wf(),
        ensures
            r == (self.input@.contains_key(InputId::Mouse(mouse_button))
                && self.input@[InputId::Mouse(mouse_button)] == PressedState::JustReleased),
    {
        self.input.is_just_released(InputId::Mouse(mouse_button))
    }
}

} // verus!
