//! A whole session: what any sequence of inputs does to a working engine
//! and, through its commands, to the backend.

use vstd::prelude::*;
use crate::color::Rgba;
use crate::command::Command;
use crate::engine::EngineState;
use crate::gpu::Gpu;
use crate::gpu::Stroke;
use crate::gpu::lemma_run_join;
use crate::gpu::lemma_run_nothing;
use crate::pass::lemma_composite_shows;
use crate::pass::lemma_resize_sets_viewport;
use crate::pass::lemma_stroke_paints;
use crate::pointer_state::PointerEvent;

verus! {

/// What the host can feed a live engine.
pub enum Input {
    /// An event of the pointer, which is at the pixel `(x, y)`.
    Pointer { event: PointerEvent, x: i32, y: i32 },
    /// A new layout size of the surface.
    Resize { client_width: u32, client_height: u32 },
    /// A change of the brush to a color that is accepted.
    Color { color: Rgba },
}

impl EngineState {
    /// Whether the input paints a stroke in this state.
    pub open spec fn painting(self, input: Input) -> bool {
        input matches Input::Pointer { event, x, y } && event.paints(self.pressed)
    }

    /// This state after the input.
    pub open spec fn after(self, input: Input) -> EngineState {
        match input {
            Input::Pointer { event, x, y } => EngineState {
                pressed: event.leaves_pressed(self.pressed),
                ..self
            },
            Input::Resize { client_width, client_height } => self.resized(
                client_width,
                client_height,
            ),
            Input::Color { color } => EngineState { color, ..self },
        }
    }

    /// The commands that the input asks for in this state: stroke pass
    /// and composite pass for a pointer event that paints, the resize
    /// commands for a resize, none otherwise.
    pub open spec fn asks(self, input: Input) -> Seq<Command> {
        match input {
            Input::Pointer { event, x, y } => if event.paints(self.pressed) {
                self.stroke_at(x, y) + self.composite()
            } else {
                Seq::empty()
            },
            Input::Resize { client_width, client_height } => self.resize_plan(
                client_width,
                client_height,
            ),
            Input::Color { color } => Seq::empty(),
        }
    }

    /// The strokes that the input paints in this state: one or none.
    pub open spec fn adds(self, input: Input) -> Seq<Stroke> {
        match input {
            Input::Pointer { event, x, y } => if event.paints(self.pressed) {
                Seq::empty().push(self.stroke_for(x, y))
            } else {
                Seq::empty()
            },
            _ => Seq::empty(),
        }
    }

    /// This state after a sequence of inputs.
    pub open spec fn after_all(self, inputs: Seq<Input>) -> EngineState
        decreases inputs.len(),
    {
        if inputs.len() == 0 {
            self
        } else {
            self.after_all(inputs.drop_last()).after(inputs.last())
        }
    }

    /// All the commands that a sequence of inputs asks for, in order.
    pub open spec fn asks_all(self, inputs: Seq<Input>) -> Seq<Command>
        decreases inputs.len(),
    {
        if inputs.len() == 0 {
            Seq::empty()
        } else {
            self.asks_all(inputs.drop_last()) + self.after_all(inputs.drop_last()).asks(
                inputs.last(),
            )
        }
    }

    /// All the strokes that a sequence of inputs paints, in order.
    pub open spec fn adds_all(self, inputs: Seq<Input>) -> Seq<Stroke>
        decreases inputs.len(),
    {
        if inputs.len() == 0 {
            Seq::empty()
        } else {
            self.adds_all(inputs.drop_last()) + self.after_all(inputs.drop_last()).adds(
                inputs.last(),
            )
        }
    }
}

/// No input tears an engine down.
pub proof fn lemma_inputs_keep_alive(state: EngineState, inputs: Seq<Input>)
    requires
        state.is_live(),
    ensures
        state.after_all(inputs).is_live(),
        state.after_all(inputs).canvas == state.canvas,
    decreases inputs.len(),
{
    if inputs.len() > 0 {
        lemma_inputs_keep_alive(state, inputs.drop_last());
    }
}

/// What one input does to a working engine's backend: it stays ready for
/// the next operation, the canvas target gains exactly the stroke that
/// the input paints, if any, and after an input that paints the surface
/// shows exactly what the canvas target holds.
pub proof fn lemma_input_keeps_ready(state: EngineState, gpu: Gpu, input: Input)
    requires
        state.is_live(),
        gpu.ready(),
    ensures
        gpu.run(state.asks(input)).ready(),
        gpu.run(state.asks(input)).canvas.background == gpu.canvas.background,
        gpu.run(state.asks(input)).canvas.strokes == gpu.canvas.strokes + state.adds(input),
        state.painting(input) ==> gpu.run(state.asks(input)).screen == gpu.run(
            state.asks(input),
        ).canvas,
{
    match input {
        Input::Pointer { event, x, y } => {
            if event.paints(state.pressed) {
                let stroke = state.stroke_for(x, y);
                lemma_run_join(gpu, state.stroke_at(x, y), state.composite());
                lemma_stroke_paints(
                    gpu,
                    stroke.center,
                    stroke.edge,
                    stroke.color,
                    state.width as i32,
                    state.height as i32,
                );
                lemma_composite_shows(
                    gpu.run(state.stroke_at(x, y)),
                    state.width as i32,
                    state.height as i32,
                );
                assert(gpu.canvas.strokes.push(stroke) =~= gpu.canvas.strokes + state.adds(input));
            } else {
                lemma_run_nothing(gpu);
                assert(gpu.canvas.strokes =~= gpu.canvas.strokes + state.adds(input));
            }
        },
        Input::Resize { client_width, client_height } => {
            lemma_resize_sets_viewport(gpu, state.width, state.height, client_width, client_height);
            assert(gpu.canvas.strokes =~= gpu.canvas.strokes + state.adds(input));
        },
        Input::Color { color } => {
            lemma_run_nothing(gpu);
            assert(gpu.canvas.strokes =~= gpu.canvas.strokes + state.adds(input));
        },
    }
}

/// What a whole session does to a working engine's backend, when every
/// pass goes through. Whatever the inputs, the backend ends up ready for
/// the next operation, and the canvas target has gained exactly the
/// strokes of the inputs that paint, in their order: one for each down
/// and for each move of the pressed pointer, none for anything else. If
/// the last input paints, the surface shows all of it.
pub proof fn lemma_session_paints_in_order(state: EngineState, gpu: Gpu, inputs: Seq<Input>)
    requires
        state.is_live(),
        gpu.ready(),
    ensures
        gpu.run(state.asks_all(inputs)).ready(),
        gpu.run(state.asks_all(inputs)).canvas.background == gpu.canvas.background,
        gpu.run(state.asks_all(inputs)).canvas.strokes == gpu.canvas.strokes + state.adds_all(
            inputs,
        ),
        inputs.len() > 0 && state.after_all(inputs.drop_last()).painting(inputs.last()) ==> gpu.run(
            state.asks_all(inputs),
        ).screen == gpu.run(state.asks_all(inputs)).canvas,
    decreases inputs.len(),
{
    if inputs.len() == 0 {
        lemma_run_nothing(gpu);
        assert(gpu.canvas.strokes =~= gpu.canvas.strokes + state.adds_all(inputs));
    } else {
        let earlier = inputs.drop_last();
        let before = state.after_all(earlier);
        let midway = gpu.run(state.asks_all(earlier));
        lemma_session_paints_in_order(state, gpu, earlier);
        lemma_inputs_keep_alive(state, earlier);
        lemma_run_join(gpu, state.asks_all(earlier), before.asks(inputs.last()));
        lemma_input_keeps_ready(before, midway, inputs.last());
        assert(gpu.canvas.strokes + state.adds_all(earlier) + before.adds(inputs.last())
            =~= gpu.canvas.strokes + state.adds_all(inputs));
    }
}

/// The number of strokes on the canvas target counts the inputs that
/// paint.
pub proof fn lemma_one_stroke_per_painting_input(state: EngineState, inputs: Seq<Input>)
    ensures
        state.adds_all(inputs).len() == Set::new(
            |i: int| 0 <= i < inputs.len() && state.after_all(inputs.take(i)).painting(inputs[i]),
        ).len(),
        Set::new(
            |i: int| 0 <= i < inputs.len() && state.after_all(inputs.take(i)).painting(inputs[i]),
        ).finite(),
    decreases inputs.len(),
{
    let all = Set::new(
        |i: int| 0 <= i < inputs.len() && state.after_all(inputs.take(i)).painting(inputs[i]),
    );
    if inputs.len() == 0 {
        assert(all =~= Set::empty());
    } else {
        let earlier = inputs.drop_last();
        let fewer = Set::new(
            |i: int|
                0 <= i < earlier.len() && state.after_all(earlier.take(i)).painting(earlier[i]),
        );
        lemma_one_stroke_per_painting_input(state, earlier);
        let n = inputs.len() - 1;
        assert(inputs.take(n) =~= earlier);
        assert forall|i: int| 0 <= i < earlier.len() implies earlier.take(i) == inputs.take(i) by {
            assert(earlier.take(i) =~= inputs.take(i));
        }
        if state.after_all(earlier).painting(inputs.last()) {
            assert(all =~= fewer.insert(n));
        } else {
            assert(all =~= fewer);
        }
    }
}

} // verus!
