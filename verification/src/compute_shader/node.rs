//! The render graph node of a compute shader.

use vstd::prelude::*;
use crate::compute_shader::queue::ComputeShaderInfo;
use crate::compute_shader::{TEXTURE_BIND_GROUP, USER_BIND_GROUP};

verus! {

/// Whether the render node still waits for its pipeline.
#[derive(Clone, Copy, Debug, PartialEq, Eq, Structural)]
pub enum State {
    /// The pipeline has not compiled yet
    Loading,
    /// The pipeline is ready: the node dispatches
    Update,
}

/// A command recorded into the compute pass of a frame.
#[derive(Clone, Copy, Debug, PartialEq, Eq, Structural)]
pub enum PassCommand {
    /// Bind a bind group at an index
    SetBindGroup {
        /// Index of the bind group in the pipeline layout
        index: u32,
        /// The bind group
        bind_group: u64,
    },
    /// Bind the compute pipeline
    SetPipeline,
    /// Dispatch workgroups
    DispatchWorkgroups {
        /// Number of workgroups in X
        x: u32,
        /// Number of workgroups in Y
        y: u32,
        /// Number of workgroups in Z
        z: u32,
    },
}

/// The render graph node of a compute shader.
#[derive(Clone, Copy, Debug, PartialEq, Eq, Structural)]
pub struct ComputeShaderNode {
    /// Whether the node still waits for its pipeline
    pub state: State,
}

impl Default for ComputeShaderNode {
    fn default() -> (node: ComputeShaderNode)
        ensures
            node.state == State::Loading,
    {
        ComputeShaderNode { state: State::Loading }
    }
}

/// The commands of one dispatch: both bind groups are bound; the pipeline
/// is bound and the workgroups are dispatched with a depth of one only
/// where the pipeline could be had.
pub open spec fn commands_of(shader: ComputeShaderInfo, pipeline_available: bool) -> Seq<
    PassCommand,
> {
    let bind = seq![
        PassCommand::SetBindGroup {
            index: TEXTURE_BIND_GROUP,
            bind_group: shader.texture_bind_group,
        },
        PassCommand::SetBindGroup { index: USER_BIND_GROUP, bind_group: shader.user_bind_group },
    ];
    if pipeline_available {
        bind + seq![
            PassCommand::SetPipeline,
            PassCommand::DispatchWorkgroups {
                x: shader.workgroups.x,
                y: shader.workgroups.y,
                z: 1,
            },
        ]
    } else {
        bind
    }
}

/// The commands of a whole queue, dispatch after dispatch.
pub open spec fn pass_commands(queue: Seq<ComputeShaderInfo>, pipeline_available: bool) -> Seq<
    PassCommand,
>
    decreases queue.len(),
{
    if queue.len() == 0 {
        Seq::empty()
    } else {
        pass_commands(queue.drop_last(), pipeline_available) + commands_of(
            queue.last(),
            pipeline_available,
        )
    }
}

impl ComputeShaderNode {
    /// Looks at the pipeline once per frame: a node that is loading starts
    /// to dispatch when the pipeline has compiled, and never goes back.
    pub fn update(&mut self, pipeline_compiled: bool)
        ensures
            final(self).state == (if old(self).state == State::Loading && !pipeline_compiled {
                State::Loading
            } else {
                State::Update
            }),
    {
        match self.state {
            State::Loading => {
                if pipeline_compiled {
                    self.state = State::Update;
                }
            },
            State::Update => {},
        }
    }

    /// The compute pass of a frame. A node that is loading does no GPU
    /// work: there is no pass. Otherwise the pass holds the commands of
    /// every queued dispatch, in the order of the queue. A dispatch for
    /// which the pipeline cannot be had is skipped after its bind groups
    /// were bound.
    pub fn run(&self, shader_queue: &[ComputeShaderInfo], pipeline_available: bool) -> (pass:
        Option<Vec<PassCommand>>)
        ensures
            match pass {
                None => self.state == State::Loading,
                Some(commands) => self.state == State::Update && commands@ == pass_commands(
                    shader_queue@,
                    pipeline_available,
                ),
            },
    {
        if self.state == State::Loading {
            return None;
        }
        let mut pass: Vec<PassCommand> = Vec::new();
        let mut i: usize = 0;
        while i < shader_queue.len()
            invariant
                i <= shader_queue@.len(),
                pass@ == pass_commands(shader_queue@.take(i as int), pipeline_available),
            decreases shader_queue@.len() - i,
        {
            let shader = shader_queue[i];
            assert(shader_queue@.take(i + 1).drop_last() =~= shader_queue@.take(i as int));
            // index 0 is texture
            pass.push(
                PassCommand::SetBindGroup {
                    index: TEXTURE_BIND_GROUP,
                    bind_group: shader.texture_bind_group,
                },
            );
            // index 1 is user bind group
            pass.push(
                PassCommand::SetBindGroup {
                    index: USER_BIND_GROUP,
                    bind_group: shader.user_bind_group,
                },
            );
            if pipeline_available {
                pass.push(PassCommand::SetPipeline);
                pass.push(
                    PassCommand::DispatchWorkgroups {
                        x: shader.workgroups.x,
                        y: shader.workgroups.y,
                        z: 1,
                    },
                );
            }
            assert(pass@ =~= pass_commands(shader_queue@.take(i as int), pipeline_available)
                + commands_of(shader, pipeline_available));
            i += 1;
        }
        assert(shader_queue@.take(shader_queue@.len() as int) =~= shader_queue@);
        Some(pass)
    }
}

} // verus!
