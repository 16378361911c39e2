//! Cleaning up after a command that failed.
//!
//! The host runs a list of commands in order and stops at the first one
//! that fails. [`recover`] works out, from the commands that
//! did run, what is needed to leave the backend as tidy as it was found:
//! nothing bound, no vertex attribute array switched on, and none of the
//! objects left behind that those commands created.

use vstd::prelude::*;
use crate::command::Command;
use crate::command::Resource;
use crate::gpu::Gpu;
use crate::gpu::lemma_run_join;
use crate::gpu::lemma_run_nothing;
use crate::gpu::lemma_run_push;

verus! {

/// After these commands, the object `resource` is one that they created
/// and have not deleted again.
pub open spec fn held(commands: Seq<Command>, resource: Resource) -> bool
    decreases commands.len(),
{
    if commands.len() == 0 {
        false
    } else if commands.last().created() == Some(resource) {
        true
    } else if commands.last().deleted() == Some(resource) {
        false
    } else {
        held(commands.drop_last(), resource)
    }
}

/// The commands neither create nor delete the object `resource`.
pub open spec fn untouched(commands: Seq<Command>, resource: Resource) -> bool {
    forall|i: int|
        0 <= i < commands.len() ==> (#[trigger] commands[i]).created() != Some(resource)
            && commands[i].deleted() != Some(resource)
}

/// The vertex attribute arrays that these commands switch on.
pub open spec fn enabled_by(commands: Seq<Command>) -> Set<u32>
    decreases commands.len(),
{
    if commands.len() == 0 {
        Set::empty()
    } else {
        match commands.last().enabled() {
            Some(index) => enabled_by(commands.drop_last()).insert(index),
            None => enabled_by(commands.drop_last()),
        }
    }
}

/// The commands that unbind everything: framebuffer, texture, vertex
/// buffer and program.
pub open spec fn unbinding() -> Seq<Command> {
    Seq::empty()
        .push(Command::BindFramebuffer { framebuffer: None })
        .push(Command::BindTexture { texture: None })
        .push(Command::BindBuffer { buffer: None })
        .push(Command::UseProgram { program: None })
}

/// One command that switches a vertex attribute array off for each of
/// `commands` that switches one on, in the same order.
pub open spec fn disabling(commands: Seq<Command>) -> Seq<Command>
    decreases commands.len(),
{
    if commands.len() == 0 {
        Seq::empty()
    } else {
        match commands.last().enabled() {
            Some(index) => disabling(commands.drop_last()).push(
                Command::DisableVertexAttribArray { index },
            ),
            None => disabling(commands.drop_last()),
        }
    }
}

/// The command that deletes `resource`, if `commands` leave it held, and
/// nothing otherwise.
pub open spec fn releasing_one(commands: Seq<Command>, resource: Resource) -> Seq<Command> {
    if held(commands, resource) {
        Seq::empty().push(resource.deletion())
    } else {
        Seq::empty()
    }
}

/// The commands that tidy up after `commands`: unbind everything, switch
/// off the vertex attribute arrays that were switched on, then delete what
/// was created and is still there: the vertex buffer, the shaders, the
/// programs, the canvas framebuffer and its texture.
pub open spec fn recovery(commands: Seq<Command>) -> Seq<Command> {
    unbinding() + disabling(commands) + releasing_one(commands, Resource::VertexBuffer)
        + releasing_one(commands, Resource::VertexShader) + releasing_one(
        commands,
        Resource::FragmentShader,
    ) + releasing_one(commands, Resource::StrokeProgram) + releasing_one(
        commands,
        Resource::CompositeProgram,
    ) + releasing_one(commands, Resource::CanvasFramebuffer) + releasing_one(
        commands,
        Resource::CanvasTexture,
    )
}

/// `after` is a backend tidied up from what `before` was before the
/// commands `done` ran on it: nothing has gone wrong, nothing is bound, no
/// attribute array is on that was not on before, no object exists that
/// did not exist before, and every object that was there before and that
/// `done` does not touch is still there.
pub open spec fn tidied(before: Gpu, done: Seq<Command>, after: Gpu) -> bool {
    &&& !after.fault
    &&& after.unbound()
    &&& after.attributes.subset_of(before.attributes)
    &&& after.live.subset_of(before.live)
    &&& forall|resource: Resource|
        before.live.contains(resource) && untouched(done, resource)
            ==> #[trigger] after.live.contains(resource)
}

/// Wherever the commands `done` ran without fault, running `cleanup`
/// after them tidies the backend up and leaves what the canvas target
/// holds and what the surface shows as `done` left it.
pub open spec fn tidies(done: Seq<Command>, cleanup: Seq<Command>) -> bool {
    forall|gpu: Gpu|
        !(#[trigger] gpu.run(done)).fault ==> {
            &&& tidied(gpu, done, gpu.run(done + cleanup))
            &&& gpu.run(done + cleanup).canvas == gpu.run(done).canvas
            &&& gpu.run(done + cleanup).screen == gpu.run(done).screen
        }
}

/// The first `done` of the commands, or all of them if there are fewer.
pub open spec fn carried_out(commands: Seq<Command>, done: usize) -> Seq<Command> {
    if done <= commands.len() {
        commands.take(done as int)
    } else {
        commands
    }
}

proof fn lemma_take_next(commands: Seq<Command>, i: int)
    requires
        0 <= i < commands.len(),
    ensures
        commands.take(i + 1) == commands.take(i).push(commands[i]),
        commands.take(i + 1).drop_last() == commands.take(i),
        commands.take(i + 1).last() == commands[i],
{
    assert(commands.take(i + 1) =~= commands.take(i).push(commands[i]));
    assert(commands.take(i + 1).drop_last() =~= commands.take(i));
}

/// Whether the first `done` of the commands leave `resource` held.
fn holds(plan: &Vec<Command>, done: usize, resource: Resource) -> (answer: bool)
    requires
        done <= plan@.len(),
    ensures
        answer == held(plan@.take(done as int), resource),
{
    let mut answer = false;
    let mut i: usize = 0;
    while i < done
        invariant
            0 <= i <= done <= plan@.len(),
            answer == held(plan@.take(i as int), resource),
        decreases done - i,
    {
        proof {
            lemma_take_next(plan@, i as int);
        }
        let command = plan[i];
        match command.creates() {
            Some(made) => {
                if made == resource {
                    answer = true;
                }
            },
            None => {},
        }
        match command.deletes() {
            Some(gone) => {
                if gone == resource {
                    answer = false;
                }
            },
            None => {},
        }
        i += 1;
    }
    answer
}

/// Adds to `out` the deletion of `resource`, if the first `done` of the
/// commands leave it held.
fn release(plan: &Vec<Command>, done: usize, resource: Resource, out: &mut Vec<Command>)
    requires
        done <= plan@.len(),
    ensures
        final(out)@ == old(out)@ + releasing_one(plan@.take(done as int), resource),
{
    if holds(plan, done, resource) {
        out.push(resource.delete());
        assert(out@ =~= old(out)@ + releasing_one(plan@.take(done as int), resource));
    } else {
        assert(out@ =~= old(out)@ + releasing_one(plan@.take(done as int), resource));
    }
}

/// The commands that tidy up after the first `done` commands of `plan`,
/// for a host that has carried those out and saw the next one fail.
///
/// They unbind framebuffer, texture, vertex buffer and program, switch off
/// each vertex attribute array that was switched on, and delete each
/// object that was created and not deleted since.
pub fn recover(plan: &Vec<Command>, done: usize) -> (commands: Vec<Command>)
    ensures
        commands@ == recovery(carried_out(plan@, done)),
        tidies(carried_out(plan@, done), commands@),
{
    proof {
        lemma_recovery_always_tidies(carried_out(plan@, done));
    }
    let count = if done <= plan.len() {
        done
    } else {
        plan.len()
    };
    assert(plan@.take(count as int) =~= carried_out(plan@, done));
    let mut commands = Vec::new();
    commands.push(Command::BindFramebuffer { framebuffer: None });
    commands.push(Command::BindTexture { texture: None });
    commands.push(Command::BindBuffer { buffer: None });
    commands.push(Command::UseProgram { program: None });
    assert(commands@ =~= unbinding() + disabling(plan@.take(0)));
    let mut i: usize = 0;
    while i < count
        invariant
            0 <= i <= count <= plan@.len(),
            commands@ == unbinding() + disabling(plan@.take(i as int)),
        decreases count - i,
    {
        proof {
            lemma_take_next(plan@, i as int);
        }
        match plan[i].enables() {
            Some(index) => {
                commands.push(Command::DisableVertexAttribArray { index });
                assert(commands@ =~= unbinding() + disabling(plan@.take(i + 1)));
            },
            None => {},
        }
        i += 1;
    }
    release(plan, count, Resource::VertexBuffer, &mut commands);
    release(plan, count, Resource::VertexShader, &mut commands);
    release(plan, count, Resource::FragmentShader, &mut commands);
    release(plan, count, Resource::StrokeProgram, &mut commands);
    release(plan, count, Resource::CompositeProgram, &mut commands);
    release(plan, count, Resource::CanvasFramebuffer, &mut commands);
    release(plan, count, Resource::CanvasTexture, &mut commands);
    commands
}

/// What one command that ran without fault does to the objects that
/// exist and to the vertex attribute arrays: only a creating command adds
/// an object, and only one that was not there; only a deleting command
/// removes one, and only one that was there; only an enabling command
/// switches an array on.
pub proof fn lemma_step_accounts(gpu: Gpu, command: Command)
    requires
        !gpu.step(command).fault,
    ensures
        !gpu.fault,
        command.created() matches Some(r) ==> !gpu.live.contains(r) && gpu.step(command).live
            == gpu.live.insert(r),
        command.deleted() matches Some(r) ==> gpu.live.contains(r) && gpu.step(command).live
            == gpu.live.remove(r),
        command.created() is None && command.deleted() is None ==> gpu.step(command).live
            == gpu.live,
        forall|index: u32| #[trigger]
            gpu.step(command).attributes.contains(index) ==> gpu.attributes.contains(index)
                || command.enabled() == Some(index),
{
}

/// Across commands that ran without fault, the objects that exist
/// afterwards are those that the commands hold and those that were there
/// before and that the commands have not since deleted; an object that
/// was there before and that the commands do not touch is still there,
/// and not held.
pub proof fn lemma_run_accounts(gpu: Gpu, commands: Seq<Command>, resource: Resource)
    requires
        !gpu.run(commands).fault,
    ensures
        held(commands, resource) ==> gpu.run(commands).live.contains(resource),
        gpu.run(commands).live.contains(resource) && !held(commands, resource)
            ==> gpu.live.contains(resource),
        gpu.live.contains(resource) && untouched(commands, resource) ==> gpu.run(
            commands,
        ).live.contains(resource) && !held(commands, resource),
    decreases commands.len(),
{
    if commands.len() > 0 {
        let before = gpu.run(commands.drop_last());
        lemma_step_accounts(before, commands.last());
        lemma_run_accounts(gpu, commands.drop_last(), resource);
        if untouched(commands, resource) {
            assert(commands[commands.len() - 1].created() != Some(resource));
            assert(forall|i: int|
                0 <= i < commands.drop_last().len() ==> #[trigger] commands.drop_last()[i]
                    == commands[i]);
            assert(untouched(commands.drop_last(), resource));
        }
    }
}

/// The vertex attribute arrays that are on after some commands were on
/// before or were switched on by them.
pub proof fn lemma_run_enables(gpu: Gpu, commands: Seq<Command>)
    requires
        !gpu.run(commands).fault,
    ensures
        gpu.run(commands).attributes.subset_of(gpu.attributes.union(enabled_by(commands))),
    decreases commands.len(),
{
    if commands.len() > 0 {
        let before = gpu.run(commands.drop_last());
        lemma_step_accounts(before, commands.last());
        lemma_run_enables(gpu, commands.drop_last());
    }
}

/// Running the commands that undo the enabling in `commands` switches off
/// exactly the arrays that `commands` switch on, and changes nothing
/// else.
pub proof fn lemma_disabling_runs(gpu: Gpu, commands: Seq<Command>)
    ensures
        gpu.run(disabling(commands)) == (Gpu {
            attributes: gpu.attributes.difference(enabled_by(commands)),
            ..gpu
        }),
    decreases commands.len(),
{
    broadcast use lemma_run_nothing, lemma_run_push;

    if commands.len() == 0 {
        assert(gpu.attributes.difference(enabled_by(commands)) =~= gpu.attributes);
    } else {
        lemma_disabling_runs(gpu, commands.drop_last());
        let rest = enabled_by(commands.drop_last());
        match commands.last().enabled() {
            Some(index) => {
                assert(gpu.attributes.difference(rest).remove(index)
                    =~= gpu.attributes.difference(rest.insert(index)));
            },
            None => {},
        }
    }
}

/// Releasing one object in a state where nothing is bound deletes it if
/// it is held, without fault, and leaves alone every other object, the
/// bind points, the attribute arrays and both pictures.
pub proof fn lemma_releasing_one_runs(gpu: Gpu, commands: Seq<Command>, resource: Resource)
    requires
        !gpu.fault,
        gpu.unbound(),
        held(commands, resource) ==> gpu.live.contains(resource),
    ensures
        !gpu.run(releasing_one(commands, resource)).fault,
        gpu.run(releasing_one(commands, resource)).unbound(),
        gpu.run(releasing_one(commands, resource)).attributes == gpu.attributes,
        gpu.run(releasing_one(commands, resource)).canvas == gpu.canvas,
        gpu.run(releasing_one(commands, resource)).screen == gpu.screen,
        gpu.run(releasing_one(commands, resource)).live == if held(commands, resource) {
            gpu.live.remove(resource)
        } else {
            gpu.live
        },
{
    broadcast use lemma_run_nothing, lemma_run_push;

}

/// Unbinding everything changes the four bind points and nothing else.
pub proof fn lemma_unbinding_runs(gpu: Gpu)
    ensures
        gpu.run(unbinding()) == (Gpu {
            framebuffer: None,
            texture: None,
            buffer: None,
            program: None,
            ..gpu
        }),
{
    broadcast use lemma_run_nothing, lemma_run_push;

}

/// Running a recovery is running its parts one after the other.
proof fn lemma_recovery_splits(gpu: Gpu, commands: Seq<Command>)
    ensures
        gpu.run(recovery(commands)) == gpu.run(unbinding()).run(disabling(commands)).run(
            releasing_one(commands, Resource::VertexBuffer),
        ).run(releasing_one(commands, Resource::VertexShader)).run(
            releasing_one(commands, Resource::FragmentShader),
        ).run(releasing_one(commands, Resource::StrokeProgram)).run(
            releasing_one(commands, Resource::CompositeProgram),
        ).run(releasing_one(commands, Resource::CanvasFramebuffer)).run(
            releasing_one(commands, Resource::CanvasTexture),
        ),
{
    let u = unbinding();
    let d = disabling(commands);
    let r1 = releasing_one(commands, Resource::VertexBuffer);
    let r2 = releasing_one(commands, Resource::VertexShader);
    let r3 = releasing_one(commands, Resource::FragmentShader);
    let r4 = releasing_one(commands, Resource::StrokeProgram);
    let r5 = releasing_one(commands, Resource::CompositeProgram);
    let r6 = releasing_one(commands, Resource::CanvasFramebuffer);
    let r7 = releasing_one(commands, Resource::CanvasTexture);
    lemma_run_join(gpu, u + d + r1 + r2 + r3 + r4 + r5 + r6, r7);
    lemma_run_join(gpu, u + d + r1 + r2 + r3 + r4 + r5, r6);
    lemma_run_join(gpu, u + d + r1 + r2 + r3 + r4, r5);
    lemma_run_join(gpu, u + d + r1 + r2 + r3, r4);
    lemma_run_join(gpu, u + d + r1 + r2, r3);
    lemma_run_join(gpu, u + d + r1, r2);
    lemma_run_join(gpu, u + d, r1);
    lemma_run_join(gpu, u, d);
}

/// Recovery does what it is for. Where the host has carried out
/// `commands` without fault, running the recovery for them leaves no
/// fault, nothing bound, no attribute array on that was not on before,
/// and no object that was not there before; every object that was there
/// before and that the commands did not touch is still there; and what
/// the canvas target holds and the surface shows is as the commands left
/// it.
#[verifier::rlimit(40)]
pub proof fn lemma_recovery_tidies(gpu: Gpu, commands: Seq<Command>)
    requires
        !gpu.run(commands).fault,
    ensures
        ({
            let stopped = gpu.run(commands);
            let after = gpu.run(commands + recovery(commands));
            &&& !after.fault
            &&& after.unbound()
            &&& after.attributes.subset_of(gpu.attributes)
            &&& gpu.at_rest() ==> after.at_rest()
            &&& after.live.subset_of(gpu.live)
            &&& forall|resource: Resource|
                gpu.live.contains(resource) && untouched(commands, resource)
                    ==> #[trigger] after.live.contains(resource)
            &&& after.canvas == stopped.canvas
            &&& after.screen == stopped.screen
        }),
{
    let stopped = gpu.run(commands);
    lemma_run_join(gpu, commands, recovery(commands));
    lemma_recovery_splits(stopped, commands);
    lemma_unbinding_runs(stopped);
    let g0 = stopped.run(unbinding());
    lemma_disabling_runs(g0, commands);
    let g1 = g0.run(disabling(commands));
    lemma_run_enables(gpu, commands);
    lemma_run_accounts(gpu, commands, Resource::VertexBuffer);
    lemma_run_accounts(gpu, commands, Resource::VertexShader);
    lemma_run_accounts(gpu, commands, Resource::FragmentShader);
    lemma_run_accounts(gpu, commands, Resource::StrokeProgram);
    lemma_run_accounts(gpu, commands, Resource::CompositeProgram);
    lemma_run_accounts(gpu, commands, Resource::CanvasFramebuffer);
    lemma_run_accounts(gpu, commands, Resource::CanvasTexture);
    lemma_releasing_one_runs(g1, commands, Resource::VertexBuffer);
    let g2 = g1.run(releasing_one(commands, Resource::VertexBuffer));
    lemma_releasing_one_runs(g2, commands, Resource::VertexShader);
    let g3 = g2.run(releasing_one(commands, Resource::VertexShader));
    lemma_releasing_one_runs(g3, commands, Resource::FragmentShader);
    let g4 = g3.run(releasing_one(commands, Resource::FragmentShader));
    lemma_releasing_one_runs(g4, commands, Resource::StrokeProgram);
    let g5 = g4.run(releasing_one(commands, Resource::StrokeProgram));
    lemma_releasing_one_runs(g5, commands, Resource::CompositeProgram);
    let g6 = g5.run(releasing_one(commands, Resource::CompositeProgram));
    lemma_releasing_one_runs(g6, commands, Resource::CanvasFramebuffer);
    let g7 = g6.run(releasing_one(commands, Resource::CanvasFramebuffer));
    lemma_releasing_one_runs(g7, commands, Resource::CanvasTexture);
    let after = g7.run(releasing_one(commands, Resource::CanvasTexture));
    assert(after == gpu.run(commands + recovery(commands)));
    assert forall|resource: Resource| after.live.contains(resource) implies gpu.live.contains(
        resource,
    ) by {
        lemma_run_accounts(gpu, commands, resource);
    }
    assert forall|resource: Resource|
        gpu.live.contains(resource) && untouched(commands, resource)
        implies #[trigger] after.live.contains(resource) by {
        lemma_run_accounts(gpu, commands, resource);
    }
}

/// The recovery for a list of commands tidies up after it, on every
/// backend.
pub proof fn lemma_recovery_always_tidies(done: Seq<Command>)
    ensures
        tidies(done, recovery(done)),
{
    assert forall|gpu: Gpu| !(#[trigger] gpu.run(done)).fault implies {
        &&& tidied(gpu, done, gpu.run(done + recovery(done)))
        &&& gpu.run(done + recovery(done)).canvas == gpu.run(done).canvas
        &&& gpu.run(done + recovery(done)).screen == gpu.run(done).screen
    } by {
        lemma_recovery_tidies(gpu, done);
    }
}

} // verus!
