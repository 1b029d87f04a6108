use crate::scene::{
    applied, follows, keyed, last_action_applies, opened, painted, paints, ran, ran_one, resumed,
    scene, timed, Desk, Scene,
};
use crate::screens::{Screenable, SA};
use crate::tick::{epoch_of, fires, next_tick};
use pc_keyboard::KeyEvent;
use vstd::prelude::*;

verus! {

/// The scenes that a list of actions leads through all have the tick counter of the first.
pub proof fn trace_keeps_tick<S: Screenable>(
    trace: Seq<Scene<S>>,
    actions: Seq<SA<S::Id>>,
    i: int,
)
    requires
        follows(trace, actions),
        0 <= i <= actions.len(),
    ensures
        trace[i].desk.tick == trace[0].desk.tick,
    decreases i,
{
    if i > 0 {
        trace_keeps_tick(trace, actions, i - 1);
        assert(applied(trace[i - 1], actions[i - 1], trace[i]));
    }
}

/// No action touches the tick counter.
pub proof fn actions_keep_tick<S: Screenable>(
    pre: Scene<S>,
    actions: Seq<SA<S::Id>>,
    post: Scene<S>,
)
    requires
        ran(pre, actions, post),
    ensures
        post.desk.tick == pre.desk.tick,
{
    let trace = choose|trace: Seq<Scene<S>>|
        #[trigger] follows(trace, actions) && trace.first() == pre && trace.last() == post;
    trace_keeps_tick(trace, actions, actions.len() as int);
}

/// The number of paused screens after one action: `Load` adds one, `Restore` takes one away
/// where there is one, `Overwrite` leaves none, and nothing else changes it.
pub open spec fn depth_after<I>(depth: nat, action: SA<I>) -> nat {
    match action {
        SA::Load(_) => depth + 1,
        SA::Restore => if depth > 0 {
            (depth - 1) as nat
        } else {
            0
        },
        SA::Overwrite(_) => 0,
        SA::Change(_) | SA::Draw => depth,
    }
}

/// The number of paused screens after a list of actions.
pub open spec fn depth_after_all<I>(depth: nat, actions: Seq<SA<I>>) -> nat
    decreases actions.len(),
{
    if actions.len() == 0 {
        depth
    } else {
        depth_after(depth_after_all(depth, actions.drop_last()), actions.last())
    }
}

/// The stack of paused screens grows only by `Load`, shrinks only by `Restore` and is emptied
/// only by `Overwrite`; the screens that stay paused are the same instances in the same order.
pub proof fn stack_discipline<S: Screenable>(pre: Scene<S>, action: SA<S::Id>, post: Scene<S>)
    requires
        applied(pre, action, post),
    ensures
        post.desk.paused.len() == depth_after(pre.desk.paused.len(), action),
        post.desk.paused.len() > pre.desk.paused.len() ==> action is Load,
        post.desk.paused.len() < pre.desk.paused.len() ==> action is Restore || action is Overwrite,
        forall|i: int|
            0 <= i < post.desk.paused.len() && i < pre.desk.paused.len()
                ==> post.desk.paused[i] == pre.desk.paused[i],
{
}

/// How many screens are paused after a list of actions depends on the actions alone.
pub proof fn stack_depth<S: Screenable>(pre: Scene<S>, actions: Seq<SA<S::Id>>, post: Scene<S>)
    requires
        ran(pre, actions, post),
    ensures
        post.desk.paused.len() == depth_after_all(pre.desk.paused.len(), actions),
    decreases actions.len(),
{
    if actions.len() > 0 {
        assert(actions.drop_last().push(actions.last()) =~= actions);
        last_action_applies(pre, actions.drop_last(), actions.last(), post);
        let mid = choose|mid: Scene<S>|
            #[trigger] ran(pre, actions.drop_last(), mid) && applied(mid, actions.last(), post);
        stack_depth(pre, actions.drop_last(), mid);
        stack_discipline(mid, actions.last(), post);
    } else {
        let trace = choose|trace: Seq<Scene<S>>|
            #[trigger] follows(trace, actions) && trace.first() == pre && trace.last() == post;
    }
}

/// Wherever `Overwrite` stands in a list of actions, right after it nothing is paused and the
/// active screen is a new instance of the screen that it names, initialised once.
pub proof fn overwrite_starts_afresh<S: Screenable>(
    trace: Seq<Scene<S>>,
    actions: Seq<SA<S::Id>>,
    i: int,
    id: S::Id,
)
    requires
        follows(trace, actions),
        0 <= i < actions.len(),
        actions[i] == SA::Overwrite(id),
    ensures
        trace[i + 1].desk.paused == Seq::<S>::empty(),
        opened(id, trace[i + 1].desk.active),
{
    assert(applied(trace[i], actions[i], trace[i + 1]));
}

/// A list of actions that ends in `Overwrite` leaves nothing paused and a new instance of the
/// screen that it names, initialised once, as the active screen.
pub proof fn overwrite_last<S: Screenable>(
    pre: Scene<S>,
    actions: Seq<SA<S::Id>>,
    id: S::Id,
    post: Scene<S>,
)
    requires
        ran(pre, actions.push(SA::Overwrite(id)), post),
    ensures
        post.desk.paused == Seq::<S>::empty(),
        opened(id, post.desk.active),
{
    let all = actions.push(SA::Overwrite(id));
    let trace = choose|trace: Seq<Scene<S>>|
        #[trigger] follows(trace, all) && trace.first() == pre && trace.last() == post;
    overwrite_starts_afresh(trace, all, actions.len() as int, id);
}

/// `Load` and then `Restore` bring back the screen that was active before, with one more
/// `init` behind it, over the same paused screens; the tick counter and the canvas are as
/// they were.
pub proof fn load_then_restore<S: Screenable>(
    pre: Scene<S>,
    id: S::Id,
    mid: Scene<S>,
    post: Scene<S>,
)
    requires
        applied(pre, SA::Load(id), mid),
        applied(mid, SA::Restore, post),
    ensures
        resumed(pre.desk.active, post.desk.active),
        post.desk.paused == pre.desk.paused,
        post.desk.tick == pre.desk.tick,
        post.canvas == pre.canvas,
{
    assert(pre.desk.paused.push(pre.desk.active).drop_last() =~= pre.desk.paused);
}

/// The same of the two actions executed as one list.
pub proof fn load_then_restore_in_one_list<S: Screenable>(
    pre: Scene<S>,
    id: S::Id,
    post: Scene<S>,
)
    requires
        ran(pre, seq![SA::Load(id), SA::Restore], post),
    ensures
        resumed(pre.desk.active, post.desk.active),
        post.desk.paused == pre.desk.paused,
        post.desk.tick == pre.desk.tick,
        post.canvas == pre.canvas,
{
    let actions = seq![SA::<S::Id>::Load(id), SA::Restore];
    let trace = choose|trace: Seq<Scene<S>>|
        #[trigger] follows(trace, actions) && trace.first() == pre && trace.last() == post;
    assert(applied(trace[0], actions[0], trace[1]));
    assert(applied(trace[1], actions[1], trace[2]));
    load_then_restore(pre, id, trace[1], post);
}

/// `Restore` with nothing paused opens the main menu, and still nothing is paused.
pub proof fn restore_on_empty_stack<S: Screenable>(pre: Scene<S>, post: Scene<S>)
    requires
        pre.desk.paused.len() == 0,
        applied(pre, SA::Restore, post),
    ensures
        opened(S::MAIN_MENU, post.desk.active),
        post.desk.paused.len() == 0,
        post.desk.tick == pre.desk.tick,
        post.canvas == pre.canvas,
{
}

/// A draw pass renders the paused screens in the order in which they were paused and the
/// active screen after all of them: there is a canvas before and after each screen.
pub proof fn draws_paused_then_active<S: Screenable>(
    desk: Desk<S>,
    before: S::Canvas,
    after: S::Canvas,
)
    requires
        painted(desk.layers(), before, after),
    ensures
        exists|frames: Seq<S::Canvas>|
            {
                &&& #[trigger] frames.len() == desk.paused.len() + 2
                &&& frames.first() == before
                &&& frames.last() == after
                &&& forall|i: int|
                    0 <= i < desk.paused.len() ==> (#[trigger] desk.paused[i]).draw_gives(
                        frames[i],
                        frames[i + 1],
                    )
                &&& desk.active.draw_gives(
                    frames[frames.len() - 2],
                    frames[frames.len() - 1],
                )
            },
{
    let frames = choose|frames: Seq<S::Canvas>|
        #[trigger] paints(desk.layers(), frames) && frames.first() == before && frames.last()
            == after;
    let n = desk.paused.len() as int;
    assert forall|i: int| 0 <= i < n implies (#[trigger] desk.paused[i]).draw_gives(
        frames[i],
        frames[i + 1],
    ) by {
        assert(desk.layers()[i] == desk.paused[i]);
    }
    assert(desk.layers()[n] == desk.active);
    assert(frames.len() == desk.paused.len() + 2);
}

/// A scancode that completes no key event brings one draw pass and nothing else: no screen
/// is called but to draw, and the desktop is as it was.
pub proof fn undecoded_key_only_draws<S: Screenable>(pre: Scene<S>, post: Scene<S>)
    requires
        keyed(pre, None, post),
    ensures
        post.desk == pre.desk,
        painted(pre.desk.layers(), pre.canvas, post.canvas),
{
    ran_one(pre, SA::Draw, post);
}

/// Every keyboard interrupt ends with one draw pass over the desktop as it is by then, whether
/// or not a key event was completed and whatever the key callback asked for.
pub proof fn key_interrupt_ends_with_a_draw<S: Screenable>(
    pre: Scene<S>,
    decoded: Option<(KeyEvent, Option<char>)>,
    post: Scene<S>,
)
    requires
        keyed(pre, decoded, post),
    ensures
        exists|before: S::Canvas| #[trigger] painted(post.desk.layers(), before, post.canvas),
{
    match decoded {
        Some((event, character)) => {
            let (mid, out) = choose|mid: S, out: Seq<SA<S::Id>>|
                #[trigger] S::on_key_gives(pre.desk.active, event, character, mid, out) && ran(
                    scene(pre.desk.with_active(mid), pre.canvas),
                    out.push(SA::Draw),
                    post,
                );
            last_action_applies(scene(pre.desk.with_active(mid), pre.canvas), out, SA::Draw, post);
        },
        None => {
            assert(Seq::<SA<S::Id>>::empty().push(SA::Draw) =~= seq![SA::Draw]);
            last_action_applies(pre, Seq::empty(), SA::Draw, post);
        },
    }
}

/// Every timer interrupt counts one tick, whatever the time callback asks for.
pub proof fn every_interrupt_counts<S: Screenable>(pre: Scene<S>, post: Scene<S>)
    requires
        timed(pre, post),
    ensures
        post.desk.tick == next_tick(pre.desk.tick),
{
    let tick = next_tick(pre.desk.tick);
    if fires(tick) {
        let (mid, out) = choose|mid: S, out: Seq<SA<S::Id>>|
            #[trigger] S::on_time_gives(pre.desk.active, epoch_of(tick), mid, out)
                && ran(
                scene(pre.desk.with_active(mid).with_tick(tick), pre.canvas),
                out,
                post,
            );
        actions_keep_tick(
            scene(pre.desk.with_active(mid).with_tick(tick), pre.canvas),
            out,
            post,
        );
    }
}

} // verus!
