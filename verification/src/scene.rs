use crate::screens::{Screenable, SA};
use crate::tick::{epoch_of, fires, next_tick};
use pc_keyboard::KeyEvent;
use vstd::prelude::*;

verus! {

/// The desktop as its contracts see it.
pub struct Desk<S> {
    /// The screen that gets the input and is drawn on top.
    pub active: S,
    /// The paused screens, the one paused first at index 0.
    pub paused: Seq<S>,
    /// The timer interrupts counted so far, modulo 65536.
    pub tick: u16,
}

impl<S> Desk<S> {
    /// Every screen of the desktop from the bottom layer to the top one.
    pub open spec fn layers(self) -> Seq<S> {
        self.paused.push(self.active)
    }

    /// The same desktop with another active screen.
    pub open spec fn with_active(self, screen: S) -> Desk<S> {
        Desk { active: screen, paused: self.paused, tick: self.tick }
    }

    /// The same desktop with another count of ticks.
    pub open spec fn with_tick(self, tick: u16) -> Desk<S> {
        Desk { active: self.active, paused: self.paused, tick }
    }
}

/// A desktop and the canvas that its screens draw on.
pub struct Scene<S: Screenable> {
    /// The desktop.
    pub desk: Desk<S>,
    /// What has been drawn so far.
    pub canvas: S::Canvas,
}

/// The scene made of a desktop and a canvas.
pub open spec fn scene<S: Screenable>(desk: Desk<S>, canvas: S::Canvas) -> Scene<S> {
    Scene { desk, canvas }
}

/// `screen` came new from the catalog under `id` and has had its `init` since.
pub open spec fn opened<S: Screenable>(id: S::Id, screen: S) -> bool {
    exists|raw: S, out: Seq<SA<S::Id>>|
        S::instance_of(id, raw) && #[trigger] S::init_gives(raw, screen, out)
}

/// `after` is the instance `before`, with one more `init` behind it.
pub open spec fn resumed<S: Screenable>(before: S, after: S) -> bool {
    exists|out: Seq<SA<S::Id>>| #[trigger] S::init_gives(before, after, out)
}

/// `frames` are the states of the canvas while `layers` are drawn one after the other:
/// `frames[i]` before `layers[i]` is drawn and `frames[i + 1]` after.
pub open spec fn paints<S: Screenable>(layers: Seq<S>, frames: Seq<S::Canvas>) -> bool {
    &&& frames.len() == layers.len() + 1
    &&& forall|i: int|
        0 <= i < layers.len() ==> (#[trigger] layers[i]).draw_gives(frames[i], frames[i + 1])
}

/// Drawing `layers` in order, index 0 first, may turn the canvas `before` into `after`.
pub open spec fn painted<S: Screenable>(
    layers: Seq<S>,
    before: S::Canvas,
    after: S::Canvas,
) -> bool {
    exists|frames: Seq<S::Canvas>|
        #[trigger] paints(layers, frames) && frames.first() == before && frames.last() == after
}

/// One action may take the scene from `pre` to `post`.
pub open spec fn applied<S: Screenable>(pre: Scene<S>, action: SA<S::Id>, post: Scene<S>) -> bool {
    &&& post.desk.tick == pre.desk.tick
    &&& match action {
        SA::Change(id) => {
            &&& opened(id, post.desk.active)
            &&& post.desk.paused == pre.desk.paused
            &&& post.canvas == pre.canvas
        },
        SA::Overwrite(id) => {
            &&& opened(id, post.desk.active)
            &&& post.desk.paused == Seq::<S>::empty()
            &&& post.canvas == pre.canvas
        },
        SA::Load(id) => {
            &&& opened(id, post.desk.active)
            &&& post.desk.paused == pre.desk.paused.push(pre.desk.active)
            &&& post.canvas == pre.canvas
        },
        SA::Restore => {
            &&& if pre.desk.paused.len() > 0 {
                &&& resumed(pre.desk.paused.last(), post.desk.active)
                &&& post.desk.paused == pre.desk.paused.drop_last()
            } else {
                &&& opened(S::MAIN_MENU, post.desk.active)
                &&& post.desk.paused == pre.desk.paused
            }
            &&& post.canvas == pre.canvas
        },
        SA::Draw => {
            &&& post.desk == pre.desk
            &&& painted(pre.desk.layers(), pre.canvas, post.canvas)
        },
    }
}

/// `trace` holds the scenes that `actions` lead through, one after the other: `trace[i]` is the
/// scene before `actions[i]` and `trace[i + 1]` the scene after it.
pub open spec fn follows<S: Screenable>(trace: Seq<Scene<S>>, actions: Seq<SA<S::Id>>) -> bool {
    &&& trace.len() == actions.len() + 1
    &&& forall|i: int|
        0 <= i < actions.len() ==> applied(trace[i], #[trigger] actions[i], trace[i + 1])
}

/// The actions, executed in order, may take the scene from `pre` to `post`.
pub open spec fn ran<S: Screenable>(pre: Scene<S>, actions: Seq<SA<S::Id>>, post: Scene<S>) -> bool {
    exists|trace: Seq<Scene<S>>|
        #[trigger] follows(trace, actions) && trace.first() == pre && trace.last() == post
}

/// Executing no action leaves the scene as it is.
pub proof fn ran_nothing<S: Screenable>(pre: Scene<S>)
    ensures
        ran(pre, Seq::<SA<S::Id>>::empty(), pre),
{
    assert(follows(seq![pre], Seq::<SA<S::Id>>::empty()));
}

/// Executing a single action is applying it.
pub proof fn ran_one<S: Screenable>(pre: Scene<S>, action: SA<S::Id>, post: Scene<S>)
    ensures
        ran(pre, seq![action], post) <==> applied(pre, action, post),
{
    if applied(pre, action, post) {
        assert(follows(seq![pre, post], seq![action]));
    }
    if ran(pre, seq![action], post) {
        let trace = choose|trace: Seq<Scene<S>>|
            #[trigger] follows(trace, seq![action]) && trace.first() == pre && trace.last() == post;
        assert(seq![action][0] == action);
        assert(applied(trace[0], seq![action][0], trace[1]));
    }
}

/// Executing `actions` and one more action after them is executing the longer list.
pub proof fn ran_then<S: Screenable>(
    pre: Scene<S>,
    actions: Seq<SA<S::Id>>,
    mid: Scene<S>,
    action: SA<S::Id>,
    post: Scene<S>,
)
    requires
        ran(pre, actions, mid),
        applied(mid, action, post),
    ensures
        ran(pre, actions.push(action), post),
{
    let trace = choose|trace: Seq<Scene<S>>|
        #[trigger] follows(trace, actions) && trace.first() == pre && trace.last() == mid;
    assert(follows(trace.push(post), actions.push(action)));
}

/// The last action of a list is applied to the scene that the actions before it left.
pub proof fn last_action_applies<S: Screenable>(
    pre: Scene<S>,
    actions: Seq<SA<S::Id>>,
    action: SA<S::Id>,
    post: Scene<S>,
)
    requires
        ran(pre, actions.push(action), post),
    ensures
        exists|mid: Scene<S>| #[trigger] ran(pre, actions, mid) && applied(mid, action, post),
{
    let all = actions.push(action);
    let trace = choose|trace: Seq<Scene<S>>|
        #[trigger] follows(trace, all) && trace.first() == pre && trace.last() == post;
    let n = actions.len() as int;
    assert(applied(trace[n], all[n], trace[n + 1]));
    assert forall|i: int| 0 <= i < n implies applied(
        trace.drop_last()[i],
        #[trigger] actions[i],
        trace.drop_last()[i + 1],
    ) by {
        assert(applied(trace[i], all[i], trace[i + 1]));
    }
    assert(follows(trace.drop_last(), actions));
    assert(ran(pre, actions, trace[n]));
}

/// Starting the desktop may take the scene from `pre` to `post`: the active screen is
/// initialised and what it asked for is executed.
pub open spec fn started<S: Screenable>(pre: Scene<S>, post: Scene<S>) -> bool {
    exists|mid: S, out: Seq<SA<S::Id>>|
        #[trigger] S::init_gives(pre.desk.active, mid, out) && ran(
            scene(pre.desk.with_active(mid), pre.canvas),
            out,
            post,
        )
}

/// One timer interrupt may take the scene from `pre` to `post`: the tick is counted, and where
/// the new count fires, the active screen gets its time callback with the epoch of that count
/// and what it asked for is executed.
pub open spec fn timed<S: Screenable>(pre: Scene<S>, post: Scene<S>) -> bool {
    let tick = next_tick(pre.desk.tick);
    if fires(tick) {
        exists|mid: S, out: Seq<SA<S::Id>>|
            #[trigger] S::on_time_gives(pre.desk.active, epoch_of(tick), mid, out) && ran(
                scene(pre.desk.with_active(mid).with_tick(tick), pre.canvas),
                out,
                post,
            )
    } else {
        post == scene(pre.desk.with_tick(tick), pre.canvas)
    }
}

/// What the decoder made of a scancode may take the scene from `pre` to `post`.  With a key
/// event the active screen gets its key callback and what it asked for is executed; then, and
/// also without a key event, everything is drawn once.
pub open spec fn keyed<S: Screenable>(
    pre: Scene<S>,
    decoded: Option<(KeyEvent, Option<char>)>,
    post: Scene<S>,
) -> bool {
    match decoded {
        Some((event, character)) => exists|mid: S, out: Seq<SA<S::Id>>|
            #[trigger] S::on_key_gives(pre.desk.active, event, character, mid, out) && ran(
                scene(pre.desk.with_active(mid), pre.canvas),
                out.push(SA::Draw),
                post,
            ),
        None => ran(pre, seq![SA::Draw], post),
    }
}

} // verus!
