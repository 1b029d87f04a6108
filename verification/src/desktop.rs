use crate::keyboard::{decoding, Decoder, EXTENDED_PREFIX};
use crate::laws::{actions_keep_tick, depth_after_all, stack_depth, undecoded_key_only_draws};
use crate::scene::{
    applied, follows, keyed, painted, paints, ran, ran_nothing, ran_then, resumed, scene, started,
    timed, Desk,
};
use crate::screens::{requested, Screenable, SA};
use crate::tick::{epoch_of, fires, next_tick};
use pc_keyboard::KeyEvent;
use vstd::prelude::*;

verus! {

/// The desktop: the screen that is showing, the screens paused beneath it and the tick counter.
pub struct DesktopTUI<S: Screenable> {
    active_screen: S,
    paused_screens: Vec<S>,
    tick: u16,
}

impl<S: Screenable> View for DesktopTUI<S> {
    type V = Desk<S>;

    closed spec fn view(&self) -> Desk<S> {
        Desk { active: self.active_screen, paused: self.paused_screens@, tick: self.tick }
    }
}

impl<S: Screenable> DesktopTUI<S> {
    /// A desktop that shows a new main menu, with nothing paused and no tick counted.  The
    /// main menu has not been initialised yet: `start` does that.
    pub fn new() -> (desktop: Self)
        ensures
            S::instance_of(S::MAIN_MENU, desktop@.active),
            desktop@.paused == Seq::<S>::empty(),
            desktop@.tick == 0,
    {
        DesktopTUI {
            active_screen: S::screen_to_instance(S::MAIN_MENU),
            paused_screens: Vec::new(),
            tick: 0,
        }
    }

    /// The screen that is showing.
    pub fn active_screen(&self) -> (screen: &S)
        ensures
            *screen == self@.active,
    {
        &self.active_screen
    }

    /// The paused screens, the one paused first at index 0.
    pub fn paused_screens(&self) -> (screens: &Vec<S>)
        ensures
            screens@ == self@.paused,
    {
        &self.paused_screens
    }

    /// The timer interrupts counted so far, modulo 65536.
    pub fn tick(&self) -> (tick: u16)
        ensures
            tick == self@.tick,
    {
        self.tick
    }

    /// Renders the paused screens from the one paused first to the one paused last, and the
    /// active screen after them, so that it ends up on top.
    pub fn draw(&self, canvas: &mut S::Canvas)
        ensures
            painted(self@.layers(), *old(canvas), *final(canvas)),
    {
        let ghost mut frames = seq![*canvas];
        let mut i: usize = 0;
        while i < self.paused_screens.len()
            invariant
                i <= self.paused_screens.len(),
                paints(self.paused_screens@.take(i as int), frames),
                frames.first() == *old(canvas),
                frames.last() == *canvas,
            decreases self.paused_screens.len() - i,
        {
            self.paused_screens[i].draw(canvas);
            proof {
                frames = frames.push(*canvas);
            }
            i += 1;
        }
        self.active_screen.draw(canvas);
        proof {
            frames = frames.push(*canvas);
            assert(self.paused_screens@.take(i as int) == self.paused_screens@);
            assert(paints(self@.layers(), frames));
        }
    }

    /// Initialises the active screen.  What its `init` asks for is dropped: only the callers
    /// of the desktop's entry points have the answer of a callback executed.
    fn init_active(&mut self)
        ensures
            resumed(old(self)@.active, final(self)@.active),
            final(self)@.paused == old(self)@.paused,
            final(self)@.tick == old(self)@.tick,
    {
        let out = self.active_screen.init();
        assert(S::init_gives(old(self)@.active, self@.active, requested(out)));
    }

    /// Executes one action.
    pub fn execute_action(&mut self, action: SA<S::Id>, canvas: &mut S::Canvas)
        ensures
            applied(scene(old(self)@, *old(canvas)), action, scene(final(self)@, *final(canvas))),
    {
        match action {
            SA::Change(id) => {
                self.active_screen = S::screen_to_instance(id);
                self.init_active();
            },
            SA::Overwrite(id) => {
                self.active_screen = S::screen_to_instance(id);
                self.init_active();
                self.paused_screens = Vec::new();
            },
            SA::Load(id) => {
                let mut screen = S::screen_to_instance(id);
                core::mem::swap(&mut self.active_screen, &mut screen);
                self.paused_screens.push(screen);
                self.init_active();
            },
            SA::Restore => {
                match self.paused_screens.pop() {
                    Some(screen) => {
                        self.active_screen = screen;
                    },
                    None => {
                        self.active_screen = S::screen_to_instance(S::MAIN_MENU);
                    },
                }
                self.init_active();
            },
            SA::Draw => {
                self.draw(canvas);
            },
        }
    }

    /// Executes the actions in order, each one on what the one before it left.
    pub fn execute_actions(&mut self, actions: Vec<SA<S::Id>>, canvas: &mut S::Canvas)
        ensures
            ran(scene(old(self)@, *old(canvas)), actions@, scene(final(self)@, *final(canvas))),
            final(self)@.tick == old(self)@.tick,
            final(self)@.paused.len() == depth_after_all(old(self)@.paused.len(), actions@),
    {
        let ghost mut trace = seq![scene(self@, *canvas)];
        let mut i: usize = 0;
        while i < actions.len()
            invariant
                i <= actions.len(),
                follows(trace, actions@.take(i as int)),
                trace.first() == scene(old(self)@, *old(canvas)),
                trace.last() == scene(self@, *canvas),
            decreases actions.len() - i,
        {
            self.execute_action(actions[i], canvas);
            proof {
                trace = trace.push(scene(self@, *canvas));
            }
            i += 1;
        }
        proof {
            assert(actions@.take(i as int) == actions@);
            actions_keep_tick(trace.first(), actions@, trace.last());
            stack_depth(trace.first(), actions@, trace.last());
        }
    }

    /// Executes what a callback of the active screen returned: nothing where it returned `None`.
    fn execute_requested(&mut self, out: Option<Vec<SA<S::Id>>>, canvas: &mut S::Canvas)
        ensures
            ran(
                scene(old(self)@, *old(canvas)),
                requested(out),
                scene(final(self)@, *final(canvas)),
            ),
    {
        proof {
            ran_nothing(scene(self@, *canvas));
        }
        if let Some(actions) = out {
            self.execute_actions(actions, canvas)
        }
    }

    /// Initialises the active screen and executes what it asks for.
    pub fn start(&mut self, canvas: &mut S::Canvas)
        ensures
            started(scene(old(self)@, *old(canvas)), scene(final(self)@, *final(canvas))),
            final(self)@.tick == old(self)@.tick,
    {
        let ghost pre = scene(self@, *canvas);
        let out = self.active_screen.init();
        let ghost mid = scene(self@, *canvas);
        let ghost asked = requested(out);
        self.execute_requested(out, canvas);
        proof {
            assert(mid == scene(pre.desk.with_active(mid.desk.active), pre.canvas));
            assert(S::init_gives(pre.desk.active, mid.desk.active, asked));
            actions_keep_tick(mid, asked, scene(self@, *canvas));
        }
    }

    /// The timer interrupt: counts the tick, and once every 256 ticks hands the epoch to the
    /// active screen's time callback and executes what it asks for.
    pub fn int_time(&mut self, canvas: &mut S::Canvas)
        ensures
            timed(scene(old(self)@, *old(canvas)), scene(final(self)@, *final(canvas))),
            final(self)@.tick == next_tick(old(self)@.tick),
    {
        let ghost pre = scene(self@, *canvas);
        self.tick = self.tick.wrapping_add(1);
        let tick = self.tick;
        assert(tick == next_tick(pre.desk.tick));
        assert((tick & 0xFF) == 0 <==> tick % 256 == 0) by (bit_vector);
        assert((tick >> 8) == tick / 256) by (bit_vector);
        if (tick & 0xFF) == 0 {
            let out = self.active_screen.on_time((tick >> 8) as u8);
            let ghost mid = scene(self@, *canvas);
            let ghost asked = requested(out);
            self.execute_requested(out, canvas);
            proof {
                assert(mid == scene(
                    pre.desk.with_active(mid.desk.active).with_tick(tick),
                    pre.canvas,
                ));
                assert(S::on_time_gives(pre.desk.active, epoch_of(tick), mid.desk.active, asked));
                actions_keep_tick(mid, asked, scene(self@, *canvas));
            }
        }
    }

    /// What follows the decoder in the keyboard interrupt.  Hands a completed key event to the
    /// active screen's key callback and executes what it asks for; then draws everything, also
    /// where no key event was completed.
    pub fn dispatch_key(
        &mut self,
        decoded: Option<(KeyEvent, Option<char>)>,
        canvas: &mut S::Canvas,
    )
        ensures
            keyed(scene(old(self)@, *old(canvas)), decoded, scene(final(self)@, *final(canvas))),
            final(self)@.tick == old(self)@.tick,
            decoded is None ==> final(self)@ == old(self)@,
    {
        let ghost pre = scene(self@, *canvas);
        let ghost mut mid = pre;
        let ghost mut asked = Seq::<SA<S::Id>>::empty();
        proof {
            ran_nothing(pre);
        }
        if let Some((event, character)) = decoded {
            let out = self.active_screen.on_key(event, character);
            proof {
                mid = scene(self@, *canvas);
                asked = requested(out);
                assert(S::on_key_gives(pre.desk.active, event, character, mid.desk.active, asked));
            }
            self.execute_requested(out, canvas);
        }
        let ghost before_draw = scene(self@, *canvas);
        self.draw(canvas);
        proof {
            let post = scene(self@, *canvas);
            assert(mid == scene(pre.desk.with_active(mid.desk.active), pre.canvas));
            ran_then(mid, asked, before_draw, SA::Draw, post);
            actions_keep_tick(mid, asked.push(SA::Draw), post);
            assert(asked.push(SA::Draw) =~= seq![SA::Draw] || decoded is Some);
            if decoded is None {
                undecoded_key_only_draws(pre, post);
            }
        }
    }

    /// The keyboard interrupt: feeds the scancode to the decoder and goes on as `dispatch_key`
    /// does with what the decoder made of it.  The prefix of an extended key completes no key
    /// event, so it brings a draw pass and nothing else.
    pub fn int_key(&mut self, decoder: &mut Decoder, scancode: u8, canvas: &mut S::Canvas)
        ensures
            keyed(
                scene(old(self)@, *old(canvas)),
                decoding(old(decoder)@, scancode).1,
                scene(final(self)@, *final(canvas)),
            ),
            final(decoder)@ == decoding(old(decoder)@, scancode).0,
            final(self)@.tick == old(self)@.tick,
            final(decoder)@.extended == (!old(decoder)@.extended && scancode == EXTENDED_PREFIX),
            final(decoder)@.extended ==> {
                &&& final(self)@ == old(self)@
                &&& painted(old(self)@.layers(), *old(canvas), *final(canvas))
                &&& final(decoder)@ == old(decoder)@.with_extended(true)
            },
    {
        let ghost pre = scene(self@, *canvas);
        let decoded = decoder.decode(scancode);
        self.dispatch_key(decoded, canvas);
        proof {
            if decoded is None {
                undecoded_key_only_draws(pre, scene(self@, *canvas));
            }
        }
    }
}

} // verus!
