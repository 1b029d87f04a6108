use pc_keyboard::KeyEvent;
use vstd::prelude::*;

verus! {

/// A screen action: a change to what is on screen, asked for by a screen's own callbacks.
#[derive(Debug, PartialEq, Eq)]
pub enum SA<I> {
    /// Replace the active screen by a new instance; the old one is dropped.
    Change(I),
    /// As `Change`, and drop every paused screen as well.
    Overwrite(I),
    /// Pause the active screen on top of the stack and open a new instance.
    Load(I),
    /// Resume the screen paused last, or the main menu where none is paused.
    Restore,
    /// Render the paused screens from the oldest to the newest, then the active one.
    Draw,
}

impl<I: Copy> Clone for SA<I> {
    fn clone(&self) -> (copy: Self)
        ensures
            copy == *self,
    {
        *self
    }
}

impl<I: Copy> Copy for SA<I> {

}

/// The actions a callback returned, as a sequence: `None` stands for no action at all.
pub open spec fn requested<I>(out: Option<Vec<SA<I>>>) -> Seq<SA<I>> {
    match out {
        Some(actions) => actions@,
        None => Seq::empty(),
    }
}

/// The catalog of screens and what every screen can do.
///
/// The five `spec` functions describe an implementation to the verifier: each one is the set of
/// outcomes that the method of the same kind may have.  They default to `true`, which admits
/// every outcome; an implementation that narrows one has to prove that its method stays inside.
/// The desktop's contracts are stated over these relations, so they hold for every catalog and
/// say the more the more the catalog says of itself.
pub trait Screenable: Sized {
    /// Names a screen of the catalog.
    type Id: Copy;

    /// What the screens draw on.
    type Canvas;

    /// The screen shown first, and again when `Restore` finds nothing paused.
    const MAIN_MENU: Self::Id;

    /// `screen` is an instance that `screen_to_instance(id)` may return.
    open spec fn instance_of(id: Self::Id, screen: Self) -> bool {
        true
    }

    /// `init` may take the screen from `pre` to `post` and return `out`.
    open spec fn init_gives(pre: Self, post: Self, out: Seq<SA<Self::Id>>) -> bool {
        true
    }

    /// `on_time(epoch)` may take the screen from `pre` to `post` and return `out`.
    open spec fn on_time_gives(pre: Self, epoch: u8, post: Self, out: Seq<SA<Self::Id>>) -> bool {
        true
    }

    /// `on_key(event, character)` may take the screen from `pre` to `post` and return `out`.
    open spec fn on_key_gives(
        pre: Self,
        event: KeyEvent,
        character: Option<char>,
        post: Self,
        out: Seq<SA<Self::Id>>,
    ) -> bool {
        true
    }

    /// `draw` on this screen may turn the canvas `before` into `after`.
    open spec fn draw_gives(&self, before: Self::Canvas, after: Self::Canvas) -> bool {
        true
    }

    /// A new instance of the screen that `id` names.
    fn screen_to_instance(id: Self::Id) -> (screen: Self)
        ensures
            Self::instance_of(id, screen),
    ;

    /// Called each time the screen becomes the active one.
    fn init(&mut self) -> (out: Option<Vec<SA<Self::Id>>>)
        ensures
            Self::init_gives(*old(self), *final(self), requested(out)),
    ;

    /// Renders the screen.
    fn draw(&self, canvas: &mut Self::Canvas)
        ensures
            self.draw_gives(*old(canvas), *final(canvas)),
    ;

    /// Called on the active screen once every 256 timer ticks.
    fn on_time(&mut self, epoch: u8) -> (out: Option<Vec<SA<Self::Id>>>)
        ensures
            Self::on_time_gives(*old(self), epoch, *final(self), requested(out)),
    ;

    /// Called on the active screen for each completed key event; `character` is the printable
    /// character the key stands for, if it has one.
    fn on_key(&mut self, event: KeyEvent, character: Option<char>) -> (out: Option<Vec<SA<Self::Id>>>)
        ensures
            Self::on_key_gives(*old(self), event, character, *final(self), requested(out)),
    ;
}

} // verus!
