use vstd::prelude::*;

verus! {

/// The tick counter after one more timer interrupt: one more, and 0 after the largest value.
pub open spec fn next_tick(tick: u16) -> u16 {
    if tick == u16::MAX {
        0
    } else {
        (tick + 1) as u16
    }
}

/// Whether the active screen gets its time callback at this value of the counter: when the low
/// eight bits are all zero.
pub open spec fn fires(tick: u16) -> bool {
    tick % 256 == 0
}

/// The epoch handed to the time callback: the high eight bits of the counter.
pub open spec fn epoch_of(tick: u16) -> u8 {
    (tick / 256) as u8
}

/// The tick counter after `n` more timer interrupts.
pub open spec fn after_ticks(tick: u16, n: nat) -> u16
    decreases n,
{
    if n == 0 {
        tick
    } else {
        next_tick(after_ticks(tick, (n - 1) as nat))
    }
}

/// The counter counts modulo 65536.
pub proof fn after_ticks_wraps(tick: u16, n: nat)
    ensures
        after_ticks(tick, n) == (tick + n) % 65536,
    decreases n,
{
    if n > 0 {
        after_ticks_wraps(tick, (n - 1) as nat);
    }
}

/// How many timer interrupts from `tick` the next time callback is away: between 1 and 256.
pub open spec fn ticks_to_callback(tick: u16) -> nat {
    (256 - tick % 256) as nat
}

/// Of any 256 timer interrupts in a row exactly one brings a time callback, and its epoch is
/// one more than the high byte of the counter before, modulo 256.
pub proof fn one_callback_every_256_ticks(tick: u16)
    ensures
        1 <= ticks_to_callback(tick) <= 256,
        fires(after_ticks(tick, ticks_to_callback(tick))),
        epoch_of(after_ticks(tick, ticks_to_callback(tick))) == (tick / 256 + 1) % 256,
        forall|n: nat|
            1 <= n <= 256 && n != ticks_to_callback(tick) ==> !fires(#[trigger] after_ticks(tick, n)),
{
    after_ticks_wraps(tick, ticks_to_callback(tick));
    assert forall|n: nat| 1 <= n <= 256 && n != ticks_to_callback(tick) implies !fires(
        #[trigger] after_ticks(tick, n),
    ) by {
        after_ticks_wraps(tick, n);
    }
}

/// The epochs run through 1, 2, ..., 255, 0 and start over: the callback after the next one
/// comes 256 interrupts later, with the epoch one higher modulo 256.
pub proof fn epochs_cycle(tick: u16)
    requires
        fires(tick),
    ensures
        ticks_to_callback(tick) == 256,
        epoch_of(after_ticks(tick, 256)) == (epoch_of(tick) + 1) % 256,
        after_ticks(tick, 65536) == tick,
{
    one_callback_every_256_ticks(tick);
    after_ticks_wraps(tick, 65536);
}

} // verus!
