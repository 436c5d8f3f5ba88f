//! The random colours shown on the strip at start-up.

use vstd::prelude::*;
use rand::rngs::ThreadRng;
use rand::Rng;

verus! {

/// The thread-local random number generator of the `rand` crate.
#[verifier::external_type_specification]
#[verifier::external_body]
pub struct ExThreadRng(ThreadRng);

/// Calls `rand::thread_rng`, which hands out this thread's generator,
/// seeding it from the operating system on first use (it panics if the
/// operating system gives no seed; that cannot be ruled out by an argument).
/// Nothing is claimed of the generator.
#[verifier::external_body]
fn thread_rng() -> ThreadRng {
    rand::thread_rng()
}

/// Calls `Rng::gen_range(low, high)` on the generator. The `rand`
/// documentation promises a value in `[low, high)` and a panic when
/// `low >= high`, so `low < high` is required; which value comes out
/// depends on chance and is not stated.
#[verifier::external_body]
fn gen_range_u8(rng: &mut ThreadRng, low: u8, high: u8) -> (v: u8)
    requires
        low < high,
    ensures
        low <= v < high,
{
    rng.gen_range(low, high)
}

/// Whether `leds` describes a strip of `strip_size` pixels, each given by
/// three colour channels that are all below 255.
pub open spec fn is_random_strip(leds: Seq<Vec<u8>>, strip_size: nat) -> bool {
    &&& leds.len() == strip_size
    &&& forall|i: int|
        0 <= i < leds.len() ==> {
            &&& #[trigger] leds[i]@.len() == 3
            &&& forall|k: int| 0 <= k < 3 ==> #[trigger] leds[i]@[k] < 255
        }
}

/// Lays out a flat run of channel values as a strip of `strip_size` pixels:
/// pixel `i` gets channels `3 * i`, `3 * i + 1` and `3 * i + 2`, in order.
pub fn strip_from_channels(channels: &Vec<u8>, strip_size: usize) -> (leds: Vec<Vec<u8>>)
    requires
        channels@.len() == 3 * strip_size,
    ensures
        leds@.len() == strip_size,
        forall|i: int| 0 <= i < strip_size ==> #[trigger] leds@[i]@.len() == 3,
        forall|i: int, j: int|
            0 <= i < strip_size && 0 <= j < 3 ==> #[trigger] leds@[i]@[j] == channels@[3 * i
                + j],
{
    let total = channels.len();
    let mut leds: Vec<Vec<u8>> = Vec::with_capacity(strip_size);
    let mut i: usize = 0;
    while i < strip_size
        invariant
            channels@.len() == 3 * strip_size,
            total == channels@.len(),
            i <= strip_size,
            leds@.len() == i,
            forall|p: int| 0 <= p < i ==> #[trigger] leds@[p]@.len() == 3,
            forall|p: int, j: int|
                0 <= p < i && 0 <= j < 3 ==> #[trigger] leds@[p]@[j] == channels@[3 * p + j],
        decreases strip_size - i,
    {
        let mut led: Vec<u8> = Vec::with_capacity(3);
        let mut j: usize = 0;
        while j < 3
            invariant
                channels@.len() == 3 * strip_size,
                total == channels@.len(),
                i < strip_size,
                j <= 3,
                led@.len() == j,
                forall|k: int| 0 <= k < j ==> #[trigger] led@[k] == channels@[3 * i + k],
            decreases 3 - j,
        {
            led.push(channels[3 * i + j]);
            j = j + 1;
        }
        leds.push(led);
        i = i + 1;
    }
    leds
}

/// A strip of `strip_size` pixels with random colours. `3 * strip_size`
/// channel values are drawn from `0..255` one after another and laid out by
/// `strip_from_channels`: pixel `i` gets draws `3 * i`, `3 * i + 1` and
/// `3 * i + 2`.
pub fn make_random_led_vec(strip_size: usize) -> (leds: Vec<Vec<u8>>)
    ensures
        is_random_strip(leds@, strip_size as nat),
{
    let mut channels: Vec<u8> = Vec::new();
    let mut rng = thread_rng();
    let mut n: usize = 0;
    while n < strip_size
        invariant
            n <= strip_size,
            channels@.len() == 3 * n,
            forall|k: int| 0 <= k < channels@.len() ==> #[trigger] channels@[k] < 255,
        decreases strip_size - n,
    {
        let mut k: usize = 0;
        while k < 3
            invariant
                n < strip_size,
                k <= 3,
                channels@.len() == 3 * n + k,
                forall|m: int| 0 <= m < channels@.len() ==> #[trigger] channels@[m] < 255,
            decreases 3 - k,
        {
            let channel = gen_range_u8(&mut rng, 0, 255);
            channels.push(channel);
            k = k + 1;
        }
        n = n + 1;
    }
    let leds = strip_from_channels(&channels, strip_size);
    assert forall|i: int| 0 <= i < leds@.len() implies {
        &&& #[trigger] leds@[i]@.len() == 3
        &&& forall|k: int| 0 <= k < 3 ==> #[trigger] leds@[i]@[k] < 255
    } by {
        assert forall|k: int| 0 <= k < 3 implies #[trigger] leds@[i]@[k] < 255 by {
            assert(leds@[i]@[k] == channels@[3 * i + k]);
        }
    }
    leds
}

} // verus!
