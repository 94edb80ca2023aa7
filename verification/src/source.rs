//! The event generator of the `nexmark` crate, as this crate sees it.
//!
//! The generator is a cursor over an endless sequence of events. Which
//! event comes next is its own business; this module records only how far
//! the cursor has moved, with how many generators it was configured, and
//! at which offsets a pull is known to return.
//!
//! A pull returns as long as the generator's own sums stay within their
//! types. With its default configuration the generator
//! - multiplies the event number by 953 in `usize`;
//! - stamps event `n` with the base time plus `n * generators / 10`
//!   milliseconds, computed in `f32` and rounded;
//! - gives an auction, which is each event whose number leaves 1, 2 or 3
//!   when divided by 50, an expiry of up to twice the distance to the stamp
//!   of the event 1666 places on.
//! [`pull_is_safe`] keeps each of these below its limit, with room for the
//! rounding and for a base time of this era.

use vstd::prelude::*;

verus! {

/// `nexmark::event::Person`: plain data, all of its fields public, so its
/// fields are read as they are.
#[verifier::external_type_specification]
pub struct ExSourcePerson(nexmark::event::Person);

/// `nexmark::event::Auction`: plain data, read as it is.
#[verifier::external_type_specification]
pub struct ExSourceAuction(nexmark::event::Auction);

/// `nexmark::event::Bid`: plain data, read as it is.
#[verifier::external_type_specification]
pub struct ExSourceBid(nexmark::event::Bid);

/// `nexmark::event::Event`: one of the three records above.
#[verifier::external_type_specification]
pub struct ExSourceEvent(nexmark::event::Event);

/// `nexmark::EventGenerator`. Opaque here: its offset and the number of
/// its generators are named by `stream_offset` and `stream_generators`.
#[verifier::external_type_specification]
#[verifier::external_body]
pub struct ExEventGenerator(nexmark::EventGenerator);

/// The factor by which the generator multiplies an event number.
pub const NUMBER_FACTOR: usize = 953;

/// The number of events in one round of a person, three auctions and
/// forty-six bids.
pub const EVENT_ROUND: u64 = 50;

/// The number of events that the generator looks ahead for an auction's
/// expiry.
pub const AUCTION_LOOKAHEAD: u64 = 1666;

/// The largest product of an event number and the number of generators for
/// which the event's stamp fits in 64 bits.
pub const STAMP_SPAN: u128 = 180_000_000_000_000_000_000;

/// What `EventGenerator::offset` returns: the number of events that have
/// left the generator.
pub uninterp spec fn stream_offset(source: nexmark::EventGenerator) -> u64;

/// The `num_event_generators` of the configuration that a generator was
/// made with.
pub uninterp spec fn stream_generators(source: nexmark::EventGenerator) -> usize;

/// Whether a generator is as `EventGenerator::new` makes it from the default
/// configuration with some number of generators, but for its offset: it
/// steps by one and filters no kind of event.
pub uninterp spec fn stream_is_plain(source: nexmark::EventGenerator) -> bool;

/// Whether the event at an offset is an auction.
pub open spec fn is_auction_slot(offset: nat) -> bool {
    1 <= offset % (EVENT_ROUND as nat) <= 3
}

/// Whether the generator's sums for the event at an offset stay within
/// their types.
pub open spec fn pull_is_safe(generators: usize, offset: nat) -> bool {
    &&& NUMBER_FACTOR * offset <= usize::MAX
    &&& offset * generators <= STAMP_SPAN
    &&& is_auction_slot(offset) ==> 2 * ((offset + AUCTION_LOOKAHEAD) * generators) <= STAMP_SPAN
}

/// Computes [`pull_is_safe`].
pub fn can_pull(generators: usize, offset: u64) -> (r: bool)
    ensures
        r == pull_is_safe(generators, offset as nat),
{
    let reach = (usize::MAX / NUMBER_FACTOR) as u64;
    if offset > reach {
        return false;
    }
    assert(0 <= offset * generators <= (offset + AUCTION_LOOKAHEAD) * generators
        <= 0x8000_0000_0000_0000_0000_0000_0000_0000) by (nonlinear_arith)
        requires
            0 <= offset,
            offset + AUCTION_LOOKAHEAD <= 0x8000_0000_0000_0000,
            0 <= generators <= 0x1_0000_0000_0000_0000,
            AUCTION_LOOKAHEAD == 1666,
    ;
    let width = generators as u128;
    if (offset as u128) * width > STAMP_SPAN {
        return false;
    }
    let slot = offset % EVENT_ROUND;
    if 1 <= slot && slot <= 3 {
        ((offset + AUCTION_LOOKAHEAD) as u128) * width <= STAMP_SPAN / 2
    } else {
        true
    }
}

/// `num_event_generators` of `NexmarkConfig::default()`, which is 1. The
/// default configuration takes its base time from the clock, which plays no
/// part here, and asks of the clock that it is not set before 1970.
#[verifier::external_body]
pub(crate) fn default_generators() -> (r: usize)
    ensures
        r == 1,
{
    nexmark::config::NexmarkConfig::default().num_event_generators
}

/// `EventGenerator::new` on `NexmarkConfig::default()` with the given
/// `num_event_generators`: a plain generator at offset 0 with that many
/// generators. The default configuration takes its base time from the
/// clock, and asks of the clock that it is not set before 1970.
#[verifier::external_body]
pub(crate) fn open_stream(generators: usize) -> (r: nexmark::EventGenerator)
    ensures
        stream_is_plain(r),
        stream_offset(r) == 0,
        stream_generators(r) == generators,
{
    let mut config = nexmark::config::NexmarkConfig::default();
    config.num_event_generators = generators;
    nexmark::EventGenerator::new(config)
}

/// `EventGenerator::offset`.
#[verifier::external_body]
pub(crate) fn offset_of(source: &nexmark::EventGenerator) -> (r: u64)
    ensures
        r == stream_offset(*source),
{
    source.offset()
}

/// `Iterator::next` of `EventGenerator`, on a plain generator at an offset
/// at which its sums stay within their types: it returns an event, moves
/// the offset on by one, and leaves the generator plain with the number of
/// generators it had.
#[verifier::external_body]
pub(crate) fn pull(source: &mut nexmark::EventGenerator) -> (r: Option<nexmark::event::Event>)
    requires
        stream_is_plain(*old(source)),
        pull_is_safe(stream_generators(*old(source)), stream_offset(*old(source)) as nat),
    ensures
        r is Some,
        stream_is_plain(*final(source)),
        stream_offset(*final(source)) == stream_offset(*old(source)) + 1,
        stream_generators(*final(source)) == stream_generators(*old(source)),
    no_unwind
{
    source.next()
}

} // verus!
