//! The incremental NMEA sentence decoder.
//!
//! The byte-stream grammar itself is an external collaborator: the
//! `nmea0183` crate's `Parser` consumes one byte at a time and, on a
//! sentence boundary, yields a parse outcome. This module wraps that
//! parser in a [`SentenceDecoder`] whose abstract state is the sequence of
//! bytes it has consumed since construction. The parser is a deterministic
//! state machine over that sequence, so the *shape* of every completed
//! outcome is pinned down by [`decode_kind`], a function of the consumed
//! bytes alone; the payloads (fix data and the like) ride along opaquely
//! for dispatch.

use vstd::prelude::*;

verus! {

#[verifier::external_type_specification]
#[verifier::external_body]
pub struct ExParser(nmea0183::Parser);

#[verifier::external_type_specification]
#[verifier::external_body]
pub struct ExParseResult(nmea0183::ParseResult);

#[verifier::external_type_specification]
#[verifier::external_body]
pub struct ExGGA(nmea0183::GGA);

/// The shape of one completed decode outcome, payloads dropped.
#[derive(Clone, Copy, PartialEq, Eq, Structural, Debug)]
pub enum SentenceKind {
    /// A positional sentence carrying a valid fix.
    PositionalFix,
    /// A positional sentence whose fix fields are blank: the receiver is
    /// alive but has no solution.
    PositionalNoFix,
    /// Some other recognized sentence.
    Other,
    /// A malformed sentence: the decoder reported an error and went on.
    Malformed,
}

/// One completed decode outcome, as handed to dispatch. Dispatch treats
/// the payloads as opaque: they are logged, never fed back into control
/// decisions.
pub enum SentenceEvent {
    /// A positional sentence with a valid fix, carrying the fix data.
    PositionalFix(nmea0183::GGA),
    /// A positional sentence without valid fix data.
    PositionalNoFix,
    /// Some other recognized sentence, carried for logging.
    Other(nmea0183::ParseResult),
    /// A malformed sentence, with the decoder's description of the fault.
    Malformed(&'static str),
}

/// The shape of an outcome.
pub open spec fn kind_of(ev: SentenceEvent) -> SentenceKind {
    match ev {
        SentenceEvent::PositionalFix(_) => SentenceKind::PositionalFix,
        SentenceEvent::PositionalNoFix => SentenceKind::PositionalNoFix,
        SentenceEvent::Other(_) => SentenceKind::Other,
        SentenceEvent::Malformed(_) => SentenceKind::Malformed,
    }
}

/// The shapes of a whole run of outcomes, in order.
pub open spec fn kinds_of(events: Seq<SentenceEvent>) -> Seq<SentenceKind> {
    events.map_values(|ev: SentenceEvent| kind_of(ev))
}

impl SentenceEvent {
    /// The shape of this outcome, observable at run time.
    pub fn kind(&self) -> (k: SentenceKind)
        ensures
            k == kind_of(*self),
    {
        match self {
            SentenceEvent::PositionalFix(_) => SentenceKind::PositionalFix,
            SentenceEvent::PositionalNoFix => SentenceKind::PositionalNoFix,
            SentenceEvent::Other(_) => SentenceKind::Other,
            SentenceEvent::Malformed(_) => SentenceKind::Malformed,
        }
    }
}

/// The outcome shape, if any, that the external decoder yields on the last
/// byte of `fed`, where a fresh default-configured parser consumes exactly
/// the bytes of `fed` in order. The decoder is a deterministic state
/// machine, so this is a function of the consumed bytes alone.
pub uninterp spec fn decode_kind(fed: Seq<u8>) -> Option<SentenceKind>;

/// The outcome shapes completed while consuming `bytes` one at a time,
/// starting from a decoder that has already consumed `fed`.
pub open spec fn opt_kinds(fed: Seq<u8>) -> Seq<SentenceKind> {
    match decode_kind(fed) {
        Some(k) => seq![k],
        None => Seq::<SentenceKind>::empty(),
    }
}

/// The outcome shapes completed, in order, while a decoder that has already
/// consumed `fed` consumes each byte of `bytes` in arrival order.
pub open spec fn kinds_after(fed: Seq<u8>, bytes: Seq<u8>) -> Seq<SentenceKind>
    decreases bytes.len(),
{
    if bytes.len() == 0 {
        Seq::<SentenceKind>::empty()
    } else {
        opt_kinds(fed.push(bytes[0])) + kinds_after(fed.push(bytes[0]), bytes.drop_first())
    }
}

/// The incremental state of the external sentence decoder, owned
/// exclusively by the control loop. It accumulates bytes until a sentence
/// boundary, yields the outcome, and goes on with the next sentence; its
/// abstract state is the whole sequence of bytes consumed so far.
pub struct SentenceDecoder {
    parser: nmea0183::Parser,
    fed: Ghost<Seq<u8>>,
}

impl SentenceDecoder {
    /// The bytes this decoder has consumed since construction.
    pub closed spec fn bytes_fed(self) -> Seq<u8> {
        self.fed@
    }

    /// Relies on nmea0183::Parser::new: a freshly constructed parser has
    /// the default accept-everything configuration and has consumed no
    /// bytes. This is the library's only way to obtain a parser, so every
    /// parser behind a `SentenceDecoder` is default-configured.
    #[verifier::external_body]
    fn fresh_parser() -> nmea0183::Parser {
        nmea0183::Parser::new()
    }

    /// A fresh decoder: no bytes consumed, no sentence in progress.
    pub fn new() -> (d: SentenceDecoder)
        ensures
            d.bytes_fed() == Seq::<u8>::empty(),
    {
        SentenceDecoder { parser: SentenceDecoder::fresh_parser(), fed: Ghost(Seq::empty()) }
    }

    /// Relies on nmea0183::Parser::parse_from_byte: consuming one byte
    /// either completes no sentence or yields exactly one outcome, and the
    /// parser state afterwards, as well as the shape of the outcome, is a
    /// deterministic function of the bytes consumed since Parser::new
    /// (the crate's parser is a pure state machine and this decoder is
    /// built only by [`SentenceDecoder::make`]). The crate reports a
    /// positional sentence as its GGA variant, whose Option tells a valid
    /// fix from blank fix fields, and a malformed sentence as an error
    /// string, after which it keeps running.
    #[verifier::external_body]
    fn feed_byte(&mut self, b: u8) -> (r: Option<SentenceEvent>)
        ensures
            final(self).bytes_fed() == old(self).bytes_fed().push(b),
            (match r {
                Some(ev) => decode_kind(old(self).bytes_fed().push(b)) == Some(kind_of(ev)),
                None => decode_kind(old(self).bytes_fed().push(b)) is None,
            }),
    {
        match self.parser.parse_from_byte(b) {
            None => None,
            Some(Ok(nmea0183::ParseResult::GGA(Some(g)))) => {
                Some(SentenceEvent::PositionalFix(g))
            },
            Some(Ok(nmea0183::ParseResult::GGA(None))) => Some(SentenceEvent::PositionalNoFix),
            Some(Ok(other)) => Some(SentenceEvent::Other(other)),
            Some(Err(e)) => Some(SentenceEvent::Malformed(e)),
        }
    }

    /// Feed every byte of `bytes`, in arrival order, to the decoder,
    /// collecting each completed outcome in order of completion.
    pub fn drain(&mut self, bytes: &[u8]) -> (events: Vec<SentenceEvent>)
        ensures
            final(self).bytes_fed() == old(self).bytes_fed() + bytes@,
            kinds_of(events@) == kinds_after(old(self).bytes_fed(), bytes@),
    {
        let ghost fed0 = self.bytes_fed();
        let mut events: Vec<SentenceEvent> = Vec::new();
        let mut i: usize = 0;
        while i < bytes.len()
            invariant
                i <= bytes.len(),
                self.bytes_fed() == fed0 + bytes@.take(i as int),
                kinds_of(events@) == kinds_after(fed0, bytes@.take(i as int)),
            decreases bytes.len() - i,
        {
            let b = bytes[i];
            let r = self.feed_byte(b);
            proof {
                assert(bytes@.take(i as int).push(b) =~= bytes@.take(i as int + 1));
                assert((fed0 + bytes@.take(i as int)).push(b) =~= fed0 + bytes@.take(
                    i as int + 1,
                ));
                lemma_kinds_after_snoc(fed0, bytes@.take(i as int), b);
            }
            match r {
                Some(ev) => {
                    proof {
                        lemma_kinds_of_push(events@, ev);
                    }
                    events.push(ev);
                },
                None => {
                    proof {
                        assert(kinds_after(fed0, bytes@.take(i as int + 1)) =~= kinds_after(
                            fed0,
                            bytes@.take(i as int),
                        ));
                    }
                },
            }
            i = i + 1;
        }
        proof {
            assert(bytes@.take(bytes@.len() as int) =~= bytes@);
        }
        events
    }
}

/// Pushing one outcome onto a run of outcomes appends its shape.
proof fn lemma_kinds_of_push(events: Seq<SentenceEvent>, ev: SentenceEvent)
    ensures
        kinds_of(events.push(ev)) == kinds_of(events).push(kind_of(ev)),
{
    assert(kinds_of(events.push(ev)) =~= kinds_of(events).push(kind_of(ev)));
}

/// Consuming one more byte after `bytes` appends whatever that byte
/// completes.
proof fn lemma_kinds_after_snoc(fed: Seq<u8>, bytes: Seq<u8>, b: u8)
    ensures
        kinds_after(fed, bytes.push(b)) == kinds_after(fed, bytes) + opt_kinds(
            fed + bytes.push(b),
        ),
    decreases bytes.len(),
{
    if bytes.len() == 0 {
        assert(bytes.push(b)[0] == b);
        assert(bytes.push(b).drop_first() =~= Seq::<u8>::empty());
        assert(fed.push(b) =~= fed + bytes.push(b));
        assert(kinds_after(fed, bytes.push(b)) == opt_kinds(fed.push(b)) + kinds_after(
            fed.push(b),
            Seq::<u8>::empty(),
        ));
        assert(kinds_after(fed, bytes.push(b)) =~= kinds_after(fed, bytes) + opt_kinds(
            fed + bytes.push(b),
        ));
    } else {
        let head = bytes[0];
        let rest = bytes.drop_first();
        assert(bytes.push(b)[0] == head);
        assert(bytes.push(b).drop_first() =~= rest.push(b));
        lemma_kinds_after_snoc(fed.push(head), rest, b);
        assert(fed.push(head) + rest.push(b) =~= fed + bytes.push(b));
        assert(kinds_after(fed, bytes.push(b)) == opt_kinds(fed.push(head)) + kinds_after(
            fed.push(head),
            rest.push(b),
        ));
        assert(kinds_after(fed.push(head), rest.push(b)) == kinds_after(fed.push(head), rest)
            + opt_kinds(fed + bytes.push(b)));
        assert(kinds_after(fed, bytes) == opt_kinds(fed.push(head)) + kinds_after(
            fed.push(head),
            rest,
        ));
        assert(opt_kinds(fed.push(head)) + (kinds_after(fed.push(head), rest) + opt_kinds(
            fed + bytes.push(b),
        )) =~= (opt_kinds(fed.push(head)) + kinds_after(fed.push(head), rest)) + opt_kinds(
            fed + bytes.push(b),
        ));
    }
}

/// Chunking invariance: draining `first` and then `second` completes the
/// same outcome shapes, in the same order, as draining their concatenation
/// at once. However a receive buffer is split across iterations, the
/// dispatched result is the same.
pub proof fn lemma_chunking(fed: Seq<u8>, first: Seq<u8>, second: Seq<u8>)
    ensures
        kinds_after(fed, first + second) == kinds_after(fed, first) + kinds_after(
            fed + first,
            second,
        ),
    decreases first.len(),
{
    if first.len() == 0 {
        assert(first + second =~= second);
        assert(fed + first =~= fed);
        assert(kinds_after(fed, first + second) =~= kinds_after(fed, first) + kinds_after(
            fed + first,
            second,
        ));
    } else {
        assert((first + second)[0] == first[0]);
        assert((first + second).drop_first() =~= first.drop_first() + second);
        lemma_chunking(fed.push(first[0]), first.drop_first(), second);
        assert(fed.push(first[0]) + first.drop_first() =~= fed + first);
        assert(kinds_after(fed, first + second) =~= kinds_after(fed, first) + kinds_after(
            fed + first,
            second,
        ));
    }
}

/// Determinism / replayability: the outcome shapes completed over a run of
/// bytes depend on nothing but the bytes already consumed and the bytes
/// fed, so two decoders with equal histories dispatch identical runs.
pub proof fn lemma_replay(fed1: Seq<u8>, fed2: Seq<u8>, bytes: Seq<u8>)
    requires
        fed1 == fed2,
    ensures
        kinds_after(fed1, bytes) == kinds_after(fed2, bytes),
{
}

} // verus!
