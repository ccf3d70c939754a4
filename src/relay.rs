use vstd::prelude::*;

verus! {

/// The kind of a sample received on a subscribed topic: data, or the end
/// marker (a deletion) that a publisher sends when its input ends.
#[derive(Clone, Copy, Debug, PartialEq, Eq)]
pub enum SampleKind {
    Put,
    Delete,
}

/// What the publishing side does with one read of standard input.
#[derive(Clone, Debug, PartialEq, Eq)]
pub enum PubAction {
    /// Publish these bytes as one message.
    Put(Vec<u8>),
    /// Input has ended: send the end marker, then close the session.
    EndAndClose,
}

/// What the subscribing side does with one received sample.
#[derive(Clone, Debug, PartialEq, Eq)]
pub enum SubAction {
    /// Write these bytes to standard output.
    Output(Vec<u8>),
    /// Close the session and stop.
    Close,
    /// Go on waiting for samples.
    Ignore,
}

/// The sample that a publisher sends for the read `chunk`: an empty read is
/// the end of input.
pub open spec fn sample_for_read(chunk: Seq<u8>) -> (SampleKind, Seq<u8>) {
    if chunk.len() == 0 {
        (SampleKind::Delete, Seq::empty())
    } else {
        (SampleKind::Put, chunk)
    }
}

/// Decides what to do with one read of standard input.
pub fn on_input(chunk: Vec<u8>) -> (a: PubAction)
    ensures
        chunk@.len() == 0 <==> a == PubAction::EndAndClose,
        a matches PubAction::Put(c) ==> c@ == chunk@ && sample_for_read(chunk@) == (
            SampleKind::Put,
            c@,
        ),
        a == PubAction::EndAndClose ==> sample_for_read(chunk@).0 == SampleKind::Delete,
{
    if chunk.len() == 0 {
        PubAction::EndAndClose
    } else {
        PubAction::Put(chunk)
    }
}

/// Decides what to do with one received sample.
pub fn on_sample(kind: SampleKind, payload: Vec<u8>, ignore_eof: bool) -> (a: SubAction)
    ensures
        kind == SampleKind::Put ==> (a matches SubAction::Output(o) && o@ == payload@),
        kind == SampleKind::Delete && !ignore_eof ==> a == SubAction::Close,
        kind == SampleKind::Delete && ignore_eof ==> a == SubAction::Ignore,
        a matches SubAction::Output(o) ==> o@ == written(seq![(kind, payload@)], ignore_eof),
        a == SubAction::Close <==> closes(seq![(kind, payload@)], ignore_eof),
{
    proof {
        let s = seq![(kind, payload@)];
        assert(s.drop_first() =~= Seq::<(SampleKind, Seq<u8>)>::empty());
        assert(payload@ + Seq::<u8>::empty() =~= payload@);
        assert(s[0] == (kind, payload@));
        assert(written(s.drop_first(), ignore_eof) == Seq::<u8>::empty());
        if kind == SampleKind::Put {
            assert(written(s, ignore_eof) == payload@);
        }
    }
    match kind {
        SampleKind::Put => SubAction::Output(payload),
        SampleKind::Delete => {
            if ignore_eof {
                SubAction::Ignore
            } else {
                SubAction::Close
            }
        },
    }
}

/// The samples that the publishing side sends for the successive reads
/// `reads` of standard input; it stops after the first empty read.
pub open spec fn published(reads: Seq<Seq<u8>>) -> Seq<(SampleKind, Seq<u8>)>
    decreases reads.len(),
{
    if reads.len() == 0 {
        Seq::empty()
    } else if reads[0].len() == 0 {
        seq![sample_for_read(reads[0])]
    } else {
        seq![sample_for_read(reads[0])] + published(reads.drop_first())
    }
}

/// The bytes of standard input up to its end: the reads before the first
/// empty one, joined.
pub open spec fn input_until_eof(reads: Seq<Seq<u8>>) -> Seq<u8>
    decreases reads.len(),
{
    if reads.len() == 0 || reads[0].len() == 0 {
        Seq::empty()
    } else {
        reads[0] + input_until_eof(reads.drop_first())
    }
}

/// Standard input has ended within `reads`.
pub open spec fn reaches_eof(reads: Seq<Seq<u8>>) -> bool {
    exists|i: int| 0 <= i < reads.len() && (#[trigger] reads[i]).len() == 0
}

/// The bytes that the subscribing side writes for the received `samples`;
/// nothing after it has closed.
pub open spec fn written(samples: Seq<(SampleKind, Seq<u8>)>, ignore_eof: bool) -> Seq<u8>
    decreases samples.len(),
{
    if samples.len() == 0 {
        Seq::empty()
    } else if samples[0].0 == SampleKind::Put {
        samples[0].1 + written(samples.drop_first(), ignore_eof)
    } else if ignore_eof {
        written(samples.drop_first(), ignore_eof)
    } else {
        Seq::empty()
    }
}

/// The subscribing side closes its session on one of the received `samples`.
pub open spec fn closes(samples: Seq<(SampleKind, Seq<u8>)>, ignore_eof: bool) -> bool {
    !ignore_eof && exists|i: int|
        0 <= i < samples.len() && (#[trigger] samples[i]).0 == SampleKind::Delete
}

/// What a subscriber writes for the samples of a publisher is exactly what
/// the publisher read before its input ended, in the same order, whether or
/// not the subscriber honours the end marker.
pub proof fn lemma_relay_preserves_bytes(reads: Seq<Seq<u8>>, ignore_eof: bool)
    ensures
        written(published(reads), ignore_eof) == input_until_eof(reads),
    decreases reads.len(),
{
    if reads.len() == 0 {
    } else if reads[0].len() == 0 {
        let s = published(reads);
        assert(s.drop_first() =~= Seq::empty());
        assert(written(s.drop_first(), ignore_eof) == Seq::<u8>::empty());
    } else {
        let rest = reads.drop_first();
        lemma_relay_preserves_bytes(rest, ignore_eof);
        assert(published(reads).drop_first() =~= published(rest));
    }
}

/// How standard input is cut into reads does not change what a subscriber
/// writes: two runs that read the same bytes before their input ends give
/// the same output.
pub proof fn lemma_output_independent_of_chunking(
    reads1: Seq<Seq<u8>>,
    reads2: Seq<Seq<u8>>,
    ignore_eof: bool,
)
    requires
        input_until_eof(reads1) == input_until_eof(reads2),
    ensures
        written(published(reads1), ignore_eof) == written(published(reads2), ignore_eof),
{
    lemma_relay_preserves_bytes(reads1, ignore_eof);
    lemma_relay_preserves_bytes(reads2, ignore_eof);
}

/// Once standard input ends, the publisher's samples make a subscriber that
/// honours the end marker close; one that ignores it never closes.
pub proof fn lemma_end_of_input_closes_subscriber(
    reads: Seq<Seq<u8>>,
    samples: Seq<(SampleKind, Seq<u8>)>,
)
    ensures
        reaches_eof(reads) ==> closes(published(reads), false),
        !closes(samples, true),
    decreases reads.len(),
{
    if reaches_eof(reads) {
        let i = choose|i: int| 0 <= i < reads.len() && (#[trigger] reads[i]).len() == 0;
        if reads[0].len() == 0 {
            assert(published(reads)[0].0 == SampleKind::Delete);
        } else {
            let rest = reads.drop_first();
            assert(rest[i - 1] == reads[i]);
            lemma_end_of_input_closes_subscriber(rest, samples);
            let j = choose|j: int|
                0 <= j < published(rest).len() && (#[trigger] published(rest)[j]).0
                    == SampleKind::Delete;
            assert(published(reads)[j + 1] == published(rest)[j]);
        }
    }
}

} // verus!
