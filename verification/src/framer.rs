//! Framing of the child's raw output into log records.
//!
//! A record is one line of the output: what stands between two line feeds,
//! without the carriage return that may stand in front of the line feed. The
//! bytes may arrive in pieces of any size: a record is given out once its
//! line feed has been seen, and what is left when the stream ends is the last
//! record.

use vstd::prelude::*;
use vstd::utf8::{decode_utf8, valid_utf8};

verus! {

/// The byte that closes a record.
pub const LINE_FEED: u8 = 10;

/// The byte that may stand in front of the line feed and is then no part of
/// the record.
pub const CARRIAGE_RETURN: u8 = 13;

/// The text that `String::from_utf8_lossy` reads from `bytes`: their UTF-8
/// decoding, with the replacement character in place of what is no valid
/// UTF-8.
pub uninterp spec fn utf8_lossy(bytes: Seq<u8>) -> Seq<char>;

/// `String::from_utf8_lossy`, copied into an owned `String`: bytes that are
/// valid UTF-8 are read as the text that they encode.
#[verifier::external_body]
fn decode(bytes: &Vec<u8>) -> (text: String)
    ensures
        text@ == utf8_lossy(bytes@),
        valid_utf8(bytes@) ==> text@ == decode_utf8(bytes@),
{
    String::from_utf8_lossy(bytes).into_owned()
}

/// The record that a line holds: the line without a carriage return at its
/// end.
pub open spec fn record_of(line: Seq<u8>) -> Seq<u8> {
    if line.len() > 0 && line.last() == CARRIAGE_RETURN {
        line.drop_last()
    } else {
        line
    }
}

/// The records that `bytes` complete, in order, each without its line ending.
pub open spec fn complete_records(bytes: Seq<u8>) -> Seq<Seq<u8>>
    decreases bytes.len(),
{
    if bytes.len() == 0 {
        Seq::empty()
    } else if bytes.last() == LINE_FEED {
        complete_records(bytes.drop_last()).push(record_of(unfinished(bytes.drop_last())))
    } else {
        complete_records(bytes.drop_last())
    }
}

/// What stands in `bytes` behind the last line feed.
pub open spec fn unfinished(bytes: Seq<u8>) -> Seq<u8>
    decreases bytes.len(),
{
    if bytes.len() == 0 {
        Seq::empty()
    } else if bytes.last() == LINE_FEED {
        Seq::empty()
    } else {
        unfinished(bytes.drop_last()).push(bytes.last())
    }
}

/// The texts of the records.
pub open spec fn record_texts(records: Seq<Seq<u8>>) -> Seq<Seq<char>> {
    records.map_values(|record: Seq<u8>| utf8_lossy(record))
}

/// Whether no byte of `bytes` closes a record.
pub open spec fn open_ended(bytes: Seq<u8>) -> bool {
    forall|i: int| 0 <= i < bytes.len() ==> bytes[i] != LINE_FEED
}

/// Bytes without a line feed complete no record.
pub proof fn lemma_open_ended(bytes: Seq<u8>)
    requires
        open_ended(bytes),
    ensures
        complete_records(bytes) == Seq::<Seq<u8>>::empty(),
        unfinished(bytes) == bytes,
    decreases bytes.len(),
{
    if bytes.len() > 0 {
        lemma_open_ended(bytes.drop_last());
        assert(bytes.drop_last().push(bytes.last()) =~= bytes);
    }
}

/// What is left behind the last line feed holds no line feed.
pub proof fn lemma_unfinished_is_open_ended(bytes: Seq<u8>)
    ensures
        open_ended(unfinished(bytes)),
    decreases bytes.len(),
{
    if bytes.len() > 0 {
        lemma_unfinished_is_open_ended(bytes.drop_last());
    }
}

/// The records do not depend on where the stream was cut into pieces: to
/// frame `first`, and then `second` behind what `first` left unfinished,
/// gives the records of `first + second`, and leaves unfinished what
/// `first + second` leaves.
pub proof fn lemma_pieces_do_not_matter(first: Seq<u8>, second: Seq<u8>)
    ensures
        complete_records(first + second) == complete_records(first) + complete_records(
            unfinished(first) + second,
        ),
        unfinished(first + second) == unfinished(unfinished(first) + second),
    decreases second.len(),
{
    let whole = first + second;
    let resumed = unfinished(first) + second;
    if second.len() == 0 {
        lemma_unfinished_is_open_ended(first);
        lemma_open_ended(unfinished(first));
        assert(whole =~= first);
        assert(resumed =~= unfinished(first));
        assert(complete_records(first) + Seq::<Seq<u8>>::empty() =~= complete_records(first));
    } else {
        lemma_pieces_do_not_matter(first, second.drop_last());
        assert(whole.drop_last() =~= first + second.drop_last());
        assert(resumed.drop_last() =~= unfinished(first) + second.drop_last());
        assert(whole.last() == second.last());
        assert(resumed.last() == second.last());
        if second.last() == LINE_FEED {
            assert(complete_records(whole) =~= complete_records(first) + complete_records(
                resumed,
            ));
        }
    }
}

/// Assembles records from the pieces in which the child's output arrives.
pub struct LogFramer {
    pending: Vec<u8>,
}

impl View for LogFramer {
    type V = Seq<u8>;

    /// The bytes of the record that is not complete yet.
    closed spec fn view(&self) -> Seq<u8> {
        self.pending@
    }
}

impl LogFramer {
    /// The unfinished record holds no line feed.
    #[verifier::type_invariant]
    closed spec fn pending_is_open_ended(&self) -> bool {
        open_ended(self.pending@)
    }

    /// A framer that has seen nothing yet.
    pub fn new() -> (framer: Self)
        ensures
            framer@ == Seq::<u8>::empty(),
    {
        LogFramer { pending: Vec::new() }
    }

    /// Takes the next piece of the stream and returns the records that it
    /// completes, in order.
    pub fn push(&mut self, bytes: &[u8]) -> (records: Vec<String>)
        ensures
            records.deep_view() == record_texts(complete_records(old(self)@ + bytes@)),
            final(self)@ == unfinished(old(self)@ + bytes@),
    {
        let ghost start = self.pending@;
        proof {
            use_type_invariant(&*self);
            lemma_open_ended(start);
            assert(start + bytes@.take(0) =~= start);
        }
        let mut pending: Vec<u8> = Vec::new();
        std::mem::swap(&mut pending, &mut self.pending);
        let mut records: Vec<String> = Vec::new();
        let mut k: usize = 0;
        while k < bytes.len()
            invariant
                k <= bytes@.len(),
                records.deep_view() == record_texts(
                    complete_records(start + bytes@.take(k as int)),
                ),
                pending@ == unfinished(start + bytes@.take(k as int)),
            decreases bytes@.len() - k,
        {
            let ghost seen = start + bytes@.take(k as int);
            let ghost next = start + bytes@.take(k + 1);
            proof {
                assert(next.drop_last() =~= seen);
                assert(next.last() == bytes@[k as int]);
            }
            let byte: u8 = bytes[k];
            if byte == LINE_FEED {
                let ghost queued = records.deep_view();
                let size: usize = pending.len();
                if size > 0 && pending[size - 1] == CARRIAGE_RETURN {
                    pending.pop();
                }
                records.push(decode(&pending));
                pending = Vec::new();
                proof {
                    let record = record_of(unfinished(seen));
                    assert(records.deep_view() =~= queued.push(utf8_lossy(record)));
                    assert(complete_records(next) == complete_records(seen).push(record));
                    assert(record_texts(complete_records(seen).push(record)) =~= record_texts(
                        complete_records(seen),
                    ).push(utf8_lossy(record)));
                }
            } else {
                pending.push(byte);
            }
            k = k + 1;
        }
        proof {
            assert(bytes@.take(k as int) =~= bytes@);
            lemma_unfinished_is_open_ended(start + bytes@);
        }
        self.pending = pending;
        records
    }

    /// Ends the stream: what is left of an unfinished record is the last
    /// record.
    pub fn finish(&mut self) -> (record: Option<String>)
        ensures
            final(self)@ == Seq::<u8>::empty(),
            record.deep_view() == if old(self)@.len() > 0 {
                Some(utf8_lossy(old(self)@))
            } else {
                None
            },
    {
        let mut pending: Vec<u8> = Vec::new();
        std::mem::swap(&mut pending, &mut self.pending);
        if pending.len() == 0 {
            None
        } else {
            Some(decode(&pending))
        }
    }
}

} // verus!
