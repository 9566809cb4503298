//! What the service log and the texts in it are for.
use vstd::prelude::*;
use vstd::utf8::{
    decode_utf8_encode_utf8, decode_utf8_split, encode_utf8, encode_utf8_decode_utf8,
    encode_utf8_first_scalar, encode_utf8_valid_utf8, is_char_boundary,
    is_char_boundary_iff_not_is_continuation_byte, is_char_boundary_start_end_of_seq,
    valid_utf8_split,
};

use crate::dialogue::{carried_out, converses, lemma_exchange, logged, outcome, Exchange, World};
use crate::host::{Level, ReplyView, RequestView};
use crate::logs::{failure_entry_of, ClearLogStage, ReadLogStage, ReportStageView};
use crate::text::{cuts_between_chars, flattened, last_bytes, lemma_encode_concat};

verus! {

/// A text on one line has as many characters as it had before. A carriage return or a line
/// feed has become a space, and every other character stands where it stood.
pub proof fn one_line_differs_in_line_breaks_only(text: Seq<char>)
    ensures
        flattened(text).len() == text.len(),
        forall|i: int|
            0 <= i < text.len() ==> #[trigger] flattened(text)[i] == (if text[i] == '\r'
                || text[i] == '\n' {
                ' '
            } else {
                text[i]
            }),
{
}

/// The entry of a failure report is made of fixed words and the detail on one line.
pub proof fn entry_is_fixed_words_and_the_detail(detail: Seq<char>)
    ensures
        failure_entry_of(detail) == "[desktop-window-drag] injection failed: "@ + Seq::new(
            detail.len(),
            |i: int|
                if detail[i] == '\r' || detail[i] == '\n' {
                    ' '
                } else {
                    detail[i]
                },
        ),
{
    one_line_differs_in_line_breaks_only(detail);
    assert(flattened(detail) =~= Seq::new(
        detail.len(),
        |i: int|
            if detail[i] == '\r' || detail[i] == '\n' {
                ' '
            } else {
                detail[i]
            },
    ));
}

/// A report writes its entry to the log of the application, as an error, and then, with a
/// line feed behind it, to the end of the service log. A service log without a parent
/// directory, or whose directory cannot be created, is left alone. Whatever fails, the
/// command ends well.
pub proof fn failure_is_reported_on_one_line(
    detail: Seq<char>,
    world: World,
    talk: Seq<Exchange>,
    end: Result<(), Seq<char>>,
)
    requires
        converses(ReportStageView::Logging(detail), talk, end),
        carried_out(world, talk),
    ensures
        ({
            let entry = "[desktop-window-drag] injection failed: "@ + Seq::new(
                detail.len(),
                |i: int|
                    if detail[i] == '\r' || detail[i] == '\n' {
                        ' '
                    } else {
                        detail[i]
                    },
            );
            let noted = World { journal: world.journal.push((Level::Error, entry)), ..world };
            &&& end == Ok::<(), Seq<char>>(())
            &&& logged(talk) == seq![(Level::Error, entry)]
            &&& talk[0].request == RequestView::Log(Level::Error, entry)
            &&& talk[1].request == RequestView::LogHasParent
            &&& match talk[1].reply {
                ReplyView::Flag(false) => talk.len() == 2 && outcome(world, talk) == noted,
                ReplyView::Flag(true) => {
                    &&& talk[2].request == RequestView::CreateLogDir
                    &&& match talk[2].reply {
                        ReplyView::Outcome(Err(_)) => {
                            &&& talk.len() == 3
                            &&& outcome(world, talk) == noted
                        },
                        ReplyView::Outcome(Ok(_)) => {
                            &&& talk.len() == 4
                            &&& talk[3].request == RequestView::AppendLog(entry + "\n"@)
                            &&& outcome(world, talk) == (World {
                                log: outcome(world, talk).log,
                                ..noted
                            })
                            &&& talk[3].reply == ReplyView::Outcome(Ok(())) ==> outcome(
                                world,
                                talk,
                            ).log == Some(
                                match world.log {
                                    Some(log) => log + (entry + "\n"@),
                                    None => entry + "\n"@,
                                },
                            )
                        },
                        _ => false,
                    }
                },
                _ => false,
            }
        }),
{
    entry_is_fixed_words_and_the_detail(detail);
    let line = failure_entry_of(detail) + "\n"@;
    assert(talk.skip(0) =~= talk);
    lemma_exchange(ReportStageView::Logging(detail), world, talk, end, 0);
    lemma_exchange(ReportStageView::Locating(detail), talk[0].after, talk, end, 1);
    if talk[1].reply == ReplyView::Flag(true) {
        lemma_exchange(ReportStageView::CreatingDir(detail), talk[1].after, talk, end, 2);
        if let ReplyView::Outcome(Ok(_)) = talk[2].reply {
            lemma_exchange(ReportStageView::Appending(line), talk[2].after, talk, end, 3);
            assert(talk.skip(4).len() == 0);
            assert(Seq::empty() + line =~= line);
        } else {
            assert(talk.skip(3).len() == 0);
        }
    } else {
        assert(talk.skip(2).len() == 0);
    }
    assert(logged(talk) =~= seq![(Level::Error, failure_entry_of(detail))]);
}

/// Of a text that ends in `tail`, the last bytes, as many as `tail` has, are `tail`; and of a
/// text that has no more bytes than asked for, they are all of it.
pub proof fn last_bytes_are_what_the_text_ends_in(head: Seq<char>, tail: Seq<char>, more: nat)
    ensures
        last_bytes(head + tail, encode_utf8(tail).len()) == tail,
        last_bytes(tail, encode_utf8(tail).len() + more) == tail,
{
    let text = head + tail;
    let size = encode_utf8(tail).len();
    lemma_encode_concat(head, tail);
    if encode_utf8(text).len() <= size {
        if head.len() > 0 {
            encode_utf8_first_scalar(head);
        }
        assert(text =~= tail);
    } else {
        let bytes = encode_utf8(text);
        assert(bytes.subrange(bytes.len() - size, bytes.len() as int) =~= encode_utf8(tail));
        encode_utf8_decode_utf8(tail);
    }
}

/// Cutting a text down to its last bytes leaves whole characters if and only if the text has
/// no more bytes than that, or ends in a text of just as many.
pub proof fn cut_is_clean_where_a_text_fits(text: Seq<char>, max: nat)
    ensures
        cuts_between_chars(text, max) <==> {
            ||| encode_utf8(text).len() <= max
            ||| exists|head: Seq<char>, tail: Seq<char>|
                text == #[trigger] (head + tail) && encode_utf8(tail).len() == max
        },
{
    let bytes = encode_utf8(text);
    encode_utf8_valid_utf8(text);
    if bytes.len() > max {
        let mid = bytes.len() - max;
        if cuts_between_chars(text, max) {
            assert(is_char_boundary(bytes, mid));
            let front = bytes.subrange(0, mid);
            let back = bytes.subrange(mid, bytes.len() as int);
            valid_utf8_split(bytes, mid);
            decode_utf8_split(bytes, mid);
            decode_utf8_encode_utf8(back);
            encode_utf8_decode_utf8(text);
            let head = vstd::utf8::decode_utf8(front);
            let tail = vstd::utf8::decode_utf8(back);
            assert(text =~= head + tail);
            assert(encode_utf8(tail).len() == max);
        }
        if exists|head: Seq<char>, tail: Seq<char>|
            text == #[trigger] (head + tail) && encode_utf8(tail).len() == max {
            let (head, tail) = choose|head: Seq<char>, tail: Seq<char>|
                text == #[trigger] (head + tail) && encode_utf8(tail).len() == max;
            lemma_boundary(head, tail);
            lemma_encode_concat(head, tail);
            assert(is_char_boundary(bytes, mid));
        }
    }
}

/// Between two joined texts there is a character boundary.
proof fn lemma_boundary(head: Seq<char>, tail: Seq<char>)
    ensures
        is_char_boundary(encode_utf8(head + tail), encode_utf8(head).len() as int),
{
    let bytes = encode_utf8(head + tail);
    let mid = encode_utf8(head).len() as int;
    lemma_encode_concat(head, tail);
    encode_utf8_valid_utf8(head + tail);
    encode_utf8_valid_utf8(tail);
    if encode_utf8(tail).len() == 0 {
        is_char_boundary_start_end_of_seq(bytes);
    } else {
        is_char_boundary_start_end_of_seq(encode_utf8(tail));
        is_char_boundary_iff_not_is_continuation_byte(encode_utf8(tail), 0);
        is_char_boundary_iff_not_is_continuation_byte(bytes, mid);
        assert(bytes[mid] == encode_utf8(tail)[0]);
    }
}

/// A read can go on with every reply but one: a log that is longer than the number of bytes
/// to read, 65536 where the caller sets none, and that does not end in a text of just as
/// many bytes.
pub proof fn read_stops_only_inside_a_character(stage: ReadLogStage, reply: ReplyView)
    ensures
        match (stage, reply) {
            (ReadLogStage::Reading(max_bytes), ReplyView::TextOutcome(Ok(log))) => {
                let max: nat = match max_bytes {
                    Some(max) => max as nat,
                    None => 65536,
                };
                stage.admits(reply) <==> {
                    ||| encode_utf8(log).len() <= max
                    ||| exists|head: Seq<char>, tail: Seq<char>|
                        log == #[trigger] (head + tail) && encode_utf8(tail).len() == max
                }
            },
            _ => stage.admits(reply),
        },
{
    if let (ReadLogStage::Reading(max_bytes), ReplyView::TextOutcome(Ok(log))) = (stage, reply) {
        let max: nat = match max_bytes {
            Some(max) => max as nat,
            None => 65536,
        };
        cut_is_clean_where_a_text_fits(log, max);
    }
}

/// A log of no more bytes than asked for, 65536 where the caller asks for no number, is read
/// whole. A log that is missing reads as empty. A log that cannot be read is an error, with
/// the reason as its message. Reading changes nothing.
pub proof fn short_log_is_read_whole(
    max_bytes: Option<usize>,
    world: World,
    talk: Seq<Exchange>,
    end: Result<Seq<char>, Seq<char>>,
)
    requires
        converses(ReadLogStage::Checking(max_bytes), talk, end),
        carried_out(world, talk),
        world.log matches Some(log) ==> match max_bytes {
            Some(max) => encode_utf8(log).len() <= max,
            None => encode_utf8(log).len() <= 65536,
        },
    ensures
        talk[0].request == RequestView::LogExists,
        match world.log {
            None => talk.len() == 1 && end == Ok::<Seq<char>, Seq<char>>(Seq::empty()),
            Some(log) => {
                &&& talk.len() == 2
                &&& talk[1].request == RequestView::ReadLog
                &&& match talk[1].reply {
                    ReplyView::TextOutcome(Ok(_)) => end == Ok::<Seq<char>, Seq<char>>(log),
                    ReplyView::TextOutcome(Err(message)) => end == Err::<Seq<char>, Seq<char>>(
                        message,
                    ),
                    _ => false,
                }
            },
        },
        outcome(world, talk) == world,
{
    assert(talk.skip(0) =~= talk);
    lemma_exchange(ReadLogStage::Checking(max_bytes), world, talk, end, 0);
    if let Some(log) = world.log {
        lemma_exchange(ReadLogStage::Reading(max_bytes), world, talk, end, 1);
        assert(talk.skip(2).len() == 0);
        let max: nat = match max_bytes {
            Some(max) => max as nat,
            None => 65536,
        };
        let more = (max - encode_utf8(log).len()) as nat;
        last_bytes_are_what_the_text_ends_in(Seq::empty(), log, more);
    } else {
        assert(talk.skip(1).len() == 0);
    }
}

/// Of a log that ends in a text of as many bytes as asked for, 65536 where the caller asks
/// for no number, just that text is read. A log that cannot be read is an error, with the
/// reason as its message. Reading changes nothing.
pub proof fn long_log_is_read_from_its_end(
    max_bytes: Option<usize>,
    head: Seq<char>,
    tail: Seq<char>,
    world: World,
    talk: Seq<Exchange>,
    end: Result<Seq<char>, Seq<char>>,
)
    requires
        converses(ReadLogStage::Checking(max_bytes), talk, end),
        carried_out(world, talk),
        world.log == Some(head + tail),
        match max_bytes {
            Some(max) => encode_utf8(tail).len() == max,
            None => encode_utf8(tail).len() == 65536,
        },
    ensures
        talk.len() == 2,
        talk[0].request == RequestView::LogExists,
        talk[1].request == RequestView::ReadLog,
        match talk[1].reply {
            ReplyView::TextOutcome(Ok(_)) => end == Ok::<Seq<char>, Seq<char>>(tail),
            ReplyView::TextOutcome(Err(message)) => end == Err::<Seq<char>, Seq<char>>(message),
            _ => false,
        },
        outcome(world, talk) == world,
{
    assert(talk.skip(0) =~= talk);
    lemma_exchange(ReadLogStage::Checking(max_bytes), world, talk, end, 0);
    lemma_exchange(ReadLogStage::Reading(max_bytes), world, talk, end, 1);
    assert(talk.skip(2).len() == 0);
    last_bytes_are_what_the_text_ends_in(head, tail, 0);
}

/// Emptying the log replaces its content with nothing, and the command ends as that write
/// did.
pub proof fn cleared_log_holds_nothing(
    world: World,
    talk: Seq<Exchange>,
    end: Result<(), Seq<char>>,
)
    requires
        converses(ClearLogStage::Clearing, talk, end),
        carried_out(world, talk),
    ensures
        talk.len() == 1,
        talk[0].request == RequestView::WriteLog(Seq::empty()),
        talk[0].reply == ReplyView::Outcome(end),
        end is Ok ==> outcome(world, talk) == (World { log: Some(Seq::empty()), ..world }),
{
    assert(talk.skip(0) =~= talk);
    lemma_exchange(ClearLogStage::Clearing, world, talk, end, 0);
    assert(talk.skip(1).len() == 0);
    if let ReplyView::Outcome(Ok(unit)) = talk[0].reply {
        assert(unit == ());
    }
}

} // verus!
