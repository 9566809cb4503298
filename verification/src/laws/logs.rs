//! Laws of the service log.
use vstd::prelude::*;
use vstd::utf8::{
    decode_utf8_encode_utf8, decode_utf8_split, encode_utf8, encode_utf8_decode_utf8,
    encode_utf8_first_scalar, encode_utf8_valid_utf8, valid_utf8_split,
};

use crate::dialogue::{
    appends_log, carried_out, converses, lemma_exchange, logged, outcome, tally, Exchange, World,
};
use crate::host::{Level, ReplyView, RequestView};
use crate::logs::{byte_limit, failure_entry_of, ClearLogStage, ReadLogStage, ReportStageView};
use crate::text::{
    byte_len, cuts_between_chars, flattened, is_line_break, last_bytes, lemma_encode_concat,
};

verus! {

/// Whether `part` is how `whole` ends.
pub open spec fn is_end_of(part: Seq<char>, whole: Seq<char>) -> bool {
    part.len() <= whole.len() && part == whole.skip(whole.len() - part.len())
}

/// The entry of a failure report is one line whatever the detail holds: it has no line
/// break. It is as long as the detail with the fixed words in front, and a detail of one
/// line stands in it unchanged.
pub proof fn failure_entry_is_one_line(detail: Seq<char>)
    ensures
        forall|i: int|
            0 <= i < failure_entry_of(detail).len() ==> !is_line_break(
                #[trigger] failure_entry_of(detail)[i],
            ),
        failure_entry_of(detail).len() == failure_entry_of(Seq::empty()).len() + detail.len(),
        (forall|i: int| 0 <= i < detail.len() ==> !is_line_break(#[trigger] detail[i]))
            ==> is_end_of(detail, failure_entry_of(detail)),
{
    reveal_strlit("[desktop-window-drag] injection failed: ");
    let words = "[desktop-window-drag] injection failed: "@;
    let entry = failure_entry_of(detail);
    assert(entry == words + flattened(detail));
    assert forall|i: int| 0 <= i < entry.len() implies !is_line_break(#[trigger] entry[i]) by {
        if i >= words.len() {
            assert(entry[i] == flattened(detail)[i - words.len()]);
        }
    }
    if forall|i: int| 0 <= i < detail.len() ==> !is_line_break(#[trigger] detail[i]) {
        assert(flattened(detail) =~= detail);
        assert(detail =~= entry.skip(entry.len() - detail.len()));
    }
}

/// Reporting a failure never fails. The entry goes to the log of the application once, as
/// an error, whatever becomes of the rest. Where the service log has no parent directory or
/// that cannot be created, the service log is not touched. Else the entry and a line feed
/// are added to the end of it; where that fails, nothing but the service log can have
/// changed.
pub proof fn report_adds_one_line(
    detail: Seq<char>,
    world: World,
    talk: Seq<Exchange>,
    end: Result<(), Seq<char>>,
)
    requires
        converses(ReportStageView::Logging(detail), talk, end),
        carried_out(world, talk),
    ensures
        end == Ok::<(), Seq<char>>(()),
        talk[0].request == RequestView::Log(Level::Error, failure_entry_of(detail)),
        logged(talk) == seq![(Level::Error, failure_entry_of(detail))],
        outcome(world, talk) == (World {
            log: outcome(world, talk).log,
            journal: world.journal.push((Level::Error, failure_entry_of(detail))),
            ..world
        }),
        talk[1].request == RequestView::LogHasParent,
        talk.len() > 2 ==> talk[2].request == RequestView::CreateLogDir,
        talk.len() == (if talk[1].reply == ReplyView::Flag(false) {
            2nat
        } else if talk[2].reply != ReplyView::Outcome(Ok(())) {
            3nat
        } else {
            4nat
        }),
        talk.len() < 4 ==> tally(talk, appends_log()) == 0 && outcome(world, talk).log == world.log,
        talk.len() == 4 ==> {
            &&& tally(talk, appends_log()) == 1
            &&& talk[3].request == RequestView::AppendLog(failure_entry_of(detail) + "\n"@)
            &&& talk[3].reply == ReplyView::Outcome(Ok(())) ==> outcome(world, talk).log == Some(
                world.log_text() + failure_entry_of(detail) + "\n"@,
            )
        },
{
    let line = failure_entry_of(detail) + "\n"@;
    assert(talk.skip(0) =~= talk);
    lemma_exchange(ReportStageView::Logging(detail), world, talk, end, 0);
    lemma_exchange(ReportStageView::Locating(detail), talk[0].after, talk, end, 1);
    if talk[1].reply == ReplyView::Flag(true) {
        lemma_exchange(ReportStageView::CreatingDir(detail), talk[1].after, talk, end, 2);
        match talk[2].reply->Outcome_0 {
            Ok(unit) => {
                assert(unit == ());
                lemma_exchange(ReportStageView::Appending(line), talk[2].after, talk, end, 3);
                assert(talk.skip(4).len() == 0);
                assert(world.log_text() + failure_entry_of(detail) + "\n"@ =~= world.log_text()
                    + line);
            },
            Err(_) => {
                assert(talk.skip(3).len() == 0);
            },
        }
    } else {
        assert(talk.skip(2).len() == 0);
    }
}

/// The last bytes of a text that are whole characters are how the text ends, and they are
/// as many as asked for, or all.
pub proof fn last_bytes_are_the_end(text: Seq<char>, max: nat)
    requires
        cuts_between_chars(text, max),
    ensures
        is_end_of(last_bytes(text, max), text),
        byte_len(last_bytes(text, max)) == if byte_len(text) <= max {
            byte_len(text)
        } else {
            max
        },
{
    let part = last_bytes(text, max);
    if byte_len(text) <= max {
        assert(text.skip(0) =~= text);
    } else {
        let bytes = encode_utf8(text);
        let mid = byte_len(text) - max;
        let end = bytes.subrange(mid, bytes.len() as int);
        encode_utf8_valid_utf8(text);
        encode_utf8_decode_utf8(text);
        valid_utf8_split(bytes, mid);
        decode_utf8_split(bytes, mid);
        decode_utf8_encode_utf8(end);
        assert(part =~= text.skip(text.len() - part.len()));
    }
}

/// Reading the log gives how the log ends: all of it where it is no longer than the limit,
/// else as many bytes as the limit says. A log that is missing reads as empty. Reading
/// changes nothing.
pub proof fn reading_gives_the_end_of_the_log(
    max_bytes: Option<usize>,
    world: World,
    talk: Seq<Exchange>,
    text: Seq<char>,
)
    requires
        cuts_between_chars(world.log_text(), byte_limit(max_bytes)),
        converses(ReadLogStage::Checking(max_bytes), talk, Ok(text)),
        carried_out(world, talk),
    ensures
        is_end_of(text, world.log_text()),
        byte_len(world.log_text()) <= byte_limit(max_bytes) ==> text == world.log_text(),
        byte_len(world.log_text()) > byte_limit(max_bytes) ==> byte_len(text) == byte_limit(
            max_bytes,
        ),
        outcome(world, talk) == world,
{
    reveal_with_fuel(converses, 3);
    reveal_with_fuel(carried_out, 3);
    reveal_with_fuel(outcome, 3);
    last_bytes_are_the_end(world.log_text(), byte_limit(max_bytes));
    if world.log is None {
        assert(text =~= world.log_text());
    }
}

/// A missing log is no error: it reads as empty.
pub proof fn missing_log_reads_as_empty(
    max_bytes: Option<usize>,
    world: World,
    talk: Seq<Exchange>,
    end: Result<Seq<char>, Seq<char>>,
)
    requires
        world.log is None,
        converses(ReadLogStage::Checking(max_bytes), talk, end),
        carried_out(world, talk),
    ensures
        end == Ok::<Seq<char>, Seq<char>>(Seq::empty()),
{
}

/// After the log was emptied, reading it gives nothing.
pub proof fn cleared_log_reads_as_empty(
    max_bytes: Option<usize>,
    world: World,
    clear: Seq<Exchange>,
    read: Seq<Exchange>,
    text: Seq<char>,
)
    requires
        converses(ClearLogStage::Clearing, clear, Ok(())),
        carried_out(world, clear),
        converses(ReadLogStage::Checking(max_bytes), read, Ok(text)),
        carried_out(outcome(world, clear), read),
    ensures
        outcome(world, clear) == (World { log: Some(Seq::empty()), ..world }),
        text == Seq::<char>::empty(),
{
    reveal_with_fuel(outcome, 2);
    let cleared = outcome(world, clear);
    assert(byte_len(cleared.log_text()) == 0);
    reading_gives_the_end_of_the_log(max_bytes, cleared, read, text);
}

/// Of two ends of one text, the one with no more bytes is an end of the other.
proof fn lemma_longer_end(a: Seq<char>, b: Seq<char>, whole: Seq<char>)
    requires
        is_end_of(a, whole),
        is_end_of(b, whole),
        byte_len(a) >= byte_len(b),
    ensures
        is_end_of(b, a),
{
    if a.len() < b.len() {
        let more = b.take(b.len() - a.len());
        assert(b =~= more + a);
        lemma_encode_concat(more, a);
        encode_utf8_first_scalar(more);
        assert(false);
    }
    assert(b =~= a.skip(a.len() - b.len()));
}

/// A larger limit only adds older text in front: of two reads of one log, the one with the
/// smaller limit gives how the other one ends.
pub proof fn larger_limit_adds_older_text(
    smaller: Option<usize>,
    larger: Option<usize>,
    world: World,
    first: Seq<Exchange>,
    text: Seq<char>,
    second: Seq<Exchange>,
    longer_text: Seq<char>,
)
    requires
        byte_limit(smaller) <= byte_limit(larger),
        cuts_between_chars(world.log_text(), byte_limit(smaller)),
        cuts_between_chars(world.log_text(), byte_limit(larger)),
        converses(ReadLogStage::Checking(smaller), first, Ok(text)),
        carried_out(world, first),
        converses(ReadLogStage::Checking(larger), second, Ok(longer_text)),
        carried_out(world, second),
    ensures
        is_end_of(text, longer_text),
{
    reading_gives_the_end_of_the_log(smaller, world, first, text);
    reading_gives_the_end_of_the_log(larger, world, second, longer_text);
    lemma_longer_end(longer_text, text, world.log_text());
}

/// A report that was written is the last line that reading the log gives, where the limit
/// leaves room for it.
pub proof fn reported_failure_is_read_back(
    detail: Seq<char>,
    max_bytes: Option<usize>,
    world: World,
    report: Seq<Exchange>,
    read: Seq<Exchange>,
    text: Seq<char>,
)
    requires
        converses(ReportStageView::Logging(detail), report, Ok(())),
        carried_out(world, report),
        report.len() == 4,
        report[3].reply == ReplyView::Outcome(Ok(())),
        cuts_between_chars(outcome(world, report).log_text(), byte_limit(max_bytes)),
        converses(ReadLogStage::Checking(max_bytes), read, Ok(text)),
        carried_out(outcome(world, report), read),
        byte_len(failure_entry_of(detail) + "\n"@) <= byte_limit(max_bytes),
    ensures
        is_end_of(failure_entry_of(detail) + "\n"@, text),
{
    let line = failure_entry_of(detail) + "\n"@;
    let log = outcome(world, report).log_text();
    report_adds_one_line(detail, world, report, Ok(()));
    assert(log =~= world.log_text() + line);
    assert(line =~= log.skip(log.len() - line.len()));
    reading_gives_the_end_of_the_log(max_bytes, outcome(world, report), read, text);
    lemma_encode_concat(world.log_text(), line);
    lemma_longer_end(text, line, log);
}

} // verus!
