//! Laws that hold of every line the parser is given.

use vstd::prelude::*;
use crate::line::{
    date_token, ends_in_zulu, line_model, parse_outcome, FailureKind, TimeWarriorLine,
    TimeWarriorLineError,
};
use crate::text::words;
use crate::timestamp::UtcDateTime;

verus! {

/// A line is rejected when it has no words, has no start date, has a word after the start
/// date that is neither `#` nor `-`, ends right after `-`, or has a word other than `#`
/// after its end date.
pub proof fn lemma_malformed_lines_fail(
    line: Seq<char>,
    r: Result<TimeWarriorLine, TimeWarriorLineError>,
    now: UtcDateTime,
)
    requires
        parse_outcome(r, line, now),
        ({
            let w = words(line);
            ||| w.len() <= 1
            ||| date_token(w[1]) is None
            ||| (w.len() >= 3 && w[2] != seq!['#'] && w[2] != seq!['-'])
            ||| (w.len() == 3 && w[2] == seq!['-'])
            ||| (w.len() >= 5 && w[2] == seq!['-'] && w[4] != seq!['#'])
        }),
    ensures
        r is Err,
        line_model(line) is Err,
{
    assert(seq!['-'][0] != seq!['#'][0]);
}

/// A date token whose zone marker is not `Z` is never a date: as the start date it makes the
/// line fail with `NoDate`, as the end date it makes the line fail.
pub proof fn lemma_only_zulu_dates(
    line: Seq<char>,
    r: Result<TimeWarriorLine, TimeWarriorLineError>,
    now: UtcDateTime,
)
    requires
        parse_outcome(r, line, now),
        words(line).len() >= 2,
    ensures
        forall|tok: Seq<char>| !ends_in_zulu(tok) ==> #[trigger] date_token(tok) is None,
        !ends_in_zulu(words(line)[1]) ==> r is Err && r->Err_0.kind() == FailureKind::NoDate,
        words(line).len() >= 4 && words(line)[2] == seq!['-'] && !ends_in_zulu(words(line)[3])
            ==> r is Err,
{
    assert(seq!['-'][0] != seq!['#'][0]);
}

/// For a closed interval, the duration is the difference of the two dates on the line,
/// whatever the clock read while parsing.
pub proof fn lemma_closed_duration_ignores_clock(
    line: Seq<char>,
    r1: TimeWarriorLine,
    now1: UtcDateTime,
    r2: TimeWarriorLine,
    now2: UtcDateTime,
)
    requires
        parse_outcome(Ok(r1), line, now1),
        parse_outcome(Ok(r2), line, now2),
        !r1.active_spec(),
    ensures
        !r2.active_spec(),
        r1.duration_spec() == r2.duration_spec(),
        r1.duration_spec() == date_token(words(line)[3])->0.epoch_seconds() - date_token(
            words(line)[1],
        )->0.epoch_seconds(),
{
}

/// Parsing one line twice gives the same verdict; two records agree in kind, start, tags
/// and activity, and in their end when the line gives an end date.
pub proof fn lemma_parse_is_repeatable(
    line: Seq<char>,
    ra: Result<TimeWarriorLine, TimeWarriorLineError>,
    now_a: UtcDateTime,
    rb: Result<TimeWarriorLine, TimeWarriorLineError>,
    now_b: UtcDateTime,
)
    requires
        parse_outcome(ra, line, now_a),
        parse_outcome(rb, line, now_b),
    ensures
        ra is Ok <==> rb is Ok,
        ra is Err ==> ra->Err_0.kind() == rb->Err_0.kind(),
        ra is Ok ==> {
            let (a, b) = (ra->Ok_0, rb->Ok_0);
            &&& a.kind_spec() == b.kind_spec()
            &&& a.start_spec() == b.start_spec()
            &&& a.tags_spec() == b.tags_spec()
            &&& a.active_spec() == b.active_spec()
            &&& !a.active_spec() ==> a.end_spec() == b.end_spec()
        },
{
}

} // verus!
