//! The line grammar: `<kind> <start> [ "#" <tags> | "-" <end> [ "#" <tags> ] ]`.

use vstd::prelude::*;
use crate::text::{
    char_views, join_from, join_words, split_tags, split_words, string_of_chars, string_views,
    tags_of, words,
};
use crate::timestamp::{
    chrono_compact_utc, parse_compact_utc, seconds_between, utc_now, CalendarDate, UtcDateTime,
};

verus! {

/// The class of a rejected line.
#[derive(Clone, Copy, Debug, PartialEq, Eq, Structural)]
pub enum FailureKind {
    /// A grammar rule other than the start date was broken.
    Generic,
    /// The start date is missing or does not parse.
    NoDate,
}

/// What a well-formed line says; `end` is `None` for an interval still running.
pub struct LineModel {
    pub kind: Seq<char>,
    pub start: UtcDateTime,
    pub end: Option<UtcDateTime>,
    pub tags: Seq<Seq<char>>,
}

/// The token ends in the zone marker `Z`.
pub open spec fn ends_in_zulu(tok: Seq<char>) -> bool {
    tok.len() > 0 && tok.last() == 'Z'
}

/// The instant a date token names: `Z` is the only zone marker accepted.
pub open spec fn date_token(tok: Seq<char>) -> Option<UtcDateTime> {
    if ends_in_zulu(tok) {
        chrono_compact_utc(tok)
    } else {
        None
    }
}

/// The tags of the words from index `k` on.
pub open spec fn tags_from(toks: Seq<Seq<char>>, k: int) -> Seq<Seq<char>> {
    tags_of(join_words(toks.subrange(k, toks.len() as int)))
}

/// The meaning of a line's words, or the first grammar rule they break.
pub open spec fn model_of_words(toks: Seq<Seq<char>>) -> Result<LineModel, FailureKind> {
    if toks.len() == 0 {
        Err(FailureKind::Generic)
    } else if toks.len() < 2 || date_token(toks[1]) is None {
        Err(FailureKind::NoDate)
    } else {
        let kind = toks[0];
        let start = date_token(toks[1])->0;
        if toks.len() == 2 {
            Ok(LineModel { kind, start, end: None, tags: seq![] })
        } else if toks[2] == seq!['#'] {
            Ok(LineModel { kind, start, end: None, tags: tags_from(toks, 3) })
        } else if toks[2] == seq!['-'] {
            if toks.len() == 3 {
                Err(FailureKind::Generic)
            } else if toks.len() > 4 && toks[4] != seq!['#'] {
                Err(FailureKind::Generic)
            } else if date_token(toks[3]) is None {
                Err(FailureKind::Generic)
            } else {
                let end = Some(date_token(toks[3])->0);
                let tags = if toks.len() == 4 {
                    seq![]
                } else {
                    tags_from(toks, 5)
                };
                Ok(LineModel { kind, start, end, tags })
            }
        } else {
            Err(FailureKind::Generic)
        }
    }
}

pub open spec fn line_model(line: Seq<char>) -> Result<LineModel, FailureKind> {
    model_of_words(words(line))
}

/// One parsed line: a kind, an interval and its tags.
#[derive(Debug)]
pub struct TimeWarriorLine {
    tw_type: String,
    from: UtcDateTime,
    until: UtcDateTime,
    tags: Vec<String>,
    active: bool,
}

/// Why a line was rejected.
#[derive(Debug)]
pub enum TimeWarriorLineError {
    Generic(String),
    NoDate(),
}

impl TimeWarriorLineError {
    pub open spec fn kind(&self) -> FailureKind {
        match self {
            TimeWarriorLineError::Generic(_) => FailureKind::Generic,
            TimeWarriorLineError::NoDate() => FailureKind::NoDate,
        }
    }
}

/// The end of the interval that `m` describes when the clock reads `now`.
pub open spec fn end_at(m: LineModel, now: UtcDateTime) -> UtcDateTime {
    match m.end {
        Some(e) => e,
        None => now,
    }
}

impl TimeWarriorLine {
    pub closed spec fn kind_spec(&self) -> Seq<char> {
        self.tw_type@
    }

    pub closed spec fn start_spec(&self) -> UtcDateTime {
        self.from
    }

    pub closed spec fn end_spec(&self) -> UtcDateTime {
        self.until
    }

    pub closed spec fn tags_spec(&self) -> Seq<Seq<char>> {
        string_views(self.tags@)
    }

    pub closed spec fn active_spec(&self) -> bool {
        self.active
    }

    /// Both instants are valid.
    #[verifier::type_invariant]
    closed spec fn instants_valid(&self) -> bool {
        self.from.wf() && self.until.wf()
    }

    /// This record is what `m` describes, read with the clock at `now`.
    pub open spec fn matches(&self, m: LineModel, now: UtcDateTime) -> bool {
        &&& self.kind_spec() == m.kind
        &&& self.start_spec() == m.start
        &&& self.end_spec() == end_at(m, now)
        &&& self.active_spec() == (m.end is None)
        &&& self.tags_spec() == m.tags
    }

    pub open spec fn duration_spec(&self) -> int {
        self.end_spec().epoch_seconds() - self.start_spec().epoch_seconds()
    }
}

/// The instant a date token names, if any.
fn parse_date(tok: &Vec<char>) -> (r: Option<UtcDateTime>)
    ensures
        r == date_token(tok@),
        r matches Some(t) ==> t.wf(),
{
    if tok.len() == 0 || tok[tok.len() - 1] != 'Z' {
        return None;
    }
    let s = string_of_chars(tok);
    parse_compact_utc(s.as_str())
}

/// Whether a word is the single character `c`.
fn is_marker(tok: &Vec<char>, c: char) -> (r: bool)
    ensures
        r == (tok@ == seq![c]),
{
    let r = tok.len() == 1 && tok[0] == c;
    proof {
        if r {
            assert(tok@ =~= seq![c]);
        }
    }
    r
}

fn unexpected(tok: &Vec<char>) -> (r: TimeWarriorLineError)
    ensures
        r.kind() == FailureKind::Generic,
{
    let mut msg = String::from_str("Unexpected token: ");
    let t = string_of_chars(tok);
    msg.append(t.as_str());
    TimeWarriorLineError::Generic(msg)
}

/// The outcome that `parse_at` owes on `line` with the clock at `now`.
pub open spec fn parse_outcome(
    r: Result<TimeWarriorLine, TimeWarriorLineError>,
    line: Seq<char>,
    now: UtcDateTime,
) -> bool {
    match line_model(line) {
        Ok(m) => r is Ok && r->Ok_0.matches(m, now),
        Err(k) => r is Err && r->Err_0.kind() == k,
    }
}

impl TimeWarriorLine {
    /// Parses a line; an interval still running ends at `now`.
    pub fn parse_at(line: &str, now: UtcDateTime) -> (r: Result<TimeWarriorLine, TimeWarriorLineError>)
        requires
            now.wf(),
        ensures
            parse_outcome(r, line@, now),
    {
        let toks = split_words(line);
        let n = toks.len();
        if n == 0 {
            return Err(TimeWarriorLineError::Generic(String::from_str("Type parsing")));
        }
        if n < 2 {
            return Err(TimeWarriorLineError::NoDate());
        }
        let start = match parse_date(&toks[1]) {
            Some(d) => d,
            None => {
                return Err(TimeWarriorLineError::NoDate());
            },
        };
        let until: UtcDateTime;
        let active: bool;
        let tag_from: usize;
        if n == 2 {
            until = now;
            active = true;
            tag_from = 2;
        } else if is_marker(&toks[2], '#') {
            until = now;
            active = true;
            tag_from = 3;
        } else if is_marker(&toks[2], '-') {
            if n == 3 {
                return Err(TimeWarriorLineError::Generic(String::from_str("nope")));
            }
            if n > 4 && !is_marker(&toks[4], '#') {
                return Err(unexpected(&toks[4]));
            }
            match parse_date(&toks[3]) {
                Some(e) => {
                    until = e;
                },
                None => {
                    return Err(unexpected(&toks[3]));
                },
            }
            active = false;
            tag_from = if n == 4 { 4 } else { 5 };
        } else {
            return Err(unexpected(&toks[2]));
        }
        let section = join_from(&toks, tag_from);
        let tags = split_tags(&section);
        let tw_type = string_of_chars(&toks[0]);
        proof {
            if tag_from == n {
                assert(char_views(toks@).subrange(tag_from as int, n as int) =~= seq![]);
                assert(tags_of(seq![]) == Seq::<Seq<char>>::empty());
            }
        }
        Ok(TimeWarriorLine { tw_type, from: start, until, tags, active })
    }

    /// Parses a line; an interval still running ends at the current time.
    pub fn from_str(line: &str) -> (r: Result<TimeWarriorLine, TimeWarriorLineError>)
        ensures
            exists|now: UtcDateTime| now.wf() && #[trigger] parse_outcome(r, line@, now),
    {
        let now = utc_now();
        let r = Self::parse_at(line, now);
        assert(now.wf() && parse_outcome(r, line@, now));
        r
    }
}

impl TimeWarriorLine {
    /// The first word of the line.
    pub fn tw_type(&self) -> (r: &str)
        ensures
            r@ == self.kind_spec(),
    {
        self.tw_type.as_str()
    }

    /// The start of the interval.
    pub fn from(&self) -> (r: UtcDateTime)
        ensures
            r == self.start_spec(),
    {
        self.from
    }

    /// The end of the interval: the parse time when the interval is still running.
    pub fn until(&self) -> (r: UtcDateTime)
        ensures
            r == self.end_spec(),
    {
        self.until
    }

    /// The tags, in the order of the line.
    pub fn tags(&self) -> (r: &Vec<String>)
        ensures
            string_views(r@) == self.tags_spec(),
    {
        &self.tags
    }

    /// Whether the line gave no end date.
    pub fn active(&self) -> (r: bool)
        ensures
            r == self.active_spec(),
    {
        self.active
    }

    /// The length of the interval in seconds, leap seconds not counted.
    pub fn duration(&self) -> (r: i64)
        ensures
            r == self.duration_spec(),
    {
        proof {
            use_type_invariant(self);
        }
        seconds_between(&self.from, &self.until)
    }

    /// The tags joined with single spaces.
    pub fn full_tag(&self) -> (r: String)
        ensures
            r@ == join_words(self.tags_spec()),
    {
        let mut out = String::new();
        let mut j: usize = 0;
        let ghost all = string_views(self.tags@);
        proof {
            assert(all.subrange(0, 0) =~= seq![]);
        }
        while j < self.tags.len()
            invariant
                j <= self.tags.len(),
                all == string_views(self.tags@),
                out@ == join_words(all.subrange(0, j as int)),
            decreases self.tags.len() - j,
        {
            let ghost head = out@;
            if j > 0 {
                proof {
                    reveal_strlit(" ");
                }
                out.append(" ");
            }
            out.append(self.tags[j].as_str());
            proof {
                let part = all.subrange(0, j + 1);
                assert(part.drop_last() =~= all.subrange(0, j as int));
                if j > 0 {
                    assert(out@ =~= head + seq![' '] + part.last());
                } else {
                    assert(out@ =~= part[0]);
                }
            }
            j = j + 1;
        }
        proof {
            assert(all.subrange(0, self.tags.len() as int) =~= all);
        }
        out
    }

    /// The UTC calendar day on which the interval starts.
    pub fn get_day(&self) -> (r: CalendarDate)
        ensures
            r == self.start_spec().date(),
    {
        self.from.calendar_date()
    }
}

impl std::str::FromStr for TimeWarriorLine {
    type Err = TimeWarriorLineError;

    fn from_str(line: &str) -> Result<TimeWarriorLine, TimeWarriorLineError> {
        TimeWarriorLine::from_str(line)
    }
}

} // verus!
