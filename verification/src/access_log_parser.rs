//! Taking a line of an access log apart.
//!
//! A line has the shape
//! `[time] host "request" status bytes millis "referer" "user agent"`,
//! with any number of spaces before each part.

use vstd::prelude::*;

use crate::text::chars_of;

verus! {

/// The parts of a line of an access log, each a piece of the line.
pub struct AccessLogLineParts<'a> {
    pub time: &'a str,
    pub remote_host: &'a str,
    pub request: &'a str,
    pub response_status: &'a str,
    pub response_bytes: &'a str,
    pub response_time_ms: &'a str,
    pub referer: &'a str,
    pub user_agent: &'a str,
}

/// The part of a line that could not be found.
#[derive(Debug, Clone, Copy, PartialEq, Eq, Structural)]
pub enum ParseError {
    TimeBracketsNotFound,
    RemoteHostNotFound,
    RequestNotFound,
    ResponseStatusNotFound,
    ResponseBytesNotFound,
    ResponseTimeNotFound,
    RefererNotFound,
    UserAgentNotFound,
}

/// The parts of a line as plain text.
pub struct PartsView {
    pub time: Seq<char>,
    pub remote_host: Seq<char>,
    pub request: Seq<char>,
    pub response_status: Seq<char>,
    pub response_bytes: Seq<char>,
    pub response_time_ms: Seq<char>,
    pub referer: Seq<char>,
    pub user_agent: Seq<char>,
}

impl<'a> View for AccessLogLineParts<'a> {
    type V = PartsView;

    open spec fn view(&self) -> PartsView {
        PartsView {
            time: self.time@,
            remote_host: self.remote_host@,
            request: self.request@,
            response_status: self.response_status@,
            response_bytes: self.response_bytes@,
            response_time_ms: self.response_time_ms@,
            referer: self.referer@,
            user_agent: self.user_agent@,
        }
    }
}

/// How many spaces a text begins with.
pub open spec fn leading_spaces(s: Seq<char>) -> nat
    decreases s.len(),
{
    if s.len() > 0 && s[0] == ' ' {
        1 + leading_spaces(s.skip(1))
    } else {
        0
    }
}

/// The text without the spaces it begins with.
pub open spec fn skip_spaces(s: Seq<char>) -> Seq<char> {
    s.skip(leading_spaces(s) as int)
}

/// The text before the first `delimiter` and the text behind it.
pub open spec fn split_once_spec(s: Seq<char>, delimiter: char) -> Option<(Seq<char>, Seq<char>)> {
    match s.index_of_first(delimiter) {
        Some(at) => Some((s.take(at), s.skip(at + 1))),
        None => None,
    }
}

/// The next part that ends with a space, and what follows that space.
/// Spaces before the part are passed over.
pub open spec fn next_part_spec(s: Seq<char>) -> Option<(Seq<char>, Seq<char>)> {
    split_once_spec(skip_spaces(s), ' ')
}

/// The text between `left`, which must come first after any spaces, and the
/// next `right`, together with what follows that `right`. A `left` that
/// takes more than one byte in UTF-8 is never found.
pub open spec fn between_spec(s: Seq<char>, left: char, right: char) -> Option<
    (Seq<char>, Seq<char>),
> {
    let t = skip_spaces(s);
    if t.len() > 0 && t[0] == left && (left as u32) < 0x80 {
        split_once_spec(t.skip(1), right)
    } else {
        None
    }
}

/// What a line means: its eight parts, or the first part that is missing.
pub open spec fn parse_line_spec(line: Seq<char>) -> Result<PartsView, ParseError> {
    match between_spec(line, '[', ']') {
        None => Err(ParseError::TimeBracketsNotFound),
        Some((time, s1)) => match next_part_spec(s1) {
            None => Err(ParseError::RemoteHostNotFound),
            Some((remote_host, s2)) => match between_spec(s2, '"', '"') {
                None => Err(ParseError::RequestNotFound),
                Some((request, s3)) => match next_part_spec(s3) {
                    None => Err(ParseError::ResponseStatusNotFound),
                    Some((response_status, s4)) => match next_part_spec(s4) {
                        None => Err(ParseError::ResponseBytesNotFound),
                        Some((response_bytes, s5)) => match next_part_spec(s5) {
                            None => Err(ParseError::ResponseTimeNotFound),
                            Some((response_time_ms, s6)) => match between_spec(s6, '"', '"') {
                                None => Err(ParseError::RefererNotFound),
                                Some((referer, s7)) => match between_spec(s7, '"', '"') {
                                    None => Err(ParseError::UserAgentNotFound),
                                    Some((user_agent, _)) => Ok(
                                        PartsView {
                                            time,
                                            remote_host,
                                            request,
                                            response_status,
                                            response_bytes,
                                            response_time_ms,
                                            referer,
                                            user_agent,
                                        },
                                    ),
                                },
                            },
                        },
                    },
                },
            },
        },
    }
}

/// The outcome of parsing, with the parts as plain text.
pub open spec fn parsed_line_view(r: Result<AccessLogLineParts<'_>, ParseError>) -> Result<
    PartsView,
    ParseError,
> {
    match r {
        Ok(parts) => Ok(parts@),
        Err(e) => Err(e),
    }
}

/// A text that begins with `n` spaces and then ends or goes on with another
/// character begins with exactly `n` spaces.
pub proof fn leading_spaces_counted(s: Seq<char>, n: nat)
    requires
        n <= s.len(),
        forall|i: int| 0 <= i < n ==> s[i] == ' ',
        n < s.len() ==> s[n as int] != ' ',
    ensures
        leading_spaces(s) == n,
    decreases n,
{
    if n > 0 {
        let rest = s.skip(1);
        assert forall|i: int| 0 <= i < n - 1 implies rest[i] == ' ' by {
            assert(rest[i] == s[i + 1]);
        }
        leading_spaces_counted(rest, (n - 1) as nat);
    }
}

/// A piece of a text: where it begins and ends, and where the rest begins.
struct Piece {
    from: usize,
    to: usize,
    rest: usize,
}

impl Piece {
    /// Whether the piece is the found part `found` of the text behind
    /// `start`.
    spec fn covers(self, chars: Seq<char>, found: (Seq<char>, Seq<char>)) -> bool {
        &&& self.from <= self.to <= self.rest <= chars.len()
        &&& found.0 == chars.subrange(self.from as int, self.to as int)
        &&& found.1 == chars.skip(self.rest as int)
    }
}

/// Whether `r` is what `found` says of the text.
spec fn piece_fits(r: Option<Piece>, chars: Seq<char>, found: Option<(Seq<char>, Seq<char>)>) -> bool {
    match (r, found) {
        (Some(piece), Some(f)) => piece.covers(chars, f),
        (None, None) => true,
        _ => false,
    }
}

/// The first position at or behind `start` that holds no space.
fn skip_spaces_at(chars: &Vec<char>, start: usize) -> (r: usize)
    requires
        start <= chars.len(),
    ensures
        start <= r <= chars.len(),
        r == start + leading_spaces(chars@.skip(start as int)),
        chars@.skip(r as int) == skip_spaces(chars@.skip(start as int)),
{
    let mut i: usize = start;
    while i < chars.len() && chars[i] == ' '
        invariant
            start <= i <= chars.len(),
            forall|j: int| start <= j < i ==> chars@[j] == ' ',
        decreases chars.len() - i,
    {
        i += 1;
    }
    proof {
        let tail = chars@.skip(start as int);
        assert forall|j: int| 0 <= j < i - start implies tail[j] == ' ' by {
            assert(tail[j] == chars@[start + j]);
        }
        leading_spaces_counted(tail, (i - start) as nat);
        assert(tail.skip(i - start) =~= chars@.skip(i as int));
    }
    i
}

/// Splits the text behind `start` at its first `delimiter`.
fn split_once_at(chars: &Vec<char>, start: usize, delimiter: char) -> (r: Option<Piece>)
    requires
        start <= chars.len(),
    ensures
        piece_fits(r, chars@, split_once_spec(chars@.skip(start as int), delimiter)),
{
    let ghost tail = chars@.skip(start as int);
    let mut i: usize = start;
    while i < chars.len()
        invariant
            start <= i <= chars.len(),
            tail == chars@.skip(start as int),
            forall|j: int| 0 <= j < i - start ==> tail[j] != delimiter,
        decreases chars.len() - i,
    {
        if chars[i] == delimiter {
            proof {
                tail.index_of_first_ensures(delimiter);
                assert(tail[i - start] == delimiter);
                assert(tail.index_of_first(delimiter) == Some(i - start));
                assert(tail.take(i - start) =~= chars@.subrange(start as int, i as int));
                assert(tail.skip(i - start + 1) =~= chars@.skip(i + 1));
            }
            return Some(Piece { from: start, to: i, rest: i + 1 });
        }
        i += 1;
    }
    proof {
        tail.index_of_first_ensures(delimiter);
    }
    None
}

/// The next space-delimited part of the text behind `start`.
fn next_part_at(chars: &Vec<char>, start: usize) -> (r: Option<Piece>)
    requires
        start <= chars.len(),
    ensures
        piece_fits(r, chars@, next_part_spec(chars@.skip(start as int))),
{
    let begin = skip_spaces_at(chars, start);
    split_once_at(chars, begin, ' ')
}

/// The part between `left` and `right` in the text behind `start`.
fn between_at(chars: &Vec<char>, start: usize, left: char, right: char) -> (r: Option<Piece>)
    requires
        start <= chars.len(),
    ensures
        piece_fits(r, chars@, between_spec(chars@.skip(start as int), left, right)),
{
    let begin = skip_spaces_at(chars, start);
    if begin < chars.len() && chars[begin] == left && (left as u32) < 0x80 {
        proof {
            let t = chars@.skip(begin as int);
            assert(t[0] == chars@[begin as int]);
            assert(t.skip(1) =~= chars@.skip(begin + 1));
        }
        split_once_at(chars, begin + 1, right)
    } else {
        proof {
            let t = chars@.skip(begin as int);
            if t.len() > 0 {
                assert(t[0] == chars@[begin as int]);
            }
        }
        None
    }
}

/// The next part of `s` that ends with a space, and what follows the space.
pub fn next_space_delimited_part(s: &str) -> (r: Option<(&str, &str)>)
    ensures
        match r {
            Some((part, rest)) => next_part_spec(s@) == Some((part@, rest@)),
            None => next_part_spec(s@) is None,
        },
{
    let chars = chars_of(s);
    assert(chars@.skip(0) =~= chars@);
    match next_part_at(&chars, 0) {
        Some(piece) => Some(
            (s.substring_char(piece.from, piece.to), s.substring_char(piece.rest, chars.len())),
        ),
        None => None,
    }
}

/// The text of `s` between `left_side` and `right_side`, and what follows.
pub fn extract_between_chars(s: &str, left_side: char, right_side: char) -> (r: Option<
    (&str, &str),
>)
    ensures
        match r {
            Some((part, rest)) => between_spec(s@, left_side, right_side) == Some((part@, rest@)),
            None => between_spec(s@, left_side, right_side) is None,
        },
{
    let chars = chars_of(s);
    assert(chars@.skip(0) =~= chars@);
    match between_at(&chars, 0, left_side, right_side) {
        Some(piece) => Some(
            (s.substring_char(piece.from, piece.to), s.substring_char(piece.rest, chars.len())),
        ),
        None => None,
    }
}

impl<'a> AccessLogLineParts<'a> {
    /// Takes a line apart, or says which part is the first that is missing.
    pub fn parse(line: &'a str) -> (r: Result<AccessLogLineParts<'a>, ParseError>)
        ensures
            parsed_line_view(r) == parse_line_spec(line@),
    {
        let chars = chars_of(line);
        assert(chars@.skip(0) =~= chars@);
        let time = match between_at(&chars, 0, '[', ']') {
            Some(p) => p,
            None => {
                return Err(ParseError::TimeBracketsNotFound);
            },
        };
        let remote_host = match next_part_at(&chars, time.rest) {
            Some(p) => p,
            None => {
                return Err(ParseError::RemoteHostNotFound);
            },
        };
        let request = match between_at(&chars, remote_host.rest, '"', '"') {
            Some(p) => p,
            None => {
                return Err(ParseError::RequestNotFound);
            },
        };
        let response_status = match next_part_at(&chars, request.rest) {
            Some(p) => p,
            None => {
                return Err(ParseError::ResponseStatusNotFound);
            },
        };
        let response_bytes = match next_part_at(&chars, response_status.rest) {
            Some(p) => p,
            None => {
                return Err(ParseError::ResponseBytesNotFound);
            },
        };
        let response_time_ms = match next_part_at(&chars, response_bytes.rest) {
            Some(p) => p,
            None => {
                return Err(ParseError::ResponseTimeNotFound);
            },
        };
        let referer = match between_at(&chars, response_time_ms.rest, '"', '"') {
            Some(p) => p,
            None => {
                return Err(ParseError::RefererNotFound);
            },
        };
        let user_agent = match between_at(&chars, referer.rest, '"', '"') {
            Some(p) => p,
            None => {
                return Err(ParseError::UserAgentNotFound);
            },
        };
        Ok(
            AccessLogLineParts {
                time: line.substring_char(time.from, time.to),
                remote_host: line.substring_char(remote_host.from, remote_host.to),
                request: line.substring_char(request.from, request.to),
                response_status: line.substring_char(response_status.from, response_status.to),
                response_bytes: line.substring_char(response_bytes.from, response_bytes.to),
                response_time_ms: line.substring_char(response_time_ms.from, response_time_ms.to),
                referer: line.substring_char(referer.from, referer.to),
                user_agent: line.substring_char(user_agent.from, user_agent.to),
            },
        )
    }

    /// The parts written out as one line:
    /// `[time] host "request" status bytes millis "referer" "user agent"`.
    pub fn to_string(&self) -> (r: String)
        ensures
            r@ == "["@ + self.time@ + "] "@ + self.remote_host@ + " \""@ + self.request@ + "\" "@
                + self.response_status@ + " "@ + self.response_bytes@ + " "@
                + self.response_time_ms@ + " \""@ + self.referer@ + "\" \""@ + self.user_agent@
                + "\""@,
    {
        let mut out = String::new();
        out.append("[");
        out.append(self.time);
        out.append("] ");
        out.append(self.remote_host);
        out.append(" \"");
        out.append(self.request);
        out.append("\" ");
        out.append(self.response_status);
        out.append(" ");
        out.append(self.response_bytes);
        out.append(" ");
        out.append(self.response_time_ms);
        out.append(" \"");
        out.append(self.referer);
        out.append("\" \"");
        out.append(self.user_agent);
        out.append("\"");
        assert(out@ =~= "["@ + self.time@ + "] "@ + self.remote_host@ + " \""@ + self.request@
            + "\" "@ + self.response_status@ + " "@ + self.response_bytes@ + " "@
            + self.response_time_ms@ + " \""@ + self.referer@ + "\" \""@ + self.user_agent@
            + "\""@);
        out
    }
}

} // verus!
