use vstd::prelude::*;
use vstd::string::StringExecFns;
use crate::text::chars_of;
use crate::text::decimal;
use crate::text::find_first;
use crate::text::first_index;
use crate::text::has_prefix_at;
use crate::text::parse_unsigned;
use crate::text::parsed_unsigned;
use crate::text::push_decimal;
use crate::text::starts_with;
use crate::text::trim;
use crate::text::trimmed;

verus! {

/// The characters of "bytes=".
pub open spec fn range_unit() -> Seq<char> {
    seq!['b', 'y', 't', 'e', 's', '=']
}

/// How many bytes the range from `offset` to `end`, both counted in, asks
/// for: one for a range that ends before it starts. The one range that
/// spans more than a number can hold asks for none.
pub open spec fn span(offset: u64, end: u64) -> u64 {
    if end < offset {
        1
    } else if end - offset == u64::MAX {
        0
    } else {
        (end - offset + 1) as u64
    }
}

/// What a `Range` header asks for, as offset and length: the header must
/// read, within white space, "bytes=", a number, a dash, a number.
pub open spec fn spec_range(header: Seq<char>) -> Option<(u64, u64)> {
    spec_range_text(trimmed(header))
}

/// What the text of a `Range` header, without the white space around it,
/// asks for.
pub open spec fn spec_range_text(text: Seq<char>) -> Option<(u64, u64)> {
    if starts_with(text, range_unit()) {
        let rest = text.skip(6);
        let cut = first_index(rest, '-');
        if cut < rest.len() {
            match (
                parsed_unsigned(rest.take(cut), u64::MAX),
                parsed_unsigned(rest.skip(cut + 1), u64::MAX),
            ) {
                (Some(offset), Some(end)) => Some((offset, span(offset, end))),
                _ => None,
            }
        } else {
            None
        }
    } else {
        None
    }
}

/// Reads a `Range` header.
pub fn parse_range(header: &str) -> (r: Option<(u64, u64)>)
    ensures
        r == spec_range(header@),
{
    let text = chars_of(trim(header));
    parse_range_text(&text)
}

/// Reads the text of a `Range` header that has no white space around it.
pub fn parse_range_text(text: &Vec<char>) -> (r: Option<(u64, u64)>)
    ensures
        r == spec_range_text(text@),
{
    let unit: Vec<char> = vec!['b', 'y', 't', 'e', 's', '='];
    proof {
        assert(unit@ =~= range_unit());
        assert(text@.skip(0) =~= text@);
    }
    if !has_prefix_at(text, 0, &unit) {
        return None;
    }
    let cut = find_first(text, 6, '-');
    let total = text.len();
    if 6 + cut >= total {
        return None;
    }
    let ghost rest = text@.skip(6);
    proof {
        assert(rest.take(cut as int) =~= text@.subrange(6, 6 + cut));
        assert(rest.skip(cut + 1) =~= text@.subrange(6 + cut + 1, text@.len() as int));
    }
    let offset = match parse_unsigned(text, 6, 6 + cut, u64::MAX) {
        Some(n) => n,
        None => {
            return None;
        },
    };
    let end = match parse_unsigned(text, 6 + cut + 1, text.len(), u64::MAX) {
        Some(n) => n,
        None => {
            return None;
        },
    };
    let length = if end < offset {
        1
    } else if end - offset == u64::MAX {
        0
    } else {
        end - offset + 1
    };
    Some((offset, length))
}

/// The entity tag of a file last changed at `mod_time`: the number in
/// double quotes.
pub open spec fn spec_etag(mod_time: u64) -> Seq<char> {
    seq!['"'] + decimal(mod_time as nat) + seq!['"']
}

pub fn etag(mod_time: u64) -> (s: String)
    ensures
        s@ == spec_etag(mod_time),
{
    let mut s = String::new();
    s.push('"');
    push_decimal(&mut s, mod_time);
    s.push('"');
    s
}

/// Whether `text` is the entity tag of a file last changed at `mod_time`.
pub fn is_etag(text: &str, mod_time: u64) -> (r: bool)
    ensures
        r == (text@ == spec_etag(mod_time)),
{
    text.to_owned() == etag(mod_time)
}

/// Whether a range may be served: without an `If-Range` header always, with
/// one only if it is, within white space, the entity tag of the file.
pub fn if_range_fulfilled(header: Option<&str>, mod_time: Option<u64>) -> (r: bool)
    ensures
        r == (match header {
            None => true,
            Some(value) => match mod_time {
                Some(time) => trimmed(value@) == spec_etag(time),
                None => false,
            },
        }),
{
    match header {
        None => true,
        Some(value) => match mod_time {
            Some(time) => is_etag(trim(value), time),
            None => false,
        },
    }
}

/// How a file is served from its current position on.
#[derive(Debug, Clone)]
pub struct RangePlan {
    /// 206 for a part, 200 for all that is left.
    pub status: u16,
    /// Where in the file the body starts.
    pub start: u64,
    /// How many bytes the body has.
    pub length: u64,
    /// The `Content-Range` header of a part.
    pub content_range: Option<String>,
    /// The `ETag` header, for a file whose time of change is known.
    pub etag: Option<String>,
}

/// How much of the file is left to serve: from the current position to the
/// end, and not more than `max_len`.
pub open spec fn spec_rest_len(max_len: Option<u64>, current: u64, end: u64) -> u64 {
    match max_len {
        Some(max) => if end - current <= max {
            (end - current) as u64
        } else {
            max
        },
        None => (end - current) as u64,
    }
}

/// How many bytes of a range are served: what is asked for, as far as it
/// lies within what is left.
pub open spec fn spec_served(offset: u64, length: u64, rest_len: u64) -> u64 {
    if offset >= rest_len {
        0
    } else if length <= rest_len - offset {
        length
    } else {
        (rest_len - offset) as u64
    }
}

/// The last byte of a part as the header names it. For a part of no bytes
/// at offset 0 there is none, and the number wraps around.
pub open spec fn spec_last(offset: u64, served: u64) -> u64 {
    if offset + served == 0 {
        u64::MAX
    } else {
        (offset + served - 1) as u64
    }
}

/// The `Content-Range` header of a part.
pub open spec fn spec_content_range(offset: u64, served: u64, rest_len: u64) -> Seq<char> {
    "bytes "@ + decimal(offset as nat) + seq!['-'] + decimal(spec_last(offset, served) as nat)
        + seq!['/'] + decimal(rest_len as nat)
}

/// Where the body of a part starts: `offset` bytes after the current
/// position, or at the greatest position there is.
pub open spec fn spec_start(current: u64, offset: u64) -> u64 {
    if current + offset > u64::MAX {
        u64::MAX
    } else {
        (current + offset) as u64
    }
}

/// Decides how a file is served from its current position on: a part of
/// it where a range is asked for and may be served, else all that is left.
/// `current` is the position in the file and `end` its length.
pub fn handle_range(
    range: Option<&str>,
    if_range: Option<&str>,
    max_len: Option<u64>,
    mod_time: Option<u64>,
    current: u64,
    end: u64,
) -> (plan: RangePlan)
    requires
        current <= end,
    ensures
        match plan.etag {
            Some(tag) => mod_time is Some && tag@ == spec_etag(mod_time->Some_0),
            None => mod_time is None,
        },
        ({
            let rest_len = spec_rest_len(max_len, current, end);
            let fulfilled = match if_range {
                None => true,
                Some(value) => match mod_time {
                    Some(time) => trimmed(value@) == spec_etag(time),
                    None => false,
                },
            };
            let asked = match range {
                Some(value) => if fulfilled {
                    spec_range(value@)
                } else {
                    None
                },
                None => None,
            };
            match asked {
                Some((offset, length)) => {
                    &&& plan.status == 206
                    &&& plan.start == spec_start(current, offset)
                    &&& plan.length == spec_served(offset, length, rest_len)
                    &&& plan.content_range is Some
                    &&& plan.content_range->Some_0@ == spec_content_range(
                        offset,
                        spec_served(offset, length, rest_len),
                        rest_len,
                    )
                },
                None => {
                    &&& plan.status == 200
                    &&& plan.start == current
                    &&& plan.length == rest_len
                    &&& plan.content_range is None
                },
            }
        }),
{
    let asked = match range {
        Some(value) => parse_range(value),
        None => None,
    };
    let asked = if if_range_fulfilled(if_range, mod_time) {
        asked
    } else {
        None
    };
    let left = end - current;
    let rest_len = match max_len {
        Some(max) => if left <= max {
            left
        } else {
            max
        },
        None => left,
    };
    let tag = match mod_time {
        Some(time) => Some(etag(time)),
        None => None,
    };
    match asked {
        Some((offset, length)) => {
            let served = if offset >= rest_len {
                0
            } else if length <= rest_len - offset {
                length
            } else {
                rest_len - offset
            };
            let start = if offset > u64::MAX - current {
                u64::MAX
            } else {
                current + offset
            };
            let last = if offset == 0 && served == 0 {
                u64::MAX
            } else {
                offset + served - 1
            };
            let mut line = "bytes ".to_owned();
            push_decimal(&mut line, offset);
            line.push('-');
            push_decimal(&mut line, last);
            line.push('/');
            push_decimal(&mut line, rest_len);
            assert(line@ =~= spec_content_range(offset, served, rest_len));
            RangePlan {
                status: 206,
                start,
                length: served,
                content_range: Some(line),
                etag: tag,
            }
        },
        None => RangePlan {
            status: 200,
            start: current,
            length: rest_len,
            content_range: None,
            etag: tag,
        },
    }
}

/// A cap on how much may still be read from a file.
#[derive(Debug, Clone, Copy)]
pub struct MaxRead {
    pub left: u64,
}

impl MaxRead {
    /// How many bytes may be read into a buffer of `room` bytes.
    pub fn allowance(&self, room: usize) -> (n: usize)
        ensures
            n == (if self.left <= room {
                self.left as usize
            } else {
                room
            }),
    {
        if self.left <= room as u64 {
            self.left as usize
        } else {
            room
        }
    }

    /// Takes the `n` bytes just read off what is left.
    pub fn consumed(&mut self, n: usize)
        requires
            n <= old(self).left,
        ensures
            final(self).left == old(self).left - n,
    {
        self.left = self.left - n as u64;
    }
}

} // verus!
