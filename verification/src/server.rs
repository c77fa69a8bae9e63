use vstd::prelude::*;
use vstd::string::StringExecFns;
use crate::config::Config;
use crate::meta::MetaData;
use crate::responses::ErrorResponse;
use crate::tar_hash::hex;
use crate::tar_hash::TarHash;
use crate::text::chars_of;
use crate::text::decimal;
use crate::text::has_prefix_at;
use crate::text::push_decimal;
use crate::text::starts_with;
use crate::text::string_of;

verus! {

/// The characters of "Bearer ".
pub open spec fn bearer_mark() -> Seq<char> {
    seq!['B', 'e', 'a', 'r', 'e', 'r', ' ']
}

/// The token that an `Authorization` header carries: what follows
/// "Bearer ", or the whole header if it does not start so.
pub open spec fn spec_bearer_token(header: Seq<char>) -> Seq<char> {
    if starts_with(header, bearer_mark()) {
        header.skip(7)
    } else {
        header
    }
}

pub fn bearer_token(header: &str) -> (token: String)
    ensures
        token@ == spec_bearer_token(header@),
{
    let text = chars_of(header);
    let mark: Vec<char> = vec!['B', 'e', 'a', 'r', 'e', 'r', ' '];
    proof {
        assert(mark@ =~= bearer_mark());
        assert(text@.skip(0) =~= text@);
    }
    if has_prefix_at(&text, 0, &mark) {
        let token = string_of(&text, 7, text.len());
        assert(token@ =~= text@.skip(7));
        token
    } else {
        let token = string_of(&text, 0, text.len());
        assert(token@ =~= text@);
        token
    }
}

/// Finds the user that a request speaks for: the first one whose token the
/// `Authorization` header carries. Without the header, or with a token that
/// is nobody's, the request is unauthorized.
pub fn check_token(config: &Config, authorization: Option<&str>) -> (r: Result<
    usize,
    ErrorResponse,
>)
    ensures
        match r {
            Ok(i) => authorization is Some && i < config.users@.len() && config.users@[i as int].token@
                == spec_bearer_token(authorization->Some_0@) && forall|j: int|
                0 <= j < i ==> config.users@[j].token@ != spec_bearer_token(
                    authorization->Some_0@,
                ),
            Err(e) => e.status == 401 && (authorization is None || forall|j: int|
                0 <= j < config.users@.len() ==> config.users@[j].token@ != spec_bearer_token(
                    authorization->Some_0@,
                )),
        },
{
    match authorization {
        None => Err(ErrorResponse::unauthorized()),
        Some(header) => {
            let token = bearer_token(header);
            match config.user_by_token(token.as_str()) {
                Some(i) => Ok(i),
                None => Err(ErrorResponse::unauthorized()),
            }
        },
    }
}

/// Whether `user` may remove the upload with this record: there must be a
/// record, and it must be theirs.
pub fn may_delete(meta: Option<&MetaData>, username: &str) -> (r: Result<(), ErrorResponse>)
    ensures
        match r {
            Ok(_) => meta is Some && meta->Some_0.owner@ == username@,
            Err(e) => match meta {
                None => e.status == 404,
                Some(m) => m.owner@ != username@ && e.status == 401,
            },
        },
{
    match meta {
        None => Err(ErrorResponse::not_found()),
        Some(m) => {
            let name = username.to_owned();
            if m.owner == name {
                Ok(())
            } else {
                Err(ErrorResponse::unauthorized())
            }
        },
    }
}

/// How a download is served.
#[derive(Debug, Clone, Copy, PartialEq, Eq, Structural)]
pub enum DownloadMode {
    /// The upload is complete: ranges and offsets are served.
    Whole,
    /// The upload is still coming in: the download follows it to its end.
    Following,
    /// A part was asked of an upload that is still coming in.
    NotFinished,
}

pub fn download_mode(finished: bool, has_offset: bool, has_length: bool) -> (mode: DownloadMode)
    ensures
        mode == (if finished {
            DownloadMode::Whole
        } else if has_offset || has_length {
            DownloadMode::NotFinished
        } else {
            DownloadMode::Following
        }),
{
    if finished {
        DownloadMode::Whole
    } else if has_offset || has_length {
        DownloadMode::NotFinished
    } else {
        DownloadMode::Following
    }
}

/// What a download that follows an upload does after a read.
#[derive(Debug, Clone, Copy, PartialEq, Eq, Structural)]
pub enum FollowStep {
    /// Bytes came: they are passed on.
    Deliver(usize),
    /// Nothing came, the upload goes on: wait a second and read again.
    Wait,
    /// Nothing came and nothing will: the download ends.
    End,
}

/// Decides what follows a read of `n` bytes from an upload in progress.
/// `meta` is the upload's record as it stands, `tries_left` how many reads
/// the download may still make.
pub fn follow_step(n: usize, meta: Option<&MetaData>, tries_left: u64) -> (step: FollowStep)
    ensures
        step == (if n > 0 {
            FollowStep::Deliver(n)
        } else if meta is Some && !meta->Some_0.finished && tries_left > 1 {
            FollowStep::Wait
        } else {
            FollowStep::End
        }),
{
    if n > 0 {
        FollowStep::Deliver(n)
    } else {
        match meta {
            Some(m) => if !m.finished && tries_left > 1 {
                FollowStep::Wait
            } else {
                FollowStep::End
            },
            None => FollowStep::End,
        }
    }
}

/// What a round of the garbage collector did.
#[derive(Debug, Clone, Copy, PartialEq, Eq, Structural)]
pub struct GcTally {
    /// Uploads removed.
    pub count: u64,
    /// Uploads looked at.
    pub total: u64,
    /// Removals that failed.
    pub errors: u64,
}

impl GcTally {
    pub fn new() -> (t: Self)
        ensures
            t == (GcTally { count: 0, total: 0, errors: 0 }),
    {
        GcTally { count: 0, total: 0, errors: 0 }
    }

    /// Counts one upload: `removed` says whether it was due and, if so,
    /// whether its removal went well.
    pub fn note(&mut self, removed: Option<bool>)
        requires
            old(self).total < u64::MAX,
            old(self).count <= old(self).total,
            old(self).errors <= old(self).total,
        ensures
            final(self).total == old(self).total + 1,
            final(self).count == old(self).count + (if removed == Some(true) {
                1int
            } else {
                0int
            }),
            final(self).errors == old(self).errors + (if removed == Some(false) {
                1int
            } else {
                0int
            }),
    {
        match removed {
            Some(true) => {
                self.count = self.count + 1;
            },
            Some(false) => {
                self.errors = self.errors + 1;
            },
            None => {},
        }
        self.total = self.total + 1;
    }

    pub open spec fn spec_summary(self) -> Seq<char> {
        "== GC: "@ + decimal(self.count as nat) + " / "@ + decimal(self.total as nat) + ", "@
            + decimal(self.errors as nat) + " Errors"@
    }

    /// The line that reports the round.
    pub fn summary(&self) -> (s: String)
        ensures
            s@ == self.spec_summary(),
    {
        let mut s = "== GC: ".to_owned();
        push_decimal(&mut s, self.count);
        s.append(" / ");
        push_decimal(&mut s, self.total);
        s.append(", ");
        push_decimal(&mut s, self.errors);
        s.append(" Errors");
        s
    }
}

/// How long the collector waits before its first round: a tenth of the
/// time between rounds.
pub fn gc_first_delay(interval_s: u64) -> (d: u64)
    ensures
        d == interval_s / 10,
{
    interval_s / 10
}

/// The unit of size number `level`: bytes, then the binary thousands.
pub open spec fn size_unit(level: int) -> Seq<char> {
    if level == 0 {
        "b"@
    } else if level == 1 {
        "K"@
    } else if level == 2 {
        "M"@
    } else if level == 3 {
        "G"@
    } else if level == 4 {
        "T"@
    } else if level == 5 {
        "P"@
    } else if level == 6 {
        "E"@
    } else if level == 7 {
        "Z"@
    } else {
        "Y"@
    }
}

/// A size for people to read, counted in the unit of `level` or, from 4096
/// on, in a greater one.
pub open spec fn spec_human_size(size: u64, level: int) -> Seq<char>
    decreases 9 - level,
{
    if level > 8 {
        decimal(size as nat) + "x∞"@
    } else if size < 4096 {
        decimal(size as nat) + " "@ + size_unit(level)
    } else {
        spec_human_size(size / 1024, level + 1)
    }
}

fn unit_name(level: usize) -> (s: &'static str)
    requires
        level <= 8,
    ensures
        s@ == size_unit(level as int),
{
    if level == 0 {
        "b"
    } else if level == 1 {
        "K"
    } else if level == 2 {
        "M"
    } else if level == 3 {
        "G"
    } else if level == 4 {
        "T"
    } else if level == 5 {
        "P"
    } else if level == 6 {
        "E"
    } else if level == 7 {
        "Z"
    } else {
        "Y"
    }
}

/// A size in bytes for people to read: a number below 4096 and a unit.
pub fn human_size(size: u64) -> (s: String)
    ensures
        s@ == spec_human_size(size, 0),
{
    let mut rest = size;
    let mut level: usize = 0;
    while level <= 8
        invariant
            level <= 9,
            spec_human_size(size, 0) == spec_human_size(rest, level as int),
        decreases 9 - level,
    {
        if rest < 4096 {
            let mut s = String::new();
            push_decimal(&mut s, rest);
            s.append(" ");
            s.append(unit_name(level));
            assert(s@ =~= decimal(rest as nat) + " "@ + size_unit(level as int));
            return s;
        }
        rest = rest / 1024;
        level += 1;
    }
    let mut s = String::new();
    push_decimal(&mut s, rest);
    s.append("x∞");
    assert(s@ =~= decimal(rest as nat) + "x∞"@);
    s
}

/// Where the older server keeps the upload with this hash.
pub fn path(hash: &TarHash) -> (p: String)
    ensures
        p@ == "data/"@ + hex(hash.hash@) + ".tar.age"@,
{
    let mut p = "data/".to_owned();
    let name = hash.to_string();
    p.append(name.as_str());
    p.append(".tar.age");
    p
}

/// The address under which an upload is shared.
pub open spec fn spec_share_url(hostname: Seq<char>, code: Seq<char>) -> Seq<char> {
    "https://"@ + hostname + seq!['/'] + code + seq!['/']
}

pub fn share_url(hostname: &str, code: &str) -> (url: String)
    ensures
        url@ == spec_share_url(hostname@, code@),
{
    let mut url = "https://".to_owned();
    url.append(hostname);
    url.push('/');
    url.append(code);
    url.push('/');
    assert(url@ =~= spec_share_url(hostname@, code@));
    url
}

/// What the server answers to an upload: the address, and how to fetch the
/// files from it.
pub fn upload_receipt(hostname: &str, code: &str) -> (text: String)
    ensures
        text@ == "===\n\n"@ + spec_share_url(hostname@, code@) + "\n\n===\n\ncurl '"@
            + spec_share_url(hostname@, code@) + "' | tar -xkvf -\n\n===\n"@,
{
    let url = share_url(hostname, code);
    let mut text = "===\n\n".to_owned();
    text.append(url.as_str());
    text.append("\n\n===\n\ncurl '");
    text.append(url.as_str());
    text.append("' | tar -xkvf -\n\n===\n");
    text
}

} // verus!
