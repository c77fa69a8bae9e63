use vstd::prelude::*;
use vstd::string::StringExecFns;
use crate::tar_password::spec_parse;
use crate::tar_password::CodeModel;
use crate::tar_password::TarPassword;
use crate::text::chars_of;
use crate::text::find_first;
use crate::text::find_match;
use crate::text::first_index;
use crate::text::first_match;
use crate::text::push_chars;
use crate::text::slice_chars;
use crate::text::string_of;
use crate::text::trailing_cut;
use crate::text::trim;
use crate::text::trimmed;
use crate::text::without_trailing;

verus! {

/// How the client talks to the server.
#[derive(Debug, Copy, Clone, PartialEq, Eq, Structural)]
pub enum Protocol {
    Https,
    Http,
}

impl Protocol {
    pub open spec fn spec_name(self) -> Seq<char> {
        match self {
            Protocol::Https => "https"@,
            Protocol::Http => "http"@,
        }
    }

    /// The scheme as it stands in a URL.
    pub fn name(&self) -> (s: &'static str)
        ensures
            s@ == self.spec_name(),
    {
        match self {
            Protocol::Https => "https",
            Protocol::Http => "http",
        }
    }
}

impl Default for Protocol {
    fn default() -> (p: Self)
        ensures
            p == Protocol::Https,
    {
        Protocol::Https
    }
}

/// The client's settings, each of which may be left open.
#[derive(Debug, Clone)]
pub struct Config {
    pub host: Option<String>,
    pub token: Option<String>,
    pub protocol: Option<Protocol>,
    pub history_file: Option<String>,
}

impl Default for Config {
    fn default() -> (c: Self)
        ensures
            c.host is None,
            c.token is None,
            c.protocol is None,
            c.history_file is None,
    {
        Config { host: None, token: None, protocol: None, history_file: None }
    }
}

/// An ASCII capital letter as the small one; any other character as it is.
pub open spec fn ascii_lower(c: char) -> char {
    if 65 <= c as u32 <= 90 {
        ((c as u32 + 32) as u8) as char
    } else {
        c
    }
}

/// The protocol that a scheme names, whatever the case of its letters:
/// "https" and "wss" the secure one, "http" and "ws" the plain one.
pub open spec fn spec_protocol(scheme: Seq<char>) -> Option<Protocol> {
    let lower = scheme.map_values(|c: char| ascii_lower(c));
    if lower == seq!['h', 't', 't', 'p', 's'] || lower == seq!['w', 's', 's'] {
        Some(Protocol::Https)
    } else if lower == seq!['h', 't', 't', 'p'] || lower == seq!['w', 's'] {
        Some(Protocol::Http)
    } else {
        None
    }
}

/// What is said of a scheme that names no protocol.
pub open spec fn unknown_protocol(scheme: Seq<char>) -> Seq<char> {
    "Unknown protocol: "@ + scheme
}

pub fn to_ascii_lower(c: char) -> (l: char)
    ensures
        l == ascii_lower(c),
{
    let n = c as u32;
    if 65 <= n && n <= 90 {
        ((n + 32) as u8) as char
    } else {
        c
    }
}

/// Whether `text` in lower case is `word`.
fn is_word(text: &Vec<char>, word: &Vec<char>) -> (r: bool)
    ensures
        r == (text@.map_values(|c: char| ascii_lower(c)) == word@),
{
    let ghost lower = text@.map_values(|c: char| ascii_lower(c));
    if text.len() != word.len() {
        return false;
    }
    let mut i: usize = 0;
    while i < text.len()
        invariant
            i <= text@.len(),
            text@.len() == word@.len(),
            lower == text@.map_values(|c: char| ascii_lower(c)),
            forall|j: int| 0 <= j < i ==> lower[j] == word@[j],
        decreases text@.len() - i,
    {
        if to_ascii_lower(text[i]) != word[i] {
            assert(lower[i as int] != word@[i as int]);
            return false;
        }
        i += 1;
    }
    assert(lower =~= word@);
    true
}

/// Reads a scheme from its characters.
pub fn protocol_of(scheme: &Vec<char>) -> (r: Option<Protocol>)
    ensures
        r == spec_protocol(scheme@),
{
    let https: Vec<char> = vec!['h', 't', 't', 'p', 's'];
    let http: Vec<char> = vec!['h', 't', 't', 'p'];
    let wss: Vec<char> = vec!['w', 's', 's'];
    let ws: Vec<char> = vec!['w', 's'];
    proof {
        assert(https@ =~= seq!['h', 't', 't', 'p', 's']);
        assert(http@ =~= seq!['h', 't', 't', 'p']);
        assert(wss@ =~= seq!['w', 's', 's']);
        assert(ws@ =~= seq!['w', 's']);
    }
    if is_word(scheme, &https) || is_word(scheme, &wss) {
        Some(Protocol::Https)
    } else if is_word(scheme, &http) || is_word(scheme, &ws) {
        Some(Protocol::Http)
    } else {
        None
    }
}

/// Reads the protocol that the user names by a scheme.
pub fn procotol_parser(p: &str) -> (r: Result<Protocol, String>)
    ensures
        match r {
            Ok(protocol) => spec_protocol(p@) == Some(protocol),
            Err(message) => spec_protocol(p@) is None && message@ == unknown_protocol(p@),
        },
{
    let scheme = chars_of(p);
    match protocol_of(&scheme) {
        Some(protocol) => Ok(protocol),
        None => {
            let mut message = "Unknown protocol: ".to_owned();
            message.append(p);
            Err(message)
        },
    }
}

/// Where an upload is found: its code, and the server and protocol if the
/// user named them.
#[derive(Debug, Clone)]
pub struct TarUrl {
    pub protocol: Option<Protocol>,
    pub host: Option<String>,
    pub code: TarPassword,
}

/// What `tar_password_parser` makes of a text.
pub struct UrlModel {
    pub protocol: Option<Protocol>,
    pub host: Option<Seq<char>>,
    pub code: CodeModel,
}

/// The characters of "://".
pub open spec fn scheme_mark() -> Seq<char> {
    seq![':', '/', '/']
}

/// What follows the scheme of a URL, or all of it if it has none.
pub open spec fn after_scheme(text: Seq<char>) -> Seq<char> {
    if first_match(text, scheme_mark()) < text.len() {
        text.skip(first_match(text, scheme_mark()) + 3)
    } else {
        text
    }
}

/// Whether a text without scheme starts with a server name: it has a slash
/// with something before it and something after it.
pub open spec fn names_host(rest: Seq<char>) -> bool {
    0 < first_index(rest, '/') && first_index(rest, '/') + 1 < rest.len()
}

/// The part of a text without scheme in which the code stands.
pub open spec fn code_part(rest: Seq<char>) -> Seq<char> {
    if names_host(rest) {
        rest.skip(first_index(rest, '/') + 1)
    } else {
        rest
    }
}

/// What is said of a text that spells no code.
pub open spec fn invalid_code(part: Seq<char>) -> Seq<char> {
    "Invalid code: "@ + part + seq!['.']
}

/// What the user's word for an upload means: a code, after an optional
/// scheme and an optional server name, with slashes between them and
/// possibly after them; or what is wrong with it.
pub open spec fn spec_url(input: Seq<char>) -> Result<UrlModel, Seq<char>> {
    spec_url_text(trimmed(input))
}

/// What the user's word for an upload means, once the white space around
/// it is gone.
pub open spec fn spec_url_text(text: Seq<char>) -> Result<UrlModel, Seq<char>> {
    let cut = first_match(text, scheme_mark());
    if cut < text.len() && spec_protocol(text.take(cut)) is None {
        Err(unknown_protocol(text.take(cut)))
    } else {
        let rest = after_scheme(text);
        let part = code_part(rest);
        match spec_parse(without_trailing(part, '/')) {
            None => Err(invalid_code(part)),
            Some(code) => Ok(
                UrlModel {
                    protocol: if cut < text.len() {
                        spec_protocol(text.take(cut))
                    } else {
                        None
                    },
                    host: if names_host(rest) {
                        Some(rest.take(first_index(rest, '/')))
                    } else {
                        None
                    },
                    code,
                },
            ),
        }
    }
}

/// Reads the user's word for an upload.
pub fn tar_password_parser(input: &str) -> (r: Result<TarUrl, String>)
    ensures
        match r {
            Ok(url) => spec_url(input@) == Ok::<UrlModel, Seq<char>>(
                UrlModel {
                    protocol: url.protocol,
                    host: match url.host {
                        Some(h) => Some(h@),
                        None => None,
                    },
                    code: url.code@,
                },
            ),
            Err(message) => spec_url(input@) == Err::<UrlModel, Seq<char>>(message@),
        },
{
    let text = chars_of(trim(input));
    parse_url(&text)
}

/// Reads the user's word for an upload from its characters, without white
/// space around them.
pub fn parse_url(text: &Vec<char>) -> (r: Result<TarUrl, String>)
    ensures
        match r {
            Ok(url) => spec_url_text(text@) == Ok::<UrlModel, Seq<char>>(
                UrlModel {
                    protocol: url.protocol,
                    host: match url.host {
                        Some(h) => Some(h@),
                        None => None,
                    },
                    code: url.code@,
                },
            ),
            Err(message) => spec_url_text(text@) == Err::<UrlModel, Seq<char>>(message@),
        },
{
    let mark: Vec<char> = vec![':', '/', '/'];
    proof {
        assert(mark@ =~= scheme_mark());
    }
    let cut = find_match(text, &mark);
    let mut protocol: Option<Protocol> = None;
    let mut from: usize = 0;
    if cut < text.len() {
        let scheme = slice_chars(text, 0, cut);
        proof {
            assert(text@.take(cut as int) =~= scheme@);
            assert(crate::text::starts_with(text@.skip(cut as int), mark@)) by {
                crate::text::lemma_first_match_found(text@, mark@);
            }
        }
        match protocol_of(&scheme) {
            Some(p) => {
                protocol = Some(p);
            },
            None => {
                let mut message = "Unknown protocol: ".to_owned();
                push_chars(&mut message, &scheme);
                return Err(message);
            },
        }
        from = cut + 3;
    }
    let rest = slice_chars(text, from, text.len());
    proof {
        assert(rest@ =~= after_scheme(text@));
        assert(rest@.skip(0) =~= rest@);
    }
    let slash = find_first(&rest, 0, '/');
    let mut host: Option<String> = None;
    let mut start: usize = 0;
    assert(slash == first_index(rest@, '/'));
    if 0 < slash && slash < rest.len() && slash + 1 < rest.len() {
        host = Some(string_of(&rest, 0, slash));
        start = slash + 1;
        proof {
            assert(rest@.take(slash as int) =~= rest@.subrange(0, slash as int));
        }
    }
    let part = slice_chars(&rest, start, rest.len());
    proof {
        assert(part@ =~= code_part(rest@));
    }
    let keep = trailing_cut(&part, '/');
    let shown = slice_chars(&part, 0, keep);
    proof {
        assert(shown@ =~= without_trailing(part@, '/'));
    }
    proof {
        assert(names_host(rest@) == (host is Some));
        assert(cut == first_match(text@, scheme_mark()));
        assert(protocol == (if cut < text@.len() {
            spec_protocol(text@.take(cut as int))
        } else {
            None::<Protocol>
        }));
    }
    match TarPassword::parse_text(&shown) {
        Some(code) => Ok(TarUrl { protocol, host, code }),
        None => {
            let mut message = "Invalid code: ".to_owned();
            push_chars(&mut message, &part);
            message.push('.');
            assert(message@ =~= invalid_code(part@));
            Err(message)
        },
    }
}

/// The longest path that the archive takes as it is.
pub const PATH_LIMIT: usize = 100;

/// A path as it goes into the archive: one of more than 100 bytes is cut
/// down to its first fifty and its last fifty.
pub open spec fn spec_shorten(path: Seq<u8>) -> Seq<u8> {
    if path.len() > 100 {
        path.take(50) + path.skip(path.len() - 50)
    } else {
        path
    }
}

pub fn shorten(path: &[u8]) -> (short: Vec<u8>)
    ensures
        short@ == spec_shorten(path@),
{
    let n = path.len();
    let mut short: Vec<u8> = Vec::new();
    if n > PATH_LIMIT {
        crate::writer::append(&mut short, vstd::slice::slice_subrange(path, 0, 50));
        crate::writer::append(&mut short, vstd::slice::slice_subrange(path, n - 50, n));
        assert(short@ =~= spec_shorten(path@));
    } else {
        crate::writer::append(&mut short, path);
        assert(short@ =~= spec_shorten(path@));
    }
    short
}

/// What the receiver does with an entry of the archive.
#[derive(Debug, Clone, Copy, PartialEq, Eq, Structural)]
pub enum EntryAction {
    /// The entry is the directory that is unpacked into: nothing to do.
    Ignore,
    /// There is something of that name and it is to be kept: the entry is
    /// read past.
    Skip,
    /// The entry is a directory: it is made.
    MakeDir,
    /// The entry is a file: it is written, over what may be there only if
    /// `replace` is set.
    WriteFile { replace: bool },
    /// The entry is neither file nor directory: it is left out.
    LeaveOut,
}

/// Decides what becomes of an entry: `display` is its path as the archive
/// gives it, `exists` whether its destination is there already, `overwrite`
/// whether the user allows to replace what is there.
pub fn entry_action(
    display: &str,
    exists: bool,
    overwrite: bool,
    is_dir: bool,
    is_file: bool,
) -> (action: EntryAction)
    ensures
        action == (if display@ == "./"@ || display@ == "."@ {
            EntryAction::Ignore
        } else if exists && !overwrite {
            EntryAction::Skip
        } else if is_dir {
            EntryAction::MakeDir
        } else if is_file {
            EntryAction::WriteFile { replace: overwrite }
        } else {
            EntryAction::LeaveOut
        }),
{
    let shown = display.to_owned();
    if shown == "./".to_owned() || shown == ".".to_owned() {
        EntryAction::Ignore
    } else if exists && !overwrite {
        EntryAction::Skip
    } else if is_dir {
        EntryAction::MakeDir
    } else if is_file {
        EntryAction::WriteFile { replace: overwrite }
    } else {
        EntryAction::LeaveOut
    }
}

} // verus!
