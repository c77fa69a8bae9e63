use vstd::prelude::*;
use vstd::string::StringExecFns;
use vstd::string::StringSliceAdditionalSpecFns;
use crate::bip39::spec_word;
use crate::bip39::word;
use crate::bip39::WORD_COUNT;
use crate::cipher::entropy_rng;
use crate::cipher::gen_in_range;
use crate::text::chars_of;
use crate::text::decimal_padded;
use crate::text::parse_unsigned;
use crate::text::parsed_unsigned;
use crate::text::push_decimal_padded;
use crate::text::string_of;

verus! {

/// How many single-character edits (insert, delete, replace) turn `a` into
/// `b`, as the crate `levenshtein` counts them.
pub uninterp spec fn edit_distance(a: Seq<char>, b: Seq<char>) -> nat;

/// `text` in lower case, as `str::to_lowercase` gives it.
pub uninterp spec fn lowercased(text: Seq<char>) -> Seq<char>;

/// `levenshtein::levenshtein`: the edit distance of the two texts, counted
/// in characters. It depends on the two texts alone.
#[verifier::external_body]
pub(crate) fn levenshtein_distance(a: &str, b: &str) -> (d: usize)
    ensures
        d == edit_distance(a@, b@),
{
    levenshtein::levenshtein(a, b)
}

/// `str::to_lowercase`: the text with every character in lower case. It
/// depends on the text alone.
#[verifier::external_body]
pub(crate) fn lowercase(text: &str) -> (r: String)
    ensures
        r@ == lowercased(text@),
{
    text.to_lowercase()
}

/// The pieces of `text` between its dashes. There is always at least one.
pub open spec fn segments(text: Seq<char>) -> Seq<Seq<char>>
    decreases text.len(),
{
    if text.len() == 0 {
        seq![Seq::empty()]
    } else if text.last() == '-' {
        segments(text.drop_last()).push(Seq::empty())
    } else {
        segments(text.drop_last()).drop_last().push(
            segments(text.drop_last()).last().push(text.last()),
        )
    }
}

/// The first word among the first `n` of the list that is `text`.
pub open spec fn exact_below(text: Seq<char>, n: int) -> Option<int>
    decreases n,
{
    if n <= 0 {
        None
    } else {
        match exact_below(text, n - 1) {
            Some(i) => Some(i),
            None => if spec_word(n - 1) == text {
                Some(n - 1)
            } else {
                None
            },
        }
    }
}

/// How far each word of the list is from `text`, in edits.
pub open spec fn distances(text: Seq<char>) -> Seq<usize> {
    Seq::new(2048, |i: int| edit_distance(text, spec_word(i)) as usize)
}

/// How many of the first `n` distances are at most one.
pub open spec fn near_count(distances: Seq<usize>, n: int) -> nat
    decreases n,
{
    if n <= 0 {
        0
    } else {
        near_count(distances, n - 1) + (if distances[n - 1] <= 1 {
            1nat
        } else {
            0nat
        })
    }
}

/// The last of the first `n` distances that is at most one: its place.
pub open spec fn near_last(distances: Seq<usize>, n: int) -> int
    decreases n,
{
    if n <= 0 {
        0
    } else if distances[n - 1] <= 1 {
        n - 1
    } else {
        near_last(distances, n - 1)
    }
}

/// The one place among `distances` that holds a distance of at most one, if
/// there is exactly one.
pub open spec fn unique_near(distances: Seq<usize>) -> Option<int> {
    if near_count(distances, distances.len() as int) == 1 {
        Some(near_last(distances, distances.len() as int))
    } else {
        None
    }
}

/// The number of the word that `text` stands for: the word itself, or else,
/// for a text of two to ten bytes, the one word of the list that is at most
/// one edit away from the text in lower case.
#[verifier::opaque]
pub open spec fn word_index(text: Seq<char>) -> Option<u16> {
    match exact_below(text, 2048) {
        Some(i) => Some(i as u16),
        None => if 2 <= vstd::utf8::encode_utf8(text).len() <= 10 && unique_near(
            distances(lowercased(text)),
        ) is Some {
            Some(unique_near(distances(lowercased(text)))->Some_0 as u16)
        } else {
            None
        },
    }
}

/// What a code is: a number and four words of the list, by their numbers.
pub struct CodeModel {
    pub prefix: u16,
    pub words: Seq<u16>,
}

/// The code that `text` spells: a number and four words, with dashes
/// between them and nothing else.
pub open spec fn spec_parse(text: Seq<char>) -> Option<CodeModel> {
    let parts = segments(text);
    if parts.len() == 5 && parsed_unsigned(parts[0], 65535) is Some && word_index(parts[1]) is Some
        && word_index(parts[2]) is Some && word_index(parts[3]) is Some && word_index(
        parts[4],
    ) is Some {
        Some(
            CodeModel {
                prefix: parsed_unsigned(parts[0], 65535)->Some_0 as u16,
                words: seq![
                    word_index(parts[1])->Some_0,
                    word_index(parts[2])->Some_0,
                    word_index(parts[3])->Some_0,
                    word_index(parts[4])->Some_0,
                ],
            },
        )
    } else {
        None
    }
}

/// A code as it is written: the number with at least four digits, then the
/// four words, with dashes between them.
pub open spec fn code_text(code: CodeModel) -> Seq<char> {
    decimal_padded(code.prefix as nat, 4) + seq!['-'] + spec_word(code.words[0] as int)
        + seq!['-'] + spec_word(code.words[1] as int) + seq!['-'] + spec_word(
        code.words[2] as int,
    ) + seq!['-'] + spec_word(code.words[3] as int)
}

/// Where the pieces of `text` between its dashes start and end.
pub fn split_at_dashes(text: &Vec<char>) -> (bounds: Vec<(usize, usize)>)
    ensures
        bounds@.len() == segments(text@).len(),
        forall|k: int|
            0 <= k < bounds@.len() ==> (#[trigger] bounds@[k]).0 <= bounds@[k].1 <= text@.len()
                && segments(text@)[k] == text@.subrange(bounds@[k].0 as int, bounds@[k].1 as int),
{
    let n = text.len();
    let mut bounds: Vec<(usize, usize)> = Vec::new();
    let mut start: usize = 0;
    let mut i: usize = 0;
    proof {
        assert(text@.take(0) =~= Seq::<char>::empty());
        assert(text@.subrange(0, 0) =~= Seq::<char>::empty());
    }
    while i < n
        invariant
            start <= i <= n,
            n == text@.len(),
            segments(text@.take(i as int)).len() == bounds@.len() + 1,
            segments(text@.take(i as int)).last() == text@.subrange(start as int, i as int),
            forall|k: int|
                0 <= k < bounds@.len() ==> (#[trigger] bounds@[k]).0 <= bounds@[k].1
                    <= text@.len() && segments(text@.take(i as int))[k] == text@.subrange(
                    bounds@[k].0 as int,
                    bounds@[k].1 as int,
                ),
        decreases n - i,
    {
        let ghost before = segments(text@.take(i as int));
        proof {
            assert(text@.take(i + 1).drop_last() =~= text@.take(i as int));
            assert(text@.take(i + 1).last() == text@[i as int]);
        }
        if text[i] == '-' {
            bounds.push((start, i));
            start = i + 1;
            proof {
                assert(text@.subrange(start as int, start as int) =~= Seq::<char>::empty());
            }
        } else {
            proof {
                assert(before.last().push(text@[i as int]) =~= text@.subrange(
                    start as int,
                    i + 1,
                ));
            }
        }
        i += 1;
    }
    proof {
        assert(text@.take(n as int) =~= text@);
    }
    bounds.push((start, n));
    bounds
}

/// The first word of the list that is `text`.
pub fn find_exact(text: &String) -> (r: Option<usize>)
    ensures
        r == (match exact_below(text@, 2048) {
            Some(i) => Some(i as usize),
            None => None::<usize>,
        }),
        r is Some ==> r->Some_0 < 2048,
{
    let mut i: usize = 0;
    while i < WORD_COUNT
        invariant
            i <= WORD_COUNT,
            exact_below(text@, i as int) is None,
        decreases WORD_COUNT - i,
    {
        let candidate = word(i);
        if candidate == *text {
            proof {
                lemma_exact_stays(text@, i + 1, 2048);
            }
            return Some(i);
        }
        i += 1;
    }
    None
}

pub proof fn lemma_exact_stays(text: Seq<char>, n: int, upto: int)
    requires
        0 <= n <= upto,
        exact_below(text, n) is Some,
    ensures
        exact_below(text, upto) == exact_below(text, n),
    decreases upto - n,
{
    if n < upto {
        lemma_exact_stays(text, n, upto - 1);
    }
}

/// The one place among `distances` that holds a distance of at most one, if
/// there is exactly one.
pub fn pick_unique(distances: &Vec<usize>) -> (r: Option<usize>)
    ensures
        r == (match unique_near(distances@) {
            Some(i) => Some(i as usize),
            None => None::<usize>,
        }),
        r is Some ==> r->Some_0 < distances@.len(),
{
    let mut count: usize = 0;
    let mut last: usize = 0;
    let mut i: usize = 0;
    while i < distances.len()
        invariant
            i <= distances@.len(),
            count == near_count(distances@, i as int),
            count <= i,
            last == near_last(distances@, i as int),
            last < distances@.len() || i == 0,
        decreases distances@.len() - i,
    {
        if distances[i] <= 1 {
            count += 1;
            last = i;
        }
        i += 1;
    }
    if count == 1 {
        Some(last)
    } else {
        None
    }
}

/// The one word of the list that is at most one edit away from `text`, if
/// there is exactly one.
pub fn find_near(text: &String) -> (r: Option<usize>)
    ensures
        r == (match unique_near(distances(text@)) {
            Some(i) => Some(i as usize),
            None => None::<usize>,
        }),
        r is Some ==> r->Some_0 < 2048,
{
    let mut found: Vec<usize> = Vec::new();
    let mut i: usize = 0;
    while i < WORD_COUNT
        invariant
            i <= WORD_COUNT,
            found@.len() == i,
            forall|j: int| 0 <= j < i ==> found@[j] == edit_distance(text@, spec_word(j)),
        decreases WORD_COUNT - i,
    {
        let candidate = word(i);
        found.push(levenshtein_distance(text.as_str(), candidate.as_str()));
        i += 1;
    }
    assert(found@ =~= distances(text@));
    pick_unique(&found)
}

pub proof fn lemma_exact_bound(text: Seq<char>, n: int)
    requires
        exact_below(text, n) is Some,
    ensures
        0 <= exact_below(text, n)->Some_0 < n,
        spec_word(exact_below(text, n)->Some_0) == text,
    decreases n,
{
    if n > 0 && exact_below(text, n - 1) is Some {
        lemma_exact_bound(text, n - 1);
    }
}

pub proof fn lemma_near_last_bound(distances: Seq<usize>, n: int)
    requires
        n > 0,
    ensures
        0 <= near_last(distances, n) < n,
    decreases n,
{
    if n > 1 {
        lemma_near_last_bound(distances, n - 1);
    } else {
        assert(near_last(distances, 0) == 0);
    }
}

/// The number of the word that the characters from `from` up to `to` stand
/// for.
pub fn find_word(text: &Vec<char>, from: usize, to: usize) -> (r: Option<u16>)
    requires
        from <= to <= text@.len(),
    ensures
        r == word_index(text@.subrange(from as int, to as int)),
        r is Some ==> r->Some_0 < 2048,
{
    let piece = string_of(text, from, to);
    proof {
        reveal(word_index);
        if exact_below(piece@, 2048) is Some {
            lemma_exact_bound(piece@, 2048);
        }
        lemma_near_last_bound(distances(lowercased(piece@)), 2048);
    }
    match find_exact(&piece) {
        Some(i) => Some(i as u16),
        None => {
            let shown = piece.as_str();
            let bytes = shown.as_bytes().len();
            assert(bytes == vstd::utf8::encode_utf8(piece@).len());
            if 2 <= bytes && bytes <= 10 {
                let lower = lowercase(shown);
                match find_near(&lower) {
                    Some(i) => Some(i as u16),
                    None => None,
                }
            } else {
                None
            }
        },
    }
}

/// The code of an upload: a number and four words of the list. It is what
/// the sender passes on and what the key of the upload is derived from.
#[derive(Debug)]
pub struct TarPassword {
    prefix: u16,
    words: [u16; 4],
}

/// The older name of the code.
pub type TarId = TarPassword;

impl View for TarPassword {
    type V = CodeModel;

    closed spec fn view(&self) -> CodeModel {
        CodeModel { prefix: self.prefix, words: self.words@ }
    }
}

impl Clone for TarPassword {
    fn clone(&self) -> (c: Self)
        ensures
            c@ == self@,
    {
        proof {
            use_type_invariant(self);
        }
        TarPassword { prefix: self.prefix, words: self.words }
    }
}

impl TarPassword {
    #[verifier::type_invariant]
    spec fn inv(self) -> bool {
        forall|i: int| 0 <= i < 4 ==> self.words@[i] < 2048
    }

    /// The code with this number and these words, if each of the four is a
    /// number of the list.
    pub fn from_parts(prefix: u16, words: [u16; 4]) -> (r: Option<Self>)
        ensures
            r is Some <==> forall|i: int| 0 <= i < 4 ==> words@[i] < 2048,
            r is Some ==> r->Some_0@ == (CodeModel { prefix, words: words@ }),
    {
        if words[0] < 2048 && words[1] < 2048 && words[2] < 2048 && words[3] < 2048 {
            Some(TarPassword { prefix, words })
        } else {
            None
        }
    }

    /// A random code: a number below 10000 and four words.
    pub fn generate() -> (code: Self)
        ensures
            code@.prefix < 10000,
            code@.words.len() == 4,
            forall|i: int| 0 <= i < 4 ==> code@.words[i] < 2048,
    {
        let mut rng = entropy_rng();
        let prefix = gen_in_range(&mut rng, 0, 10000);
        let w0 = gen_in_range(&mut rng, 0, 2048);
        let w1 = gen_in_range(&mut rng, 0, 2048);
        let w2 = gen_in_range(&mut rng, 0, 2048);
        let w3 = gen_in_range(&mut rng, 0, 2048);
        TarPassword { prefix, words: [w0, w1, w2, w3] }
    }

    pub fn prefix(&self) -> (p: u16)
        ensures
            p == self@.prefix,
    {
        self.prefix
    }

    pub fn words(&self) -> (w: [u16; 4])
        ensures
            w@ == self@.words,
            forall|i: int| 0 <= i < 4 ==> w@[i] < 2048,
    {
        proof {
            use_type_invariant(self);
        }
        self.words
    }

    /// The code as it is written.
    pub fn to_string(&self) -> (s: String)
        ensures
            s@ == code_text(self@),
            s@.len() <= 41,
    {
        proof {
            use_type_invariant(self);
            crate::text::lemma_decimal_len(self.prefix as nat);
            crate::text::lemma_decimal_padded_len(self.prefix as nat, 4);
        }
        let mut s = String::new();
        push_decimal_padded(&mut s, self.prefix as u64, 4);
        let mut i: usize = 0;
        let ghost head = s@;
        while i < 4
            invariant
                i <= 4,
                forall|j: int| 0 <= j < 4 ==> self.words@[j] < 2048,
                head == decimal_padded(self.prefix as nat, 4),
                head.len() <= 5,
                s@.len() <= 5 + 9 * i,
                i == 0 ==> s@ == head,
                i == 1 ==> s@ == head + seq!['-'] + spec_word(self.words@[0] as int),
                i == 2 ==> s@ == head + seq!['-'] + spec_word(self.words@[0] as int) + seq!['-']
                    + spec_word(self.words@[1] as int),
                i == 3 ==> s@ == head + seq!['-'] + spec_word(self.words@[0] as int) + seq!['-']
                    + spec_word(self.words@[1] as int) + seq!['-'] + spec_word(
                    self.words@[2] as int,
                ),
                i == 4 ==> s@ == code_text(self@),
            decreases 4 - i,
        {
            let w = word(self.words[i] as usize);
            let ghost before = s@;
            s.push('-');
            s.append(w.as_str());
            proof {
                assert(s@ =~= before + seq!['-'] + spec_word(self.words@[i as int] as int));
            }
            i += 1;
        }
        s
    }

    /// Reads a code as it is written. A word may be misspelt by one edit if
    /// that leaves no doubt which word of the list is meant.
    pub fn parse(input: &str) -> (r: Option<Self>)
        ensures
            (match r {
                Some(code) => Some(code@),
                None => None::<CodeModel>,
            }) == spec_parse(input@),
    {
        let text = chars_of(input);
        TarPassword::parse_text(&text)
    }

    /// Reads a code from its characters, as `parse` does.
    pub fn parse_text(text: &Vec<char>) -> (r: Option<Self>)
        ensures
            (match r {
                Some(code) => Some(code@),
                None => None::<CodeModel>,
            }) == spec_parse(text@),
    {
        let bounds = split_at_dashes(text);
        if bounds.len() != 5 {
            return None;
        }
        let ghost parts = segments(text@);
        let b0 = bounds[0];
        let b1 = bounds[1];
        let b2 = bounds[2];
        let b3 = bounds[3];
        let b4 = bounds[4];
        proof {
            assert(parts[0] == text@.subrange(b0.0 as int, b0.1 as int));
            assert(parts[1] == text@.subrange(b1.0 as int, b1.1 as int));
            assert(parts[2] == text@.subrange(b2.0 as int, b2.1 as int));
            assert(parts[3] == text@.subrange(b3.0 as int, b3.1 as int));
            assert(parts[4] == text@.subrange(b4.0 as int, b4.1 as int));
        }
        let prefix = match parse_unsigned(text, b0.0, b0.1, 65535) {
            Some(n) => n as u16,
            None => {
                return None;
            },
        };
        let w0 = match find_word(text, b1.0, b1.1) {
            Some(w) => w,
            None => {
                return None;
            },
        };
        let w1 = match find_word(text, b2.0, b2.1) {
            Some(w) => w,
            None => {
                return None;
            },
        };
        let w2 = match find_word(text, b3.0, b3.1) {
            Some(w) => w,
            None => {
                return None;
            },
        };
        let w3 = match find_word(text, b4.0, b4.1) {
            Some(w) => w,
            None => {
                return None;
            },
        };
        let code = TarPassword { prefix, words: [w0, w1, w2, w3] };
        assert(code@.words =~= seq![w0, w1, w2, w3]);
        Some(code)
    }

    /// Reads a code as `parse` does.
    pub fn from_str(input: &str) -> (r: Result<Self, ()>)
        ensures
            (match r {
                Ok(code) => Some(code@),
                Err(_) => None::<CodeModel>,
            }) == spec_parse(input@),
    {
        match TarPassword::parse(input) {
            Some(code) => Ok(code),
            None => Err(()),
        }
    }
}

} // verus!
