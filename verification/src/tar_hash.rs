use vstd::prelude::*;
use vstd::string::StringSliceAdditionalSpecFns;
use crate::cipher::argon2i_hash;
use crate::cipher::argon2i_raw;
use crate::cipher::key_from_hash;
use crate::cipher::KDF_HASH_LENGTH;
use crate::cipher::KDF_LANES;
use crate::cipher::KDF_MEM_COST;
use crate::cipher::KDF_TIME_COST;
use crate::tar_password::code_text;
use crate::tar_password::TarPassword;
use crate::text::lemma_utf8_len;

verus! {

/// The lower-case hexadecimal digit for a number below sixteen.
pub open spec fn hex_digit(n: nat) -> char {
    if n == 0 {
        '0'
    } else if n == 1 {
        '1'
    } else if n == 2 {
        '2'
    } else if n == 3 {
        '3'
    } else if n == 4 {
        '4'
    } else if n == 5 {
        '5'
    } else if n == 6 {
        '6'
    } else if n == 7 {
        '7'
    } else if n == 8 {
        '8'
    } else if n == 9 {
        '9'
    } else if n == 10 {
        'a'
    } else if n == 11 {
        'b'
    } else if n == 12 {
        'c'
    } else if n == 13 {
        'd'
    } else if n == 14 {
        'e'
    } else {
        'f'
    }
}

/// Two lower-case hexadecimal digits for each byte, in order.
pub open spec fn hex(bytes: Seq<u8>) -> Seq<char>
    decreases bytes.len(),
{
    if bytes.len() == 0 {
        Seq::empty()
    } else {
        hex(bytes.drop_last()).push(hex_digit((bytes.last() / 16) as nat)).push(
            hex_digit((bytes.last() % 16) as nat),
        )
    }
}

/// The number that the ASCII byte `b` stands for as a hexadecimal digit of
/// either case.
pub open spec fn hex_value(b: u8) -> Option<u8> {
    if 48 <= b <= 57 {
        Some((b - 48) as u8)
    } else if 97 <= b <= 102 {
        Some((b - 87) as u8)
    } else if 65 <= b <= 70 {
        Some((b - 55) as u8)
    } else {
        None
    }
}

/// The text is 64 hexadecimal digits.
pub open spec fn is_hex_hash(text: Seq<u8>) -> bool {
    &&& text.len() == 64
    &&& forall|i: int| 0 <= i < 64 ==> (#[trigger] hex_value(text[i])) is Some
}

/// The byte that the digits at `2 * i` and `2 * i + 1` of `text` spell.
pub open spec fn hex_byte(text: Seq<u8>, i: int) -> u8 {
    (hex_value(text[2 * i])->Some_0 * 16 + hex_value(text[2 * i + 1])->Some_0) as u8
}

pub fn hex_char(n: u8) -> (c: char)
    requires
        n < 16,
    ensures
        c == hex_digit(n as nat),
{
    if n == 0 {
        '0'
    } else if n == 1 {
        '1'
    } else if n == 2 {
        '2'
    } else if n == 3 {
        '3'
    } else if n == 4 {
        '4'
    } else if n == 5 {
        '5'
    } else if n == 6 {
        '6'
    } else if n == 7 {
        '7'
    } else if n == 8 {
        '8'
    } else if n == 9 {
        '9'
    } else if n == 10 {
        'a'
    } else if n == 11 {
        'b'
    } else if n == 12 {
        'c'
    } else if n == 13 {
        'd'
    } else if n == 14 {
        'e'
    } else {
        'f'
    }
}

pub fn hex_digit_value(b: u8) -> (v: Option<u8>)
    ensures
        v == hex_value(b),
        v is Some ==> v->Some_0 < 16,
{
    if 48 <= b && b <= 57 {
        Some(b - 48)
    } else if 97 <= b && b <= 102 {
        Some(b - 87)
    } else if 65 <= b && b <= 70 {
        Some(b - 55)
    } else {
        None
    }
}

/// The name under which an upload is stored: 32 bytes derived from its
/// code and the server's name.
#[derive(Hash, Eq, PartialEq, Debug, Clone)]
pub struct TarHash {
    pub hash: [u8; 32],
}

/// The 32 bytes that name the upload with this code on the server with this
/// name: the key derivation of the written code, salted with the name.
pub open spec fn upload_hash(code: Seq<char>, server: Seq<u8>) -> Seq<u8> {
    argon2i_hash(
        vstd::utf8::encode_utf8(code),
        server,
        KDF_MEM_COST,
        KDF_TIME_COST,
        KDF_LANES,
        KDF_HASH_LENGTH,
    )
}

impl TarHash {
    /// The name under which the upload with this code is stored on the
    /// server that calls itself `salt`. The key derivation takes no salt of
    /// less than eight bytes.
    pub fn from_tarid(id: &TarPassword, salt: &str) -> (h: Self)
        requires
            8 <= salt.spec_bytes().len() <= 0xFFFF_FFFF,
        ensures
            h.hash@ == upload_hash(code_text(id@), salt.spec_bytes()),
    {
        let password = id.to_string();
        let shown = password.as_str();
        proof {
            lemma_utf8_len(password@);
        }
        match argon2i_raw(
            shown.as_bytes(),
            salt.as_bytes(),
            KDF_MEM_COST,
            KDF_TIME_COST,
            KDF_LANES,
            KDF_HASH_LENGTH,
        ) {
            Ok(raw) => match key_from_hash(raw.as_slice()) {
                Some(hash) => TarHash { hash },
                None => {
                    assert(false);
                    TarHash { hash: [0u8; 32] }
                },
            },
            Err(_) => {
                assert(false);
                TarHash { hash: [0u8; 32] }
            },
        }
    }

    /// The hash as 64 lower-case hexadecimal digits.
    pub fn to_string(&self) -> (s: String)
        ensures
            s@ == hex(self.hash@),
    {
        let mut s = String::new();
        let mut i: usize = 0;
        assert(self.hash@.subrange(0, 0) =~= Seq::<u8>::empty());
        while i < 32
            invariant
                i <= 32,
                s@ == hex(self.hash@.subrange(0, i as int)),
            decreases 32 - i,
        {
            let b = self.hash[i];
            proof {
                let next = self.hash@.subrange(0, i + 1);
                assert(next.drop_last() =~= self.hash@.subrange(0, i as int));
                assert(next.last() == b);
            }
            s.push(hex_char(b / 16));
            s.push(hex_char(b % 16));
            i += 1;
        }
        assert(self.hash@.subrange(0, 32) =~= self.hash@);
        s
    }

    /// Reads a hash from 64 hexadecimal digits of either case. Anything else
    /// is refused.
    pub fn from_str(s: &str) -> (r: Result<Self, ()>)
        ensures
            r is Ok <==> is_hex_hash(s.spec_bytes()),
            r is Ok ==> forall|i: int|
                0 <= i < 32 ==> r->Ok_0.hash@[i] == #[trigger] hex_byte(s.spec_bytes(), i),
    {
        TarHash::from_hex(s.as_bytes())
    }

    /// Reads a hash from the bytes of 64 hexadecimal digits, as `from_str`
    /// does.
    pub fn from_hex(text: &[u8]) -> (r: Result<Self, ()>)
        ensures
            r is Ok <==> is_hex_hash(text@),
            r is Ok ==> forall|i: int|
                0 <= i < 32 ==> r->Ok_0.hash@[i] == #[trigger] hex_byte(text@, i),
    {
        if text.len() != 64 {
            return Err(());
        }
        let mut hash: [u8; 32] = [0u8; 32];
        let mut i: usize = 0;
        while i < 32
            invariant
                i <= 32,
                text@.len() == 64,
                forall|j: int| 0 <= j < 2 * i ==> (#[trigger] hex_value(text@[j])) is Some,
                forall|j: int| 0 <= j < i ==> hash@[j] == #[trigger] hex_byte(text@, j),
            decreases 32 - i,
        {
            let high = match hex_digit_value(text[2 * i]) {
                Some(v) => v,
                None => {
                    return Err(());
                },
            };
            let low = match hex_digit_value(text[2 * i + 1]) {
                Some(v) => v,
                None => {
                    return Err(());
                },
            };
            hash[i] = high * 16 + low;
            i += 1;
        }
        Ok(TarHash { hash })
    }
}

/// Where the digits of each byte stand in the hexadecimal text.
pub proof fn lemma_hex_digits(bytes: Seq<u8>)
    ensures
        hex(bytes).len() == 2 * bytes.len(),
        forall|i: int|
            0 <= i < bytes.len() ==> hex(bytes)[2 * i] == hex_digit((#[trigger] bytes[i] / 16) as nat)
                && hex(bytes)[2 * i + 1] == hex_digit((bytes[i] % 16) as nat),
    decreases bytes.len(),
{
    if bytes.len() > 0 {
        let front = bytes.drop_last();
        lemma_hex_digits(front);
        assert forall|i: int| 0 <= i < bytes.len() implies hex(bytes)[2 * i] == hex_digit(
            (#[trigger] bytes[i] / 16) as nat,
        ) && hex(bytes)[2 * i + 1] == hex_digit((bytes[i] % 16) as nat) by {
            if i < front.len() {
                assert(front[i] == bytes[i]);
            }
        }
    }
}

/// A digit written by `hex_digit` is read back by `hex_value`.
pub proof fn lemma_hex_digit_value(n: nat)
    requires
        n < 16,
    ensures
        '\0' <= hex_digit(n) <= '\u{7f}',
        hex_value(hex_digit(n) as u8) == Some(n as u8),
{
}

/// Reading back: the text that `to_string` gives for a hash is read by
/// `from_str` as the same hash.
pub proof fn lemma_hex_round_trip(bytes: Seq<u8>)
    requires
        bytes.len() == 32,
    ensures
        is_hex_hash(vstd::utf8::encode_utf8(hex(bytes))),
        forall|i: int|
            0 <= i < 32 ==> #[trigger] hex_byte(vstd::utf8::encode_utf8(hex(bytes)), i)
                == bytes[i],
{
    let text = hex(bytes);
    let coded = vstd::utf8::encode_utf8(text);
    lemma_hex_digits(bytes);
    assert forall|j: int| 0 <= j < text.len() implies '\0' <= #[trigger] text[j] <= '\u{7f}' by {
        let i = j / 2;
        lemma_hex_digit_value((bytes[i] / 16) as nat);
        lemma_hex_digit_value((bytes[i] % 16) as nat);
        if j % 2 == 0 {
            assert(text[2 * i] == text[j]);
        } else {
            assert(text[2 * i + 1] == text[j]);
        }
    }
    vstd::utf8::is_ascii_chars_encode_utf8(text);
    assert forall|j: int| 0 <= j < 64 implies (#[trigger] hex_value(coded[j])) is Some by {
        let i = j / 2;
        lemma_hex_digit_value((bytes[i] / 16) as nat);
        lemma_hex_digit_value((bytes[i] % 16) as nat);
        assert(coded[j] == text[j] as u8);
        if j % 2 == 0 {
            assert(text[2 * i] == text[j]);
        } else {
            assert(text[2 * i + 1] == text[j]);
        }
    }
    assert forall|i: int| 0 <= i < 32 implies #[trigger] hex_byte(coded, i) == bytes[i] by {
        lemma_hex_digit_value((bytes[i] / 16) as nat);
        lemma_hex_digit_value((bytes[i] % 16) as nat);
        assert(coded[2 * i] == text[2 * i] as u8);
        assert(coded[2 * i + 1] == text[2 * i + 1] as u8);
    }
}

} // verus!
