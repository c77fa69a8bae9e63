use vstd::prelude::*;
use vstd::string::StringExecFns;
use vstd::string::StringSliceAdditionalSpecFns;
use vstd::string::StrSliceExecFns;
use crate::tar_hash::TarHash;
use crate::tar_hash::hex;

verus! {

/// How long an upload is kept: seven days, in seconds.
pub const SEVEN_DAYS: u64 = 604800;

/// What the server records about one upload.
#[derive(Clone, Debug)]
pub struct MetaData {
    pub owner: String,
    pub delete_at_unix: u64,
    pub created_at_unix: u64,
    pub allow_write: bool,
    pub allow_rewrite: bool,
    pub finished: bool,
}

impl MetaData {
    /// The record of an upload that `owner` starts at `now`: unfinished,
    /// closed to writers, kept for seven days.
    pub fn for_upload(owner: &str, now: u64) -> (m: Self)
        requires
            now + SEVEN_DAYS <= u64::MAX,
        ensures
            m.owner@ == owner@,
            m.created_at_unix == now,
            m.delete_at_unix == now + SEVEN_DAYS,
            !m.finished,
            !m.allow_write,
            !m.allow_rewrite,
    {
        MetaData {
            owner: owner.to_owned(),
            finished: false,
            created_at_unix: now,
            delete_at_unix: now + SEVEN_DAYS,
            allow_write: false,
            allow_rewrite: false,
        }
    }

    /// Whether the upload is due for removal at `now`.
    pub fn is_expired(&self, now: u64) -> (r: bool)
        ensures
            r == (self.delete_at_unix < now),
    {
        self.delete_at_unix < now
    }
}

/// `name` below the directory `dir`, as a path is joined on Unix: with one
/// separator between them unless `dir` is empty or ends in one.
pub open spec fn joined(dir: Seq<char>, name: Seq<char>) -> Seq<char> {
    if dir.len() == 0 || dir.last() == '/' {
        dir + name
    } else {
        dir.push('/') + name
    }
}

/// Where the records and the uploads are kept.
#[derive(Clone, Debug)]
pub struct MetaStore {
    pub path: String,
}

impl MetaStore {
    pub fn new(path: &str) -> (s: Self)
        ensures
            s.path@ == path@,
    {
        Self { path: path.to_owned() }
    }

    /// The file named by the hash and `suffix` in the store's directory.
    fn path_with_suffix(&self, id: &TarHash, suffix: &str) -> (p: String)
        ensures
            p@ == joined(self.path@, hex(id.hash@) + suffix@),
    {
        let mut p = self.path.clone();
        let n = self.path.as_str().unicode_len();
        if n > 0 && self.path.as_str().get_char(n - 1) != '/' {
            p.push('/');
        }
        let name = id.to_string();
        p.append(name.as_str());
        p.append(suffix);
        assert(p@ =~= joined(self.path@, hex(id.hash@) + suffix@));
        p
    }

    /// Where the upload with this hash is stored.
    pub fn file_path(&self, id: &TarHash) -> (p: String)
        ensures
            p@ == joined(self.path@, hex(id.hash@) + ".tar.age"@),
    {
        self.path_with_suffix(id, ".tar.age")
    }

    /// Where the record of the upload with this hash is stored.
    pub fn meta_path(&self, id: &TarHash) -> (p: String)
        ensures
            p@ == joined(self.path@, hex(id.hash@) + ".meta.json"@),
    {
        self.path_with_suffix(id, ".meta.json")
    }
}

/// The characters of ".meta.json", as bytes.
pub open spec fn meta_suffix() -> Seq<u8> {
    seq![46u8, 109u8, 101u8, 116u8, 97u8, 46u8, 106u8, 115u8, 111u8, 110u8]
}

/// Whether a file name is that of a record: 64 hexadecimal digits up to
/// its first dot, and ".meta.json" at its end.
pub open spec fn is_meta_file(name: Seq<u8>) -> bool {
    &&& name.len() >= 74
    &&& crate::tar_hash::is_hex_hash(name.take(64))
    &&& name[64] == 46
    &&& name.skip(name.len() - 10) == meta_suffix()
}

/// The hash of the upload whose record a file of this name holds, if it is
/// the name of a record.
pub fn meta_file_id(file_name: &str) -> (r: Option<TarHash>)
    ensures
        r is Some <==> is_meta_file(file_name.spec_bytes()),
        r is Some ==> forall|i: int|
            0 <= i < 32 ==> r->Some_0.hash@[i] == #[trigger] crate::tar_hash::hex_byte(
                file_name.spec_bytes().take(64),
                i,
            ),
{
    let name = file_name.as_bytes();
    let n = name.len();
    if n < 74 || name[64] != 46 {
        return None;
    }
    let suffix: [u8; 10] = [46, 109, 101, 116, 97, 46, 106, 115, 111, 110];
    let mut i: usize = 0;
    while i < 10
        invariant
            i <= 10,
            n == name@.len(),
            n >= 74,
            name@ == file_name.spec_bytes(),
            suffix@ == meta_suffix(),
            forall|j: int| 0 <= j < i ==> name@[n - 10 + j] == suffix@[j],
        decreases 10 - i,
    {
        if name[n - 10 + i] != suffix[i] {
            assert(name@.skip(n - 10)[i as int] != meta_suffix()[i as int]);
            return None;
        }
        i += 1;
    }
    assert(name@.skip(n - 10) =~= meta_suffix());
    assert(name@.take(64) =~= name@.subrange(0, 64));
    match TarHash::from_hex(vstd::slice::slice_subrange(name, 0, 64)) {
        Ok(id) => Some(id),
        Err(_) => None,
    }
}

} // verus!
