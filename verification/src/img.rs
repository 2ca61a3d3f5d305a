//! The directory of an image archive: a table of fixed-size records that
//! says where in the archive each file lies.
//!
//! The archive itself is never touched here. The directory arrives as
//! bytes, and a lookup gives the byte range to read.

use crate::wire::{le_u32_at, read_le_u32, take_at, utf8_text};
use vstd::prelude::*;
use vstd::slice::slice_subrange;
use vstd::slice::slice_to_vec;
use vstd::utf8::{decode_utf8, valid_utf8};

verus! {

/// Bytes of one sector; offsets and sizes in the directory count sectors.
pub const SECTOR_SIZE: u64 = 2048;

/// Bytes of one directory record.
pub const DIR_ENTRY_LEN: usize = 32;

/// Bytes of the name field of a directory record.
pub const DIR_NAME_LEN: usize = 24;

/// `s` up to its first zero byte, or all of it if it has none.
pub open spec fn spec_until_nul(s: Seq<u8>) -> Seq<u8>
    decreases s.len(),
{
    if s.len() == 0 || s[0] == 0 {
        Seq::empty()
    } else {
        seq![s[0]] + spec_until_nul(s.drop_first())
    }
}

/// A prefix of `s` that holds no zero byte and ends at one, or at the end
/// of `s`, is what precedes the first zero byte of `s`.
pub proof fn lemma_until_nul_is(s: Seq<u8>, n: int)
    requires
        0 <= n <= s.len(),
        forall|j: int| 0 <= j < n ==> s[j] != 0,
        n < s.len() ==> s[n] == 0,
    ensures
        spec_until_nul(s) =~= s.take(n),
    decreases s.len(),
{
    if n > 0 {
        lemma_until_nul_is(s.drop_first(), n - 1);
    }
}

/// The bytes of a NUL-terminated field up to the terminator.
pub fn until_nul<'a>(field: &'a [u8]) -> (name: &'a [u8])
    ensures
        name@ == spec_until_nul(field@),
{
    let mut n: usize = 0;
    while n < field.len() && field[n] != 0
        invariant
            n <= field@.len(),
            forall|j: int| 0 <= j < n ==> field@[j] != 0,
        decreases field@.len() - n,
    {
        n = n + 1;
    }
    proof {
        lemma_until_nul_is(field@, n as int);
    }
    slice_subrange(field, 0, n)
}

/// One directory record: where a file lies, in sectors, and its name.
#[derive(Debug)]
pub struct DirEnt {
    /// The first sector of the file.
    pub offset: u32,
    /// The number of sectors of the file.
    pub size: u32,
    /// The name as stored, up to its terminator.
    pub name: Vec<u8>,
}

/// One directory record, as plain values.
pub struct DirEntModel {
    pub offset: u32,
    pub size: u32,
    pub name: Seq<u8>,
}

impl View for DirEnt {
    type V = DirEntModel;

    open spec fn view(&self) -> DirEntModel {
        DirEntModel { offset: self.offset, size: self.size, name: self.name@ }
    }
}

impl Clone for DirEnt {
    fn clone(&self) -> (copy: Self)
        ensures
            copy@ == self@,
    {
        let name: Vec<u8> = self.name.clone();
        assert(name@ =~= self.name@);
        DirEnt { offset: self.offset, size: self.size, name }
    }
}

impl DirEnt {
    /// The record stored at `at`: two words, then a name field that a
    /// zero byte ends.
    pub open spec fn spec_at(s: Seq<u8>, at: int) -> DirEntModel {
        DirEntModel {
            offset: le_u32_at(s, at),
            size: le_u32_at(s, at + 4),
            name: spec_until_nul(s.subrange(at + 8, at + 32)),
        }
    }

    /// Reads the record stored at offset `at`; nothing where the buffer
    /// ends before the record does.
    pub fn read_at(i: &[u8], at: usize) -> (r: Option<DirEnt>)
        ensures
            match r {
                Some(entry) => at + 32 <= i@.len() && entry@ == Self::spec_at(i@, at as int),
                None => at + 32 > i@.len(),
            },
    {
        if at > i.len() || i.len() - at < DIR_ENTRY_LEN {
            return None;
        }
        let offset: u32 = read_le_u32(i, at).ok()?;
        let size: u32 = read_le_u32(i, at + 4).ok()?;
        let field: &[u8] = take_at(i, at + 8, DIR_NAME_LEN)?;
        Some(DirEnt { offset, size, name: slice_to_vec(until_nul(field)) })
    }

    /// Where the file starts in the archive, in bytes.
    pub fn byte_offset(&self) -> (start: u64)
        ensures
            start == self.offset * SECTOR_SIZE,
    {
        (self.offset as u64) * SECTOR_SIZE
    }

    /// How many bytes of the archive the file takes.
    pub fn byte_len(&self) -> (len: u64)
        ensures
            len == self.size * SECTOR_SIZE,
    {
        (self.size as u64) * SECTOR_SIZE
    }
}

/// The records of a directory, in file order.
#[derive(Debug)]
pub struct DirList {
    pub entries: Vec<DirEnt>,
}

impl View for DirList {
    type V = Seq<DirEntModel>;

    open spec fn view(&self) -> Seq<DirEntModel> {
        Seq::new(self.entries@.len(), |k: int| self.entries@[k]@)
    }
}

impl DirList {
    /// The records that `s` holds: as many as fit whole. Bytes after the
    /// last whole record are not looked at.
    pub open spec fn spec_parse(s: Seq<u8>) -> Seq<DirEntModel> {
        Seq::new((s.len() / 32) as nat, |k: int| DirEnt::spec_at(s, 32 * k))
    }

    /// Decodes a directory. No input is refused: reading stops where the
    /// bytes end, and an unfinished record at the end is dropped.
    pub fn parse(i: &[u8]) -> (list: DirList)
        ensures
            list@ == Self::spec_parse(i@),
    {
        let len: usize = i.len();
        let mut entries: Vec<DirEnt> = Vec::new();
        let mut at: usize = 0;
        loop
            invariant
                at == 32 * entries@.len(),
                at <= i@.len() <= usize::MAX,
                forall|j: int|
                    0 <= j < entries@.len() ==> (#[trigger] entries@[j])@ == DirEnt::spec_at(
                        i@,
                        32 * j,
                    ),
            ensures
                entries@.len() == i@.len() / 32,
            decreases i@.len() - at,
        {
            match DirEnt::read_at(i, at) {
                Some(entry) => {
                    entries.push(entry);
                    at = at + DIR_ENTRY_LEN;
                },
                None => {
                    break ;
                },
            }
        }
        let list = DirList { entries };
        assert(list@ =~= Self::spec_parse(i@));
        list
    }
}

/// The lower-case form of an ASCII capital; any other character as it is.
pub open spec fn spec_ascii_lower_char(c: char) -> char {
    if 0x41 <= c as u32 <= 0x5A {
        ((c as u32) + 32) as char
    } else {
        c
    }
}

/// `s` with its ASCII capitals in lower case.
pub open spec fn spec_ascii_lowercase(s: Seq<char>) -> Seq<char> {
    Seq::new(s.len(), |k: int| spec_ascii_lower_char(s[k]))
}

/// `str::to_ascii_lowercase`. Not proved: the result is the text with
/// each of the letters `A` to `Z` replaced by its lower-case form and
/// every other character kept.
#[verifier::external_body]
fn str_to_ascii_lowercase(text: &str) -> (lower: String)
    ensures
        lower@ == spec_ascii_lowercase(text@),
{
    text.to_ascii_lowercase()
}

/// The key under which a file of the given stored name is found: the name
/// read as UTF-8, in ASCII lower case.
pub open spec fn spec_key(name: Seq<u8>) -> Seq<char> {
    spec_ascii_lowercase(decode_utf8(name))
}

/// The index that a directory makes: each record under the key of its
/// name, a later record taking the place of an earlier one with the same
/// key.
pub open spec fn spec_index(list: Seq<DirEntModel>) -> Map<Seq<char>, DirEntModel>
    decreases list.len(),
{
    if list.len() == 0 {
        Map::empty()
    } else {
        spec_index(list.drop_last()).insert(spec_key(list.last().name), list.last())
    }
}

/// Why a directory could not be indexed.
#[derive(Clone, Copy, Debug, PartialEq, Eq, Structural)]
pub enum ImgError {
    /// The name of a record is not UTF-8.
    NameNotUtf8,
}

/// A record together with the key it is found under.
#[derive(Debug)]
struct Indexed {
    key: String,
    entry: DirEnt,
}

/// The index of an archive: its directory, by lower-case file name.
#[derive(Debug)]
pub struct Img {
    entries: Vec<Indexed>,
}

impl Img {
    /// The index built from the first `n` records held.
    spec fn spec_fold(entries: Seq<Indexed>, n: int) -> Map<Seq<char>, DirEntModel>
        decreases n,
    {
        if n <= 0 {
            Map::empty()
        } else {
            Self::spec_fold(entries, n - 1).insert(entries[n - 1].key@, entries[n - 1].entry@)
        }
    }

    /// A key that none of the records from `m` to `n` has is found among
    /// the first `n` records exactly as among the first `m`.
    proof fn lemma_fold_skips(entries: Seq<Indexed>, m: int, n: int, key: Seq<char>)
        requires
            0 <= m <= n <= entries.len(),
            forall|j: int| m <= j < n ==> entries[j].key@ != key,
        ensures
            Self::spec_fold(entries, n).contains_key(key) == Self::spec_fold(
                entries,
                m,
            ).contains_key(key),
            Self::spec_fold(entries, n).contains_key(key) ==> Self::spec_fold(entries, n)[key]
                == Self::spec_fold(entries, m)[key],
        decreases n - m,
    {
        if m < n {
            Self::lemma_fold_skips(entries, m, n - 1, key);
        }
    }

    /// The index built over records whose keys are those of a directory
    /// is the index of that directory.
    proof fn lemma_fold_is_index(entries: Seq<Indexed>, list: Seq<DirEntModel>, n: int)
        requires
            0 <= n <= entries.len(),
            n <= list.len(),
            forall|j: int|
                0 <= j < n ==> entries[j].entry@ == list[j] && entries[j].key@ == spec_key(
                    list[j].name,
                ),
        ensures
            Self::spec_fold(entries, n) == spec_index(list.take(n)),
        decreases n,
    {
        if n > 0 {
            Self::lemma_fold_is_index(entries, list, n - 1);
            assert(list.take(n).drop_last() =~= list.take(n - 1));
        }
    }
}

impl View for Img {
    type V = Map<Seq<char>, DirEntModel>;

    closed spec fn view(&self) -> Map<Seq<char>, DirEntModel> {
        Self::spec_fold(self.entries@, self.entries@.len() as int)
    }
}

impl Img {
    /// Indexes the directory given as the bytes of a directory file.
    /// Every record must have a name that is UTF-8.
    pub fn from_v1(dir: &[u8]) -> (r: Result<Img, ImgError>)
        ensures
            match r {
                Ok(img) => img@ == spec_index(DirList::spec_parse(dir@)) && forall|k: int|
                    0 <= k < DirList::spec_parse(dir@).len() ==> valid_utf8(
                        #[trigger] DirList::spec_parse(dir@)[k].name,
                    ),
                Err(e) => e == ImgError::NameNotUtf8 && exists|k: int|
                    0 <= k < DirList::spec_parse(dir@).len() && !valid_utf8(
                        #[trigger] DirList::spec_parse(dir@)[k].name,
                    ),
            },
    {
        let list: DirList = DirList::parse(dir);
        let ghost models = list@;
        let mut records: Vec<DirEnt> = list.entries;
        let total: usize = records.len();
        let mut entries: Vec<Indexed> = Vec::with_capacity(total);
        let mut k: usize = 0;
        while k < total
            invariant
                k <= total,
                total == records@.len(),
                models.len() == total,
                models == DirList::spec_parse(dir@),
                forall|j: int| 0 <= j < total ==> (#[trigger] records@[j])@ == models[j],
                entries@.len() == k,
                forall|j: int| 0 <= j < k ==> valid_utf8(#[trigger] models[j].name),
                forall|j: int|
                    0 <= j < k ==> (#[trigger] entries@[j]).entry@ == models[j] && entries@[j].key@
                        == spec_key(models[j].name),
            decreases total - k,
        {
            let key: String = match utf8_text(records[k].name.as_slice()) {
                Some(text) => str_to_ascii_lowercase(text),
                None => {
                    assert(!valid_utf8(models[k as int].name));
                    return Err(ImgError::NameNotUtf8);
                },
            };
            let entry: DirEnt = records[k].clone();
            entries.push(Indexed { key, entry });
            k = k + 1;
        }
        let img = Img { entries };
        proof {
            Self::lemma_fold_is_index(img.entries@, models, total as int);
            assert(models.take(total as int) =~= models);
        }
        Ok(img)
    }

    /// The record found under exactly this key. Keys are lower case; a
    /// name with capitals in it finds nothing.
    pub fn get_entry(&self, name: &str) -> (r: Option<DirEnt>)
        ensures
            match r {
                Some(entry) => self@.contains_key(name@) && entry@ == self@[name@],
                None => !self@.contains_key(name@),
            },
    {
        let wanted: String = name.to_owned();
        let mut k: usize = self.entries.len();
        while k > 0
            invariant
                k <= self.entries@.len(),
                wanted@ == name@,
                forall|j: int| k <= j < self.entries@.len() ==> self.entries@[j].key@ != name@,
            decreases k,
        {
            if self.entries[k - 1].key == wanted {
                proof {
                    Self::lemma_fold_skips(
                        self.entries@,
                        k as int,
                        self.entries@.len() as int,
                        name@,
                    );
                }
                return Some(self.entries[k - 1].entry.clone());
            }
            k = k - 1;
        }
        proof {
            Self::lemma_fold_skips(self.entries@, 0, self.entries@.len() as int, name@);
        }
        None
    }

    /// Where in the archive the file of the given name lies: its first
    /// byte and its length in bytes. The name is looked up without regard
    /// to the case of ASCII letters.
    pub fn get_file_range(&self, name: &str) -> (r: Option<(u64, u64)>)
        ensures
            match r {
                Some((start, len)) => {
                    let key = spec_ascii_lowercase(name@);
                    &&& self@.contains_key(key)
                    &&& start == self@[key].offset * SECTOR_SIZE
                    &&& len == self@[key].size * SECTOR_SIZE
                },
                None => !self@.contains_key(spec_ascii_lowercase(name@)),
            },
    {
        let key: String = str_to_ascii_lowercase(name);
        match self.get_entry(key.as_str()) {
            Some(entry) => Some((entry.byte_offset(), entry.byte_len())),
            None => None,
        }
    }
}

} // verus!
