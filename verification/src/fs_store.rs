//! Objects related to [`FilesystemStore`] live here: the store's data directory, and the checks
//! and the listing rule that its reads, writes, removals and listings apply.

use vstd::prelude::*;
use vstd::string::StringExecFns;
use vstd::string::StringSliceAdditionalSpecFns;

use crate::encoding::{ascii_chars, ascii_string, decimal_digits, decimal_digits_of, is_decimal_digit, lemma_decimal_digits_are_digits};

use std::path::PathBuf;

verus! {

#[verifier::external_type_specification]
#[verifier::external_body]
pub struct ExPathBuf(PathBuf);

/// A clone of a path holds the same path.
pub assume_specification[ <PathBuf as Clone>::clone ](path: &PathBuf) -> (copy: PathBuf)
    ensures
        copy == *path,
;

/// A key-value store that writes to and reads from the file system, under a data directory:
/// the data of `key` in `namespace` is the file `<data_dir>/<namespace>/<key>`.
pub struct FilesystemStore {
    data_dir: PathBuf,
}

impl FilesystemStore {
    /// The directory the store keeps its data in.
    pub closed spec fn data_dir(&self) -> PathBuf {
        self.data_dir
    }

    /// Constructs a new [`FilesystemStore`].
    pub fn new(data_dir: PathBuf) -> (store: Self)
        ensures
            store.data_dir() == data_dir,
    {
        FilesystemStore { data_dir }
    }

    /// Returns the data directory.
    pub fn get_data_dir(&self) -> (dir: PathBuf)
        ensures
            dir == self.data_dir(),
    {
        self.data_dir.clone()
    }
}

/// Why a namespace and key were refused.
#[derive(Clone, Copy, Debug, PartialEq, Eq)]
pub enum KeyCheckError {
    /// The key is empty.
    EmptyKey,
    /// The namespace or the key holds a character that is not printable ASCII.
    InvalidCharacters,
}

/// Whether a character may stand in a namespace or a key: ASCII and not a control character.
pub open spec fn is_key_char(c: char) -> bool {
    ' ' <= c <= '~'
}

/// Whether every character may stand in a namespace or a key.
pub open spec fn all_key_chars(s: Seq<char>) -> bool {
    forall|i: int| 0 <= i < s.len() ==> #[trigger] is_key_char(s[i])
}

/// Whether every character of `s` is ASCII and not a control character.
pub fn has_only_key_chars(s: &str) -> (ok: bool)
    ensures
        ok == all_key_chars(s@),
{
    if !s.is_ascii() {
        proof {
            let i = choose|i: int| 0 <= i < s@.len() && !('\0' <= #[trigger] s@[i] <= '\u{7f}');
            assert(!is_key_char(s@[i]));
        }
        return false;
    }
    let bytes = s.as_bytes();
    proof {
        vstd::string::is_ascii_spec_bytes(s);
    }
    let mut i: usize = 0;
    while i < bytes.len()
        invariant
            i <= bytes@.len(),
            bytes@.len() == s@.len(),
            vstd::string::is_ascii(s),
            bytes@ == s.spec_bytes(),
            s.spec_bytes() =~= Seq::new(s@.len(), |j: int| s@[j] as u8),
            forall|j: int| 0 <= j < i ==> #[trigger] is_key_char(s@[j]),
        decreases bytes.len() - i,
    {
        let b = bytes[i];
        proof {
            assert(b == s@[i as int] as u8);
            assert('\0' <= s@[i as int] <= '\u{7f}');
        }
        if b < 0x20 || b > 0x7e {
            proof {
                assert(!is_key_char(s@[i as int]));
            }
            return false;
        }
        i += 1;
    }
    true
}

/// Checks a namespace and key before the store touches the file system: the key must not be
/// empty, and both must be printable ASCII.
pub fn check_namespace_and_key(namespace: &str, key: &str) -> (checked: Result<(), KeyCheckError>)
    ensures
        key@.len() == 0 ==> checked == Err::<(), KeyCheckError>(KeyCheckError::EmptyKey),
        key@.len() != 0 ==> (checked is Ok <==> (all_key_chars(namespace@) && all_key_chars(key@))),
        key@.len() != 0 && checked is Err ==> checked == Err::<(), KeyCheckError>(KeyCheckError::InvalidCharacters),
{
    if key.is_empty() {
        return Err(KeyCheckError::EmptyKey);
    }
    if !has_only_key_chars(namespace) || !has_only_key_chars(key) {
        return Err(KeyCheckError::InvalidCharacters);
    }
    Ok(())
}

/// The extension that a write gives its temporary file, in place of the destination's own, for
/// the given value of the store's write counter: the counter in decimal, then `.tmp`. The
/// temporary file of a write to `<stem>.<ext>` or `<stem>` is `<stem>.<counter>.tmp`.
pub open spec fn temp_file_extension_spec(counter: u64) -> Seq<char> {
    ascii_chars(decimal_digits(counter as nat)) + seq!['.', 't', 'm', 'p']
}

/// The extension that a write gives its temporary file.
pub fn temp_file_extension(counter: u64) -> (extension: String)
    ensures
        extension@ == temp_file_extension_spec(counter),
{
    let digits = decimal_digits_of(counter);
    proof {
        lemma_decimal_digits_are_digits(counter as nat);
        assert forall|i: int| 0 <= i < digits@.len() implies #[trigger] digits@[i] < 0x80 by {
            assert(is_decimal_digit(digits@[i]));
        }
    }
    let number = ascii_string(digits);
    let tmp = ".tmp";
    proof {
        reveal_strlit(".tmp");
    }
    let extension = number.concat(tmp);
    proof {
        assert(extension@ =~= temp_file_extension_spec(counter));
    }
    extension
}

/// Whether a character is an ASCII decimal digit.
pub open spec fn is_digit_char(c: char) -> bool {
    '0' <= c <= '9'
}

/// Whether a file name splits at `i` into a stem, a dot, one or more decimal digits, and
/// `.tmp`.
pub open spec fn temp_name_split(name: Seq<char>, i: int) -> bool {
    &&& 0 <= i
    &&& i + 6 <= name.len()
    &&& name[i] == '.'
    &&& name.subrange(name.len() - 4, name.len() as int) == seq!['.', 't', 'm', 'p']
    &&& forall|j: int| i < j < name.len() - 4 ==> #[trigger] is_digit_char(name[j])
}

/// Whether a file name is that of a write's temporary file: `<stem>.<counter>.tmp`.
pub open spec fn is_temp_file_name(name: Seq<char>) -> bool {
    exists|i: int| #[trigger] temp_name_split(name, i)
}

/// Whether a printable ASCII file name is that of a write's temporary file.
fn looks_like_temp_file(name: &str) -> (temp: bool)
    requires
        all_key_chars(name@),
    ensures
        temp == is_temp_file_name(name@),
{
    let bytes = name.as_bytes();
    let ghost c = name@;
    proof {
        assert(vstd::string::is_ascii(name)) by {
            assert forall|k: int| 0 <= k < c.len() implies '\0' <= #[trigger] c[k] <= '\u{7f}' by {
                assert(is_key_char(c[k]));
            }
        }
        vstd::string::is_ascii_spec_bytes(name);
        assert(bytes@ =~= Seq::new(c.len(), |k: int| c[k] as u8));
        assert forall|k: int| 0 <= k < c.len() implies {
            &&& (#[trigger] bytes@[k] == 0x2e) == (c[k] == '.')
            &&& (0x30 <= bytes@[k] <= 0x39) == is_digit_char(c[k])
            &&& (bytes@[k] == 0x74) == (c[k] == 't')
            &&& (bytes@[k] == 0x6d) == (c[k] == 'm')
            &&& (bytes@[k] == 0x70) == (c[k] == 'p')
        } by {
            assert(is_key_char(c[k]));
            assert(bytes@[k] == c[k] as u8);
        }
    }
    let n = bytes.len();
    if n < 6 || bytes[n - 4] != 0x2e || bytes[n - 3] != 0x74 || bytes[n - 2] != 0x6d || bytes[n - 1] != 0x70 {
        proof {
            if is_temp_file_name(c) {
                let i = choose|i: int| temp_name_split(c, i);
                let t = c.subrange(c.len() - 4, c.len() as int);
                assert(t[0] == c[n - 4] && t[1] == c[n - 3] && t[2] == c[n - 2] && t[3] == c[n - 1]);
                assert(bytes@[n - 4] == 0x2e);
            }
        }
        return false;
    }
    proof {
        assert(c.subrange(c.len() - 4, c.len() as int) =~= seq!['.', 't', 'm', 'p']);
    }
    let mut j: usize = n - 4;
    while j > 0 && 0x30 <= bytes[j - 1] && bytes[j - 1] <= 0x39
        invariant
            n == bytes@.len(),
            n == c.len(),
            n >= 6,
            j <= n - 4,
            c.subrange(c.len() - 4, c.len() as int) =~= seq!['.', 't', 'm', 'p'],
            forall|k: int| j <= k < n - 4 ==> #[trigger] is_digit_char(c[k]),
            forall|k: int| 0 <= k < c.len() ==> {
                &&& (#[trigger] bytes@[k] == 0x2e) == (c[k] == '.')
                &&& (0x30 <= bytes@[k] <= 0x39) == is_digit_char(c[k])
            },
        decreases j,
    {
        j -= 1;
    }
    let found = j > 0 && j < n - 4 && bytes[j - 1] == 0x2e;
    proof {
        if found {
            assert(temp_name_split(c, j - 1));
        } else if is_temp_file_name(c) {
            let i = choose|i: int| temp_name_split(c, i);
            if i < j - 1 {
                assert(is_digit_char(c[j - 1]));
            } else if i >= j as int && i < n - 4 {
                assert(is_digit_char(c[i]));
            } else if j as int == n - 4 {
                assert(i + 1 < n - 4);
                assert(is_digit_char(c[n - 5]));
                assert(0x30 <= bytes@[n - 5] <= 0x39);
            }
        }
    }
    found
}

/// What the listing of a namespace learned of one of its directory entries.
pub struct ListedEntry {
    /// Whether the entry is a regular file.
    pub is_file: bool,
    /// The entry's path relative to the namespace directory, if it is valid UTF-8.
    pub relative_path: Option<String>,
}

/// Whether a directory entry stands for a stored key: a regular file whose relative path is
/// printable ASCII and is not named as a write's temporary file (`<stem>.<counter>.tmp`).
pub open spec fn entry_is_listed(entry: ListedEntry) -> bool {
    &&& entry.is_file
    &&& entry.relative_path is Some
    &&& all_key_chars(entry.relative_path.unwrap()@)
    &&& !is_temp_file_name(entry.relative_path.unwrap()@)
}

/// A write's temporary file is never listed as a key: whatever the destination's stem, the
/// temporary file is named `<stem>.<counter>.tmp`.
pub proof fn lemma_temp_files_not_listed(entry: ListedEntry, stem: Seq<char>, counter: u64)
    requires
        entry.relative_path is Some,
        entry.relative_path.unwrap()@ == stem + seq!['.'] + temp_file_extension_spec(counter),
    ensures
        !entry_is_listed(entry),
{
    let name = stem + seq!['.'] + temp_file_extension_spec(counter);
    let d = decimal_digits(counter as nat);
    lemma_decimal_digits_are_digits(counter as nat);
    assert(name.subrange(name.len() - 4, name.len() as int) =~= seq!['.', 't', 'm', 'p']);
    assert forall|j: int| stem.len() < j < name.len() - 4 implies #[trigger] is_digit_char(name[j]) by {
        let k = j - stem.len() - 1;
        assert(is_decimal_digit(d[k]));
        assert(name[j] == d[k] as char);
    }
    assert(temp_name_split(name, stem.len() as int));
}

/// A stored key is listed whenever it is not named as a write's temporary file: a key such as
/// `a.tmp` is listed.
pub proof fn lemma_stored_keys_listed(entry: ListedEntry)
    requires
        entry.is_file,
        entry.relative_path is Some,
        all_key_chars(entry.relative_path.unwrap()@),
        !is_temp_file_name(entry.relative_path.unwrap()@),
    ensures
        entry_is_listed(entry),
{
}

/// The keys that the given directory entries stand for, in order.
pub open spec fn listed_keys(entries: Seq<ListedEntry>) -> Seq<Seq<char>>
    decreases entries.len(),
{
    if entries.len() == 0 {
        seq![]
    } else {
        let rest = listed_keys(entries.drop_last());
        if entry_is_listed(entries.last()) {
            rest.push(entries.last().relative_path.unwrap()@)
        } else {
            rest
        }
    }
}

/// The listing keeps exactly the entries that stand for stored keys, in order, each as its
/// relative path.
pub proof fn lemma_listed_keys_are_the_listed_entries(entries: Seq<ListedEntry>)
    ensures
        listed_keys(entries) == entries.filter(|e: ListedEntry| entry_is_listed(e)).map_values(
            |e: ListedEntry| e.relative_path.unwrap()@,
        ),
    decreases entries.len(),
{
    reveal(Seq::filter);
    let p = |e: ListedEntry| entry_is_listed(e);
    let m = |e: ListedEntry| e.relative_path.unwrap()@;
    if entries.len() > 0 {
        lemma_listed_keys_are_the_listed_entries(entries.drop_last());
        let rest = entries.drop_last().filter(p);
        if entry_is_listed(entries.last()) {
            assert(rest.push(entries.last()).map_values(m) =~= rest.map_values(m).push(entries.last().relative_path.unwrap()@));
        }
    } else {
        assert(entries.filter(p).map_values(m) =~= Seq::<Seq<char>>::empty());
    }
}

/// Selects, from the entries of a namespace directory, the keys that are stored there.
pub fn select_listed_keys(entries: &Vec<ListedEntry>) -> (keys: Vec<String>)
    ensures
        keys@.map_values(|k: String| k@) == listed_keys(entries@),
        keys@.map_values(|k: String| k@) == entries@.filter(|e: ListedEntry| entry_is_listed(e)).map_values(
            |e: ListedEntry| e.relative_path.unwrap()@,
        ),
{
    let mut keys: Vec<String> = Vec::new();
    let mut i: usize = 0;
    while i < entries.len()
        invariant
            i <= entries@.len(),
            keys@.map_values(|k: String| k@) =~= listed_keys(entries@.subrange(0, i as int)),
        decreases entries.len() - i,
    {
        let entry = &entries[i];
        proof {
            assert(entries@.subrange(0, i + 1).drop_last() =~= entries@.subrange(0, i as int));
        }
        if entry.is_file {
            match &entry.relative_path {
                Some(path) => {
                    if has_only_key_chars(path.as_str()) && !looks_like_temp_file(path.as_str()) {
                        keys.push(path.clone());
                    }
                },
                None => {},
            }
        }
        proof {
            assert(keys@.map_values(|k: String| k@) =~= listed_keys(entries@.subrange(0, i + 1)));
        }
        i += 1;
    }
    proof {
        assert(entries@.subrange(0, entries@.len() as int) =~= entries@);
        lemma_listed_keys_are_the_listed_entries(entries@);
    }
    keys
}

} // verus!
