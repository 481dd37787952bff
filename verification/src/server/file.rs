//! Uploaded files: named by the hash of what they hold, and kept under the
//! workspace they belong to.

use crate::error::{law_owned_text_is_kept, lemma_literal_detail, AppError};
use crate::jwt::UserCliams;
use crate::text::{
    chars_before, chars_of, cut, cut_at, decimal, decimal_of, digit_char, find, find_last,
    first_at, free_of, i64_of, last_of, law_decimal_reads_back, lemma_ascii_offset,
    lemma_first_at, lemma_first_at_is, lemma_last_of, lemma_offset_grows, parse_i64,
};
use crate::types::RowID;
use vstd::prelude::*;

verus! {

/// The SHA-1 digest of a sequence of bytes.
pub uninterp spec fn sha1_of(data: Seq<u8>) -> Seq<u8>;

/// Hashes bytes with `Sha1::digest`. Trusted: the digest depends on the bytes
/// alone and is twenty bytes long.
#[verifier::external_body]
fn sha1_digest(data: &[u8]) -> (out: Vec<u8>)
    ensures
        out@ == sha1_of(data@),
        out@.len() == 20,
{
    <sha1::Sha1 as sha1::Digest>::digest(data).to_vec()
}

/// The character for a number below sixteen, in lower case.
pub open spec fn hex_digit(n: int) -> char {
    if n < 10 {
        digit_char(n)
    } else if n == 10 {
        'a'
    } else if n == 11 {
        'b'
    } else if n == 12 {
        'c'
    } else if n == 13 {
        'd'
    } else if n == 14 {
        'e'
    } else {
        'f'
    }
}

/// Bytes in hexadecimal: two characters for each byte, the high half first.
pub open spec fn hex_of(bytes: Seq<u8>) -> Seq<char> {
    Seq::new(
        2 * bytes.len(),
        |i: int|
            hex_digit(
                if i % 2 == 0 {
                    bytes[i / 2] as int / 16
                } else {
                    bytes[i / 2] as int % 16
                },
            ),
    )
}

/// Writes bytes in hexadecimal with `hex::encode`. Trusted: two lower-case
/// digits for each byte, the high half first.
#[verifier::external_body]
fn hex_encode(bytes: &[u8]) -> (out: String)
    ensures
        out@ == hex_of(bytes@),
{
    hex::encode(bytes)
}

/// Hexadecimal text is ASCII.
pub proof fn lemma_hex_is_ascii(bytes: Seq<u8>)
    ensures
        vstd::utf8::is_ascii_chars(hex_of(bytes)),
        hex_of(bytes).len() == 2 * bytes.len(),
{
}

/// An uploaded file.
#[derive(Debug, Clone)]
pub struct ChatFile {
    pub ws_id: RowID,
    pub ext: String,
    pub hash: String,
}

/// Mathematical form of a [`ChatFile`].
pub struct FileModel {
    pub ws_id: i64,
    pub ext: Seq<char>,
    pub hash: Seq<char>,
}

impl View for ChatFile {
    type V = FileModel;

    open spec fn view(&self) -> FileModel {
        FileModel { ws_id: self.ws_id, ext: self.ext@, hash: self.hash@ }
    }
}

/// The extension in a file name: what follows its last dot, or all of it if
/// it has none.
pub open spec fn extension_of(name: Seq<char>) -> Seq<char> {
    name.subrange(last_of(name, '.') + 1, name.len() as int)
}

impl FileModel {
    /// Whether the file can be given a place: its hash can be cut after its
    /// third and after its sixth byte, into two directory names and a file
    /// name. A hash of six or more ASCII characters can.
    pub open spec fn placed(self) -> bool {
        chars_before(self.hash, 3) is Some && chars_before(self.hash, 6) is Some
    }

    /// The number of characters in the first three bytes of the hash.
    pub open spec fn first_cut(self) -> int {
        chars_before(self.hash, 3).unwrap()
    }

    /// The number of characters in the first six bytes of the hash.
    pub open spec fn second_cut(self) -> int {
        chars_before(self.hash, 6).unwrap()
    }

    /// Where the file is kept, below the directory of all files: the
    /// workspace, the first three bytes of the hash, the next three, and the
    /// rest with the extension.
    pub open spec fn relative_path(self) -> Seq<char> {
        decimal_of(self.ws_id as int) + "/"@ + self.hash.subrange(0, self.first_cut()) + "/"@
            + self.hash.subrange(self.first_cut(), self.second_cut()) + "/"@ + self.hash.subrange(
            self.second_cut(),
            self.hash.len() as int,
        ) + "."@ + self.ext
    }

    /// The address under which the file is served.
    pub open spec fn url(self) -> Seq<char> {
        "/files/"@ + self.relative_path()
    }
}

/// A relative path below a base directory: the two with one `/` between them,
/// which an empty base does not get and a base that ends in one has already.
pub open spec fn joined(base: Seq<char>, relative: Seq<char>) -> Seq<char> {
    if base.len() == 0 {
        relative
    } else if base.last() == '/' {
        base + relative
    } else {
        base + "/"@ + relative
    }
}

/// What is wrong with the address of a file.
#[derive(Debug, Clone, Copy, PartialEq, Eq, Structural)]
pub enum UrlFault {
    /// Fewer than four parts between slashes.
    Format,
    /// The first part is no workspace identifier.
    Workspace,
}

/// The file that an address names: the workspace, then the hash in three
/// parts, of which the last may carry an extension after its first dot
/// (`txt` if it has none). Whatever follows a fourth slash is ignored.
pub open spec fn file_at(url: Seq<char>) -> Result<FileModel, UrlFault> {
    let first = first_at(url, '/', 0);
    let second = first_at(url, '/', first + 1);
    let third = first_at(url, '/', second + 1);
    let fourth = first_at(url, '/', third + 1);
    let dot = first_at(url, '.', third + 1);
    if third >= url.len() {
        Err(UrlFault::Format)
    } else {
        let name_end = if dot < fourth {
            dot
        } else {
            fourth
        };
        let ext = if dot < fourth {
            url.subrange(dot + 1, fourth)
        } else {
            "txt"@
        };
        match i64_of(url.subrange(0, first)) {
            Some(ws_id) => Ok(
                FileModel {
                    ws_id,
                    ext,
                    hash: url.subrange(first + 1, second) + url.subrange(second + 1, third)
                        + url.subrange(third + 1, name_end),
                },
            ),
            None => Err(UrlFault::Workspace),
        }
    }
}

/// The path of a file leads back to the file: reading it as an address gives
/// the workspace, the hash and the extension again. This holds of a file
/// that has a place, whose hash holds neither slash nor dot and whose
/// extension holds no slash.
pub proof fn law_path_leads_back(file: FileModel)
    requires
        file.placed(),
        free_of(file.hash, '/'),
        free_of(file.hash, '.'),
        free_of(file.ext, '/'),
    ensures
        file_at(file.relative_path()) matches Ok(found) && found.ws_id == file.ws_id && found.hash
            == file.hash && found.ext == file.ext,
{
    reveal_strlit("/");
    reveal_strlit(".");
    law_decimal_reads_back(file.ws_id);
    lemma_cuts_in_order(file);
    let id = decimal_of(file.ws_id as int);
    let hash = file.hash;
    let url = file.relative_path();
    let n = id.len() as int;
    let a = file.first_cut();
    let b = file.second_cut();
    let m = hash.len() as int;
    assert(url.len() == n + 1 + a + 1 + (b - a) + 1 + (m - b) + 1 + file.ext.len());
    assert forall|i: int| 0 <= i < url.len() implies #[trigger] url[i] == (if i < n {
        id[i]
    } else if i == n || i == n + 1 + a || i == n + 2 + b {
        '/'
    } else if i < n + 1 + a {
        hash[i - n - 1]
    } else if i < n + 2 + b {
        hash[i - n - 2]
    } else if i < n + 3 + m {
        hash[i - n - 3]
    } else if i == n + 3 + m {
        '.'
    } else {
        file.ext[i - n - 4 - m]
    }) by {}
    lemma_first_at_is(url, '/', 0, n);
    lemma_first_at_is(url, '/', n + 1, n + 1 + a);
    lemma_first_at_is(url, '/', n + 2 + a, n + 2 + b);
    lemma_first_at_is(url, '/', n + 3 + b, url.len() as int);
    lemma_first_at_is(url, '.', n + 3 + b, n + 3 + m);
    assert(url.subrange(0, n) == id);
    assert(url.subrange(n + 1, n + 1 + a) + url.subrange(n + 2 + a, n + 2 + b) + url.subrange(
        n + 3 + b,
        n + 3 + m,
    ) == hash);
    assert(url.subrange(n + 4 + m, url.len() as int) == file.ext);
}

/// The two cuts of a hash that has a place lie in the hash, the first before
/// the second.
pub proof fn lemma_cuts_in_order(file: FileModel)
    requires
        file.placed(),
    ensures
        0 < file.first_cut() < file.second_cut() <= file.hash.len(),
        cut_at(file.hash, 3, file.first_cut()),
        cut_at(file.hash, 6, file.second_cut()),
{
    let a = file.first_cut();
    let b = file.second_cut();
    if b <= a {
        if b < a {
            lemma_offset_grows(file.hash, b, a);
        }
    }
}

/// A hash of six or more ASCII characters has a place, and is cut after its
/// third and after its sixth character.
pub proof fn lemma_ascii_hash_is_placed(file: FileModel)
    requires
        file.hash.len() >= 6,
        vstd::utf8::is_ascii_chars(file.hash),
    ensures
        file.placed(),
        file.first_cut() == 3,
        file.second_cut() == 6,
{
    assert forall|i: int| 0 <= i < 6 implies (#[trigger] file.hash[i] as u32) < 0x80 by {
        assert('\0' <= file.hash[i] <= '\u{7f}');
    }
    lemma_ascii_offset(file.hash, 3);
    lemma_ascii_offset(file.hash, 6);
}

/// The file of an upload is found again by its path, whatever was uploaded,
/// if its name holds no slash: which is what is asked of a name.
pub proof fn law_upload_leads_back(ws_id: i64, name: Seq<char>, digest: Seq<u8>)
    requires
        free_of(name, '/'),
        digest.len() >= 3,
    ensures
        ({
            let file = FileModel { ws_id, ext: extension_of(name), hash: hex_of(digest) };
            file_at(file.relative_path()) matches Ok(found) && found.ws_id == ws_id && found.hash
                == file.hash && found.ext == file.ext
        }),
{
    let file = FileModel { ws_id, ext: extension_of(name), hash: hex_of(digest) };
    lemma_hex_is_ascii(digest);
    lemma_ascii_hash_is_placed(file);
    lemma_last_of(name, '.');
    law_path_leads_back(file);
}

/// What reading an address gave, in mathematical form.
pub open spec fn located(out: Result<ChatFile, AppError>) -> Result<FileModel, UrlFault> {
    match out {
        Ok(file) => Ok(file@),
        Err(e) => if e is InvalidInput {
            Err(UrlFault::Format)
        } else {
            Err(UrlFault::Workspace)
        },
    }
}

/// Copies the characters from `from` up to `to` into a string.
fn slice(text: &str, from: usize, to: usize) -> (out: String)
    requires
        from <= to <= text@.len(),
    ensures
        out@ == text@.subrange(from as int, to as int),
{
    String::from_str(text.substring_char(from, to))
}

impl ChatFile {
    /// The file for what was uploaded under a name into a workspace.
    pub fn new(ws_id: RowID, filename: &str, data: &[u8]) -> (file: ChatFile)
        ensures
            file@.ws_id == ws_id,
            file@.ext == extension_of(filename@),
            file@.hash == hex_of(sha1_of(data@)),
            file@.hash.len() == 40,
            file@.placed(),
            file@.first_cut() == 3,
            file@.second_cut() == 6,
    {
        let digest = sha1_digest(data);
        let hash = hex_encode(digest.as_slice());
        proof {
            lemma_hex_is_ascii(digest@);
            lemma_ascii_hash_is_placed(
                FileModel { ws_id, ext: extension_of(filename@), hash: hash@ },
            );
        }
        let chars = chars_of(filename);
        let n = chars.len();
        let from: usize = match find_last(&chars, '.') {
            Some(at) => at + 1,
            None => 0,
        };
        ChatFile { ws_id, ext: slice(filename, from, n), hash }
    }

    /// Whether the file can be given a place.
    pub fn is_placed(&self) -> (yes: bool)
        ensures
            yes == self@.placed(),
    {
        let chars = chars_of(self.hash.as_str());
        cut(&chars, 3).is_some() && cut(&chars, 6).is_some()
    }

    /// Where the file is kept, below the directory of all files.
    pub fn hash_to_path(&self) -> (path: String)
        requires
            self@.placed(),
        ensures
            path@ == self@.relative_path(),
    {
        proof {
            lemma_cuts_in_order(self@);
        }
        let hash = self.hash.as_str();
        let chars = chars_of(hash);
        let n = chars.len();
        let first = match cut(&chars, 3) {
            Some(k) => k,
            None => 0,
        };
        let second = match cut(&chars, 6) {
            Some(k) => k,
            None => n,
        };
        let mut path = decimal(self.ws_id);
        path.append("/");
        path.append(hash.substring_char(0, first));
        path.append("/");
        path.append(hash.substring_char(first, second));
        path.append("/");
        path.append(hash.substring_char(second, n));
        path.append(".");
        path.append(self.ext.as_str());
        path
    }

    /// The address under which the file is served.
    pub fn url(&self) -> (url: String)
        requires
            self@.placed(),
        ensures
            url@ == self@.url(),
    {
        let mut url = String::from_str("/files/");
        url.append(self.hash_to_path().as_str());
        url
    }

    /// Where the file is kept, below `base_dir`.
    pub fn path(&self, base_dir: &str) -> (path: String)
        requires
            self@.placed(),
        ensures
            path@ == joined(base_dir@, self@.relative_path()),
    {
        proof {
            reveal_strlit("/");
        }
        let relative = self.hash_to_path();
        let base = chars_of(base_dir);
        if base.len() == 0 {
            relative
        } else {
            let mut path = String::from_str(base_dir);
            if base[base.len() - 1] != '/' {
                path.append("/");
            }
            path.append(relative.as_str());
            path
        }
    }

    /// Reads the file that an address names.
    ///
    /// An address of fewer than four parts is refused as invalid input. One
    /// whose first part is no workspace identifier is refused as an internal
    /// error.
    pub fn from_url(url: &str) -> (out: Result<ChatFile, AppError>)
        ensures
            located(out) == file_at(url@),
            out matches Err(e) ==> (e is InvalidInput || e is Internal),
            out matches Err(e) ==> e.detail()@ == if e is InvalidInput {
                "invalid file url format"@
            } else {
                "invalid workspace id in file url"@
            },
    {
        let chars = chars_of(url);
        let n = chars.len();
        let first = find(&chars, '/', 0);
        let second = if first < n {
            find(&chars, '/', first + 1)
        } else {
            n
        };
        let third = if second < n {
            find(&chars, '/', second + 1)
        } else {
            n
        };
        proof {
            lemma_first_at(url@, '/', 0);
            if first < n {
                lemma_first_at(url@, '/', first + 1);
            }
            if second < n {
                lemma_first_at(url@, '/', second + 1);
            }
        }
        if third >= n {
            let e = AppError::invalid_input("invalid file url format");
            proof {
                lemma_literal_detail("invalid file url format", e.detail());
            }
            return Err(e);
        }
        let fourth = find(&chars, '/', third + 1);
        let dot = find(&chars, '.', third + 1);
        proof {
            lemma_first_at(url@, '/', third + 1);
            lemma_first_at(url@, '.', third + 1);
        }
        let mut id: Vec<char> = Vec::new();
        let mut i: usize = 0;
        while i < first
            invariant
                0 <= i <= first <= n,
                n == chars@.len(),
                id@ == chars@.subrange(0, i as int),
            decreases first - i,
        {
            id.push(chars[i]);
            assert(id@ =~= chars@.subrange(0, i + 1));
            i += 1;
        }
        let ws_id = match parse_i64(&id) {
            Some(ws_id) => ws_id,
            None => {
                let e = AppError::any("invalid workspace id in file url");
                proof {
                    lemma_literal_detail("invalid workspace id in file url", e.detail());
                }
                return Err(e);
            },
        };
        let mut hash = slice(url, first + 1, second);
        hash.append(slice(url, second + 1, third).as_str());
        let ext = if dot < fourth {
            hash.append(slice(url, third + 1, dot).as_str());
            slice(url, dot + 1, fourth)
        } else {
            hash.append(slice(url, third + 1, fourth).as_str());
            String::from_str("txt")
        };
        Ok(ChatFile { ws_id, ext, hash })
    }

    /// Whether a name can be that of an uploaded file: it is not empty and
    /// holds no slash.
    pub fn accepts_name(filename: &str) -> (yes: bool)
        ensures
            yes == (filename@.len() > 0 && !filename@.contains('/')),
    {
        let chars = chars_of(filename);
        let at = find(&chars, '/', 0);
        proof {
            lemma_first_at(filename@, '/', 0);
            if at < chars@.len() {
                assert(filename@[at as int] == '/');
            }
        }
        chars.len() > 0 && at == chars.len()
    }

    /// The error for a file that could not be read: not found if the file
    /// system says that it is missing, internal with the reason otherwise.
    pub fn read_error(missing: bool, reason: String) -> (e: AppError)
        ensures
            missing ==> e is NotFound && e.detail()@ == "file not found"@,
            !missing ==> e is Internal && e.detail()@ == reason@,
    {
        if missing {
            let e = AppError::not_found("file not found");
            proof {
                lemma_literal_detail("file not found", e.detail());
            }
            e
        } else {
            let e = AppError::any(reason);
            proof {
                law_owned_text_is_kept(reason, e.detail());
            }
            e
        }
    }

    /// Whether the file can be handed to a user: it belongs to the workspace
    /// of the user. To anybody else the file is not there.
    pub fn check_workspace(&self, user: &UserCliams) -> (out: Result<(), AppError>)
        ensures
            out is Ok <==> self.ws_id == user.ws_id,
            out matches Err(e) ==> e is NotFound && e.detail()@ == "file not found"@,
    {
        if self.ws_id != user.ws_id {
            let e = AppError::not_found("file not found");
            proof {
                lemma_literal_detail("file not found", e.detail());
            }
            Err(e)
        } else {
            Ok(())
        }
    }
}

} // verus!
